use install_core::cpu::{
    cpu_check, cpu_detect, describe_cpu, read_vendor_id, set_cores, setup_cpu, CpuError,
};
use install_core::plan::{Action, Outcome, Plan};
use install_core::virt::{
    detect_virt, hyperv_candidates, is_hyperv_guest, mentions_hyperv, setup_virt, virt_check,
};

fn edits(plan: &Plan) -> Vec<(&str, &str, &str, &str)> {
    plan.steps
        .iter()
        .map(|step| match (&step.action, &step.outcome) {
            (Action::SedFile { path, find, replace }, Outcome::Report { label }) => {
                (path.as_str(), find.as_str(), replace.as_str(), label.as_str())
            }
            other => panic!("{other:?}"),
        })
        .collect()
}

const GUEST: &str = "/mnt/etc/nixos/modules/hardware/virtualization/guest.nix";
const HARDWARE: &str = "/mnt/etc/nixos/modules/hardware/default.nix";
const MAKEPKG: &str = "/mnt/etc/makepkg.conf";

#[test]
fn vendor_is_read_from_its_line() {
    let text = "Architecture: x86_64\nVendor ID:                GenuineIntel\n  Model name: x\n";
    assert_eq!(read_vendor_id(text), Some("GenuineIntel"));
    assert_eq!(cpu_detect(text.as_bytes()).as_deref(), Ok("GenuineIntel"));
    assert_eq!(read_vendor_id("Vendor ID: a:b\nVendor ID: c"), Some("a"));
    assert_eq!(read_vendor_id("Vendor ID:"), Some(""));
    assert_eq!(read_vendor_id(" Vendor ID: x"), None);
}

#[test]
fn unknown_vendor_is_an_error() {
    assert_eq!(cpu_detect(b"Architecture: x86_64\n"), Err(CpuError::NoVendorId));
    assert_eq!(cpu_detect(b""), Err(CpuError::NoVendorId));
    assert_eq!(cpu_detect(b"Vendor ID: \xff"), Err(CpuError::NotUtf8));
    assert_eq!(cpu_check(b"\xc3", true, false).err(), Some(CpuError::NotUtf8));
    assert_eq!(cpu_check(b"x", true, false).err(), Some(CpuError::NoVendorId));
}

#[test]
fn processors_get_their_microcode() {
    let intel = setup_cpu("GenuineIntel", true, false);
    assert_eq!(intel.packages, vec!["intel-ucode", "intel-compute-runtime"]);
    assert!(intel.plan.steps.is_empty());
    let amd = setup_cpu("AuthenticAMD", true, false);
    assert_eq!(amd.packages, vec!["amd-ucode"]);
    let intel = setup_cpu("GenuineIntel", false, true);
    assert!(intel.packages.is_empty());
    assert_eq!(
        edits(&intel.plan),
        vec![(
            HARDWARE,
            "cpu.intel.updateMicrocode =.*",
            "cpu.intel.updateMicrocode = true;",
            "Enable Intel ucode"
        )]
    );
    let amd = cpu_check(b"Vendor ID: AuthenticAMD\n", false, true).unwrap();
    assert_eq!(
        edits(&amd.plan),
        vec![(
            HARDWARE,
            "cpu.intel.updateMicrocode =.*",
            "cpu.amd.updateMicrocode = true;",
            "Enable AMD ucode"
        )]
    );
}

#[test]
fn other_processors_and_systems_get_nothing() {
    for (vendor, arch, nix) in
        [("ARM", true, false), ("ARM", false, true), ("GenuineIntel", false, false)]
    {
        let setup = setup_cpu(vendor, arch, nix);
        assert!(setup.packages.is_empty() && setup.plan.steps.is_empty());
    }
}

#[test]
fn one_core_changes_nothing() {
    assert!(set_cores(0).steps.is_empty());
    assert!(set_cores(1).steps.is_empty());
}

#[test]
fn cores_are_put_to_use() {
    assert_eq!(
        edits(&set_cores(16)),
        vec![
            (
                MAKEPKG,
                "#MAKEFLAGS=.*",
                "MAKEFLAGS=\"-j16\"",
                "Set available cores on MAKEFLAGS"
            ),
            (MAKEPKG, "#BUILDDIR=.*", "BUILDDIR=/tmp/makepkg", "Improving compilation times"),
            (
                MAKEPKG,
                "COMPRESSXZ=\\(xz -c -z -\\)",
                "COMPRESSXZ=(xz -c -z - --threads=0)",
                "Changing the compression settings"
            ),
            (
                MAKEPKG,
                "COMPRESSZST=\\(zstd -c -z -q -\\)",
                "COMPRESSZST=(zstd -c -z -q - --threads=0)",
                "Changing the compression settings"
            ),
            (
                MAKEPKG,
                "PKGEXT='.pkg.tar.xz'",
                "PKGEXT='.pkg.tar.zst'",
                "Changing the compression settings"
            ),
        ]
    );
}

#[test]
fn virtualbox_guest() {
    let setup = virt_check(b"oracle\n", true, false);
    assert_eq!(setup.packages, vec!["virtualbox-guest-utils"]);
    assert_eq!(setup.services, vec!["vboxservice"]);
    assert!(setup.set_params.is_empty() && setup.plan.steps.is_empty());
    let setup = virt_check(b"oracle\n", false, true);
    assert!(setup.packages.is_empty() && setup.services.is_empty());
    assert_eq!(
        edits(&setup.plan),
        vec![(
            GUEST,
            "virtualbox.guest.enable =.*",
            "virtualbox.guest.enable = lib.mkDefault true;",
            "Enable virtualbox guest additions"
        )]
    );
}

#[test]
fn vmware_guest() {
    let setup = setup_virt("vmware", true, false);
    assert_eq!(setup.packages, vec!["open-vm-tools"]);
    assert_eq!(setup.services, vec!["vmware-vmblock-fuse", "vmtoolsd"]);
    assert_eq!(setup.set_params.len(), 1);
    assert_eq!(setup.set_params[0].0, "Set vmware modules");
    assert_eq!(
        setup.set_params[0].1,
        vec![
            "-i",
            "-e",
            r"/^MODULES=()/ s/()/(vsock vmw_vsock_vmci_transport vmw_balloon vmw_vmci vmwgfx)/",
            "-e",
            r"/^MODULES=([^)]*)/ { /vsock vmw_vsock_vmci_transport vmw_balloon vmw_vmci vmwgfx/! s/)/ vsock vmw_vsock_vmci_transport vmw_balloon vmw_vmci vmwgfx)/ }",
            "/mnt/etc/mkinitcpio.conf",
        ]
    );
    let setup = setup_virt("vmware", false, true);
    assert_eq!(edits(&setup.plan)[0].2, "vmware.guest.enable = lib.mkDefault true;");
    assert!(setup.set_params.is_empty());
}

#[test]
fn qemu_and_kvm_guests() {
    for kind in ["qemu", "kvm"] {
        for arch in [true, false] {
            let setup = setup_virt(kind, arch, false);
            assert_eq!(setup.packages, vec!["qemu-guest-agent", "spice-vdagent"]);
            assert_eq!(setup.services, vec!["qemu-guest-agent"]);
        }
        let setup = setup_virt(kind, false, true);
        assert_eq!(
            edits(&setup.plan),
            vec![
                (
                    GUEST,
                    "spice-vdagentd.enable =.*",
                    "spice-vdagentd.enable = lib.mkDefault true;",
                    "Enable spice vdagent"
                ),
                (
                    GUEST,
                    "qemuGuest.enable =.*",
                    "qemuGuest.enable = lib.mkDefault true;",
                    "Enable qemu guest additions"
                ),
            ]
        );
    }
}

#[test]
fn hyperv_guest() {
    let setup = setup_virt("microsoft", true, false);
    assert_eq!(setup.packages, vec!["hyperv", "xf86-video-fbdev"]);
    assert_eq!(setup.services, vec!["hv_fcopy_uio_daemon", "hv_kvp_daemon", "hv_vss_daemon"]);
    assert_eq!(setup.plan.steps.len(), 2);
    match (&setup.plan.steps[0].action, &setup.plan.steps[0].outcome) {
        (Action::CreateDirectories { path }, Outcome::Panic { message }) => {
            assert_eq!(path, "/mnt/etc/systemd/system");
            assert_eq!(message, "Failed to create /mnt/etc/systemd/system");
        }
        other => panic!("{other:?}"),
    }
    match (&setup.plan.steps[1].action, &setup.plan.steps[1].outcome) {
        (Action::WriteFile { path, contents }, Outcome::Panic { message }) => {
            assert_eq!(path, "/mnt/etc/systemd/system/hv_fcopy_uio_daemon.service");
            assert_eq!(
                message,
                "Failed to write /mnt/etc/systemd/system/hv_fcopy_uio_daemon.service"
            );
            let lines: Vec<&str> = contents.lines().map(|line| line.trim()).collect();
            assert_eq!(
                lines,
                vec![
                    "[Unit]",
                    "Description=Hyper-V file copy service (uio_hv_generic)",
                    "ConditionPathExists=/dev/vmbus/uio_hv_generic",
                    "",
                    "[Service]",
                    "ExecStart=/usr/bin/hv_fcopy_uio_daemon -n",
                    "",
                    "[Install]",
                    "WantedBy=multi-user.target",
                ]
            );
            assert_eq!(contents.lines().nth(3), Some("                    "));
            assert_eq!(contents.lines().nth(6), Some("                    "));
            assert!(contents.ends_with("target\n"));
        }
        other => panic!("{other:?}"),
    }
    let setup = setup_virt("microsoft", false, true);
    assert_eq!(
        edits(&setup.plan),
        vec![(
            GUEST,
            "hypervGuest.enable =.*",
            "hypervGuest.enable = lib.mkDefault true;",
            "Enable kvm guest additions"
        )]
    );
}

#[test]
fn bare_metal_and_unknown_kinds_need_nothing() {
    for stdout in [&b"none\n"[..], b"", b"xen\n", b"Oracle\n", b"\xffqemu"] {
        for (arch, nix) in [(true, false), (false, true), (false, false)] {
            let setup = virt_check(stdout, arch, nix);
            assert!(setup.packages.is_empty() && setup.services.is_empty());
            assert!(setup.set_params.is_empty() && setup.plan.steps.is_empty());
        }
    }
}

#[test]
fn vms_of_arch_do_not_come_elsewhere() {
    for kind in ["oracle", "vmware"] {
        let setup = setup_virt(kind, false, false);
        assert!(setup.packages.is_empty() && setup.plan.steps.is_empty());
    }
}

#[test]
fn padding_of_the_kind_is_ignored() {
    assert_eq!(virt_check(b" \t kvm\r\n\n", true, false).services, vec!["qemu-guest-agent"]);
}

#[test]
fn hyperv_is_recognised_in_any_case() {
    let one = |text: &str| is_hyperv_guest(&vec![None, Some(text.to_string())]);
    assert!(one("Microsoft Corporation\n"));
    assert!(one("MICROSOFT"));
    assert!(one("a Hyper-V b"));
    assert!(one("HyperV"));
    assert!(one("\u{c4}\u{d6} HYPERV \u{130}"));
    assert!(!one("QEMU"));
    assert!(!one("hyper v"));
    assert!(mentions_hyperv("microsoft"));
    assert!(!mentions_hyperv("Microsoft"));
}

#[test]
fn one_entry_is_enough() {
    let entry = |text: &str| Some(text.to_string());
    assert!(!is_hyperv_guest(&vec![]));
    assert!(!is_hyperv_guest(&vec![None, None]));
    assert!(is_hyperv_guest(&vec![entry("QEMU"), None, entry("Microsoft"), entry("x")]));
    assert!(!is_hyperv_guest(&vec![entry("micro"), entry("soft")]));
}

#[test]
fn dmi_entries_are_looked_at_in_order() {
    assert_eq!(
        hyperv_candidates(),
        vec![
            "/sys/devices/virtual/dmi/id/sys_vendor",
            "/sys/devices/virtual/dmi/id/product_name",
            "/sys/class/dmi/id/sys_vendor",
            "/sys/class/dmi/id/product_name",
        ]
    );
}

#[test]
fn programs_that_are_asked() {
    for (action, wanted) in [(describe_cpu(), "lscpu"), (detect_virt(), "systemd-detect-virt")] {
        match action {
            Action::Capture { program, args } => {
                assert_eq!(program, wanted);
                assert!(args.is_empty());
            }
            _ => panic!("not a capture"),
        }
    }
}
