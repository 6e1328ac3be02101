use install_core::gpu::{configure_gpus, gpu_check, gpu_check_nix, packages_for};
use install_core::pci::devices_in_listing;
use install_core::plan::{Action, Outcome, Plan};

const INTEL: &str = "0000:00:02.0 VGA compatible controller [0300]: Intel UHD [8086:9bc4]\n";
const AMD: &str = "0000:05:00.0 VGA [0300]: Advanced Micro Devices, Inc. [AMD/ATI] Renoir [1002:1636]\n";
const ATI: &str = "0000:06:00.0 VGA [0300]: ATI Technologies Inc RV370 [1002:5b60]\n";
const TURING: &str = "0000:01:00.0 3D controller [0302]: NVIDIA TU106M [10de:1f15]\n";
const KEPLER: &str = "0000:02:00.0 VGA [0300]: NVIDIA GK208B [10de:1287]\n";
const FERMI: &str = "0000:02:00.0 VGA [0300]: NVIDIA GF119 [10de:1040]\n";
const TESLA: &str = "0000:02:00.0 VGA [0300]: NVIDIA GT218 [10de:0a65]\n";
const MAXWELL: &str = "0000:02:00.0 VGA [0300]: NVIDIA GM204 [10de:13c2]\n";
const AMPERE: &str = "0000:02:00.0 VGA [0300]: NVIDIA GA104 [10de:2484]\n";
const NIC: &str = "0000:00:1f.6 Ethernet controller [0200]: Intel I219 [8086:15fb]\n";

fn packages(parts: &[&str], kernel: &str) -> Vec<&'static str> {
    packages_for(&devices_in_listing(&parts.concat()), kernel)
}

fn edits(plan: &Plan) -> Vec<(String, String, String)> {
    plan.steps
        .iter()
        .map(|step| match (&step.action, &step.outcome) {
            (Action::SedFile { path, find, replace }, Outcome::Report { label }) => {
                assert_eq!(path, "/mnt/etc/nixos/modules/hardware/graphics/default.nix");
                (find.clone(), replace.clone(), label.clone())
            }
            other => panic!("{other:?}"),
        })
        .collect()
}

#[test]
fn no_device_needs_no_package() {
    assert!(packages(&[], "linux").is_empty());
    assert!(packages(&[INTEL, NIC], "linux").is_empty());
    assert!(gpu_check(None, "linux").is_empty());
}

#[test]
fn amd_devices_get_amd_packages() {
    assert_eq!(packages(&[AMD], "linux"), vec!["xf86-video-amdgpu", "opencl-amd"]);
    assert_eq!(packages(&[ATI], "linux"), vec!["opencl-mesa"]);
    assert_eq!(
        packages(&[ATI, AMD], "linux"),
        vec!["xf86-video-amdgpu", "opencl-amd", "opencl-mesa"]
    );
}

#[test]
fn families_get_their_drivers() {
    let extras = ["opencl-nvidia", "gwe", "nvtop"];
    let expect = |line: &str, kernel: &str, driver: &str, settings: &str| {
        let mut wanted = vec![driver, settings];
        wanted.extend(extras);
        assert_eq!(packages(&[line], kernel), wanted);
    };
    for line in [TURING, MAXWELL] {
        expect(line, "linux", "nvidia-open", "nvidia-settings");
        expect(line, "linux-lts", "nvidia-open-lts", "nvidia-settings");
        expect(line, "linux-zen", "nvidia-open-dkms", "nvidia-settings");
    }
    for kernel in ["linux", "linux-lts", ""] {
        expect(KEPLER, kernel, "nvidia-470xx-dkms", "nvidia-470xx-settings");
        expect(FERMI, kernel, "nvidia-390xx-dkms", "nvidia-390xx-settings");
        expect(AMPERE, kernel, "nvidia-open-dkms", "nvidia-settings");
    }
    expect(TESLA, "linux", "nvidia-340xx", "nvidia-340xx-settings");
    expect(TESLA, "linux-lts", "nvidia-340xx-lts", "nvidia-340xx-settings");
    expect(TESLA, "linux-hardened", "nvidia-340xx-lts-dkms", "nvidia-340xx-settings");
}

#[test]
fn several_families_get_all_their_drivers() {
    assert_eq!(
        packages(&[KEPLER, TURING, TESLA], "linux"),
        vec![
            "nvidia-open", "nvidia-settings", "nvidia-470xx-dkms", "nvidia-470xx-settings",
            "nvidia-340xx", "nvidia-340xx-settings", "opencl-nvidia", "gwe", "nvtop",
        ]
    );
}

#[test]
fn chips_of_other_vendors_name_no_family() {
    let odd = "0000:00:02.0 VGA [0300]: TU106 lookalike [8086:9bc4]\n";
    assert!(packages(&[odd], "linux").is_empty());
    assert_eq!(packages(&[odd, AMPERE], "linux")[0], "nvidia-open-dkms");
}

#[test]
fn hybrids_get_the_switch() {
    let hybrid = |parts: &[&str]| packages(parts, "linux").contains(&"envycontrol");
    assert!(hybrid(&[INTEL, TURING]));
    assert!(hybrid(&[TURING, AMD]));
    assert!(!hybrid(&[TURING]));
    assert!(!hybrid(&[INTEL, AMD]));
    assert!(!hybrid(&[TURING, NIC]));
}

#[test]
fn packages_come_from_the_raw_listing() {
    let listing = [NIC, INTEL, TURING].concat();
    assert_eq!(
        gpu_check(Some(listing.as_bytes()), "linux-lts"),
        vec!["nvidia-open-lts", "nvidia-settings", "opencl-nvidia", "gwe", "nvtop", "envycontrol"]
    );
}

#[test]
fn nix_leaves_machines_without_nvidia_alone() {
    assert!(configure_gpus(&devices_in_listing(INTEL), true).steps.is_empty());
    assert!(gpu_check_nix(None, true).steps.is_empty());
    assert!(gpu_check_nix(Some(TURING.as_bytes()), false).steps.is_empty());
}

#[test]
fn nix_configures_a_single_nvidia_device() {
    let plan = edits(&gpu_check_nix(Some(TURING.as_bytes()), true));
    let wanted = [
        ("modesetting.enable =.*", "modesetting.enable = true;", "Enable NVIDIA modesetting"),
        (
            "powerManagement.enable =.*",
            "powerManagement.enable = true;",
            "Enable NVIDIA power management",
        ),
        (r"\bopen\s*=.*", "open = true;", "Enable NVIDIA open kernel modules"),
        ("nvidiaSettings =.*", "nvidiaSettings = true;", "Enable nvidia-settings menu"),
        (
            r"#\s*package = config\.boot\.kernelPackages\.nvidiaPackages\.stable;",
            "package = config.boot.kernelPackages.nvidiaPackages.stable;",
            "Uncomment NVIDIA driver package",
        ),
        (
            r#"#\s*services\.xserver\.videoDrivers = \[ "modesetting" "nvidia" \];"#,
            r#"services.xserver.videoDrivers = [ "modesetting" "nvidia" ];"#,
            "Uncomment NVIDIA video drivers",
        ),
    ];
    assert_eq!(plan.len(), 6);
    for (found, (find, replace, label)) in plan.iter().zip(wanted) {
        assert_eq!((found.0.as_str(), found.1.as_str(), found.2.as_str()), (find, replace, label));
    }
}

#[test]
fn nix_sets_up_prime_for_hybrids() {
    let listing = [AMD, TURING, INTEL, KEPLER].concat();
    let plan = edits(&gpu_check_nix(Some(listing.as_bytes()), true));
    assert_eq!(plan.len(), 9);
    assert_eq!(plan[6].0, r"sync\.enable\s*=.*");
    assert_eq!(plan[6].1, "sync.enable = true;");
    assert_eq!(plan[7].0, r"nvidiaBusId\s*=.*");
    assert_eq!(plan[7].1, "nvidiaBusId = \"PCI:1@0:0:0\";");
    assert_eq!(plan[8].0, r"#\s*amdgpuBusId\s*=.*");
    assert_eq!(plan[8].1, "amdgpuBusId = \"PCI:5@0:0:0\";");
    assert_eq!(plan[8].2, "Set AMD PRIME bus ID");
    let listing = [INTEL, TURING].concat();
    let plan = edits(&gpu_check_nix(Some(listing.as_bytes()), true));
    assert_eq!(plan[8].0, r"#\s*intelBusId\s*=.*");
    assert_eq!(plan[8].1, "intelBusId = \"PCI:0@0:2:0\";");
    assert_eq!(plan[8].2, "Set Intel PRIME bus ID");
}
