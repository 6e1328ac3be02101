//! Virtual machines: which kind the installer runs in, and what that kind calls
//! for.

use vstd::prelude::*;
use vstd::string::*;

use crate::outside::{decode_lossy, decoded, lower_case, lowered};
use crate::plan::{
    capture, sed_step, Action, ActionView, Outcome, OutcomeView, Plan, Step, StepView,
};
use crate::text::{
    add_name, contains, mentions, same, strings, texts, trim, trimmed,
};

verus! {

/// The NixOS module that configures a guest.
pub const NIX_GUEST: &'static str = "/mnt/etc/nixos/modules/hardware/virtualization/guest.nix";

pub const UNIT_DIR: &'static str = "/mnt/etc/systemd/system";

pub const UNIT_PATH: &'static str = "/mnt/etc/systemd/system/hv_fcopy_uio_daemon.service";

/// The unit that starts the Hyper-V file copy service.
pub const UNIT_CONTENTS: &'static str =
    "[Unit]\nDescription=Hyper-V file copy service (uio_hv_generic)\nConditionPathExists=/dev/vmbus/uio_hv_generic\n                    \n[Service]\nExecStart=/usr/bin/hv_fcopy_uio_daemon -n\n                    \n[Install]\nWantedBy=multi-user.target\n";

/// Fills an empty list of modules with those of VMware.
pub const VMWARE_FILL: &'static str =
    r"/^MODULES=()/ s/()/(vsock vmw_vsock_vmci_transport vmw_balloon vmw_vmci vmwgfx)/";

/// Adds the modules of VMware to a list that lacks them.
pub const VMWARE_EXTEND: &'static str =
    r"/^MODULES=([^)]*)/ { /vsock vmw_vsock_vmci_transport vmw_balloon vmw_vmci vmwgfx/! s/)/ vsock vmw_vsock_vmci_transport vmw_balloon vmw_vmci vmwgfx)/ }";

/// What a kind of virtual machine calls for: packages, services, arguments of
/// `sed` under a label each, and changes to be made at once.
#[derive(Debug)]
pub struct VirtSetup {
    pub packages: Vec<&'static str>,
    pub services: Vec<&'static str>,
    pub set_params: Vec<(String, Vec<String>)>,
    pub plan: Plan,
}

/// What a `VirtSetup` says.
#[verifier::ext_equal]
pub struct VirtSetupView {
    pub packages: Seq<Seq<char>>,
    pub services: Seq<Seq<char>>,
    pub set_params: Seq<(Seq<char>, Seq<Seq<char>>)>,
    pub plan: Seq<StepView>,
}

/// What labelled lists of arguments say.
pub open spec fn params_view(params: Seq<(String, Vec<String>)>) -> Seq<
    (Seq<char>, Seq<Seq<char>>),
> {
    Seq::new(params.len(), |i: int| (params[i].0@, strings(params[i].1@)))
}

impl View for VirtSetup {
    type V = VirtSetupView;

    open spec fn view(&self) -> VirtSetupView {
        VirtSetupView {
            packages: texts(self.packages@),
            services: texts(self.services@),
            set_params: params_view(self.set_params@),
            plan: self.plan@,
        }
    }
}

/// Nothing is called for.
pub open spec fn no_setup() -> VirtSetupView {
    VirtSetupView { packages: seq![], services: seq![], set_params: seq![], plan: seq![] }
}

/// Packages and services are called for.
pub open spec fn install_setup(
    packages: Seq<Seq<char>>,
    services: Seq<Seq<char>>,
) -> VirtSetupView {
    VirtSetupView { packages, services, set_params: seq![], plan: seq![] }
}

/// Changes are called for.
pub open spec fn change_setup(plan: Seq<StepView>) -> VirtSetupView {
    VirtSetupView { packages: seq![], services: seq![], set_params: seq![], plan }
}

/// What VirtualBox calls for.
pub open spec fn oracle_setup(arch: bool, nix: bool) -> VirtSetupView {
    if arch {
        install_setup(seq!["virtualbox-guest-utils"@], seq!["vboxservice"@])
    } else if nix {
        change_setup(
            seq![
                sed_step(
                    NIX_GUEST@,
                    "virtualbox.guest.enable =.*"@,
                    "virtualbox.guest.enable = lib.mkDefault true;"@,
                    "Enable virtualbox guest additions"@,
                ),
            ],
        )
    } else {
        no_setup()
    }
}

/// What VMware calls for.
pub open spec fn vmware_setup(arch: bool, nix: bool) -> VirtSetupView {
    if arch {
        VirtSetupView {
            packages: seq!["open-vm-tools"@],
            services: seq!["vmware-vmblock-fuse"@, "vmtoolsd"@],
            set_params: seq![
                (
                    "Set vmware modules"@,
                    seq![
                        "-i"@,
                        "-e"@,
                        VMWARE_FILL@,
                        "-e"@,
                        VMWARE_EXTEND@,
                        "/mnt/etc/mkinitcpio.conf"@,
                    ],
                ),
            ],
            plan: seq![],
        }
    } else if nix {
        change_setup(
            seq![
                sed_step(
                    NIX_GUEST@,
                    "vmware.guest.enable =.*"@,
                    "vmware.guest.enable = lib.mkDefault true;"@,
                    "Enable vmware guest additions"@,
                ),
            ],
        )
    } else {
        no_setup()
    }
}

/// What QEMU and KVM call for.
pub open spec fn qemu_setup(nix: bool) -> VirtSetupView {
    if nix {
        change_setup(
            seq![
                sed_step(
                    NIX_GUEST@,
                    "spice-vdagentd.enable =.*"@,
                    "spice-vdagentd.enable = lib.mkDefault true;"@,
                    "Enable spice vdagent"@,
                ),
                sed_step(
                    NIX_GUEST@,
                    "qemuGuest.enable =.*"@,
                    "qemuGuest.enable = lib.mkDefault true;"@,
                    "Enable qemu guest additions"@,
                ),
            ],
        )
    } else {
        install_setup(seq!["qemu-guest-agent"@, "spice-vdagent"@], seq!["qemu-guest-agent"@])
    }
}

/// What Hyper-V calls for.
pub open spec fn microsoft_setup(nix: bool) -> VirtSetupView {
    if nix {
        change_setup(
            seq![
                sed_step(
                    NIX_GUEST@,
                    "hypervGuest.enable =.*"@,
                    "hypervGuest.enable = lib.mkDefault true;"@,
                    "Enable kvm guest additions"@,
                ),
            ],
        )
    } else {
        VirtSetupView {
            packages: seq!["hyperv"@, "xf86-video-fbdev"@],
            services: seq!["hv_fcopy_uio_daemon"@, "hv_kvp_daemon"@, "hv_vss_daemon"@],
            set_params: seq![],
            plan: seq![
                StepView {
                    action: ActionView::CreateDirectories { path: UNIT_DIR@ },
                    outcome: OutcomeView::Panic {
                        message: "Failed to create /mnt/etc/systemd/system"@,
                    },
                },
                StepView {
                    action: ActionView::WriteFile { path: UNIT_PATH@, contents: UNIT_CONTENTS@ },
                    outcome: OutcomeView::Panic {
                        message:
                            "Failed to write /mnt/etc/systemd/system/hv_fcopy_uio_daemon.service"@,
                    },
                },
            ],
        }
    }
}

/// What the kind of virtual machine that `systemd-detect-virt` names calls for:
/// nothing on bare metal, nor for a kind that is not known here.
pub open spec fn virt_setup(kind: Seq<char>, arch: bool, nix: bool) -> VirtSetupView {
    if kind == "oracle"@ {
        oracle_setup(arch, nix)
    } else if kind == "vmware"@ {
        vmware_setup(arch, nix)
    } else if kind == "qemu"@ || kind == "kvm"@ {
        qemu_setup(nix)
    } else if kind == "microsoft"@ {
        microsoft_setup(nix)
    } else {
        no_setup()
    }
}

/// Whether the lower-cased text of a DMI entry names Hyper-V. The match is loose.
pub open spec fn names_hyperv(lower: Seq<char>) -> bool {
    mentions(lower, "microsoft"@) || mentions(lower, "hyper-v"@) || mentions(lower, "hyperv"@)
}

/// Whether any of the DMI entries that could be read names Hyper-V.
pub open spec fn some_names_hyperv(entries: Seq<Option<String>>) -> bool {
    exists|i: int|
        0 <= i < entries.len() && (#[trigger] entries[i] matches Some(entry) && names_hyperv(
            lowered(entry@),
        ))
}

/// The DMI entries that may name Hyper-V.
pub open spec fn dmi_entries() -> Seq<Seq<char>> {
    seq![
        "/sys/devices/virtual/dmi/id/sys_vendor"@,
        "/sys/devices/virtual/dmi/id/product_name"@,
        "/sys/class/dmi/id/sys_vendor"@,
        "/sys/class/dmi/id/product_name"@,
    ]
}

/// A setup that calls for nothing.
fn empty_setup() -> (setup: VirtSetup)
    ensures
        setup@ == no_setup(),
{
    VirtSetup {
        packages: Vec::new(),
        services: Vec::new(),
        set_params: Vec::new(),
        plan: Plan::new(),
    }
}

/// What VirtualBox calls for.
fn setup_oracle(arch: bool, nix: bool) -> (setup: VirtSetup)
    ensures
        setup@ == oracle_setup(arch, nix),
{
    let mut setup = empty_setup();
    if arch {
        add_name(&mut setup.packages, "virtualbox-guest-utils");
        add_name(&mut setup.services, "vboxservice");
    } else if nix {
        setup.plan.sed(
            NIX_GUEST,
            "virtualbox.guest.enable =.*",
            "virtualbox.guest.enable = lib.mkDefault true;",
            "Enable virtualbox guest additions",
        );
    }
    assert(setup@ =~= oracle_setup(arch, nix));
    setup
}

/// What VMware calls for.
fn setup_vmware(arch: bool, nix: bool) -> (setup: VirtSetup)
    ensures
        setup@ == vmware_setup(arch, nix),
{
    let mut setup = empty_setup();
    if arch {
        add_name(&mut setup.packages, "open-vm-tools");
        add_name(&mut setup.services, "vmware-vmblock-fuse");
        add_name(&mut setup.services, "vmtoolsd");
        let args: Vec<String> = vec![
            "-i".to_string(),
            "-e".to_string(),
            VMWARE_FILL.to_string(),
            "-e".to_string(),
            VMWARE_EXTEND.to_string(),
            "/mnt/etc/mkinitcpio.conf".to_string(),
        ];
        assert(strings(args@) =~= vmware_setup(arch, nix).set_params[0].1);
        setup.set_params.push(("Set vmware modules".to_string(), args));
    } else if nix {
        setup.plan.sed(
            NIX_GUEST,
            "vmware.guest.enable =.*",
            "vmware.guest.enable = lib.mkDefault true;",
            "Enable vmware guest additions",
        );
    }
    assert(setup@ =~= vmware_setup(arch, nix));
    setup
}

/// What QEMU and KVM call for.
fn setup_qemu(nix: bool) -> (setup: VirtSetup)
    ensures
        setup@ == qemu_setup(nix),
{
    let mut setup = empty_setup();
    if !nix {
        add_name(&mut setup.packages, "qemu-guest-agent");
        add_name(&mut setup.packages, "spice-vdagent");
        add_name(&mut setup.services, "qemu-guest-agent");
    } else {
        setup.plan.sed(
            NIX_GUEST,
            "spice-vdagentd.enable =.*",
            "spice-vdagentd.enable = lib.mkDefault true;",
            "Enable spice vdagent",
        );
        setup.plan.sed(
            NIX_GUEST,
            "qemuGuest.enable =.*",
            "qemuGuest.enable = lib.mkDefault true;",
            "Enable qemu guest additions",
        );
    }
    assert(setup@ =~= qemu_setup(nix));
    setup
}

/// What Hyper-V calls for.
fn setup_microsoft(nix: bool) -> (setup: VirtSetup)
    ensures
        setup@ == microsoft_setup(nix),
{
    let mut setup = empty_setup();
    if !nix {
        add_name(&mut setup.packages, "hyperv");
        add_name(&mut setup.packages, "xf86-video-fbdev");
        setup.plan.push(
            Step {
                action: Action::CreateDirectories { path: UNIT_DIR.to_string() },
                outcome: Outcome::Panic {
                    message: "Failed to create /mnt/etc/systemd/system".to_string(),
                },
            },
        );
        setup.plan.push(
            Step {
                action: Action::WriteFile {
                    path: UNIT_PATH.to_string(),
                    contents: UNIT_CONTENTS.to_string(),
                },
                outcome: Outcome::Panic {
                    message:
                        "Failed to write /mnt/etc/systemd/system/hv_fcopy_uio_daemon.service".to_string(),
                },
            },
        );
        add_name(&mut setup.services, "hv_fcopy_uio_daemon");
        add_name(&mut setup.services, "hv_kvp_daemon");
        add_name(&mut setup.services, "hv_vss_daemon");
    } else {
        setup.plan.sed(
            NIX_GUEST,
            "hypervGuest.enable =.*",
            "hypervGuest.enable = lib.mkDefault true;",
            "Enable kvm guest additions",
        );
    }
    assert(setup@ =~= microsoft_setup(nix));
    setup
}

/// What a kind of virtual machine calls for, on Arch Linux, on NixOS or elsewhere.
pub fn setup_virt(kind: &str, arch: bool, nix: bool) -> (setup: VirtSetup)
    ensures
        setup@ == virt_setup(kind@, arch, nix),
{
    if same(kind, "oracle") {
        setup_oracle(arch, nix)
    } else if same(kind, "vmware") {
        setup_vmware(arch, nix)
    } else if same(kind, "qemu") || same(kind, "kvm") {
        setup_qemu(nix)
    } else if same(kind, "microsoft") {
        setup_microsoft(nix)
    } else {
        empty_setup()
    }
}

/// What names the kind of virtual machine. On bare metal it exits with a failure,
/// and what it printed counts all the same.
pub fn detect_virt() -> (action: Action)
    ensures
        action@ == (ActionView::Capture { program: "systemd-detect-virt"@, args: seq![] }),
{
    let args: Vec<String> = Vec::new();
    assert(strings(args@) =~= seq![]);
    capture("systemd-detect-virt", args)
}

/// What the virtual machine that the installer runs in calls for, by what
/// `systemd-detect-virt` printed.
pub fn virt_check(stdout: &[u8], arch: bool, nix: bool) -> (setup: VirtSetup)
    ensures
        setup@ == virt_setup(trimmed(decoded(stdout@)), arch, nix),
{
    let printed = decode_lossy(stdout);
    setup_virt(trim(printed.as_str()), arch, nix)
}

/// The DMI entries that may name Hyper-V.
pub fn hyperv_candidates() -> (paths: Vec<&'static str>)
    ensures
        texts(paths@) == dmi_entries(),
{
    vec![
        "/sys/devices/virtual/dmi/id/sys_vendor",
        "/sys/devices/virtual/dmi/id/product_name",
        "/sys/class/dmi/id/sys_vendor",
        "/sys/class/dmi/id/product_name",
    ]
}

/// Whether the lower-cased text of a DMI entry names Hyper-V.
pub fn mentions_hyperv(lower: &str) -> (yes: bool)
    ensures
        yes == names_hyperv(lower@),
{
    contains(lower, "microsoft") || contains(lower, "hyper-v") || contains(lower, "hyperv")
}

/// Whether the installer runs in a guest of Hyper-V: whether any of the DMI
/// entries that could be read names it, in any case.
pub fn is_hyperv_guest(entries: &Vec<Option<String>>) -> (guest: bool)
    ensures
        guest == some_names_hyperv(entries@),
{
    let mut k: usize = 0;
    while k < entries.len()
        invariant
            k <= entries@.len(),
            forall|i: int|
                0 <= i < k ==> !(#[trigger] entries@[i] matches Some(entry) && names_hyperv(
                    lowered(entry@),
                )),
        decreases entries@.len() - k,
    {
        match &entries[k] {
            Some(entry) => {
                let lower = lower_case(entry.as_str());
                assert(lower@ == lowered(entry@));
                if mentions_hyperv(lower.as_str()) {
                    assert(entries@[k as int] matches Some(found) && names_hyperv(
                        lowered(found@),
                    ));
                    return true;
                }
            },
            None => {},
        }
        k = k + 1;
    }
    false
}

} // verus!
