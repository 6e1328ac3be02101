//! What each kind of virtual machine gets.

use vstd::prelude::*;

use crate::laws::nixos::{assigns, lemma_between};
use crate::laws::words::lemma_mentioned;
use crate::outside::lowered;
use crate::plan::{ActionView, OutcomeView, StepView};
use crate::text::mentions;
use crate::virt::{
    dmi_entries, names_hyperv, some_names_hyperv, virt_setup, UNIT_CONTENTS, UNIT_PATH,
    VMWARE_EXTEND, VMWARE_FILL,
};

verus! {

/// Whether a step turns on an option of the module that configures a guest.
pub open spec fn turns_on(step: StepView, option: Seq<char>, label: Seq<char>) -> bool {
    assigns(
        step,
        "/mnt/etc/nixos/modules/hardware/virtualization/guest.nix"@,
        option,
        "lib.mkDefault true"@,
        label,
    )
}

/// Whether one of the steps turns on an option.
pub open spec fn some_turns_on(steps: Seq<StepView>, option: Seq<char>) -> bool {
    exists|i: int, label: Seq<char>|
        0 <= i < steps.len() && turns_on(#[trigger] steps[i], option, label)
            && #[trigger] reported(steps[i], label)
}

/// Whether a step is reported under `label`.
pub open spec fn reported(step: StepView, label: Seq<char>) -> bool {
    step.outcome == (OutcomeView::Report { label })
}

proof fn lemma_kinds()
    ensures
        "oracle"@ != "vmware"@,
        "oracle"@ != "qemu"@,
        "oracle"@ != "kvm"@,
        "oracle"@ != "microsoft"@,
        "vmware"@ != "qemu"@,
        "vmware"@ != "kvm"@,
        "vmware"@ != "microsoft"@,
        "qemu"@ != "kvm"@,
        "qemu"@ != "microsoft"@,
        "kvm"@ != "microsoft"@,
{
    reveal_strlit("oracle");
    reveal_strlit("vmware");
    reveal_strlit("qemu");
    reveal_strlit("kvm");
    reveal_strlit("microsoft");
    assert("oracle"@.len() == 6 && "vmware"@.len() == 6 && "qemu"@.len() == 4);
    assert("kvm"@.len() == 3 && "microsoft"@.len() == 9);
    assert("oracle"@[0] == 'o' && "vmware"@[0] == 'v');
}

proof fn lemma_turned_on()
    ensures
        "virtualbox.guest.enable"@ + " =.*"@ == "virtualbox.guest.enable =.*"@,
        "virtualbox.guest.enable"@ + " = "@ + "lib.mkDefault true"@ + ";"@
            == "virtualbox.guest.enable = lib.mkDefault true;"@,
        "vmware.guest.enable"@ + " =.*"@ == "vmware.guest.enable =.*"@,
        "vmware.guest.enable"@ + " = "@ + "lib.mkDefault true"@ + ";"@
            == "vmware.guest.enable = lib.mkDefault true;"@,
        "spice-vdagentd.enable"@ + " =.*"@ == "spice-vdagentd.enable =.*"@,
        "spice-vdagentd.enable"@ + " = "@ + "lib.mkDefault true"@ + ";"@
            == "spice-vdagentd.enable = lib.mkDefault true;"@,
        "qemuGuest.enable"@ + " =.*"@ == "qemuGuest.enable =.*"@,
        "qemuGuest.enable"@ + " = "@ + "lib.mkDefault true"@ + ";"@
            == "qemuGuest.enable = lib.mkDefault true;"@,
        "hypervGuest.enable"@ + " =.*"@ == "hypervGuest.enable =.*"@,
        "hypervGuest.enable"@ + " = "@ + "lib.mkDefault true"@ + ";"@
            == "hypervGuest.enable = lib.mkDefault true;"@,
{
    reveal_strlit(" =.*");
    reveal_strlit(" = ");
    reveal_strlit(";");
    reveal_strlit("lib.mkDefault true");
    reveal_strlit("virtualbox.guest.enable");
    reveal_strlit("virtualbox.guest.enable =.*");
    reveal_strlit("virtualbox.guest.enable = lib.mkDefault true;");
    reveal_strlit("vmware.guest.enable");
    reveal_strlit("vmware.guest.enable =.*");
    reveal_strlit("vmware.guest.enable = lib.mkDefault true;");
    reveal_strlit("spice-vdagentd.enable");
    reveal_strlit("spice-vdagentd.enable =.*");
    reveal_strlit("spice-vdagentd.enable = lib.mkDefault true;");
    reveal_strlit("qemuGuest.enable");
    reveal_strlit("qemuGuest.enable =.*");
    reveal_strlit("qemuGuest.enable = lib.mkDefault true;");
    reveal_strlit("hypervGuest.enable");
    reveal_strlit("hypervGuest.enable =.*");
    reveal_strlit("hypervGuest.enable = lib.mkDefault true;");
    assert("virtualbox.guest.enable"@ + " =.*"@ =~= "virtualbox.guest.enable =.*"@);
    assert("virtualbox.guest.enable"@ + " = "@ + "lib.mkDefault true"@ + ";"@
        =~= "virtualbox.guest.enable = lib.mkDefault true;"@);
    assert("vmware.guest.enable"@ + " =.*"@ =~= "vmware.guest.enable =.*"@);
    assert("vmware.guest.enable"@ + " = "@ + "lib.mkDefault true"@ + ";"@
        =~= "vmware.guest.enable = lib.mkDefault true;"@);
    assert("spice-vdagentd.enable"@ + " =.*"@ =~= "spice-vdagentd.enable =.*"@);
    assert("spice-vdagentd.enable"@ + " = "@ + "lib.mkDefault true"@ + ";"@
        =~= "spice-vdagentd.enable = lib.mkDefault true;"@);
    assert("qemuGuest.enable"@ + " =.*"@ =~= "qemuGuest.enable =.*"@);
    assert("qemuGuest.enable"@ + " = "@ + "lib.mkDefault true"@ + ";"@
        =~= "qemuGuest.enable = lib.mkDefault true;"@);
    assert("hypervGuest.enable"@ + " =.*"@ =~= "hypervGuest.enable =.*"@);
    assert("hypervGuest.enable"@ + " = "@ + "lib.mkDefault true"@ + ";"@
        =~= "hypervGuest.enable = lib.mkDefault true;"@);
}

/// On NixOS each kind of virtual machine has its own options turned on, in place of
/// the assignments of just those options, and nothing else is done: one for
/// VirtualBox, one for VMware, the agents of SPICE and of QEMU for QEMU and KVM,
/// one for Hyper-V, none for any other kind and on bare metal. What counts as Arch
/// Linux as well has packages for VirtualBox and VMware instead.
pub proof fn law_nix_guest_options_are_turned_on(kind: Seq<char>, arch: bool)
    ensures
        ({
            let plan = virt_setup(kind, arch, true).plan;
            &&& kind == "oracle"@ && !arch ==> turns_on(
                plan[0],
                "virtualbox.guest.enable"@,
                "Enable virtualbox guest additions"@,
            )
            &&& kind == "vmware"@ && !arch ==> turns_on(
                plan[0],
                "vmware.guest.enable"@,
                "Enable vmware guest additions"@,
            )
            &&& kind == "qemu"@ || kind == "kvm"@ ==> turns_on(
                plan[0],
                "spice-vdagentd.enable"@,
                "Enable spice vdagent"@,
            ) && turns_on(plan[1], "qemuGuest.enable"@, "Enable qemu guest additions"@)
            &&& kind == "microsoft"@ ==> turns_on(
                plan[0],
                "hypervGuest.enable"@,
                "Enable kvm guest additions"@,
            )
            &&& plan.len() == if kind == "qemu"@ || kind == "kvm"@ {
                2nat
            } else if kind == "microsoft"@ || !arch && (kind == "oracle"@ || kind == "vmware"@) {
                1
            } else {
                0
            }
        }),
{
    lemma_kinds();
    lemma_turned_on();
}

proof fn lemma_same_option(step: StepView, a: Seq<char>, b: Seq<char>, la: Seq<char>, lb: Seq<char>)
    requires
        turns_on(step, a, la),
        turns_on(step, b, lb),
    ensures
        a == b,
{
    let none = Seq::<char>::empty();
    assert(none + a + " =.*"@ =~= a + " =.*"@);
    assert(none + b + " =.*"@ =~= b + " =.*"@);
    lemma_between(none, a, b, " =.*"@);
}

/// Each option of a guest is turned on for its own kind of virtual machine only,
/// and no other option ever is.
pub proof fn law_nix_guest_options_are_for_their_kind(kind: Seq<char>, option: Seq<char>)
    ensures
        some_turns_on(virt_setup(kind, false, true).plan, option) <==> {
            ||| kind == "oracle"@ && option == "virtualbox.guest.enable"@
            ||| kind == "vmware"@ && option == "vmware.guest.enable"@
            ||| (kind == "qemu"@ || kind == "kvm"@) && (option == "spice-vdagentd.enable"@
                || option == "qemuGuest.enable"@)
            ||| kind == "microsoft"@ && option == "hypervGuest.enable"@
        },
{
    lemma_kinds();
    law_nix_guest_options_are_turned_on(kind, false);
    let plan = virt_setup(kind, false, true).plan;
    if plan.len() > 0 {
        let first = plan[0].outcome->label;
        assert(reported(plan[0], first));
    }
    if plan.len() > 1 {
        let second = plan[1].outcome->label;
        assert(reported(plan[1], second));
    }
    if some_turns_on(plan, option) {
        let (i, label) = choose|i: int, label: Seq<char>|
            0 <= i < plan.len() && turns_on(#[trigger] plan[i], option, label)
                && #[trigger] reported(plan[i], label);
        if kind == "oracle"@ {
            lemma_same_option(plan[0], option, "virtualbox.guest.enable"@, label, label);
        } else if kind == "vmware"@ {
            lemma_same_option(plan[0], option, "vmware.guest.enable"@, label, label);
        } else if kind == "microsoft"@ {
            lemma_same_option(plan[0], option, "hypervGuest.enable"@, label, label);
        } else if i == 0 {
            lemma_same_option(plan[0], option, "spice-vdagentd.enable"@, label, label);
        } else {
            lemma_same_option(plan[1], option, "qemuGuest.enable"@, label, label);
        }
    }
}

/// Packages for a guest: those of VirtualBox and of VMware on Arch Linux, those of
/// QEMU, KVM and Hyper-V on any system but NixOS; none for any other kind.
pub proof fn law_guest_packages_are_for_their_kind(kind: Seq<char>, arch: bool, nix: bool)
    ensures
        ({
            let packages = virt_setup(kind, arch, nix).packages;
            let emulated = (kind == "qemu"@ || kind == "kvm"@) && !nix;
            let hyperv = kind == "microsoft"@ && !nix;
            let vmware = kind == "vmware"@ && arch;
            let oracle = kind == "oracle"@ && arch;
            &&& oracle ==> packages == seq!["virtualbox-guest-utils"@]
            &&& vmware ==> packages == seq!["open-vm-tools"@]
            &&& emulated ==> packages == seq!["qemu-guest-agent"@, "spice-vdagent"@]
            &&& hyperv ==> packages == seq!["hyperv"@, "xf86-video-fbdev"@]
            &&& packages.len() > 0 <==> oracle || vmware || emulated || hyperv
        }),
{
    lemma_kinds();
}

/// Services for a guest: one comes exactly with the packages that bring it.
pub proof fn law_guest_services_come_with_packages(kind: Seq<char>, arch: bool, nix: bool)
    ensures
        ({
            let packages = virt_setup(kind, arch, nix).packages;
            let services = virt_setup(kind, arch, nix).services;
            &&& packages.len() == 0 <==> services.len() == 0
            &&& packages == seq!["virtualbox-guest-utils"@] ==> services == seq!["vboxservice"@]
            &&& packages == seq!["open-vm-tools"@] ==> services == seq![
                "vmware-vmblock-fuse"@,
                "vmtoolsd"@,
            ]
            &&& packages == seq!["qemu-guest-agent"@, "spice-vdagent"@] ==> services == seq![
                packages[0],
            ]
            &&& packages == seq!["hyperv"@, "xf86-video-fbdev"@] ==> services == seq![
                "hv_fcopy_uio_daemon"@,
                "hv_kvp_daemon"@,
                "hv_vss_daemon"@,
            ]
        }),
{
    lemma_kinds();
    reveal_strlit("virtualbox-guest-utils");
    reveal_strlit("open-vm-tools");
    reveal_strlit("qemu-guest-agent");
    reveal_strlit("spice-vdagent");
    reveal_strlit("hyperv");
    assert("virtualbox-guest-utils"@.len() != "open-vm-tools"@.len());
    assert("qemu-guest-agent"@.len() != "hyperv"@.len());
    let packages = virt_setup(kind, arch, nix).packages;
    if packages.len() == 1 {
        assert(packages[0] == "virtualbox-guest-utils"@ || packages[0] == "open-vm-tools"@);
        assert(seq!["virtualbox-guest-utils"@][0] == "virtualbox-guest-utils"@);
        assert(seq!["open-vm-tools"@][0] == "open-vm-tools"@);
    }
    if packages.len() == 2 {
        assert(packages[0] == "qemu-guest-agent"@ || packages[0] == "hyperv"@);
        assert(seq!["qemu-guest-agent"@, "spice-vdagent"@][0] == "qemu-guest-agent"@);
        assert(seq!["hyperv"@, "xf86-video-fbdev"@][0] == "hyperv"@);
    }
}

/// The modules of VMware go into the initial file system of Arch Linux, and only
/// for VMware: one edit in place fills an empty list with them, another adds them to
/// a list that does not hold them yet, and both name the same modules.
pub proof fn law_vmware_modules_are_loaded(kind: Seq<char>, arch: bool, nix: bool)
    ensures
        ({
            let params = virt_setup(kind, arch, nix).set_params;
            let modules = "vsock vmw_vsock_vmci_transport vmw_balloon vmw_vmci vmwgfx"@;
            &&& params.len() == if kind == "vmware"@ && arch {
                1nat
            } else {
                0
            }
            &&& kind == "vmware"@ && arch ==> params[0] == (
                "Set vmware modules"@,
                seq![
                    "-i"@,
                    "-e"@,
                    "/^MODULES=()/ s/()/("@ + modules + ")/"@,
                    "-e"@,
                    "/^MODULES=([^)]*)/ { /"@ + modules + "/! s/)/ "@ + modules + ")/ }"@,
                    "/mnt/etc/mkinitcpio.conf"@,
                ],
            )
        }),
{
    lemma_kinds();
    let modules = "vsock vmw_vsock_vmci_transport vmw_balloon vmw_vmci vmwgfx"@;
    reveal_strlit("vsock vmw_vsock_vmci_transport vmw_balloon vmw_vmci vmwgfx");
    reveal_strlit("/^MODULES=()/ s/()/(");
    reveal_strlit(")/");
    reveal_strlit("/^MODULES=([^)]*)/ { /");
    reveal_strlit("/! s/)/ ");
    reveal_strlit(")/ }");
    reveal_strlit(
        r"/^MODULES=()/ s/()/(vsock vmw_vsock_vmci_transport vmw_balloon vmw_vmci vmwgfx)/",
    );
    reveal_strlit(
        r"/^MODULES=([^)]*)/ { /vsock vmw_vsock_vmci_transport vmw_balloon vmw_vmci vmwgfx/! s/)/ vsock vmw_vsock_vmci_transport vmw_balloon vmw_vmci vmwgfx)/ }",
    );
    assert("/^MODULES=()/ s/()/("@ + modules + ")/"@ =~= VMWARE_FILL@);
    assert("/^MODULES=([^)]*)/ { /"@ + modules + "/! s/)/ "@ + modules + ")/ }"@
        =~= VMWARE_EXTEND@);
}

/// Outside of NixOS only Hyper-V has anything done at once: the unit of the first
/// of its services is written, into a directory that has been created before, and
/// starts the daemon of that name. A failure of either ends the program and says
/// which path it was.
pub proof fn law_hyperv_gets_its_unit(kind: Seq<char>, arch: bool)
    ensures
        ({
            let setup = virt_setup(kind, arch, false);
            let service = "hv_fcopy_uio_daemon"@;
            let directory = "/mnt/etc/systemd/system"@;
            let path = directory + "/"@ + service + ".service"@;
            let blank = "                    \n"@;
            let unit = "[Unit]\nDescription=Hyper-V file copy service (uio_hv_generic)\n"@
                + "ConditionPathExists=/dev/vmbus/uio_hv_generic\n"@ + blank
                + "[Service]\nExecStart=/usr/bin/"@ + service + " -n\n"@ + blank
                + "[Install]\nWantedBy=multi-user.target\n"@;
            &&& setup.plan.len() == if kind == "microsoft"@ {
                2nat
            } else {
                0
            }
            &&& kind == "microsoft"@ ==> {
                &&& setup.services[0] == service
                &&& setup.plan[0] == StepView {
                    action: ActionView::CreateDirectories { path: directory },
                    outcome: OutcomeView::Panic { message: "Failed to create "@ + directory },
                }
                &&& setup.plan[1] == StepView {
                    action: ActionView::WriteFile { path, contents: unit },
                    outcome: OutcomeView::Panic { message: "Failed to write "@ + path },
                }
            }
        }),
{
    lemma_kinds();
    let service = "hv_fcopy_uio_daemon"@;
    let directory = "/mnt/etc/systemd/system"@;
    let path = directory + "/"@ + service + ".service"@;
    let blank = "                    \n"@;
    let unit = "[Unit]\nDescription=Hyper-V file copy service (uio_hv_generic)\n"@
        + "ConditionPathExists=/dev/vmbus/uio_hv_generic\n"@ + blank
        + "[Service]\nExecStart=/usr/bin/"@ + service + " -n\n"@ + blank
        + "[Install]\nWantedBy=multi-user.target\n"@;
    reveal_strlit("hv_fcopy_uio_daemon");
    reveal_strlit("/mnt/etc/systemd/system");
    reveal_strlit("/");
    reveal_strlit(".service");
    reveal_strlit("                    \n");
    reveal_strlit("[Unit]\nDescription=Hyper-V file copy service (uio_hv_generic)\n");
    reveal_strlit("ConditionPathExists=/dev/vmbus/uio_hv_generic\n");
    reveal_strlit("[Service]\nExecStart=/usr/bin/");
    reveal_strlit(" -n\n");
    reveal_strlit("[Install]\nWantedBy=multi-user.target\n");
    reveal_strlit("/mnt/etc/systemd/system/hv_fcopy_uio_daemon.service");
    reveal_strlit("Failed to create ");
    reveal_strlit("Failed to write ");
    reveal_strlit("Failed to create /mnt/etc/systemd/system");
    reveal_strlit("Failed to write /mnt/etc/systemd/system/hv_fcopy_uio_daemon.service");
    reveal_strlit(
        "[Unit]\nDescription=Hyper-V file copy service (uio_hv_generic)\nConditionPathExists=/dev/vmbus/uio_hv_generic\n                    \n[Service]\nExecStart=/usr/bin/hv_fcopy_uio_daemon -n\n                    \n[Install]\nWantedBy=multi-user.target\n",
    );
    assert(path =~= UNIT_PATH@);
    assert(unit =~= UNIT_CONTENTS@);
    assert("Failed to create "@ + directory =~= "Failed to create /mnt/etc/systemd/system"@);
    assert("Failed to write "@ + path
        =~= "Failed to write /mnt/etc/systemd/system/hv_fcopy_uio_daemon.service"@);
}

/// An entry names Hyper-V exactly if `microsoft`, `hyper-v` or `hyperv` stands
/// somewhere in it, whatever stands around it.
pub proof fn law_hyperv_is_named_anywhere(head: Seq<char>, tail: Seq<char>, lower: Seq<char>)
    ensures
        names_hyperv(head + "microsoft"@ + tail),
        names_hyperv(head + "hyper-v"@ + tail),
        names_hyperv(head + "hyperv"@ + tail),
        names_hyperv(lower) ==> mentions(lower, "microsoft"@) || mentions(lower, "hyper-v"@)
            || mentions(lower, "hyperv"@),
{
    lemma_mentioned(head, "microsoft"@, tail);
    lemma_mentioned(head, "hyper-v"@, tail);
    lemma_mentioned(head, "hyperv"@, tail);
}

/// One entry decides by itself, one that could not be read and no entry at all say
/// no; the entries are the vendor and the product name, each under two paths.
pub proof fn law_entries_decide(entry: String)
    ensures
        !some_names_hyperv(seq![]),
        !some_names_hyperv(seq![None]),
        some_names_hyperv(seq![Some(entry)]) <==> names_hyperv(lowered(entry@)),
        dmi_entries() == seq![
            "/sys/devices/virtual/dmi/id/"@ + "sys_vendor"@,
            "/sys/devices/virtual/dmi/id/"@ + "product_name"@,
            "/sys/class/dmi/id/"@ + "sys_vendor"@,
            "/sys/class/dmi/id/"@ + "product_name"@,
        ],
{
    reveal_strlit("/sys/devices/virtual/dmi/id/");
    reveal_strlit("/sys/class/dmi/id/");
    reveal_strlit("sys_vendor");
    reveal_strlit("product_name");
    reveal_strlit("/sys/devices/virtual/dmi/id/sys_vendor");
    reveal_strlit("/sys/devices/virtual/dmi/id/product_name");
    reveal_strlit("/sys/class/dmi/id/sys_vendor");
    reveal_strlit("/sys/class/dmi/id/product_name");
    assert("/sys/devices/virtual/dmi/id/"@ + "sys_vendor"@
        =~= "/sys/devices/virtual/dmi/id/sys_vendor"@);
    assert("/sys/devices/virtual/dmi/id/"@ + "product_name"@
        =~= "/sys/devices/virtual/dmi/id/product_name"@);
    assert("/sys/class/dmi/id/"@ + "sys_vendor"@ =~= "/sys/class/dmi/id/sys_vendor"@);
    assert("/sys/class/dmi/id/"@ + "product_name"@ =~= "/sys/class/dmi/id/product_name"@);
    let alone = seq![Some(entry)];
    assert(alone[0] == Some(entry));
    assert(dmi_entries() =~= seq![
        "/sys/devices/virtual/dmi/id/"@ + "sys_vendor"@,
        "/sys/devices/virtual/dmi/id/"@ + "product_name"@,
        "/sys/class/dmi/id/"@ + "sys_vendor"@,
        "/sys/class/dmi/id/"@ + "product_name"@,
    ]);
}

} // verus!
