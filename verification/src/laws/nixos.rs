//! What becomes of the NixOS configuration of the system to be installed.

use vstd::prelude::*;

use crate::cpu::cpu_steps;
use crate::gpu::{first_from, gpu_nix_steps};
use crate::keyboard::{keyboard_steps, KeymapView};
use crate::laws::plans::law_nix_takes_the_first_locale;
use crate::locale::{locale_steps, timezone_steps};
use crate::pci::{GpuDeviceView, GpuVendor};
use crate::plan::{ActionView, OutcomeView, StepView};
use crate::text::{is_blank, is_solid, is_space, mentions};

verus! {

/// Whether a step replaces what `find` matches in a file, and is reported under
/// `label`.
pub open spec fn changes(
    step: StepView,
    path: Seq<char>,
    find: Seq<char>,
    replace: Seq<char>,
    label: Seq<char>,
) -> bool {
    &&& step.action == (ActionView::SedFile { path, find, replace })
    &&& step.outcome == (OutcomeView::Report { label })
}

/// Whether a step gives an option of a module a value: it replaces the assignment
/// of that option, whatever it assigns, by one of `value`.
pub open spec fn assigns(
    step: StepView,
    path: Seq<char>,
    option: Seq<char>,
    value: Seq<char>,
    label: Seq<char>,
) -> bool {
    changes(step, path, option + " =.*"@, option + " = "@ + value + ";"@, label)
}

/// Whether a step puts `text` between quotes where `known` stood.
pub open spec fn fills_in(
    step: StepView,
    path: Seq<char>,
    lead: Seq<char>,
    known: Seq<char>,
    text: Seq<char>,
    label: Seq<char>,
) -> bool {
    changes(step, path, lead + known + "\";"@, lead + text + "\";"@, label)
}

/// Whether device `i` is the first from NVIDIA.
pub open spec fn first_nvidia(gpus: Seq<GpuDeviceView>, i: int) -> bool {
    &&& 0 <= i < gpus.len()
    &&& gpus[i].vendor == GpuVendor::Nvidia
    &&& forall|k: int| 0 <= k < i ==> (#[trigger] gpus[k]).vendor != GpuVendor::Nvidia
}

/// Whether a device is from a vendor of integrated graphics.
pub open spec fn is_integrated(gpu: GpuDeviceView) -> bool {
    gpu.vendor == GpuVendor::Intel || gpu.vendor == GpuVendor::Amd
}

/// Whether device `j` is the first from a vendor of integrated graphics.
pub open spec fn first_integrated(gpus: Seq<GpuDeviceView>, j: int) -> bool {
    &&& 0 <= j < gpus.len()
    &&& is_integrated(gpus[j])
    &&& forall|k: int| 0 <= k < j ==> !is_integrated(#[trigger] gpus[k])
}

proof fn lemma_first_from_at(
    gpus: Seq<GpuDeviceView>,
    vendor: GpuVendor,
    other: GpuVendor,
    at: int,
)
    requires
        0 <= at < gpus.len(),
        gpus[at].vendor == vendor || gpus[at].vendor == other,
        forall|k: int|
            0 <= k < at ==> (#[trigger] gpus[k]).vendor != vendor && gpus[k].vendor != other,
    ensures
        first_from(gpus, vendor, other) == Some(gpus[at]),
    decreases at,
{
    if at > 0 {
        assert(gpus[0].vendor != vendor && gpus[0].vendor != other);
        let rest = gpus.skip(1);
        assert forall|k: int| 0 <= k < at - 1 implies (#[trigger] rest[k]).vendor != vendor
            && rest[k].vendor != other by {
            assert(rest[k] == gpus[k + 1]);
        }
        lemma_first_from_at(rest, vendor, other, at - 1);
    }
}

proof fn lemma_first_from_none(gpus: Seq<GpuDeviceView>, vendor: GpuVendor, other: GpuVendor)
    requires
        forall|k: int|
            0 <= k < gpus.len() ==> (#[trigger] gpus[k]).vendor != vendor && gpus[k].vendor
                != other,
    ensures
        first_from(gpus, vendor, other) is None,
    decreases gpus.len(),
{
    if gpus.len() > 0 {
        let rest = gpus.skip(1);
        assert forall|k: int| 0 <= k < rest.len() implies (#[trigger] rest[k]).vendor != vendor
            && rest[k].vendor != other by {
            assert(rest[k] == gpus[k + 1]);
        }
        lemma_first_from_none(rest, vendor, other);
    }
}

/// On a machine with an NVIDIA device the graphics module turns on mode setting,
/// power management, the open kernel modules and the settings menu, and names the
/// stable driver and the video drivers, in that order; nothing more without
/// integrated graphics.
pub proof fn law_nvidia_options_are_set(gpus: Seq<GpuDeviceView>, i: int)
    requires
        first_nvidia(gpus, i),
    ensures
        ({
            let steps = gpu_nix_steps(gpus, true);
            let module = "/mnt/etc/nixos/modules/hardware/graphics/default.nix"@;
            &&& steps.len() >= 6
            &&& assigns(
                steps[0],
                module,
                "modesetting.enable"@,
                "true"@,
                "Enable NVIDIA modesetting"@,
            )
            &&& assigns(
                steps[1],
                module,
                "powerManagement.enable"@,
                "true"@,
                "Enable NVIDIA power management"@,
            )
            &&& changes(
                steps[2],
                module,
                "\\b"@ + "open"@ + "\\s*=.*"@,
                "open"@ + " = true;"@,
                "Enable NVIDIA open kernel modules"@,
            )
            &&& assigns(
                steps[3],
                module,
                "nvidiaSettings"@,
                "true"@,
                "Enable nvidia-settings menu"@,
            )
            &&& changes(
                steps[4],
                module,
                "#\\s*package = config\\.boot\\.kernelPackages\\.nvidiaPackages\\.stable;"@,
                "package = config.boot.kernelPackages.nvidiaPackages.stable;"@,
                "Uncomment NVIDIA driver package"@,
            )
            &&& changes(
                steps[5],
                module,
                "#\\s*services\\.xserver\\.videoDrivers = \\[ \"modesetting\" \"nvidia\" \\];"@,
                "services.xserver.videoDrivers = [ \"modesetting\" \"nvidia\" ];"@,
                "Uncomment NVIDIA video drivers"@,
            )
            &&& (forall|k: int| 0 <= k < gpus.len() ==> !is_integrated(#[trigger] gpus[k]))
                ==> steps.len() == 6
        }),
{
    lemma_first_from_at(gpus, GpuVendor::Nvidia, GpuVendor::Nvidia, i);
    if forall|k: int| 0 <= k < gpus.len() ==> !is_integrated(#[trigger] gpus[k]) {
        assert forall|k: int| 0 <= k < gpus.len() implies (#[trigger] gpus[k]).vendor
            != GpuVendor::Intel && gpus[k].vendor != GpuVendor::Amd by {
            assert(!is_integrated(gpus[k]));
        }
        lemma_first_from_none(gpus, GpuVendor::Intel, GpuVendor::Amd);
    }
    reveal_strlit(" =.*");
    reveal_strlit(" = ");
    reveal_strlit(";");
    reveal_strlit("true");
    reveal_strlit("modesetting.enable");
    reveal_strlit("modesetting.enable =.*");
    reveal_strlit("modesetting.enable = true;");
    reveal_strlit("powerManagement.enable");
    reveal_strlit("powerManagement.enable =.*");
    reveal_strlit("powerManagement.enable = true;");
    reveal_strlit("nvidiaSettings");
    reveal_strlit("nvidiaSettings =.*");
    reveal_strlit("nvidiaSettings = true;");
    reveal_strlit("\\b");
    reveal_strlit("open");
    reveal_strlit("\\s*=.*");
    reveal_strlit(" = true;");
    reveal_strlit(r"\bopen\s*=.*");
    reveal_strlit("open = true;");
    assert("modesetting.enable"@ + " =.*"@ =~= "modesetting.enable =.*"@);
    assert("modesetting.enable"@ + " = "@ + "true"@ + ";"@ =~= "modesetting.enable = true;"@);
    assert("powerManagement.enable"@ + " =.*"@ =~= "powerManagement.enable =.*"@);
    assert("powerManagement.enable"@ + " = "@ + "true"@ + ";"@
        =~= "powerManagement.enable = true;"@);
    assert("nvidiaSettings"@ + " =.*"@ =~= "nvidiaSettings =.*"@);
    assert("nvidiaSettings"@ + " = "@ + "true"@ + ";"@ =~= "nvidiaSettings = true;"@);
    assert("\\b"@ + "open"@ + "\\s*=.*"@ =~= r"\bopen\s*=.*"@);
    assert("open"@ + " = true;"@ =~= "open = true;"@);
}

/// PRIME is set up with the bus IDs of the machine: the option for the NVIDIA
/// device gets the bus ID of the first one, and the option for integrated graphics
/// of the vendor that comes first gets the bus ID of that device.
pub proof fn law_prime_gets_the_bus_ids(gpus: Seq<GpuDeviceView>, i: int, j: int)
    requires
        first_nvidia(gpus, i),
        first_integrated(gpus, j),
    ensures
        ({
            let steps = gpu_nix_steps(gpus, true);
            let module = "/mnt/etc/nixos/modules/hardware/graphics/default.nix"@;
            &&& steps.len() == 9
            &&& changes(
                steps[6],
                module,
                "sync\\.enable\\s*=.*"@,
                "sync.enable = true;"@,
                "Enable NVIDIA PRIME sync"@,
            )
            &&& changes(
                steps[7],
                module,
                "nvidiaBusId"@ + "\\s*=.*"@,
                "nvidiaBusId"@ + " = \""@ + gpus[i].bus_id + "\";"@,
                "Set NVIDIA PRIME bus ID"@,
            )
            &&& gpus[j].vendor == GpuVendor::Intel ==> changes(
                steps[8],
                module,
                "#\\s*"@ + "intelBusId"@ + "\\s*=.*"@,
                "intelBusId"@ + " = \""@ + gpus[j].bus_id + "\";"@,
                "Set Intel PRIME bus ID"@,
            )
            &&& gpus[j].vendor == GpuVendor::Amd ==> changes(
                steps[8],
                module,
                "#\\s*"@ + "amdgpuBusId"@ + "\\s*=.*"@,
                "amdgpuBusId"@ + " = \""@ + gpus[j].bus_id + "\";"@,
                "Set AMD PRIME bus ID"@,
            )
        }),
{
    lemma_first_from_at(gpus, GpuVendor::Nvidia, GpuVendor::Nvidia, i);
    assert forall|k: int| 0 <= k < j implies (#[trigger] gpus[k]).vendor != GpuVendor::Intel
        && gpus[k].vendor != GpuVendor::Amd by {
        assert(!is_integrated(gpus[k]));
    }
    lemma_first_from_at(gpus, GpuVendor::Intel, GpuVendor::Amd, j);
    reveal_strlit("\\s*=.*");
    reveal_strlit("#\\s*");
    reveal_strlit(" = \"");
    reveal_strlit("nvidiaBusId");
    reveal_strlit(r"nvidiaBusId\s*=.*");
    reveal_strlit("nvidiaBusId = \"");
    reveal_strlit("intelBusId");
    reveal_strlit(r"#\s*intelBusId\s*=.*");
    reveal_strlit("intelBusId = \"");
    reveal_strlit("amdgpuBusId");
    reveal_strlit(r"#\s*amdgpuBusId\s*=.*");
    reveal_strlit("amdgpuBusId = \"");
    assert("nvidiaBusId"@ + "\\s*=.*"@ =~= r"nvidiaBusId\s*=.*"@);
    assert("nvidiaBusId"@ + " = \""@ =~= "nvidiaBusId = \""@);
    assert("#\\s*"@ + "intelBusId"@ + "\\s*=.*"@ =~= r"#\s*intelBusId\s*=.*"@);
    assert("intelBusId"@ + " = \""@ =~= "intelBusId = \""@);
    assert("#\\s*"@ + "amdgpuBusId"@ + "\\s*=.*"@ =~= r"#\s*amdgpuBusId\s*=.*"@);
    assert("amdgpuBusId"@ + " = \""@ =~= "amdgpuBusId = \""@);
}

/// Text between the same quotes is the same only if it was the same.
pub proof fn lemma_between(lead: Seq<char>, a: Seq<char>, b: Seq<char>, trail: Seq<char>)
    requires
        lead + a + trail == lead + b + trail,
    ensures
        a == b,
{
    let x = lead + a + trail;
    let y = lead + b + trail;
    assert(x.len() == y.len());
    assert(x.subrange(lead.len() as int, lead.len() as int + a.len()) =~= a);
    assert(y.subrange(lead.len() as int, lead.len() as int + b.len()) =~= b);
}

/// PRIME tells machines apart: hybrids whose first NVIDIA devices, or whose first
/// integrated ones, have different bus IDs are configured differently.
pub proof fn law_prime_tells_machines_apart(
    gpus: Seq<GpuDeviceView>,
    i: int,
    j: int,
    others: Seq<GpuDeviceView>,
    k: int,
    l: int,
)
    requires
        first_nvidia(gpus, i),
        first_integrated(gpus, j),
        first_nvidia(others, k),
        first_integrated(others, l),
        gpus[i].bus_id != others[k].bus_id || gpus[j].bus_id != others[l].bus_id,
    ensures
        gpu_nix_steps(gpus, true) != gpu_nix_steps(others, true),
{
    law_prime_gets_the_bus_ids(gpus, i, j);
    law_prime_gets_the_bus_ids(others, k, l);
    if gpu_nix_steps(gpus, true) == gpu_nix_steps(others, true) {
        lemma_between("nvidiaBusId"@ + " = \""@, gpus[i].bus_id, others[k].bus_id, "\";"@);
        if gpus[j].vendor == others[l].vendor {
            let name = if gpus[j].vendor == GpuVendor::Intel {
                "intelBusId"@
            } else {
                "amdgpuBusId"@
            };
            lemma_between(name + " = \""@, gpus[j].bus_id, others[l].bus_id, "\";"@);
        } else {
            reveal_strlit("#\\s*");
            reveal_strlit("\\s*=.*");
            reveal_strlit("intelBusId");
            reveal_strlit("amdgpuBusId");
            assert(("#\\s*"@ + "intelBusId"@ + "\\s*=.*"@).len() != ("#\\s*"@ + "amdgpuBusId"@
                + "\\s*=.*"@).len());
        }
    }
}

/// Without an NVIDIA device, and on other systems than NixOS, the graphics module is
/// left alone.
pub proof fn law_other_graphics_are_left_alone(gpus: Seq<GpuDeviceView>, nix: bool)
    requires
        !nix || forall|k: int|
            0 <= k < gpus.len() ==> (#[trigger] gpus[k]).vendor != GpuVendor::Nvidia,
    ensures
        gpu_nix_steps(gpus, nix).len() == 0,
{
    if nix {
        lemma_first_from_none(gpus, GpuVendor::Nvidia, GpuVendor::Nvidia);
    }
}

/// The hardware module turns on updates of the microcode of the vendor that the
/// processor is from, in place of the assignment for Intel that it holds; Intel
/// goes first where both are named. Other processors, Arch Linux and systems other
/// than NixOS are left alone.
pub proof fn law_microcode_is_of_the_vendor(vendor: Seq<char>, arch: bool, nix: bool)
    ensures
        ({
            let steps = cpu_steps(vendor, arch, nix);
            let module = "/mnt/etc/nixos/modules/hardware/default.nix"@;
            let intel = mentions(vendor, "Intel"@);
            let amd = mentions(vendor, "AMD"@);
            let wanted = nix && !arch && (intel || amd);
            &&& steps.len() == if wanted {
                1nat
            } else {
                0
            }
            &&& wanted && intel ==> assigns(
                steps[0],
                module,
                "cpu.intel.updateMicrocode"@,
                "true"@,
                "Enable Intel ucode"@,
            )
            &&& wanted && !intel ==> changes(
                steps[0],
                module,
                "cpu.intel.updateMicrocode"@ + " =.*"@,
                "cpu.amd.updateMicrocode"@ + " = "@ + "true"@ + ";"@,
                "Enable AMD ucode"@,
            )
        }),
{
    reveal_strlit(" =.*");
    reveal_strlit(" = ");
    reveal_strlit(";");
    reveal_strlit("true");
    reveal_strlit("cpu.intel.updateMicrocode");
    reveal_strlit("cpu.intel.updateMicrocode =.*");
    reveal_strlit("cpu.intel.updateMicrocode = true;");
    reveal_strlit("cpu.amd.updateMicrocode");
    reveal_strlit("cpu.amd.updateMicrocode = true;");
    assert("cpu.intel.updateMicrocode"@ + " =.*"@ =~= "cpu.intel.updateMicrocode =.*"@);
    assert("cpu.intel.updateMicrocode"@ + " = "@ + "true"@ + ";"@
        =~= "cpu.intel.updateMicrocode = true;"@);
    assert("cpu.amd.updateMicrocode"@ + " = "@ + "true"@ + ";"@
        =~= "cpu.amd.updateMicrocode = true;"@);
}

/// The locale module gets the names of the layout where it names the American one:
/// that of the console, that of X11 and, where there is one, the variant, which it
/// holds empty.
pub proof fn law_nix_keyboard_is_the_one_chosen(keymap: KeymapView)
    ensures
        ({
            let steps = keyboard_steps(keymap, true);
            let module = "/mnt/etc/nixos/hosts/locale/default.nix"@;
            &&& steps.len() == if keymap.xkb_variant is Some {
                3nat
            } else {
                2
            }
            &&& fills_in(
                steps[0],
                module,
                "keyMap = \""@,
                "us"@,
                keymap.console,
                "Set Console Keyboard Layout (NixOS)"@,
            )
            &&& fills_in(
                steps[1],
                module,
                "layout = \""@,
                "us"@,
                keymap.xkb_layout,
                "Set X11 Keyboard Layout (NixOS)"@,
            )
            &&& keymap.xkb_variant matches Some(variant) ==> fills_in(
                steps[2],
                module,
                "variant = \""@,
                ""@,
                variant,
                "Set X11 Keyboard Variant (NixOS)"@,
            )
        }),
{
    reveal_strlit("us");
    reveal_strlit("");
    reveal_strlit("\";");
    reveal_strlit("keyMap = \"");
    reveal_strlit("keyMap = \"us\";");
    reveal_strlit("layout = \"");
    reveal_strlit("layout = \"us\";");
    reveal_strlit("variant = \"");
    reveal_strlit("variant = \"\";");
    assert("keyMap = \""@ + "us"@ + "\";"@ =~= "keyMap = \"us\";"@);
    assert("layout = \""@ + "us"@ + "\";"@ =~= "layout = \"us\";"@);
    assert("variant = \""@ + ""@ + "\";"@ =~= "variant = \"\";"@);
}

/// The locale module gets the time zone in place of the one that it names, and of
/// the locales that are listed the first one in place of American English.
pub proof fn law_nix_place_is_the_one_chosen(
    timezone: Seq<char>,
    lead: Seq<char>,
    name: Seq<char>,
    rest: Seq<char>,
)
    requires
        is_blank(lead),
        is_solid(name),
        name.len() == 0 ==> rest.len() == 0,
        rest.len() > 0 ==> is_space(rest[0]),
    ensures
        ({
            let module = "/mnt/etc/nixos/hosts/locale/default.nix"@;
            let zone = timezone_steps(timezone, true);
            let language = locale_steps(lead + name + rest, true);
            &&& zone.len() == 1
            &&& changes(zone[0], module, "Europe/Zurich"@, timezone, "Set Timezone"@)
            &&& language.len() == 1
            &&& changes(
                language[0],
                module,
                "en_US.UTF-8"@,
                if name.len() > 0 {
                    name
                } else {
                    "en_US.UTF-8"@
                },
                "Set Locale"@,
            )
        }),
{
    law_nix_takes_the_first_locale(lead, name, rest);
}

} // verus!
