//! Graphics: the packages that the display devices of a machine call for, and the
//! NixOS configuration of NVIDIA ones.

use vstd::prelude::*;
use vstd::string::*;

use crate::pci::{detect_gpus, detected, devices_view, GpuDevice, GpuDeviceView, GpuVendor};
use crate::plan::{sed_step, Plan, StepView};
use crate::text::{
    add_name, contains, contains_any, join, joined, mentions, mentions_any, same, texts,
};

verus! {

/// The NixOS module that configures graphics.
pub const NIX_GRAPHICS: &'static str = "/mnt/etc/nixos/modules/hardware/graphics/default.nix";

/// A family of NVIDIA chips that one driver serves.
#[derive(Debug, Clone, Copy, PartialEq, Eq, Structural)]
pub enum Family {
    Maxwell,
    Turing,
    Kepler,
    Fermi,
    Tesla,
}

/// The codenames of the chips of a family.
pub open spec fn chips(family: Family) -> Seq<Seq<char>> {
    match family {
        Family::Maxwell => seq!["GM107"@, "GM108"@, "GM200"@, "GM204"@, "GM206"@, "GM20B"@],
        Family::Turing => seq!["TU102"@, "TU104"@, "TU106"@, "TU116"@, "TU117"@],
        Family::Kepler => seq![
            "GK104"@,
            "GK107"@,
            "GK106"@,
            "GK110"@,
            "GK110B"@,
            "GK208B"@,
            "GK208"@,
            "GK20A"@,
            "GK210"@,
        ],
        Family::Fermi => seq![
            "GF100"@,
            "GF108"@,
            "GF106"@,
            "GF104"@,
            "GF110"@,
            "GF114"@,
            "GF116"@,
            "GF117"@,
            "GF119"@,
        ],
        Family::Tesla => seq![
            "G80"@,
            "G84"@,
            "G86"@,
            "G92"@,
            "G94"@,
            "G96"@,
            "G98"@,
            "GT200"@,
            "GT215"@,
            "GT216"@,
            "GT218"@,
            "MCP77"@,
            "MCP78"@,
            "MCP79"@,
            "MCP7A"@,
            "MCP89"@,
        ],
    }
}

/// One of three names: for the kernel `linux`, for `linux-lts`, for any other.
pub open spec fn by_kernel(
    kernel: Seq<char>,
    linux: Seq<char>,
    lts: Seq<char>,
    other: Seq<char>,
) -> Seq<char> {
    if kernel == "linux"@ {
        linux
    } else if kernel == "linux-lts"@ {
        lts
    } else {
        other
    }
}

/// The driver of a family and the settings tool that goes with it.
pub open spec fn driver(family: Family, kernel: Seq<char>) -> Seq<Seq<char>> {
    match family {
        Family::Maxwell | Family::Turing => seq![
            by_kernel(kernel, "nvidia-open"@, "nvidia-open-lts"@, "nvidia-open-dkms"@),
            "nvidia-settings"@,
        ],
        Family::Kepler => seq!["nvidia-470xx-dkms"@, "nvidia-470xx-settings"@],
        Family::Fermi => seq!["nvidia-390xx-dkms"@, "nvidia-390xx-settings"@],
        Family::Tesla => seq![
            by_kernel(kernel, "nvidia-340xx"@, "nvidia-340xx-lts"@, "nvidia-340xx-lts-dkms"@),
            "nvidia-340xx-settings"@,
        ],
    }
}

/// Whether a chip of `family` is named in `text`.
pub open spec fn names_family(text: Seq<char>, family: Family) -> bool {
    mentions_any(text, chips(family))
}

/// The driver of `family` where a chip of it is named in `text`.
pub open spec fn driver_if_named(
    text: Seq<char>,
    family: Family,
    kernel: Seq<char>,
) -> Seq<Seq<char>> {
    if names_family(text, family) {
        driver(family, kernel)
    } else {
        seq![]
    }
}

/// Whether a chip of any family is named in `text`.
pub open spec fn names_some_family(text: Seq<char>) -> bool {
    exists|family: Family| names_family(text, family)
}

/// The drivers for the NVIDIA devices whose descriptions `text` holds: those of
/// every family that is named, or the open driver where none is.
pub open spec fn drivers(text: Seq<char>, kernel: Seq<char>) -> Seq<Seq<char>> {
    if names_some_family(text) {
        driver_if_named(text, Family::Maxwell, kernel) + driver_if_named(
            text,
            Family::Turing,
            kernel,
        ) + driver_if_named(text, Family::Kepler, kernel) + driver_if_named(
            text,
            Family::Fermi,
            kernel,
        ) + driver_if_named(text, Family::Tesla, kernel)
    } else {
        seq!["nvidia-open-dkms"@, "nvidia-settings"@]
    }
}

/// Whether a device is from `vendor`.
pub open spec fn has_vendor(gpus: Seq<GpuDeviceView>, vendor: GpuVendor) -> bool {
    exists|i: int| 0 <= i < gpus.len() && (#[trigger] gpus[i]).vendor == vendor
}

/// Whether a device is from AMD and describes itself as such.
pub open spec fn has_amd(gpus: Seq<GpuDeviceView>) -> bool {
    exists|i: int|
        0 <= i < gpus.len() && (#[trigger] gpus[i]).vendor == GpuVendor::Amd && mentions(
            gpus[i].description,
            "AMD"@,
        )
}

/// Whether a device describes itself as one from ATI and not from AMD.
pub open spec fn has_ati(gpus: Seq<GpuDeviceView>) -> bool {
    exists|i: int|
        0 <= i < gpus.len() && mentions((#[trigger] gpus[i]).description, "ATI"@) && !mentions(
            gpus[i].description,
            "AMD"@,
        )
}

/// Whether a device is from a vendor of integrated graphics.
pub open spec fn has_integrated(gpus: Seq<GpuDeviceView>) -> bool {
    has_vendor(gpus, GpuVendor::Intel) || has_vendor(gpus, GpuVendor::Amd)
}

/// The descriptions of the NVIDIA devices, in their order.
pub open spec fn nvidia_descriptions(gpus: Seq<GpuDeviceView>) -> Seq<Seq<char>>
    decreases gpus.len(),
{
    if gpus.len() == 0 {
        seq![]
    } else if gpus.last().vendor == GpuVendor::Nvidia {
        nvidia_descriptions(gpus.drop_last()).push(gpus.last().description)
    } else {
        nvidia_descriptions(gpus.drop_last())
    }
}

/// The descriptions of the NVIDIA devices as one text.
pub open spec fn nvidia_text(gpus: Seq<GpuDeviceView>) -> Seq<char> {
    joined(nvidia_descriptions(gpus), " "@)
}

/// What NVIDIA devices call for.
pub open spec fn nvidia_packages(gpus: Seq<GpuDeviceView>, kernel: Seq<char>) -> Seq<Seq<char>> {
    drivers(nvidia_text(gpus), kernel) + seq!["opencl-nvidia"@, "gwe"@, "nvtop"@] + (
    if has_integrated(gpus) {
        seq!["envycontrol"@]
    } else {
        seq![]
    })
}

/// The packages that the display devices of a machine call for.
pub open spec fn gpu_packages(gpus: Seq<GpuDeviceView>, kernel: Seq<char>) -> Seq<Seq<char>> {
    (if has_amd(gpus) {
        seq!["xf86-video-amdgpu"@, "opencl-amd"@]
    } else {
        seq![]
    }) + (if has_ati(gpus) {
        seq!["opencl-mesa"@]
    } else {
        seq![]
    }) + (if has_vendor(gpus, GpuVendor::Nvidia) {
        nvidia_packages(gpus, kernel)
    } else {
        seq![]
    })
}

/// The first of `gpus` from one of two vendors.
pub open spec fn first_from(
    gpus: Seq<GpuDeviceView>,
    vendor: GpuVendor,
    other: GpuVendor,
) -> Option<GpuDeviceView>
    decreases gpus.len(),
{
    if gpus.len() == 0 {
        None
    } else if gpus[0].vendor == vendor || gpus[0].vendor == other {
        Some(gpus[0])
    } else {
        first_from(gpus.skip(1), vendor, other)
    }
}

/// The changes to the NixOS graphics module that any NVIDIA device calls for.
pub open spec fn nvidia_steps() -> Seq<StepView> {
    seq![
        sed_step(
            NIX_GRAPHICS@,
            "modesetting.enable =.*"@,
            "modesetting.enable = true;"@,
            "Enable NVIDIA modesetting"@,
        ),
        sed_step(
            NIX_GRAPHICS@,
            "powerManagement.enable =.*"@,
            "powerManagement.enable = true;"@,
            "Enable NVIDIA power management"@,
        ),
        sed_step(
            NIX_GRAPHICS@,
            r"\bopen\s*=.*"@,
            "open = true;"@,
            "Enable NVIDIA open kernel modules"@,
        ),
        sed_step(
            NIX_GRAPHICS@,
            "nvidiaSettings =.*"@,
            "nvidiaSettings = true;"@,
            "Enable nvidia-settings menu"@,
        ),
        sed_step(
            NIX_GRAPHICS@,
            r"#\s*package = config\.boot\.kernelPackages\.nvidiaPackages\.stable;"@,
            "package = config.boot.kernelPackages.nvidiaPackages.stable;"@,
            "Uncomment NVIDIA driver package"@,
        ),
        sed_step(
            NIX_GRAPHICS@,
            "#\\s*services\\.xserver\\.videoDrivers = \\[ \"modesetting\" \"nvidia\" \\];"@,
            "services.xserver.videoDrivers = [ \"modesetting\" \"nvidia\" ];"@,
            "Uncomment NVIDIA video drivers"@,
        ),
    ]
}

/// The changes for an NVIDIA device beside integrated graphics: PRIME
/// synchronisation and the bus IDs of both.
pub open spec fn prime_steps(nvidia: GpuDeviceView, integrated: GpuDeviceView) -> Seq<StepView> {
    seq![
        sed_step(
            NIX_GRAPHICS@,
            r"sync\.enable\s*=.*"@,
            "sync.enable = true;"@,
            "Enable NVIDIA PRIME sync"@,
        ),
        sed_step(
            NIX_GRAPHICS@,
            r"nvidiaBusId\s*=.*"@,
            "nvidiaBusId = \""@ + nvidia.bus_id + "\";"@,
            "Set NVIDIA PRIME bus ID"@,
        ),
        if integrated.vendor == GpuVendor::Intel {
            sed_step(
                NIX_GRAPHICS@,
                r"#\s*intelBusId\s*=.*"@,
                "intelBusId = \""@ + integrated.bus_id + "\";"@,
                "Set Intel PRIME bus ID"@,
            )
        } else {
            sed_step(
                NIX_GRAPHICS@,
                r"#\s*amdgpuBusId\s*=.*"@,
                "amdgpuBusId = \""@ + integrated.bus_id + "\";"@,
                "Set AMD PRIME bus ID"@,
            )
        },
    ]
}

/// What configuring the display devices of a NixOS machine comes to.
pub open spec fn gpu_nix_steps(gpus: Seq<GpuDeviceView>, nix: bool) -> Seq<StepView> {
    match first_from(gpus, GpuVendor::Nvidia, GpuVendor::Nvidia) {
        Some(nvidia) if nix => nvidia_steps() + (
        match first_from(gpus, GpuVendor::Intel, GpuVendor::Amd) {
            Some(integrated) => prime_steps(nvidia, integrated),
            None => seq![],
        }),
        _ => seq![],
    }
}

/// The codenames of the chips of a family.
fn chip_names(family: Family) -> (names: Vec<&'static str>)
    ensures
        texts(names@) == chips(family),
{
    match family {
        Family::Maxwell => vec!["GM107", "GM108", "GM200", "GM204", "GM206", "GM20B"],
        Family::Turing => vec!["TU102", "TU104", "TU106", "TU116", "TU117"],
        Family::Kepler => vec![
            "GK104", "GK107", "GK106", "GK110", "GK110B", "GK208B", "GK208", "GK20A", "GK210",
        ],
        Family::Fermi => vec![
            "GF100", "GF108", "GF106", "GF104", "GF110", "GF114", "GF116", "GF117", "GF119",
        ],
        Family::Tesla => vec![
            "G80", "G84", "G86", "G92", "G94", "G96", "G98", "GT200", "GT215", "GT216", "GT218",
            "MCP77", "MCP78", "MCP79", "MCP7A", "MCP89",
        ],
    }
}

/// One of three names: for the kernel `linux`, for `linux-lts`, for any other.
fn pick_by_kernel(
    kernel: &str,
    linux: &'static str,
    lts: &'static str,
    other: &'static str,
) -> (name: &'static str)
    ensures
        name@ == by_kernel(kernel@, linux@, lts@, other@),
{
    if same(kernel, "linux") {
        linux
    } else if same(kernel, "linux-lts") {
        lts
    } else {
        other
    }
}

/// Adds the driver of a family and the settings tool that goes with it.
fn add_driver(packages: &mut Vec<&'static str>, family: Family, kernel: &str)
    ensures
        texts(final(packages)@) == texts(old(packages)@) + driver(family, kernel@),
{
    match family {
        Family::Maxwell | Family::Turing => {
            add_name(
                packages,
                pick_by_kernel(kernel, "nvidia-open", "nvidia-open-lts", "nvidia-open-dkms"),
            );
            add_name(packages, "nvidia-settings");
        },
        Family::Kepler => {
            add_name(packages, "nvidia-470xx-dkms");
            add_name(packages, "nvidia-470xx-settings");
        },
        Family::Fermi => {
            add_name(packages, "nvidia-390xx-dkms");
            add_name(packages, "nvidia-390xx-settings");
        },
        Family::Tesla => {
            add_name(
                packages,
                pick_by_kernel(kernel, "nvidia-340xx", "nvidia-340xx-lts", "nvidia-340xx-lts-dkms"),
            );
            add_name(packages, "nvidia-340xx-settings");
        },
    }
    assert(texts(packages@) =~= texts(old(packages)@) + driver(family, kernel@));
}

/// Adds the driver of a family where a chip of it is named in `text`, and says
/// whether one is.
fn add_driver_if_named(
    packages: &mut Vec<&'static str>,
    text: &str,
    family: Family,
    kernel: &str,
) -> (named: bool)
    ensures
        named == names_family(text@, family),
        texts(final(packages)@) == texts(old(packages)@) + driver_if_named(
            text@,
            family,
            kernel@,
        ),
{
    let names = chip_names(family);
    let named = contains_any(text, &names);
    if named {
        add_driver(packages, family, kernel);
    }
    assert(texts(packages@) =~= texts(old(packages)@) + driver_if_named(text@, family, kernel@));
    named
}

/// Adds the drivers for the NVIDIA devices whose descriptions `text` holds.
fn add_drivers(packages: &mut Vec<&'static str>, text: &str, kernel: &str)
    ensures
        texts(final(packages)@) == texts(old(packages)@) + drivers(text@, kernel@),
{
    let maxwell = add_driver_if_named(packages, text, Family::Maxwell, kernel);
    let turing = add_driver_if_named(packages, text, Family::Turing, kernel);
    let kepler = add_driver_if_named(packages, text, Family::Kepler, kernel);
    let fermi = add_driver_if_named(packages, text, Family::Fermi, kernel);
    let tesla = add_driver_if_named(packages, text, Family::Tesla, kernel);
    if !(maxwell || turing || kepler || fermi || tesla) {
        assert forall|family: Family| !names_family(text@, family) by {
            match family {
                Family::Maxwell => {},
                Family::Turing => {},
                Family::Kepler => {},
                Family::Fermi => {},
                Family::Tesla => {},
            }
        }
        add_name(packages, "nvidia-open-dkms");
        add_name(packages, "nvidia-settings");
    } else {
        assert(names_some_family(text@));
    }
    assert(texts(packages@) =~= texts(old(packages)@) + drivers(text@, kernel@));
}

/// Whether a device is from `vendor`.
fn any_from(gpus: &Vec<GpuDevice>, vendor: GpuVendor) -> (yes: bool)
    ensures
        yes == has_vendor(devices_view(gpus@), vendor),
{
    let mut k: usize = 0;
    while k < gpus.len()
        invariant
            k <= gpus@.len(),
            forall|i: int| 0 <= i < k ==> (#[trigger] devices_view(gpus@)[i]).vendor != vendor,
        decreases gpus@.len() - k,
    {
        if gpus[k].vendor == vendor {
            assert(devices_view(gpus@)[k as int].vendor == vendor);
            return true;
        }
        k = k + 1;
    }
    false
}

/// Whether a device is from AMD and describes itself as such.
fn any_amd(gpus: &Vec<GpuDevice>) -> (yes: bool)
    ensures
        yes == has_amd(devices_view(gpus@)),
{
    let ghost all = devices_view(gpus@);
    let mut k: usize = 0;
    while k < gpus.len()
        invariant
            k <= gpus@.len(),
            all == devices_view(gpus@),
            forall|i: int|
                0 <= i < k ==> !((#[trigger] all[i]).vendor == GpuVendor::Amd && mentions(
                    all[i].description,
                    "AMD"@,
                )),
        decreases gpus@.len() - k,
    {
        if gpus[k].vendor == GpuVendor::Amd && contains(gpus[k].description.as_str(), "AMD") {
            assert(all[k as int].vendor == GpuVendor::Amd);
            return true;
        }
        k = k + 1;
    }
    false
}

/// Whether a device describes itself as one from ATI and not from AMD.
fn any_ati(gpus: &Vec<GpuDevice>) -> (yes: bool)
    ensures
        yes == has_ati(devices_view(gpus@)),
{
    let ghost all = devices_view(gpus@);
    let mut k: usize = 0;
    while k < gpus.len()
        invariant
            k <= gpus@.len(),
            all == devices_view(gpus@),
            forall|i: int|
                0 <= i < k ==> !(mentions((#[trigger] all[i]).description, "ATI"@) && !mentions(
                    all[i].description,
                    "AMD"@,
                )),
        decreases gpus@.len() - k,
    {
        if contains(gpus[k].description.as_str(), "ATI") && !contains(
            gpus[k].description.as_str(),
            "AMD",
        ) {
            assert(mentions(all[k as int].description, "ATI"@));
            return true;
        }
        k = k + 1;
    }
    false
}

/// The descriptions of the NVIDIA devices as one text.
fn describe_nvidia(gpus: &Vec<GpuDevice>) -> (text: String)
    ensures
        text@ == nvidia_text(devices_view(gpus@)),
{
    let ghost all = devices_view(gpus@);
    let mut descriptions: Vec<&str> = Vec::new();
    let mut k: usize = 0;
    while k < gpus.len()
        invariant
            k <= gpus@.len(),
            all == devices_view(gpus@),
            texts(descriptions@) == nvidia_descriptions(all.take(k as int)),
        decreases gpus@.len() - k,
    {
        let ghost before = texts(descriptions@);
        assert(all.take(k + 1).drop_last() =~= all.take(k as int));
        if gpus[k].vendor == GpuVendor::Nvidia {
            descriptions.push(gpus[k].description.as_str());
            assert(texts(descriptions@) =~= before.push(all[k as int].description));
        }
        k = k + 1;
    }
    assert(all.take(k as int) =~= all);
    join(&descriptions, " ")
}

/// The packages that the display devices of a machine call for.
pub fn packages_for(gpus: &Vec<GpuDevice>, kernel: &str) -> (packages: Vec<&'static str>)
    ensures
        texts(packages@) == gpu_packages(devices_view(gpus@), kernel@),
{
    let mut packages: Vec<&'static str> = Vec::new();
    if any_amd(gpus) {
        add_name(&mut packages, "xf86-video-amdgpu");
        add_name(&mut packages, "opencl-amd");
    }
    if any_ati(gpus) {
        add_name(&mut packages, "opencl-mesa");
    }
    if any_from(gpus, GpuVendor::Nvidia) {
        let text = describe_nvidia(gpus);
        add_drivers(&mut packages, text.as_str(), kernel);
        add_name(&mut packages, "opencl-nvidia");
        add_name(&mut packages, "gwe");
        add_name(&mut packages, "nvtop");
        if any_from(gpus, GpuVendor::Intel) || any_from(gpus, GpuVendor::Amd) {
            add_name(&mut packages, "envycontrol");
        }
    }
    assert(texts(packages@) =~= gpu_packages(devices_view(gpus@), kernel@));
    packages
}

/// The packages that the display devices of a machine call for, by what
/// `lspci -D -nn` printed.
pub fn gpu_check(lspci: Option<&[u8]>, kernel: &str) -> (packages: Vec<&'static str>)
    ensures
        texts(packages@) == gpu_packages(detected(lspci), kernel@),
{
    let gpus = detect_gpus(lspci);
    packages_for(&gpus, kernel)
}

/// The first of `gpus` from one of two vendors.
fn find_from(gpus: &Vec<GpuDevice>, vendor: GpuVendor, other: GpuVendor) -> (found: Option<
    &GpuDevice,
>)
    ensures
        match found {
            Some(device) => first_from(devices_view(gpus@), vendor, other) == Some(device@),
            None => first_from(devices_view(gpus@), vendor, other) is None,
        },
{
    let ghost all = devices_view(gpus@);
    let mut k: usize = 0;
    assert(all.skip(0) =~= all);
    while k < gpus.len()
        invariant
            k <= gpus@.len(),
            all == devices_view(gpus@),
            first_from(all, vendor, other) == first_from(all.skip(k as int), vendor, other),
        decreases gpus@.len() - k,
    {
        assert(all.skip(k as int)[0] == gpus@[k as int]@);
        if gpus[k].vendor == vendor || gpus[k].vendor == other {
            return Some(&gpus[k]);
        }
        assert(all.skip(k as int).skip(1) =~= all.skip(k + 1));
        k = k + 1;
    }
    None
}

/// Adds the changes that any NVIDIA device calls for.
fn add_nvidia(plan: &mut Plan)
    ensures
        final(plan)@ == old(plan)@ + nvidia_steps(),
{
    plan.sed(
        NIX_GRAPHICS,
        "modesetting.enable =.*",
        "modesetting.enable = true;",
        "Enable NVIDIA modesetting",
    );
    plan.sed(
        NIX_GRAPHICS,
        "powerManagement.enable =.*",
        "powerManagement.enable = true;",
        "Enable NVIDIA power management",
    );
    plan.sed(
        NIX_GRAPHICS,
        r"\bopen\s*=.*",
        "open = true;",
        "Enable NVIDIA open kernel modules",
    );
    plan.sed(
        NIX_GRAPHICS,
        "nvidiaSettings =.*",
        "nvidiaSettings = true;",
        "Enable nvidia-settings menu",
    );
    plan.sed(
        NIX_GRAPHICS,
        r"#\s*package = config\.boot\.kernelPackages\.nvidiaPackages\.stable;",
        "package = config.boot.kernelPackages.nvidiaPackages.stable;",
        "Uncomment NVIDIA driver package",
    );
    plan.sed(
        NIX_GRAPHICS,
        "#\\s*services\\.xserver\\.videoDrivers = \\[ \"modesetting\" \"nvidia\" \\];",
        "services.xserver.videoDrivers = [ \"modesetting\" \"nvidia\" ];",
        "Uncomment NVIDIA video drivers",
    );
    assert(plan@ =~= old(plan)@ + nvidia_steps());
}

/// The assignment of a bus ID in the graphics module.
fn assign(name: &str, bus_id: &str) -> (line: String)
    ensures
        line@ == name@ + bus_id@ + "\";"@,
{
    name.to_string().concat(bus_id).concat("\";")
}

/// Adds the changes for an NVIDIA device beside integrated graphics.
fn add_prime(plan: &mut Plan, nvidia: &GpuDevice, integrated: &GpuDevice)
    ensures
        final(plan)@ == old(plan)@ + prime_steps(nvidia@, integrated@),
{
    plan.sed(
        NIX_GRAPHICS,
        r"sync\.enable\s*=.*",
        "sync.enable = true;",
        "Enable NVIDIA PRIME sync",
    );
    plan.sed(
        NIX_GRAPHICS,
        r"nvidiaBusId\s*=.*",
        assign("nvidiaBusId = \"", nvidia.bus_id.as_str()).as_str(),
        "Set NVIDIA PRIME bus ID",
    );
    if integrated.vendor == GpuVendor::Intel {
        plan.sed(
            NIX_GRAPHICS,
            r"#\s*intelBusId\s*=.*",
            assign("intelBusId = \"", integrated.bus_id.as_str()).as_str(),
            "Set Intel PRIME bus ID",
        );
    } else {
        plan.sed(
            NIX_GRAPHICS,
            r"#\s*amdgpuBusId\s*=.*",
            assign("amdgpuBusId = \"", integrated.bus_id.as_str()).as_str(),
            "Set AMD PRIME bus ID",
        );
    }
    assert(plan@ =~= old(plan)@ + prime_steps(nvidia@, integrated@));
}

/// Configures the display devices of a NixOS machine.
pub fn configure_gpus(gpus: &Vec<GpuDevice>, nix: bool) -> (plan: Plan)
    ensures
        plan@ == gpu_nix_steps(devices_view(gpus@), nix),
{
    let mut plan = Plan::new();
    match find_from(gpus, GpuVendor::Nvidia, GpuVendor::Nvidia) {
        Some(nvidia) => {
            if nix {
                add_nvidia(&mut plan);
                match find_from(gpus, GpuVendor::Intel, GpuVendor::Amd) {
                    Some(integrated) => {
                        add_prime(&mut plan, nvidia, integrated);
                    },
                    None => {},
                }
            }
        },
        None => {},
    }
    assert(plan@ =~= gpu_nix_steps(devices_view(gpus@), nix));
    plan
}

/// Configures the display devices of a NixOS machine, by what `lspci -D -nn`
/// printed.
pub fn gpu_check_nix(lspci: Option<&[u8]>, nix: bool) -> (plan: Plan)
    ensures
        plan@ == gpu_nix_steps(detected(lspci), nix),
{
    let gpus = detect_gpus(lspci);
    configure_gpus(&gpus, nix)
}

} // verus!
