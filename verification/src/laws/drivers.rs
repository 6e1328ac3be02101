//! Which chip gets which driver, and which package comes when.

use vstd::prelude::*;

use crate::gpu::{
    chips, driver_if_named, drivers, gpu_packages, has_amd, has_ati, has_integrated,
    has_vendor, names_family, names_some_family, nvidia_packages, nvidia_text, Family,
};
use crate::laws::graphics::law_families_are_named_by_devices;
use crate::pci::{GpuDeviceView, GpuVendor};
use crate::text::mentions;

verus! {

/// Whether an NVIDIA device names the chip in its description.
pub open spec fn has_chip(gpus: Seq<GpuDeviceView>, chip: Seq<char>) -> bool {
    exists|i: int|
        0 <= i < gpus.len() && (#[trigger] gpus[i]).vendor == GpuVendor::Nvidia && mentions(
            gpus[i].description,
            chip,
        )
}

/// Whether an NVIDIA device is of the generation of 2014.
#[verifier::opaque]
pub open spec fn has_maxwell(gpus: Seq<GpuDeviceView>) -> bool {
    ||| has_chip(gpus, "GM107"@)
    ||| has_chip(gpus, "GM108"@)
    ||| has_chip(gpus, "GM200"@)
    ||| has_chip(gpus, "GM204"@)
    ||| has_chip(gpus, "GM206"@)
    ||| has_chip(gpus, "GM20B"@)
}

/// Whether an NVIDIA device is of the generation of 2018.
#[verifier::opaque]
pub open spec fn has_turing(gpus: Seq<GpuDeviceView>) -> bool {
    ||| has_chip(gpus, "TU102"@)
    ||| has_chip(gpus, "TU104"@)
    ||| has_chip(gpus, "TU106"@)
    ||| has_chip(gpus, "TU116"@)
    ||| has_chip(gpus, "TU117"@)
}

/// Whether an NVIDIA device is of the generation of 2012.
#[verifier::opaque]
pub open spec fn has_kepler(gpus: Seq<GpuDeviceView>) -> bool {
    ||| has_chip(gpus, "GK104"@)
    ||| has_chip(gpus, "GK106"@)
    ||| has_chip(gpus, "GK107"@)
    ||| has_chip(gpus, "GK110"@)
    ||| has_chip(gpus, "GK110B"@)
    ||| has_chip(gpus, "GK208"@)
    ||| has_chip(gpus, "GK208B"@)
    ||| has_chip(gpus, "GK20A"@)
    ||| has_chip(gpus, "GK210"@)
}

/// Whether an NVIDIA device is of the generation of 2010.
#[verifier::opaque]
pub open spec fn has_fermi(gpus: Seq<GpuDeviceView>) -> bool {
    ||| has_chip(gpus, "GF100"@)
    ||| has_chip(gpus, "GF104"@)
    ||| has_chip(gpus, "GF106"@)
    ||| has_chip(gpus, "GF108"@)
    ||| has_chip(gpus, "GF110"@)
    ||| has_chip(gpus, "GF114"@)
    ||| has_chip(gpus, "GF116"@)
    ||| has_chip(gpus, "GF117"@)
    ||| has_chip(gpus, "GF119"@)
}

/// Whether an NVIDIA device is of the generation of 2006.
#[verifier::opaque]
pub open spec fn has_tesla(gpus: Seq<GpuDeviceView>) -> bool {
    ||| has_chip(gpus, "G80"@)
    ||| has_chip(gpus, "G84"@)
    ||| has_chip(gpus, "G86"@)
    ||| has_chip(gpus, "G92"@)
    ||| has_chip(gpus, "G94"@)
    ||| has_chip(gpus, "G96"@)
    ||| has_chip(gpus, "G98"@)
    ||| has_chip(gpus, "GT200"@)
    ||| has_chip(gpus, "GT215"@)
    ||| has_chip(gpus, "GT216"@)
    ||| has_chip(gpus, "GT218"@)
    ||| has_chip(gpus, "MCP77"@)
    ||| has_chip(gpus, "MCP78"@)
    ||| has_chip(gpus, "MCP79"@)
    ||| has_chip(gpus, "MCP7A"@)
    ||| has_chip(gpus, "MCP89"@)
}

/// Whether an NVIDIA device names a chip that has a driver of its own.
pub open spec fn has_known_chip(gpus: Seq<GpuDeviceView>) -> bool {
    ||| has_maxwell(gpus)
    ||| has_turing(gpus)
    ||| has_kepler(gpus)
    ||| has_fermi(gpus)
    ||| has_tesla(gpus)
}

/// Whether a device is from NVIDIA.
#[verifier::opaque]
pub open spec fn has_nvidia(gpus: Seq<GpuDeviceView>) -> bool {
    exists|i: int| 0 <= i < gpus.len() && (#[trigger] gpus[i]).vendor == GpuVendor::Nvidia
}

/// Whether a device is from a vendor whose graphics sit beside the processor.
#[verifier::opaque]
pub open spec fn has_companion(gpus: Seq<GpuDeviceView>) -> bool {
    exists|i: int|
        0 <= i < gpus.len() && ((#[trigger] gpus[i]).vendor == GpuVendor::Intel || gpus[i].vendor
            == GpuVendor::Amd)
}

/// Whether a device from AMD calls itself so.
#[verifier::opaque]
pub open spec fn has_radeon(gpus: Seq<GpuDeviceView>) -> bool {
    exists|i: int|
        0 <= i < gpus.len() && (#[trigger] gpus[i]).vendor == GpuVendor::Amd && mentions(
            gpus[i].description,
            "AMD"@,
        )
}

/// Whether a device calls itself one from ATI and not one from AMD.
#[verifier::opaque]
pub open spec fn has_old_radeon(gpus: Seq<GpuDeviceView>) -> bool {
    exists|i: int|
        0 <= i < gpus.len() && mentions((#[trigger] gpus[i]).description, "ATI"@) && !mentions(
            gpus[i].description,
            "AMD"@,
        )
}

proof fn lemma_named(gpus: Seq<GpuDeviceView>, family: Family)
    ensures
        names_family(nvidia_text(gpus), family) <==> exists|k: int|
            0 <= k < chips(family).len() && has_chip(gpus, #[trigger] chips(family)[k]),
{
    law_families_are_named_by_devices(gpus, family);
    let names = chips(family);
    if names_family(nvidia_text(gpus), family) {
        let i = choose|i: int|
            0 <= i < gpus.len() && (#[trigger] gpus[i]).vendor == GpuVendor::Nvidia
                && names_family(gpus[i].description, family);
        let k = choose|k: int|
            0 <= k < names.len() && mentions(gpus[i].description, #[trigger] names[k]);
        assert(has_chip(gpus, names[k]));
    }
    if exists|k: int| 0 <= k < names.len() && has_chip(gpus, #[trigger] names[k]) {
        let k = choose|k: int| 0 <= k < names.len() && has_chip(gpus, #[trigger] names[k]);
        let i = choose|i: int|
            0 <= i < gpus.len() && (#[trigger] gpus[i]).vendor == GpuVendor::Nvidia && mentions(
                gpus[i].description,
                names[k],
            );
        assert(names_family(gpus[i].description, family));
    }
}

proof fn lemma_maxwell(gpus: Seq<GpuDeviceView>)
    ensures
        names_family(nvidia_text(gpus), Family::Maxwell) == has_maxwell(gpus),
{
    reveal(has_maxwell);
    let names = chips(Family::Maxwell);
    lemma_named(gpus, Family::Maxwell);
    assert(names[0] == "GM107"@ && names[1] == "GM108"@ && names[2] == "GM200"@);
    assert(names[3] == "GM204"@ && names[4] == "GM206"@ && names[5] == "GM20B"@);
}

proof fn lemma_turing(gpus: Seq<GpuDeviceView>)
    ensures
        names_family(nvidia_text(gpus), Family::Turing) == has_turing(gpus),
{
    reveal(has_turing);
    let names = chips(Family::Turing);
    lemma_named(gpus, Family::Turing);
    assert(names[0] == "TU102"@ && names[1] == "TU104"@ && names[2] == "TU106"@);
    assert(names[3] == "TU116"@ && names[4] == "TU117"@);
}

proof fn lemma_kepler(gpus: Seq<GpuDeviceView>)
    ensures
        names_family(nvidia_text(gpus), Family::Kepler) == has_kepler(gpus),
{
    reveal(has_kepler);
    let names = chips(Family::Kepler);
    lemma_named(gpus, Family::Kepler);
    assert(names[0] == "GK104"@ && names[1] == "GK107"@ && names[2] == "GK106"@);
    assert(names[3] == "GK110"@ && names[4] == "GK110B"@ && names[5] == "GK208B"@);
    assert(names[6] == "GK208"@ && names[7] == "GK20A"@ && names[8] == "GK210"@);
}

proof fn lemma_fermi(gpus: Seq<GpuDeviceView>)
    ensures
        names_family(nvidia_text(gpus), Family::Fermi) == has_fermi(gpus),
{
    reveal(has_fermi);
    let names = chips(Family::Fermi);
    lemma_named(gpus, Family::Fermi);
    assert(names[0] == "GF100"@ && names[1] == "GF108"@ && names[2] == "GF106"@);
    assert(names[3] == "GF104"@ && names[4] == "GF110"@ && names[5] == "GF114"@);
    assert(names[6] == "GF116"@ && names[7] == "GF117"@ && names[8] == "GF119"@);
}

proof fn lemma_tesla(gpus: Seq<GpuDeviceView>)
    ensures
        names_family(nvidia_text(gpus), Family::Tesla) == has_tesla(gpus),
{
    reveal(has_tesla);
    let names = chips(Family::Tesla);
    lemma_named(gpus, Family::Tesla);
    assert(names[0] == "G80"@ && names[1] == "G84"@ && names[2] == "G86"@ && names[3] == "G92"@);
    assert(names[4] == "G94"@ && names[5] == "G96"@ && names[6] == "G98"@);
    assert(names[7] == "GT200"@ && names[8] == "GT215"@ && names[9] == "GT216"@);
    assert(names[10] == "GT218"@ && names[11] == "MCP77"@ && names[12] == "MCP78"@);
    assert(names[13] == "MCP79"@ && names[14] == "MCP7A"@ && names[15] == "MCP89"@);
}

/// What the five generations and the vendors are to the choice of packages.
proof fn lemma_reasons(gpus: Seq<GpuDeviceView>)
    ensures
        names_family(nvidia_text(gpus), Family::Maxwell) == has_maxwell(gpus),
        names_family(nvidia_text(gpus), Family::Turing) == has_turing(gpus),
        names_family(nvidia_text(gpus), Family::Kepler) == has_kepler(gpus),
        names_family(nvidia_text(gpus), Family::Fermi) == has_fermi(gpus),
        names_family(nvidia_text(gpus), Family::Tesla) == has_tesla(gpus),
        names_some_family(nvidia_text(gpus)) == has_known_chip(gpus),
        has_vendor(gpus, GpuVendor::Nvidia) == has_nvidia(gpus),
        has_integrated(gpus) == has_companion(gpus),
        has_amd(gpus) == has_radeon(gpus),
        has_ati(gpus) == has_old_radeon(gpus),
        has_known_chip(gpus) ==> has_nvidia(gpus),
{
    reveal(has_nvidia);
    reveal(has_companion);
    reveal(has_radeon);
    reveal(has_old_radeon);
    lemma_maxwell(gpus);
    lemma_turing(gpus);
    lemma_kepler(gpus);
    lemma_fermi(gpus);
    lemma_tesla(gpus);
    let text = nvidia_text(gpus);
    if names_some_family(text) {
        let family = choose|family: Family| names_family(text, family);
        match family {
            Family::Maxwell => {},
            Family::Turing => {},
            Family::Kepler => {},
            Family::Fermi => {},
            Family::Tesla => {},
        }
    }
    if has_companion(gpus) {
        let i = choose|i: int|
            0 <= i < gpus.len() && ((#[trigger] gpus[i]).vendor == GpuVendor::Intel
                || gpus[i].vendor == GpuVendor::Amd);
        assert(has_vendor(gpus, gpus[i].vendor));
    }
    if has_known_chip(gpus) {
        let family = choose|family: Family| names_family(text, family);
        law_families_are_named_by_devices(gpus, family);
    }
}

/// The place of a package among those that may be called for.
pub open spec fn place(name: Seq<char>) -> int {
    if name == "xf86-video-amdgpu"@ {
        0
    } else if name == "opencl-amd"@ {
        1
    } else if name == "opencl-mesa"@ {
        2
    } else if name == "nvidia-open"@ {
        3
    } else if name == "nvidia-open-lts"@ {
        4
    } else if name == "nvidia-open-dkms"@ {
        5
    } else if name == "nvidia-settings"@ {
        6
    } else if name == "nvidia-470xx-dkms"@ {
        7
    } else if name == "nvidia-470xx-settings"@ {
        8
    } else if name == "nvidia-390xx-dkms"@ {
        9
    } else if name == "nvidia-390xx-settings"@ {
        10
    } else if name == "nvidia-340xx"@ {
        11
    } else if name == "nvidia-340xx-lts"@ {
        12
    } else if name == "nvidia-340xx-lts-dkms"@ {
        13
    } else if name == "nvidia-340xx-settings"@ {
        14
    } else if name == "opencl-nvidia"@ {
        15
    } else if name == "gwe"@ {
        16
    } else if name == "nvtop"@ {
        17
    } else if name == "envycontrol"@ {
        18
    } else {
        -1
    }
}

/// Whether the packages stand at growing places from `from` to before `to`, so that
/// none is there twice.
pub open spec fn in_place(names: Seq<Seq<char>>, from: int, to: int) -> bool {
    &&& forall|i: int| 0 <= i < names.len() ==> from <= place(#[trigger] names[i]) < to
    &&& forall|i: int, j: int|
        0 <= i < j < names.len() ==> place(#[trigger] names[i]) < place(#[trigger] names[j])
}

/// A character of a name; zero past its end.
spec fn letter(name: Seq<char>, at: int) -> int {
    if 0 <= at < name.len() {
        name[at] as int
    } else {
        0
    }
}

/// What tells the packages apart.
spec fn mark(name: Seq<char>) -> (nat, int, int, int, int) {
    (name.len(), letter(name, 0), letter(name, 7), letter(name, 8), letter(name, 13))
}

proof fn lemma_places()
    ensures
        place("xf86-video-amdgpu"@) == 0,
        place("opencl-amd"@) == 1,
        place("opencl-mesa"@) == 2,
        place("nvidia-open"@) == 3,
        place("nvidia-open-lts"@) == 4,
        place("nvidia-open-dkms"@) == 5,
        place("nvidia-settings"@) == 6,
        place("nvidia-470xx-dkms"@) == 7,
        place("nvidia-470xx-settings"@) == 8,
        place("nvidia-390xx-dkms"@) == 9,
        place("nvidia-390xx-settings"@) == 10,
        place("nvidia-340xx"@) == 11,
        place("nvidia-340xx-lts"@) == 12,
        place("nvidia-340xx-lts-dkms"@) == 13,
        place("nvidia-340xx-settings"@) == 14,
        place("opencl-nvidia"@) == 15,
        place("gwe"@) == 16,
        place("nvtop"@) == 17,
        place("envycontrol"@) == 18,
{
    reveal_strlit("xf86-video-amdgpu");
    reveal_strlit("opencl-amd");
    reveal_strlit("opencl-mesa");
    reveal_strlit("nvidia-open");
    reveal_strlit("nvidia-open-lts");
    reveal_strlit("nvidia-open-dkms");
    reveal_strlit("nvidia-settings");
    reveal_strlit("nvidia-470xx-dkms");
    reveal_strlit("nvidia-470xx-settings");
    reveal_strlit("nvidia-390xx-dkms");
    reveal_strlit("nvidia-390xx-settings");
    reveal_strlit("nvidia-340xx");
    reveal_strlit("nvidia-340xx-lts");
    reveal_strlit("nvidia-340xx-lts-dkms");
    reveal_strlit("nvidia-340xx-settings");
    reveal_strlit("opencl-nvidia");
    reveal_strlit("gwe");
    reveal_strlit("nvtop");
    reveal_strlit("envycontrol");
    assert(mark("xf86-video-amdgpu"@) == (17nat, 'x' as int, 'd' as int, 'e' as int, 'd' as int));
    assert(mark("opencl-amd"@) == (10nat, 'o' as int, 'a' as int, 'm' as int, 0int));
    assert(mark("opencl-mesa"@) == (11nat, 'o' as int, 'm' as int, 'e' as int, 0int));
    assert(mark("nvidia-open"@) == (11nat, 'n' as int, 'o' as int, 'p' as int, 0int));
    assert(mark("nvidia-open-lts"@) == (15nat, 'n' as int, 'o' as int, 'p' as int, 't' as int));
    assert(mark("nvidia-open-dkms"@) == (16nat, 'n' as int, 'o' as int, 'p' as int, 'k' as int));
    assert(mark("nvidia-settings"@) == (15nat, 'n' as int, 's' as int, 'e' as int, 'g' as int));
    assert(mark("nvidia-470xx-dkms"@) == (17nat, 'n' as int, '4' as int, '7' as int, 'd' as int));
    assert(mark("nvidia-470xx-settings"@) == (
        21nat,
        'n' as int,
        '4' as int,
        '7' as int,
        's' as int,
    ));
    assert(mark("nvidia-390xx-dkms"@) == (17nat, 'n' as int, '3' as int, '9' as int, 'd' as int));
    assert(mark("nvidia-390xx-settings"@) == (
        21nat,
        'n' as int,
        '3' as int,
        '9' as int,
        's' as int,
    ));
    assert(mark("nvidia-340xx"@) == (12nat, 'n' as int, '3' as int, '4' as int, 0int));
    assert(mark("nvidia-340xx-lts"@) == (16nat, 'n' as int, '3' as int, '4' as int, 'l' as int));
    assert(mark("nvidia-340xx-lts-dkms"@) == (
        21nat,
        'n' as int,
        '3' as int,
        '4' as int,
        'l' as int,
    ));
    assert(mark("nvidia-340xx-settings"@) == (
        21nat,
        'n' as int,
        '3' as int,
        '4' as int,
        's' as int,
    ));
    assert(mark("opencl-nvidia"@) == (13nat, 'o' as int, 'n' as int, 'v' as int, 0int));
    assert(mark("gwe"@) == (3nat, 'g' as int, 0int, 0int, 0int));
    assert(mark("nvtop"@) == (5nat, 'n' as int, 0int, 0int, 0int));
    assert(mark("envycontrol"@) == (11nat, 'e' as int, 't' as int, 'r' as int, 0int));
}

proof fn lemma_in_place(front: Seq<Seq<char>>, back: Seq<Seq<char>>, from: int, mid: int, to: int)
    requires
        from <= mid <= to,
        in_place(front, from, mid),
        in_place(back, mid, to),
    ensures
        in_place(front + back, from, to),
{
    let all = front + back;
    assert forall|i: int| 0 <= i < all.len() implies from <= place(#[trigger] all[i]) < to by {
        if i < front.len() {
            assert(all[i] == front[i]);
        } else {
            assert(all[i] == back[i - front.len()]);
        }
    }
    assert forall|i: int, j: int| 0 <= i < j < all.len() implies place(#[trigger] all[i]) < place(
        #[trigger] all[j],
    ) by {
        if j < front.len() {
            assert(all[i] == front[i] && all[j] == front[j]);
        } else if i < front.len() {
            assert(all[i] == front[i] && all[j] == back[j - front.len()]);
        } else {
            assert(all[i] == back[i - front.len()] && all[j] == back[j - front.len()]);
        }
    }
}

proof fn lemma_either(front: Seq<Seq<char>>, back: Seq<Seq<char>>, name: Seq<char>)
    ensures
        (front + back).contains(name) <==> front.contains(name) || back.contains(name),
{
    let all = front + back;
    if front.contains(name) {
        let i = choose|i: int| 0 <= i < front.len() && front[i] == name;
        assert(all[i] == name);
    }
    if back.contains(name) {
        let i = choose|i: int| 0 <= i < back.len() && back[i] == name;
        assert(all[front.len() + i] == name);
    }
    if all.contains(name) {
        let i = choose|i: int| 0 <= i < all.len() && all[i] == name;
        if i < front.len() {
            assert(front[i] == name);
        } else {
            assert(back[i - front.len()] == name);
        }
    }
}

/// A driver and its settings tool, where they are called for.
spec fn pair_if(wanted: bool, name: Seq<char>, tool: Seq<char>) -> Seq<Seq<char>> {
    if wanted {
        seq![name, tool]
    } else {
        seq![]
    }
}

proof fn lemma_pair(wanted: bool, name: Seq<char>, tool: Seq<char>, x: Seq<char>)
    ensures
        pair_if(wanted, name, tool).contains(x) <==> wanted && (x == name || x == tool),
        place(name) < place(tool) ==> in_place(
            pair_if(wanted, name, tool),
            place(name),
            place(tool) + 1,
        ),
{
    let pair = pair_if(wanted, name, tool);
    if wanted {
        assert(pair[0] == name && pair[1] == tool);
    }
}

/// The open driver for a kernel.
pub open spec fn open_driver(kernel: Seq<char>) -> Seq<char> {
    if kernel == "linux"@ {
        "nvidia-open"@
    } else if kernel == "linux-lts"@ {
        "nvidia-open-lts"@
    } else {
        "nvidia-open-dkms"@
    }
}

/// The oldest driver for a kernel.
pub open spec fn oldest_driver(kernel: Seq<char>) -> Seq<char> {
    if kernel == "linux"@ {
        "nvidia-340xx"@
    } else if kernel == "linux-lts"@ {
        "nvidia-340xx-lts"@
    } else {
        "nvidia-340xx-lts-dkms"@
    }
}

/// The tool that switches between graphics, where there is anything to switch.
spec fn switch_if(wanted: bool) -> Seq<Seq<char>> {
    if wanted {
        seq!["envycontrol"@]
    } else {
        seq![]
    }
}

spec fn mesa_if(wanted: bool) -> Seq<Seq<char>> {
    if wanted {
        seq!["opencl-mesa"@]
    } else {
        seq![]
    }
}

spec fn extras_if(wanted: bool) -> Seq<Seq<char>> {
    if wanted {
        seq!["opencl-nvidia"@, "gwe"@, "nvtop"@]
    } else {
        seq![]
    }
}

/// The packages before those for NVIDIA devices.
spec fn part_radeon(gpus: Seq<GpuDeviceView>) -> Seq<Seq<char>> {
    pair_if(has_radeon(gpus), "xf86-video-amdgpu"@, "opencl-amd"@) + mesa_if(has_old_radeon(gpus))
}

/// The packages after the drivers that do not depend on the generation, or that do
/// on an older one.
spec fn part_after(gpus: Seq<GpuDeviceView>, kernel: Seq<char>) -> Seq<Seq<char>> {
    pair_if(has_kepler(gpus), "nvidia-470xx-dkms"@, "nvidia-470xx-settings"@) + pair_if(
        has_fermi(gpus),
        "nvidia-390xx-dkms"@,
        "nvidia-390xx-settings"@,
    ) + pair_if(has_tesla(gpus), oldest_driver(kernel), "nvidia-340xx-settings"@) + extras_if(
        has_nvidia(gpus),
    ) + switch_if(has_nvidia(gpus) && has_companion(gpus))
}

/// The open driver where no generation is known.
spec fn part_unknown(gpus: Seq<GpuDeviceView>) -> Seq<Seq<char>> {
    pair_if(has_nvidia(gpus) && !has_known_chip(gpus), "nvidia-open-dkms"@, "nvidia-settings"@)
}

spec fn part_maxwell(gpus: Seq<GpuDeviceView>, kernel: Seq<char>) -> Seq<Seq<char>> {
    pair_if(has_maxwell(gpus), open_driver(kernel), "nvidia-settings"@)
}

spec fn part_turing(gpus: Seq<GpuDeviceView>, kernel: Seq<char>) -> Seq<Seq<char>> {
    pair_if(has_turing(gpus), open_driver(kernel), "nvidia-settings"@)
}

/// Packages one after the other, however they are grouped.
proof fn lemma_regrouped(
    r: Seq<Seq<char>>,
    m: Seq<Seq<char>>,
    t: Seq<Seq<char>>,
    k: Seq<Seq<char>>,
    f: Seq<Seq<char>>,
    s: Seq<Seq<char>>,
    x: Seq<Seq<char>>,
    w: Seq<Seq<char>>,
)
    ensures
        r + (m + t + k + f + s + x + w) == r + m + t + Seq::<Seq<char>>::empty() + (k + f + s + x
            + w),
{
    assert(r + (m + t + k + f + s + x + w) =~= r + m + t + Seq::<Seq<char>>::empty() + (k + f + s
        + x + w));
}

proof fn lemma_parts(gpus: Seq<GpuDeviceView>, kernel: Seq<char>)
    ensures
        gpu_packages(gpus, kernel) == part_radeon(gpus) + part_maxwell(gpus, kernel) + part_turing(
            gpus,
            kernel,
        ) + part_unknown(gpus) + part_after(gpus, kernel),
{
    lemma_reasons(gpus);
    let text = nvidia_text(gpus);
    let none = Seq::<Seq<char>>::empty();
    let r = part_radeon(gpus);
    let m = part_maxwell(gpus, kernel);
    let t = part_turing(gpus, kernel);
    let k = pair_if(has_kepler(gpus), "nvidia-470xx-dkms"@, "nvidia-470xx-settings"@);
    let f = pair_if(has_fermi(gpus), "nvidia-390xx-dkms"@, "nvidia-390xx-settings"@);
    let s = pair_if(has_tesla(gpus), oldest_driver(kernel), "nvidia-340xx-settings"@);
    let u = part_unknown(gpus);
    let x = extras_if(has_nvidia(gpus));
    let w = switch_if(has_nvidia(gpus) && has_companion(gpus));
    assert(driver_if_named(text, Family::Maxwell, kernel) == m);
    assert(driver_if_named(text, Family::Turing, kernel) == t);
    assert(driver_if_named(text, Family::Kepler, kernel) == k);
    assert(driver_if_named(text, Family::Fermi, kernel) == f);
    assert(driver_if_named(text, Family::Tesla, kernel) == s);
    if has_known_chip(gpus) {
        assert(drivers(text, kernel) == m + t + k + f + s);
        assert(nvidia_packages(gpus, kernel) == m + t + k + f + s + x + w);
        assert(gpu_packages(gpus, kernel) == r + (m + t + k + f + s + x + w));
        lemma_regrouped(r, m, t, k, f, s, x, w);
        assert(u == none);
    } else {
        assert(m == none && t == none && k == none && f == none && s == none);
        if has_nvidia(gpus) {
            assert(drivers(text, kernel) == u);
            assert(nvidia_packages(gpus, kernel) == u + x + w);
            assert(gpu_packages(gpus, kernel) == r + (u + x + w));
        } else {
            assert(gpu_packages(gpus, kernel) == r + none);
            assert(u == none && x == none && w == none);
        }
        assert(r + (u + x + w) =~= r + none + none + u + (none + none + none + x + w));
    }
}

/// When a package is called for.
spec fn reason(gpus: Seq<GpuDeviceView>, kernel: Seq<char>, name: Seq<char>) -> bool {
    ||| has_radeon(gpus) && (name == "xf86-video-amdgpu"@ || name == "opencl-amd"@)
    ||| has_old_radeon(gpus) && name == "opencl-mesa"@
    ||| (has_maxwell(gpus) || has_turing(gpus)) && (name == open_driver(kernel) || name
        == "nvidia-settings"@)
    ||| has_nvidia(gpus) && !has_known_chip(gpus) && (name == "nvidia-open-dkms"@ || name
        == "nvidia-settings"@)
    ||| has_kepler(gpus) && (name == "nvidia-470xx-dkms"@ || name == "nvidia-470xx-settings"@)
    ||| has_fermi(gpus) && (name == "nvidia-390xx-dkms"@ || name == "nvidia-390xx-settings"@)
    ||| has_tesla(gpus) && (name == oldest_driver(kernel) || name == "nvidia-340xx-settings"@)
    ||| has_nvidia(gpus) && (name == "opencl-nvidia"@ || name == "gwe"@ || name == "nvtop"@)
    ||| has_nvidia(gpus) && has_companion(gpus) && name == "envycontrol"@
}

proof fn lemma_small(wanted: bool, x: Seq<char>)
    ensures
        mesa_if(wanted).contains(x) <==> wanted && x == "opencl-mesa"@,
        extras_if(wanted).contains(x) <==> wanted && (x == "opencl-nvidia"@ || x == "gwe"@ || x
            == "nvtop"@),
        switch_if(wanted).contains(x) <==> wanted && x == "envycontrol"@,
        in_place(mesa_if(wanted), 2, 3),
        in_place(extras_if(wanted), 15, 18),
        in_place(switch_if(wanted), 18, 19),
{
    lemma_places();
    if wanted {
        assert(mesa_if(wanted)[0] == "opencl-mesa"@);
        let extras = extras_if(wanted);
        assert(extras[0] == "opencl-nvidia"@ && extras[1] == "gwe"@ && extras[2] == "nvtop"@);
        assert(switch_if(wanted)[0] == "envycontrol"@);
    }
}

proof fn lemma_after(gpus: Seq<GpuDeviceView>, kernel: Seq<char>, x: Seq<char>)
    ensures
        in_place(part_after(gpus, kernel), 7, 19),
        part_after(gpus, kernel).contains(x) <==> {
            ||| has_kepler(gpus) && (x == "nvidia-470xx-dkms"@ || x == "nvidia-470xx-settings"@)
            ||| has_fermi(gpus) && (x == "nvidia-390xx-dkms"@ || x == "nvidia-390xx-settings"@)
            ||| has_tesla(gpus) && (x == oldest_driver(kernel) || x == "nvidia-340xx-settings"@)
            ||| has_nvidia(gpus) && (x == "opencl-nvidia"@ || x == "gwe"@ || x == "nvtop"@)
            ||| has_nvidia(gpus) && has_companion(gpus) && x == "envycontrol"@
        },
{
    lemma_places();
    let a = pair_if(has_kepler(gpus), "nvidia-470xx-dkms"@, "nvidia-470xx-settings"@);
    let b = pair_if(has_fermi(gpus), "nvidia-390xx-dkms"@, "nvidia-390xx-settings"@);
    let c = pair_if(has_tesla(gpus), oldest_driver(kernel), "nvidia-340xx-settings"@);
    let d = extras_if(has_nvidia(gpus));
    let e = switch_if(has_nvidia(gpus) && has_companion(gpus));
    lemma_pair(has_kepler(gpus), "nvidia-470xx-dkms"@, "nvidia-470xx-settings"@, x);
    lemma_pair(has_fermi(gpus), "nvidia-390xx-dkms"@, "nvidia-390xx-settings"@, x);
    lemma_pair(has_tesla(gpus), oldest_driver(kernel), "nvidia-340xx-settings"@, x);
    lemma_small(has_nvidia(gpus), x);
    lemma_small(has_nvidia(gpus) && has_companion(gpus), x);
    lemma_either(a, b, x);
    lemma_either(a + b, c, x);
    lemma_either(a + b + c, d, x);
    lemma_either(a + b + c + d, e, x);
    assert(in_place(c, 11, 15));
    lemma_in_place(a, b, 7, 9, 11);
    lemma_in_place(a + b, c, 7, 11, 15);
    lemma_in_place(a + b + c, d, 7, 15, 18);
    lemma_in_place(a + b + c + d, e, 7, 18, 19);
}

proof fn lemma_contains(gpus: Seq<GpuDeviceView>, kernel: Seq<char>, x: Seq<char>)
    ensures
        gpu_packages(gpus, kernel).contains(x) <==> reason(gpus, kernel, x),
{
    lemma_parts(gpus, kernel);
    let a = pair_if(has_radeon(gpus), "xf86-video-amdgpu"@, "opencl-amd"@);
    let b = mesa_if(has_old_radeon(gpus));
    let c = part_maxwell(gpus, kernel);
    let d = part_turing(gpus, kernel);
    let e = part_unknown(gpus);
    let f = part_after(gpus, kernel);
    lemma_pair(has_radeon(gpus), "xf86-video-amdgpu"@, "opencl-amd"@, x);
    lemma_small(has_old_radeon(gpus), x);
    lemma_pair(has_maxwell(gpus), open_driver(kernel), "nvidia-settings"@, x);
    lemma_pair(has_turing(gpus), open_driver(kernel), "nvidia-settings"@, x);
    lemma_pair(
        has_nvidia(gpus) && !has_known_chip(gpus),
        "nvidia-open-dkms"@,
        "nvidia-settings"@,
        x,
    );
    lemma_after(gpus, kernel, x);
    lemma_either(a, b, x);
    lemma_either(a + b, c, x);
    lemma_either(a + b + c, d, x);
    lemma_either(a + b + c + d, e, x);
    lemma_either(a + b + c + d + e, f, x);
}

/// Every chip gets its own driver and settings tool and no chip gets those of
/// another generation: the open driver that goes with the kernel is for chips from
/// 2014 and from 2018, older generations have one each, and an NVIDIA device whose
/// chip is not known gets the open driver that is built for any kernel.
pub proof fn law_each_chip_gets_its_driver(gpus: Seq<GpuDeviceView>, kernel: Seq<char>)
    ensures
        gpu_packages(gpus, kernel).contains("nvidia-open"@) <==> (has_maxwell(gpus) || has_turing(gpus)) && kernel
            == "linux"@,
        gpu_packages(gpus, kernel).contains("nvidia-open-lts"@) <==> (has_maxwell(gpus) || has_turing(gpus)) && kernel
            == "linux-lts"@,
        gpu_packages(gpus, kernel).contains("nvidia-open-dkms"@) <==> {
            ||| (has_maxwell(gpus) || has_turing(gpus)) && kernel != "linux"@ && kernel
                != "linux-lts"@
            ||| has_nvidia(gpus) && !has_known_chip(gpus)
        },
        gpu_packages(gpus, kernel).contains("nvidia-settings"@) <==> {
            ||| has_maxwell(gpus) || has_turing(gpus)
            ||| has_nvidia(gpus) && !has_known_chip(gpus)
        },
        gpu_packages(gpus, kernel).contains("nvidia-470xx-dkms"@) <==> has_kepler(gpus),
        gpu_packages(gpus, kernel).contains("nvidia-470xx-settings"@) <==> has_kepler(gpus),
        gpu_packages(gpus, kernel).contains("nvidia-390xx-dkms"@) <==> has_fermi(gpus),
        gpu_packages(gpus, kernel).contains("nvidia-390xx-settings"@) <==> has_fermi(gpus),
        gpu_packages(gpus, kernel).contains("nvidia-340xx"@) <==> has_tesla(gpus) && kernel == "linux"@,
        gpu_packages(gpus, kernel).contains("nvidia-340xx-lts"@) <==> has_tesla(gpus) && kernel == "linux-lts"@,
        gpu_packages(gpus, kernel).contains("nvidia-340xx-lts-dkms"@) <==> has_tesla(gpus) && kernel
            != "linux"@ && kernel != "linux-lts"@,
        gpu_packages(gpus, kernel).contains("nvidia-340xx-settings"@) <==> has_tesla(gpus),
{
    lemma_places();
    reveal_strlit("linux");
    reveal_strlit("linux-lts");
    assert("linux"@.len() != "linux-lts"@.len());
    lemma_contains(gpus, kernel, "nvidia-open"@);
    lemma_contains(gpus, kernel, "nvidia-open-lts"@);
    lemma_contains(gpus, kernel, "nvidia-open-dkms"@);
    lemma_contains(gpus, kernel, "nvidia-settings"@);
    lemma_contains(gpus, kernel, "nvidia-470xx-dkms"@);
    lemma_contains(gpus, kernel, "nvidia-470xx-settings"@);
    lemma_contains(gpus, kernel, "nvidia-390xx-dkms"@);
    lemma_contains(gpus, kernel, "nvidia-390xx-settings"@);
    lemma_contains(gpus, kernel, "nvidia-340xx"@);
    lemma_contains(gpus, kernel, "nvidia-340xx-lts"@);
    lemma_contains(gpus, kernel, "nvidia-340xx-lts-dkms"@);
    lemma_contains(gpus, kernel, "nvidia-340xx-settings"@);
}

/// The other packages: those for AMD devices come with one that calls itself so,
/// the one for ATI devices with one that calls itself so and not AMD, the tools for
/// NVIDIA devices with any of those, and the switch with a hybrid.
pub proof fn law_other_packages_follow_devices(gpus: Seq<GpuDeviceView>, kernel: Seq<char>)
    ensures
        ({
            let packages = gpu_packages(gpus, kernel);
            &&& packages.contains("xf86-video-amdgpu"@) <==> has_radeon(gpus)
            &&& packages.contains("opencl-amd"@) <==> has_radeon(gpus)
            &&& packages.contains("opencl-mesa"@) <==> has_old_radeon(gpus)
            &&& packages.contains("opencl-nvidia"@) <==> has_nvidia(gpus)
            &&& packages.contains("gwe"@) <==> has_nvidia(gpus)
            &&& packages.contains("nvtop"@) <==> has_nvidia(gpus)
            &&& packages.contains("envycontrol"@) <==> has_nvidia(gpus) && has_companion(gpus)
        }),
{
    lemma_places();
    lemma_contains(gpus, kernel, "xf86-video-amdgpu"@);
    lemma_contains(gpus, kernel, "opencl-amd"@);
    lemma_contains(gpus, kernel, "opencl-mesa"@);
    lemma_contains(gpus, kernel, "opencl-nvidia"@);
    lemma_contains(gpus, kernel, "gwe"@);
    lemma_contains(gpus, kernel, "nvtop"@);
    lemma_contains(gpus, kernel, "envycontrol"@);
}

/// A driver that comes twice in a row is the only one that comes twice.
proof fn lemma_doubled(front: Seq<Seq<char>>, pair: Seq<Seq<char>>, back: Seq<Seq<char>>)
    requires
        in_place(front, 0, 3),
        in_place(pair, 3, 7),
        pair.len() == 2,
        in_place(back, 7, 19),
    ensures
        ({
            let all = front + pair + pair + Seq::<Seq<char>>::empty() + back;
            let p = front.len() as int;
            &&& 0 <= p <= all.len() - 4
            &&& all.subrange(p, p + 2) == pair
            &&& all.subrange(p + 2, p + 4) == pair
            &&& in_place(all.take(p + 2) + all.skip(p + 4), 0, 19)
        }),
{
    let all = front + pair + pair + Seq::<Seq<char>>::empty() + back;
    let p = front.len() as int;
    assert(all.subrange(p, p + 2) =~= pair);
    assert(all.subrange(p + 2, p + 4) =~= pair);
    assert(all.take(p + 2) + all.skip(p + 4) =~= front + pair + back);
    lemma_in_place(front, pair, 0, 3, 7);
    lemma_in_place(front + pair, back, 0, 7, 19);
}

proof fn lemma_single(
    front: Seq<Seq<char>>,
    m: Seq<Seq<char>>,
    t: Seq<Seq<char>>,
    u: Seq<Seq<char>>,
    back: Seq<Seq<char>>,
)
    requires
        in_place(front, 0, 3),
        in_place(m, 3, 7),
        in_place(t, 3, 7),
        in_place(u, 3, 7),
        in_place(back, 7, 19),
        m.len() == 0 && t.len() == 0 || m.len() == 0 && u.len() == 0 || t.len() == 0 && u.len()
            == 0,
    ensures
        in_place(front + m + t + u + back, 0, 19),
{
    let one = if m.len() > 0 {
        m
    } else if t.len() > 0 {
        t
    } else {
        u
    };
    assert(front + m + t + u =~= front + one);
    lemma_in_place(front, one, 0, 3, 7);
    lemma_in_place(front + one, back, 0, 7, 19);
}

proof fn lemma_parts_in_place(gpus: Seq<GpuDeviceView>, kernel: Seq<char>)
    ensures
        in_place(part_radeon(gpus), 0, 3),
        in_place(part_maxwell(gpus, kernel), 3, 7),
        in_place(part_turing(gpus, kernel), 3, 7),
        in_place(part_unknown(gpus), 3, 7),
        in_place(part_after(gpus, kernel), 7, 19),
{
    lemma_places();
    let x = "gwe"@;
    lemma_pair(has_radeon(gpus), "xf86-video-amdgpu"@, "opencl-amd"@, x);
    lemma_small(has_old_radeon(gpus), x);
    lemma_in_place(
        pair_if(has_radeon(gpus), "xf86-video-amdgpu"@, "opencl-amd"@),
        mesa_if(has_old_radeon(gpus)),
        0,
        2,
        3,
    );
    lemma_pair(has_maxwell(gpus), open_driver(kernel), "nvidia-settings"@, x);
    lemma_pair(has_turing(gpus), open_driver(kernel), "nvidia-settings"@, x);
    lemma_pair(
        has_nvidia(gpus) && !has_known_chip(gpus),
        "nvidia-open-dkms"@,
        "nvidia-settings"@,
        x,
    );
    lemma_after(gpus, kernel, x);
}

/// Whether the four packages from `p` on are one driver and its settings tool twice
/// over.
pub open spec fn doubled_at(packages: Seq<Seq<char>>, p: int) -> bool {
    &&& 0 <= p <= packages.len() - 4
    &&& packages.subrange(p, p + 2) == packages.subrange(p + 2, p + 4)
    &&& packages[p + 1] == "nvidia-settings"@
}

/// No package is called for twice, none but those that are known here, and they
/// come in one order: AMD, ATI, NVIDIA drivers from recent to old, tools, switch.
/// Only where chips from 2014 and from 2018 meet does the driver of both, with its
/// settings tool, come twice in a row.
pub proof fn law_packages_come_in_order(gpus: Seq<GpuDeviceView>, kernel: Seq<char>)
    ensures
        !(has_maxwell(gpus) && has_turing(gpus)) ==> in_place(gpu_packages(gpus, kernel), 0, 19),
        has_maxwell(gpus) && has_turing(gpus) ==> exists|p: int|
            #[trigger] doubled_at(gpu_packages(gpus, kernel), p) && in_place(
                gpu_packages(gpus, kernel).take(p + 2) + gpu_packages(gpus, kernel).skip(p + 4),
                0,
                19,
            ),
{
    lemma_parts(gpus, kernel);
    lemma_parts_in_place(gpus, kernel);
    let packages = gpu_packages(gpus, kernel);
    let front = part_radeon(gpus);
    let m = part_maxwell(gpus, kernel);
    let t = part_turing(gpus, kernel);
    let u = part_unknown(gpus);
    let back = part_after(gpus, kernel);
    if has_maxwell(gpus) && has_turing(gpus) {
        assert(u == Seq::<Seq<char>>::empty());
        assert(m == t);
        lemma_doubled(front, m, back);
        let p = front.len() as int;
        assert(packages.subrange(p, p + 2)[1] == packages[p + 1]);
        assert(doubled_at(packages, p));
    } else {
        lemma_single(front, m, t, u, back);
    }
}

/// Packages one after the other, those of one generation only.
proof fn lemma_lone(
    front: Seq<Seq<char>>,
    m: Seq<Seq<char>>,
    t: Seq<Seq<char>>,
    u: Seq<Seq<char>>,
    k: Seq<Seq<char>>,
    f: Seq<Seq<char>>,
    s: Seq<Seq<char>>,
    x: Seq<Seq<char>>,
    w: Seq<Seq<char>>,
    pair: Seq<Seq<char>>,
)
    requires
        pair.len() == 2,
        m.len() + t.len() + u.len() + k.len() + f.len() + s.len() == 2,
        m.len() == 0 || m == pair,
        t.len() == 0 || t == pair,
        u.len() == 0 || u == pair,
        k.len() == 0 || k == pair,
        f.len() == 0 || f == pair,
        s.len() == 0 || s == pair,
    ensures
        (front + m + t + u + (k + f + s + x + w)).skip(front.len() as int) == pair + x + w,
{
    assert(m + t + u + k + f + s =~= pair);
    assert(front + m + t + u + (k + f + s + x + w) =~= front + (m + t + u + k + f + s) + x + w);
    assert((front + pair + x + w).skip(front.len() as int) =~= pair + x + w);
}

/// A machine whose NVIDIA devices are all of one generation gets its driver, its
/// settings tool and the tools for any NVIDIA device one after the other, then the
/// switch if it is a hybrid, and nothing else on account of NVIDIA devices.
pub proof fn law_one_generation_one_driver(
    gpus: Seq<GpuDeviceView>,
    kernel: Seq<char>,
    name: Seq<char>,
    tool: Seq<char>,
)
    requires
        ({
            let recent = has_maxwell(gpus) || has_turing(gpus);
            ||| {
                &&& recent && !(has_maxwell(gpus) && has_turing(gpus))
                &&& !has_kepler(gpus) && !has_fermi(gpus) && !has_tesla(gpus)
                &&& tool == "nvidia-settings"@
                &&& name == if kernel == "linux"@ {
                    "nvidia-open"@
                } else if kernel == "linux-lts"@ {
                    "nvidia-open-lts"@
                } else {
                    "nvidia-open-dkms"@
                }
            }
            ||| {
                &&& has_kepler(gpus) && !recent && !has_fermi(gpus) && !has_tesla(gpus)
                &&& name == "nvidia-470xx-dkms"@ && tool == "nvidia-470xx-settings"@
            }
            ||| {
                &&& has_fermi(gpus) && !recent && !has_kepler(gpus) && !has_tesla(gpus)
                &&& name == "nvidia-390xx-dkms"@ && tool == "nvidia-390xx-settings"@
            }
            ||| {
                &&& has_tesla(gpus) && !recent && !has_kepler(gpus) && !has_fermi(gpus)
                &&& tool == "nvidia-340xx-settings"@
                &&& name == if kernel == "linux"@ {
                    "nvidia-340xx"@
                } else if kernel == "linux-lts"@ {
                    "nvidia-340xx-lts"@
                } else {
                    "nvidia-340xx-lts-dkms"@
                }
            }
            ||| {
                &&& has_nvidia(gpus) && !has_known_chip(gpus)
                &&& name == "nvidia-open-dkms"@ && tool == "nvidia-settings"@
            }
        }),
    ensures
        ({
            let packages = gpu_packages(gpus, kernel);
            let radeon: int = (if has_radeon(gpus) {
                2int
            } else {
                0
            }) + (if has_old_radeon(gpus) {
                1int
            } else {
                0
            });
            packages.skip(radeon) == seq![name, tool] + seq!["opencl-nvidia"@, "gwe"@, "nvtop"@] + (
            if has_companion(gpus) {
                seq!["envycontrol"@]
            } else {
                seq![]
            })
        }),
{
    lemma_parts(gpus, kernel);
    lemma_reasons(gpus);
    let none = Seq::<Seq<char>>::empty();
    let front = part_radeon(gpus);
    let pair = seq![name, tool];
    let m = part_maxwell(gpus, kernel);
    let t = part_turing(gpus, kernel);
    let u = part_unknown(gpus);
    let k = pair_if(has_kepler(gpus), "nvidia-470xx-dkms"@, "nvidia-470xx-settings"@);
    let f = pair_if(has_fermi(gpus), "nvidia-390xx-dkms"@, "nvidia-390xx-settings"@);
    let s = pair_if(has_tesla(gpus), oldest_driver(kernel), "nvidia-340xx-settings"@);
    let x = extras_if(has_nvidia(gpus));
    let w = switch_if(has_nvidia(gpus) && has_companion(gpus));
    lemma_lone(front, m, t, u, k, f, s, x, w, pair);
}

} // verus!
