//! What holds of the packages and of the configuration for display devices.

use vstd::prelude::*;

use crate::gpu::{
    chips, driver, driver_if_named, drivers, first_from, gpu_nix_steps, gpu_packages,
    has_integrated, has_vendor, names_family, names_some_family,
    nvidia_descriptions, nvidia_packages, nvidia_steps, nvidia_text, prime_steps, Family,
};
use crate::pci::{detected, GpuDeviceView, GpuVendor};
use crate::text::{lemma_joined_mentions, mentions};

verus! {

/// Whether `name` is that of an NVIDIA kernel driver.
pub open spec fn is_driver(name: Seq<char>) -> bool {
    ||| name == "nvidia-open"@
    ||| name == "nvidia-open-lts"@
    ||| name == "nvidia-open-dkms"@
    ||| name == "nvidia-470xx-dkms"@
    ||| name == "nvidia-390xx-dkms"@
    ||| name == "nvidia-340xx"@
    ||| name == "nvidia-340xx-lts"@
    ||| name == "nvidia-340xx-lts-dkms"@
}

/// Whether `name` begins with an `n`, as the names of drivers do.
spec fn begins_with_n(name: Seq<char>) -> bool {
    name.len() > 0 && name[0] == 'n'
}

proof fn lemma_driver_names(name: Seq<char>)
    requires
        is_driver(name),
    ensures
        begins_with_n(name),
{
    reveal_strlit("nvidia-open");
    reveal_strlit("nvidia-open-lts");
    reveal_strlit("nvidia-open-dkms");
    reveal_strlit("nvidia-470xx-dkms");
    reveal_strlit("nvidia-390xx-dkms");
    reveal_strlit("nvidia-340xx");
    reveal_strlit("nvidia-340xx-lts");
    reveal_strlit("nvidia-340xx-lts-dkms");
}

/// A driver comes with its settings tool, and both begin with an `n`.
proof fn lemma_driver(family: Family, kernel: Seq<char>)
    ensures
        driver(family, kernel).len() == 2,
        is_driver(driver(family, kernel)[0]),
        begins_with_n(driver(family, kernel)[0]),
        begins_with_n(driver(family, kernel)[1]),
{
    reveal_strlit("nvidia-settings");
    reveal_strlit("nvidia-470xx-settings");
    reveal_strlit("nvidia-390xx-settings");
    reveal_strlit("nvidia-340xx-settings");
    lemma_driver_names(driver(family, kernel)[0]);
}

proof fn lemma_drivers(text: Seq<char>, kernel: Seq<char>)
    ensures
        drivers(text, kernel).len() >= 2,
        is_driver(drivers(text, kernel)[0]),
        forall|i: int|
            0 <= i < drivers(text, kernel).len() ==> begins_with_n(
                #[trigger] drivers(text, kernel)[i],
            ),
{
    let all = drivers(text, kernel);
    lemma_driver(Family::Maxwell, kernel);
    lemma_driver(Family::Turing, kernel);
    lemma_driver(Family::Kepler, kernel);
    lemma_driver(Family::Fermi, kernel);
    lemma_driver(Family::Tesla, kernel);
    if names_some_family(text) {
        let family = choose|family: Family| names_family(text, family);
        match family {
            Family::Maxwell => {},
            Family::Turing => {},
            Family::Kepler => {},
            Family::Fermi => {},
            Family::Tesla => {},
        }
        let maxwell = driver_if_named(text, Family::Maxwell, kernel);
        let turing = driver_if_named(text, Family::Turing, kernel);
        let kepler = driver_if_named(text, Family::Kepler, kernel);
        let fermi = driver_if_named(text, Family::Fermi, kernel);
        let tesla = driver_if_named(text, Family::Tesla, kernel);
        assert(all == maxwell + turing + kepler + fermi + tesla);
    } else {
        lemma_driver_names("nvidia-open-dkms"@);
        reveal_strlit("nvidia-settings");
    }
}

/// The packages for a machine without NVIDIA devices.
spec fn other_packages(gpus: Seq<GpuDeviceView>, kernel: Seq<char>) -> Seq<Seq<char>> {
    let all = gpu_packages(gpus, kernel);
    let nvidia: int = if has_vendor(gpus, GpuVendor::Nvidia) {
        nvidia_packages(gpus, kernel).len() as int
    } else {
        0
    };
    all.take(all.len() - nvidia)
}

proof fn lemma_other_packages(gpus: Seq<GpuDeviceView>, kernel: Seq<char>)
    ensures
        gpu_packages(gpus, kernel) == other_packages(gpus, kernel) + (if has_vendor(
            gpus,
            GpuVendor::Nvidia,
        ) {
            nvidia_packages(gpus, kernel)
        } else {
            seq![]
        }),
        forall|i: int|
            0 <= i < other_packages(gpus, kernel).len() ==> ({
                let name = #[trigger] other_packages(gpus, kernel)[i];
                name.len() > 0 && name[0] != 'n' && name[0] != 'e'
            }),
{
    reveal_strlit("xf86-video-amdgpu");
    reveal_strlit("opencl-amd");
    reveal_strlit("opencl-mesa");
    let all = gpu_packages(gpus, kernel);
    let nvidia = if has_vendor(gpus, GpuVendor::Nvidia) {
        nvidia_packages(gpus, kernel)
    } else {
        seq![]
    };
    assert(all =~= other_packages(gpus, kernel) + nvidia);
}

/// A machine gets an NVIDIA driver exactly if it has an NVIDIA display device.
pub proof fn law_drivers_follow_devices(gpus: Seq<GpuDeviceView>, kernel: Seq<char>)
    ensures
        (exists|name: Seq<char>|
            #![trigger is_driver(name)]
            is_driver(name) && gpu_packages(gpus, kernel).contains(name)) <==> has_vendor(
            gpus,
            GpuVendor::Nvidia,
        ),
{
    let all = gpu_packages(gpus, kernel);
    let others = other_packages(gpus, kernel);
    lemma_other_packages(gpus, kernel);
    if has_vendor(gpus, GpuVendor::Nvidia) {
        let chosen = drivers(nvidia_text(gpus), kernel);
        lemma_drivers(nvidia_text(gpus), kernel);
        let name = chosen[0];
        assert(all[others.len() as int] == name);
        assert(all.contains(name));
        assert(is_driver(name));
    } else {
        assert(all =~= others);
        assert forall|name: Seq<char>| #[trigger]
            is_driver(name) implies !all.contains(name) by {
            lemma_driver_names(name);
            if all.contains(name) {
                let i = choose|i: int| 0 <= i < all.len() && all[i] == name;
                assert(others[i] == name);
            }
        }
    }
}

/// A machine gets the tool that switches between graphics exactly if it is a
/// hybrid: an NVIDIA display device beside one from Intel or AMD.
pub proof fn law_hybrids_get_a_switch(gpus: Seq<GpuDeviceView>, kernel: Seq<char>)
    ensures
        gpu_packages(gpus, kernel).contains("envycontrol"@) <==> has_vendor(
            gpus,
            GpuVendor::Nvidia,
        ) && has_integrated(gpus),
{
    reveal_strlit("envycontrol");
    reveal_strlit("opencl-nvidia");
    reveal_strlit("gwe");
    reveal_strlit("nvtop");
    let all = gpu_packages(gpus, kernel);
    let others = other_packages(gpus, kernel);
    lemma_other_packages(gpus, kernel);
    let switch = "envycontrol"@;
    assert(switch[0] == 'e');
    let nvidia = nvidia_packages(gpus, kernel);
    let chosen = drivers(nvidia_text(gpus), kernel);
    let extras = seq!["opencl-nvidia"@, "gwe"@, "nvtop"@];
    lemma_drivers(nvidia_text(gpus), kernel);
    if has_vendor(gpus, GpuVendor::Nvidia) && has_integrated(gpus) {
        assert(nvidia =~= chosen + extras + seq![switch]);
        let at = others.len() + chosen.len() + 3;
        assert(nvidia[chosen.len() as int + 3] == switch);
        assert(all[at as int] == switch);
        assert(all.contains(switch));
    } else if all.contains(switch) {
        let i = choose|i: int| 0 <= i < all.len() && all[i] == switch;
        let j = i - others.len();
        if j < 0 {
            assert(others[i] == switch);
        } else {
            assert(has_vendor(gpus, GpuVendor::Nvidia));
            assert(nvidia =~= chosen + extras);
            assert(nvidia[j] == switch);
            if j < chosen.len() {
                assert(begins_with_n(chosen[j]));
            } else {
                assert(extras[j - chosen.len()] == switch);
            }
        }
        assert(false);
    }
}

proof fn lemma_first_from(gpus: Seq<GpuDeviceView>, vendor: GpuVendor, other: GpuVendor)
    ensures
        first_from(gpus, vendor, other) is Some <==> has_vendor(gpus, vendor) || has_vendor(
            gpus,
            other,
        ),
    decreases gpus.len(),
{
    if gpus.len() > 0 && gpus[0].vendor != vendor && gpus[0].vendor != other {
        let rest = gpus.skip(1);
        lemma_first_from(rest, vendor, other);
        assert forall|wanted: GpuVendor| gpus[0].vendor != wanted implies #[trigger] has_vendor(
            gpus,
            wanted,
        ) == has_vendor(rest, wanted) by {
            if has_vendor(gpus, wanted) {
                let i = choose|i: int| 0 <= i < gpus.len() && gpus[i].vendor == wanted;
                assert(rest[i - 1] == gpus[i]);
            }
            if has_vendor(rest, wanted) {
                let i = choose|i: int| 0 <= i < rest.len() && rest[i].vendor == wanted;
                assert(gpus[i + 1] == rest[i]);
            }
        }
    } else if gpus.len() > 0 {
        assert(has_vendor(gpus, gpus[0].vendor));
    }
}

/// On NixOS a machine without NVIDIA devices is left alone, one with NVIDIA
/// devices only is configured without PRIME, and PRIME is set up, between the first
/// NVIDIA device and the first integrated one, for exactly those machines that
/// elsewhere get the tool that switches between graphics.
pub proof fn law_prime_is_for_hybrids(gpus: Seq<GpuDeviceView>, kernel: Seq<char>)
    ensures
        !has_vendor(gpus, GpuVendor::Nvidia) ==> gpu_nix_steps(gpus, true).len() == 0,
        has_vendor(gpus, GpuVendor::Nvidia) && !has_integrated(gpus) ==> gpu_nix_steps(gpus, true)
            == nvidia_steps(),
        has_vendor(gpus, GpuVendor::Nvidia) && has_integrated(gpus) ==> gpu_nix_steps(gpus, true)
            == nvidia_steps() + prime_steps(
            first_from(gpus, GpuVendor::Nvidia, GpuVendor::Nvidia)->0,
            first_from(gpus, GpuVendor::Intel, GpuVendor::Amd)->0,
        ),
        gpu_nix_steps(gpus, true).len() > nvidia_steps().len() <==> gpu_packages(
            gpus,
            kernel,
        ).contains("envycontrol"@),
{
    law_hybrids_get_a_switch(gpus, kernel);
    lemma_first_from(gpus, GpuVendor::Nvidia, GpuVendor::Nvidia);
    lemma_first_from(gpus, GpuVendor::Intel, GpuVendor::Amd);
}

/// Detection is best effort: where `lspci` could not be run, no device is
/// detected, no package is called for and nothing is changed.
pub proof fn law_without_a_listing_nothing_is_done(kernel: Seq<char>, nix: bool)
    ensures
        detected(None) == Seq::<GpuDeviceView>::empty(),
        gpu_packages(detected(None), kernel) == Seq::<Seq<char>>::empty(),
        gpu_nix_steps(detected(None), nix).len() == 0,
{
    assert(gpu_packages(detected(None), kernel) =~= Seq::<Seq<char>>::empty());
}

/// The codename of a chip holds no space.
proof fn lemma_chips(family: Family, k: int)
    requires
        0 <= k < chips(family).len(),
    ensures
        chips(family)[k].len() > 0,
        !chips(family)[k].contains(' '),
{
    reveal_strlit("GM107");
    reveal_strlit("GM108");
    reveal_strlit("GM200");
    reveal_strlit("GM204");
    reveal_strlit("GM206");
    reveal_strlit("GM20B");
    reveal_strlit("TU102");
    reveal_strlit("TU104");
    reveal_strlit("TU106");
    reveal_strlit("TU116");
    reveal_strlit("TU117");
    reveal_strlit("GK104");
    reveal_strlit("GK107");
    reveal_strlit("GK106");
    reveal_strlit("GK110");
    reveal_strlit("GK110B");
    reveal_strlit("GK208B");
    reveal_strlit("GK208");
    reveal_strlit("GK20A");
    reveal_strlit("GK210");
    reveal_strlit("GF100");
    reveal_strlit("GF108");
    reveal_strlit("GF106");
    reveal_strlit("GF104");
    reveal_strlit("GF110");
    reveal_strlit("GF114");
    reveal_strlit("GF116");
    reveal_strlit("GF117");
    reveal_strlit("GF119");
    reveal_strlit("G80");
    reveal_strlit("G84");
    reveal_strlit("G86");
    reveal_strlit("G92");
    reveal_strlit("G94");
    reveal_strlit("G96");
    reveal_strlit("G98");
    reveal_strlit("GT200");
    reveal_strlit("GT215");
    reveal_strlit("GT216");
    reveal_strlit("GT218");
    reveal_strlit("MCP77");
    reveal_strlit("MCP78");
    reveal_strlit("MCP79");
    reveal_strlit("MCP7A");
    reveal_strlit("MCP89");
}

proof fn lemma_nvidia_descriptions(gpus: Seq<GpuDeviceView>, needle: Seq<char>)
    ensures
        (exists|k: int|
            0 <= k < nvidia_descriptions(gpus).len() && mentions(
                #[trigger] nvidia_descriptions(gpus)[k],
                needle,
            )) <==> (exists|i: int|
            0 <= i < gpus.len() && (#[trigger] gpus[i]).vendor == GpuVendor::Nvidia && mentions(
                gpus[i].description,
                needle,
            )),
    decreases gpus.len(),
{
    let all = nvidia_descriptions(gpus);
    if gpus.len() > 0 {
        let rest = gpus.drop_last();
        let fewer = nvidia_descriptions(rest);
        lemma_nvidia_descriptions(rest, needle);
        if exists|k: int| 0 <= k < all.len() && mentions(#[trigger] all[k], needle) {
            let k = choose|k: int| 0 <= k < all.len() && mentions(#[trigger] all[k], needle);
            if k < fewer.len() {
                assert(fewer[k] == all[k]);
                let i = choose|i: int|
                    0 <= i < rest.len() && (#[trigger] rest[i]).vendor == GpuVendor::Nvidia
                        && mentions(rest[i].description, needle);
                assert(gpus[i] == rest[i]);
            } else {
                assert(all[k] == gpus[gpus.len() - 1].description);
            }
        }
        if exists|i: int|
            0 <= i < gpus.len() && (#[trigger] gpus[i]).vendor == GpuVendor::Nvidia && mentions(
                gpus[i].description,
                needle,
            ) {
            let i = choose|i: int|
                0 <= i < gpus.len() && (#[trigger] gpus[i]).vendor == GpuVendor::Nvidia
                    && mentions(gpus[i].description, needle);
            if i < rest.len() {
                assert(rest[i] == gpus[i]);
                let k = choose|k: int| 0 <= k < fewer.len() && mentions(#[trigger] fewer[k], needle);
                assert(all[k] == fewer[k]);
            } else {
                assert(all[fewer.len() as int] == gpus[i].description);
            }
        }
    }
}

/// A family of chips is served exactly if an NVIDIA device describes itself as one
/// of it: several devices get the drivers of all their families, and no family is
/// seen where two descriptions meet.
pub proof fn law_families_are_named_by_devices(gpus: Seq<GpuDeviceView>, family: Family)
    ensures
        names_family(nvidia_text(gpus), family) <==> exists|i: int|
            0 <= i < gpus.len() && (#[trigger] gpus[i]).vendor == GpuVendor::Nvidia
                && names_family(gpus[i].description, family),
{
    reveal_strlit(" ");
    assert(" "@ =~= seq![' ']);
    let text = nvidia_text(gpus);
    let pieces = nvidia_descriptions(gpus);
    let names = chips(family);
    if names_family(text, family) {
        let k = choose|k: int| 0 <= k < names.len() && mentions(text, #[trigger] names[k]);
        lemma_chips(family, k);
        lemma_joined_mentions(pieces, names[k]);
        lemma_nvidia_descriptions(gpus, names[k]);
        let i = choose|i: int|
            0 <= i < gpus.len() && (#[trigger] gpus[i]).vendor == GpuVendor::Nvidia && mentions(
                gpus[i].description,
                names[k],
            );
        assert(names_family(gpus[i].description, family));
    }
    if exists|i: int|
        0 <= i < gpus.len() && (#[trigger] gpus[i]).vendor == GpuVendor::Nvidia && names_family(
            gpus[i].description,
            family,
        ) {
        let i = choose|i: int|
            0 <= i < gpus.len() && (#[trigger] gpus[i]).vendor == GpuVendor::Nvidia
                && names_family(gpus[i].description, family);
        let k = choose|k: int|
            0 <= k < names.len() && mentions(gpus[i].description, #[trigger] names[k]);
        lemma_chips(family, k);
        lemma_joined_mentions(pieces, names[k]);
        lemma_nvidia_descriptions(gpus, names[k]);
        assert(mentions(text, names[k]));
    }
}

} // verus!
