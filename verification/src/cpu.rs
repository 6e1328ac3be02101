//! The processor: its vendor, the packages and the NixOS configuration that it
//! calls for, and what its cores are good for when packages are built.

use vstd::prelude::*;
use vstd::string::*;
use vstd::utf8::*;

use crate::number::{decimal, to_decimal};
use crate::outside::decode_strict;
use crate::plan::{capture, sed_step, Action, ActionView, Plan, StepView};
use crate::text::{
    add_name, begins_with, contains, equals, first, lemma_first_finds, lines, lines_of, mentions,
    split_on, splits, starts_with, strings, texts, trim, trimmed,
};

verus! {

/// The NixOS module that configures the hardware.
pub const NIX_HARDWARE: &'static str = "/mnt/etc/nixos/modules/hardware/default.nix";

pub const MAKEPKG_CONF: &'static str = "/mnt/etc/makepkg.conf";

/// What `lscpu` puts before the vendor.
pub const VENDOR_LABEL: &'static str = "Vendor ID:";

/// Why the vendor of the processor is not known.
#[derive(Debug, Clone, Copy, PartialEq, Eq, Structural)]
pub enum CpuError {
    /// The output of `lscpu` is not UTF-8.
    NotUtf8,
    /// No line of it names the vendor.
    NoVendorId,
}

/// What the processor calls for.
#[derive(Debug)]
pub struct CpuSetup {
    pub packages: Vec<&'static str>,
    pub plan: Plan,
}

/// The first of `lines` that begins with `prefix`.
pub open spec fn first_line_with(lines: Seq<Seq<char>>, prefix: Seq<char>) -> Option<Seq<char>>
    decreases lines.len(),
{
    if lines.len() == 0 {
        None
    } else if begins_with(lines[0], prefix) {
        Some(lines[0])
    } else {
        first_line_with(lines.skip(1), prefix)
    }
}

/// The vendor that the output of `lscpu` names: what stands between the first two
/// colons of the first line that begins with its label, or after the first where
/// there is no second, white space at the ends aside.
pub open spec fn vendor_id(text: Seq<char>) -> Option<Seq<char>> {
    match first_line_with(lines_of(text), VENDOR_LABEL@) {
        Some(line) => Some(trimmed(splits(line, ':')[1])),
        None => None,
    }
}

/// The vendor of the processor, by what `lscpu` printed.
pub open spec fn cpu_vendor(stdout: Seq<u8>) -> Result<Seq<char>, CpuError> {
    if !valid_utf8(stdout) {
        Err(CpuError::NotUtf8)
    } else {
        match vendor_id(decode_utf8(stdout)) {
            Some(vendor) => Ok(vendor),
            None => Err(CpuError::NoVendorId),
        }
    }
}

/// The packages that a processor calls for.
pub open spec fn cpu_packages(vendor: Seq<char>, arch: bool) -> Seq<Seq<char>> {
    if arch && mentions(vendor, "Intel"@) {
        seq!["intel-ucode"@, "intel-compute-runtime"@]
    } else if arch && mentions(vendor, "AMD"@) {
        seq!["amd-ucode"@]
    } else {
        seq![]
    }
}

/// What configuring a processor comes to.
pub open spec fn cpu_steps(vendor: Seq<char>, arch: bool, nix: bool) -> Seq<StepView> {
    if arch || !nix {
        seq![]
    } else if mentions(vendor, "Intel"@) {
        seq![
            sed_step(
                NIX_HARDWARE@,
                "cpu.intel.updateMicrocode =.*"@,
                "cpu.intel.updateMicrocode = true;"@,
                "Enable Intel ucode"@,
            ),
        ]
    } else if mentions(vendor, "AMD"@) {
        seq![
            sed_step(
                NIX_HARDWARE@,
                "cpu.intel.updateMicrocode =.*"@,
                "cpu.amd.updateMicrocode = true;"@,
                "Enable AMD ucode"@,
            ),
        ]
    } else {
        seq![]
    }
}

/// What `cores` cores come to when packages are built.
pub open spec fn cores_steps(cores: nat) -> Seq<StepView> {
    if cores > 1 {
        seq![
            sed_step(
                MAKEPKG_CONF@,
                "#MAKEFLAGS=.*"@,
                "MAKEFLAGS=\"-j"@ + decimal(cores) + "\""@,
                "Set available cores on MAKEFLAGS"@,
            ),
            sed_step(
                MAKEPKG_CONF@,
                "#BUILDDIR=.*"@,
                "BUILDDIR=/tmp/makepkg"@,
                "Improving compilation times"@,
            ),
            sed_step(
                MAKEPKG_CONF@,
                "COMPRESSXZ=\\(xz -c -z -\\)"@,
                "COMPRESSXZ=(xz -c -z - --threads=0)"@,
                "Changing the compression settings"@,
            ),
            sed_step(
                MAKEPKG_CONF@,
                "COMPRESSZST=\\(zstd -c -z -q -\\)"@,
                "COMPRESSZST=(zstd -c -z -q - --threads=0)"@,
                "Changing the compression settings"@,
            ),
            sed_step(
                MAKEPKG_CONF@,
                "PKGEXT='.pkg.tar.xz'"@,
                "PKGEXT='.pkg.tar.zst'"@,
                "Changing the compression settings"@,
            ),
        ]
    } else {
        seq![]
    }
}

/// A line that begins with the vendor's label has a piece after its first colon.
proof fn lemma_label_has_colon(line: Seq<char>)
    requires
        begins_with(line, VENDOR_LABEL@),
    ensures
        splits(line, ':').len() >= 2,
{
    reveal_strlit("Vendor ID:");
    let label = line.subrange(0, 10);
    assert(label[9] == ':');
    assert(line[9] == ':');
    lemma_first_finds(line, equals(':'));
    let end = first(line, equals(':'));
    if end == line.len() {
        assert(!equals(':')(line[9]));
    }
    let rest = line.skip(end as int + 1);
    assert(splits(rest, ':').len() >= 1);
}

/// What describes the processor.
pub fn describe_cpu() -> (action: Action)
    ensures
        action@ == (ActionView::Capture { program: "lscpu"@, args: seq![] }),
{
    let args: Vec<String> = Vec::new();
    assert(strings(args@) =~= seq![]);
    capture("lscpu", args)
}

/// The vendor that the output of `lscpu` names.
pub fn read_vendor_id<'a>(text: &'a str) -> (vendor: Option<&'a str>)
    ensures
        match vendor {
            Some(found) => vendor_id(text@) == Some(found@),
            None => vendor_id(text@) is None,
        },
{
    let all = lines(text);
    let ghost every = texts(all@);
    let mut k: usize = 0;
    assert(every.skip(0) =~= every);
    while k < all.len()
        invariant
            k <= all@.len(),
            every == texts(all@),
            every == lines_of(text@),
            first_line_with(every, VENDOR_LABEL@) == first_line_with(
                every.skip(k as int),
                VENDOR_LABEL@,
            ),
        decreases all@.len() - k,
    {
        assert(every.skip(k as int)[0] == all@[k as int]@);
        if starts_with(all[k], VENDOR_LABEL) {
            proof {
                lemma_label_has_colon(all@[k as int]@);
            }
            let pieces = split_on(all[k], ':');
            assert(texts(pieces@).len() == pieces@.len());
            assert(texts(pieces@)[1] == pieces@[1]@);
            return Some(trim(pieces[1]));
        }
        assert(every.skip(k as int).skip(1) =~= every.skip(k + 1));
        k = k + 1;
    }
    None
}

/// The vendor of the processor, by what `lscpu` printed.
pub fn cpu_detect(lscpu: &[u8]) -> (vendor: Result<String, CpuError>)
    ensures
        match vendor {
            Ok(found) => cpu_vendor(lscpu@) == Ok::<Seq<char>, CpuError>(found@),
            Err(error) => cpu_vendor(lscpu@) == Err::<Seq<char>, CpuError>(error),
        },
{
    match decode_strict(lscpu) {
        Some(text) => match read_vendor_id(text) {
            Some(vendor) => Ok(vendor.to_string()),
            None => Err(CpuError::NoVendorId),
        },
        None => Err(CpuError::NotUtf8),
    }
}

/// What a processor of `vendor` calls for, on Arch Linux, on NixOS or elsewhere.
pub fn setup_cpu(vendor: &str, arch: bool, nix: bool) -> (setup: CpuSetup)
    ensures
        texts(setup.packages@) == cpu_packages(vendor@, arch),
        setup.plan@ == cpu_steps(vendor@, arch, nix),
{
    let mut packages: Vec<&'static str> = Vec::new();
    let mut plan = Plan::new();
    if contains(vendor, "Intel") {
        if arch {
            add_name(&mut packages, "intel-ucode");
            add_name(&mut packages, "intel-compute-runtime");
        } else if nix {
            plan.sed(
                NIX_HARDWARE,
                "cpu.intel.updateMicrocode =.*",
                "cpu.intel.updateMicrocode = true;",
                "Enable Intel ucode",
            );
        }
    } else if contains(vendor, "AMD") {
        if arch {
            add_name(&mut packages, "amd-ucode");
        } else if nix {
            plan.sed(
                NIX_HARDWARE,
                "cpu.intel.updateMicrocode =.*",
                "cpu.amd.updateMicrocode = true;",
                "Enable AMD ucode",
            );
        }
    }
    assert(texts(packages@) =~= cpu_packages(vendor@, arch));
    assert(plan@ =~= cpu_steps(vendor@, arch, nix));
    CpuSetup { packages, plan }
}

/// What the processor calls for, by what `lscpu` printed.
pub fn cpu_check(lscpu: &[u8], arch: bool, nix: bool) -> (setup: Result<CpuSetup, CpuError>)
    ensures
        match setup {
            Ok(found) => cpu_vendor(lscpu@) matches Ok(vendor) && texts(found.packages@)
                == cpu_packages(vendor, arch) && found.plan@ == cpu_steps(vendor, arch, nix),
            Err(error) => cpu_vendor(lscpu@) == Err::<Seq<char>, CpuError>(error),
        },
{
    match cpu_detect(lscpu) {
        Ok(vendor) => Ok(setup_cpu(vendor.as_str(), arch, nix)),
        Err(error) => Err(error),
    }
}

/// Lets all of `cores` cores take part when packages are built.
pub fn set_cores(cores: usize) -> (plan: Plan)
    ensures
        plan@ == cores_steps(cores as nat),
{
    let mut plan = Plan::new();
    if cores > 1 {
        let flags = "MAKEFLAGS=\"-j".to_string().concat(to_decimal(cores as u64).as_str()).concat(
            "\"",
        );
        plan.sed(
            MAKEPKG_CONF,
            "#MAKEFLAGS=.*",
            flags.as_str(),
            "Set available cores on MAKEFLAGS",
        );
        plan.sed(
            MAKEPKG_CONF,
            "#BUILDDIR=.*",
            "BUILDDIR=/tmp/makepkg",
            "Improving compilation times",
        );
        plan.sed(
            MAKEPKG_CONF,
            "COMPRESSXZ=\\(xz -c -z -\\)",
            "COMPRESSXZ=(xz -c -z - --threads=0)",
            "Changing the compression settings",
        );
        plan.sed(
            MAKEPKG_CONF,
            "COMPRESSZST=\\(zstd -c -z -q -\\)",
            "COMPRESSZST=(zstd -c -z -q - --threads=0)",
            "Changing the compression settings",
        );
        plan.sed(
            MAKEPKG_CONF,
            "PKGEXT='.pkg.tar.xz'",
            "PKGEXT='.pkg.tar.zst'",
            "Changing the compression settings",
        );
    }
    plan
}

} // verus!
