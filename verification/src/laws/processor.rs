//! What the processor comes to: its vendor, its packages and its cores.

use vstd::prelude::*;
use vstd::utf8::*;

use crate::cpu::{
    cores_steps, cpu_packages, cpu_vendor, first_line_with, vendor_id, CpuError,
};
use crate::laws::nixos::changes;
use crate::laws::numbers::{dec_value, law_decimal_is_read_back};
use crate::number::decimal;
use crate::text::{
    begins_with, lemma_absent, lemma_splits_after, lines_of, mentions, splits, trimmed,
};

verus! {

/// Microcode comes on Arch Linux only, and from the vendor that the processor names;
/// with it, for Intel, what runs computations on its graphics. Intel goes first where
/// both are named.
pub proof fn law_microcode_packages_follow_the_vendor(vendor: Seq<char>, arch: bool)
    ensures
        ({
            let packages = cpu_packages(vendor, arch);
            let intel = arch && mentions(vendor, "Intel"@);
            let amd = arch && !mentions(vendor, "Intel"@) && mentions(vendor, "AMD"@);
            &&& intel ==> packages == seq!["intel-ucode"@, "intel-compute-runtime"@]
            &&& amd ==> packages == seq!["amd-ucode"@]
            &&& !intel && !amd ==> packages == Seq::<Seq<char>>::empty()
        }),
{
}

proof fn lemma_first_line(lines: Seq<Seq<char>>, prefix: Seq<char>, at: int)
    requires
        0 <= at < lines.len(),
        begins_with(lines[at], prefix),
        forall|j: int| 0 <= j < at ==> !begins_with(#[trigger] lines[j], prefix),
    ensures
        first_line_with(lines, prefix) == Some(lines[at]),
    decreases at,
{
    if at > 0 {
        assert(!begins_with(lines[0], prefix));
        let rest = lines.skip(1);
        assert forall|j: int| 0 <= j < at - 1 implies !begins_with(
            #[trigger] rest[j],
            prefix,
        ) by {
            assert(rest[j] == lines[j + 1]);
        }
        lemma_first_line(rest, prefix, at - 1);
    }
}

proof fn lemma_no_line(lines: Seq<Seq<char>>, prefix: Seq<char>)
    requires
        forall|j: int| 0 <= j < lines.len() ==> !begins_with(#[trigger] lines[j], prefix),
    ensures
        first_line_with(lines, prefix) is None,
    decreases lines.len(),
{
    if lines.len() > 0 {
        let rest = lines.skip(1);
        assert forall|j: int| 0 <= j < rest.len() implies !begins_with(
            #[trigger] rest[j],
            prefix,
        ) by {
            assert(rest[j] == lines[j + 1]);
        }
        lemma_no_line(rest, prefix);
    }
}

/// The vendor is what the first line that begins with `Vendor ID:` goes on with, up
/// to another colon if there is one, without white space at its ends.
pub proof fn law_vendor_is_read_after_its_label(
    text: Seq<char>,
    at: int,
    value: Seq<char>,
    rest: Seq<char>,
)
    requires
        0 <= at < lines_of(text).len(),
        forall|j: int|
            0 <= j < at ==> !begins_with(#[trigger] lines_of(text)[j], "Vendor ID:"@),
        lines_of(text)[at] == "Vendor ID:"@ + value || lines_of(text)[at] == "Vendor ID:"@ + value
            + seq![':'] + rest,
        !value.contains(':'),
    ensures
        vendor_id(text) == Some(trimmed(value)),
        cpu_vendor(encode_utf8(text)) == Ok::<Seq<char>, CpuError>(trimmed(value)),
{
    reveal_strlit("Vendor ID:");
    let line = lines_of(text)[at];
    let label = "Vendor ID:"@;
    assert(line.subrange(0, label.len() as int) =~= label);
    lemma_first_line(lines_of(text), label, at);
    let head = label.drop_last();
    assert(!head.contains(':'));
    assert(label =~= head + seq![':']);
    let tail = line.skip(label.len() as int);
    assert(line =~= head + seq![':'] + tail);
    lemma_splits_after(head, ':', tail);
    if line == label + value {
        assert(tail =~= value);
        lemma_absent(value, ':');
    } else {
        assert(tail =~= value + seq![':'] + rest);
        lemma_splits_after(value, ':', rest);
    }
    assert(splits(line, ':')[1] == value);
    encode_utf8_valid_utf8(text);
    encode_utf8_decode_utf8(text);
}

/// Without such a line there is no vendor, and what is not UTF-8 is not read at all.
pub proof fn law_vendor_may_be_missing(text: Seq<char>, bytes: Seq<u8>)
    requires
        forall|j: int|
            0 <= j < lines_of(text).len() ==> !begins_with(
                #[trigger] lines_of(text)[j],
                "Vendor ID:"@,
            ),
    ensures
        vendor_id(text) is None,
        cpu_vendor(encode_utf8(text)) == Err::<Seq<char>, CpuError>(CpuError::NoVendorId),
        !valid_utf8(bytes) ==> cpu_vendor(bytes) == Err::<Seq<char>, CpuError>(
            CpuError::NotUtf8,
        ),
{
    lemma_no_line(lines_of(text), "Vendor ID:"@);
    encode_utf8_valid_utf8(text);
    encode_utf8_decode_utf8(text);
}

/// The cores take part in building packages where there is more than one: as many
/// jobs as there are cores, building in memory, compression in threads, and packages
/// in the faster format.
pub proof fn law_cores_take_part(cores: nat)
    ensures
        ({
            let steps = cores_steps(cores);
            let file = "/mnt/etc/makepkg.conf"@;
            &&& steps.len() == if cores > 1 {
                5nat
            } else {
                0
            }
            &&& cores > 1 ==> {
                &&& changes(
                    steps[0],
                    file,
                    "#MAKEFLAGS=.*"@,
                    "MAKEFLAGS=\""@ + "-j"@ + decimal(cores) + "\""@,
                    "Set available cores on MAKEFLAGS"@,
                )
                &&& dec_value(decimal(cores)) == cores
                &&& changes(
                    steps[1],
                    file,
                    "#BUILDDIR=.*"@,
                    "BUILDDIR=/tmp/makepkg"@,
                    "Improving compilation times"@,
                )
                &&& changes(
                    steps[2],
                    file,
                    "COMPRESSXZ=\\("@ + "xz -c -z -"@ + "\\)"@,
                    "COMPRESSXZ=("@ + "xz -c -z -"@ + " --threads=0)"@,
                    "Changing the compression settings"@,
                )
                &&& changes(
                    steps[3],
                    file,
                    "COMPRESSZST=\\("@ + "zstd -c -z -q -"@ + "\\)"@,
                    "COMPRESSZST=("@ + "zstd -c -z -q -"@ + " --threads=0)"@,
                    "Changing the compression settings"@,
                )
                &&& changes(
                    steps[4],
                    file,
                    "PKGEXT='.pkg.tar."@ + "xz'"@,
                    "PKGEXT='.pkg.tar."@ + "zst'"@,
                    "Changing the compression settings"@,
                )
            }
        }),
{
    reveal_strlit("MAKEFLAGS=\"");
    reveal_strlit("-j");
    reveal_strlit("MAKEFLAGS=\"-j");
    assert("MAKEFLAGS=\""@ + "-j"@ =~= "MAKEFLAGS=\"-j"@);
    reveal_strlit("COMPRESSXZ=\\(");
    reveal_strlit("COMPRESSXZ=(");
    reveal_strlit("xz -c -z -");
    reveal_strlit("\\)");
    reveal_strlit(" --threads=0)");
    reveal_strlit("COMPRESSXZ=\\(xz -c -z -\\)");
    reveal_strlit("COMPRESSXZ=(xz -c -z - --threads=0)");
    reveal_strlit("COMPRESSZST=\\(");
    reveal_strlit("COMPRESSZST=(");
    reveal_strlit("zstd -c -z -q -");
    reveal_strlit("COMPRESSZST=\\(zstd -c -z -q -\\)");
    reveal_strlit("COMPRESSZST=(zstd -c -z -q - --threads=0)");
    reveal_strlit("PKGEXT='.pkg.tar.");
    reveal_strlit("xz'");
    reveal_strlit("zst'");
    reveal_strlit("PKGEXT='.pkg.tar.xz'");
    reveal_strlit("PKGEXT='.pkg.tar.zst'");
    assert("COMPRESSXZ=\\("@ + "xz -c -z -"@ + "\\)"@ =~= "COMPRESSXZ=\\(xz -c -z -\\)"@);
    assert("COMPRESSXZ=("@ + "xz -c -z -"@ + " --threads=0)"@
        =~= "COMPRESSXZ=(xz -c -z - --threads=0)"@);
    assert("COMPRESSZST=\\("@ + "zstd -c -z -q -"@ + "\\)"@ =~= "COMPRESSZST=\\(zstd -c -z -q -\\)"@);
    assert("COMPRESSZST=("@ + "zstd -c -z -q -"@ + " --threads=0)"@
        =~= "COMPRESSZST=(zstd -c -z -q - --threads=0)"@);
    assert("PKGEXT='.pkg.tar."@ + "xz'"@ =~= "PKGEXT='.pkg.tar.xz'"@);
    assert("PKGEXT='.pkg.tar."@ + "zst'"@ =~= "PKGEXT='.pkg.tar.zst'"@);
    law_decimal_is_read_back(cores);
}

} // verus!
