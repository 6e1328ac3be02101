//! What holds of what is read about the processor and the virtual machine.

use vstd::prelude::*;
use vstd::utf8::*;

use crate::cpu::{first_line_with, vendor_id, VENDOR_LABEL};
use crate::outside::{ascii_lower, decoded, lowered};
use crate::text::{
    begins_with, is_blank, is_solid, lemma_absent, lemma_padding, lemma_splits_after, lines_of, splits, trimmed,
};
use crate::virt::{names_hyperv, no_setup, some_names_hyperv, virt_setup};

verus! {

proof fn lemma_first_line(lines: Seq<Seq<char>>, prefix: Seq<char>, at: int)
    requires
        0 <= at < lines.len(),
        begins_with(lines[at], prefix),
        forall|j: int| 0 <= j < at ==> !begins_with(#[trigger] lines[j], prefix),
    ensures
        first_line_with(lines, prefix) == Some(lines[at]),
    decreases at,
{
    if at > 0 {
        let rest = lines.skip(1);
        assert forall|j: int| 0 <= j < at - 1 implies !begins_with(
            #[trigger] rest[j],
            prefix,
        ) by {
            assert(rest[j] == lines[j + 1]);
        }
        lemma_first_line(rest, prefix, at - 1);
    }
}

/// The vendor is read from the first line that is labelled so, whatever white
/// space stands around it.
pub proof fn law_labelled_vendor_is_read(
    text: Seq<char>,
    at: int,
    lead: Seq<char>,
    vendor: Seq<char>,
    trail: Seq<char>,
)
    requires
        0 <= at < lines_of(text).len(),
        lines_of(text)[at] == VENDOR_LABEL@ + lead + vendor + trail,
        forall|j: int|
            0 <= j < at ==> !begins_with(
                #[trigger] lines_of(text)[j],
                VENDOR_LABEL@,
            ),
        is_blank(lead),
        is_solid(vendor),
        !vendor.contains(':'),
        is_blank(trail),
    ensures
        vendor_id(text) == Some(vendor),
{
    reveal_strlit("Vendor ID:");
    let line = lines_of(text)[at];
    let label = VENDOR_LABEL@;
    let rest = lead + vendor + trail;
    assert(line.subrange(0, label.len() as int) =~= label);
    lemma_first_line(lines_of(text), label, at);
    let head = label.drop_last();
    assert(line =~= head + seq![':'] + rest);
    lemma_splits_after(head, ':', rest);
    assert(!rest.contains(':')) by {
        if rest.contains(':') {
            let i = choose|i: int| 0 <= i < rest.len() && rest[i] == ':';
            if i < lead.len() {
                assert(lead[i] == ':');
            } else if i < lead.len() + vendor.len() {
                assert(vendor[i - lead.len()] == ':');
            } else {
                assert(trail[i - lead.len() - vendor.len()] == ':');
            }
        }
    }
    lemma_absent(rest, ':');
    assert(splits(line, ':')[1] == rest);
    lemma_padding(lead, vendor, trail);
}

/// What a program prints as UTF-8 is read as it was printed.
pub proof fn law_utf8_is_read_as_printed(text: Seq<char>)
    ensures
        valid_utf8(encode_utf8(text)),
        decoded(encode_utf8(text)) == text,
{
    encode_utf8_valid_utf8(text);
    encode_utf8_decode_utf8(text);
}

/// The kind of virtual machine is recognised whatever white space, such as the
/// newline at its end, stands around its name.
pub proof fn law_kind_is_read_without_padding(
    lead: Seq<char>,
    kind: Seq<char>,
    trail: Seq<char>,
    arch: bool,
    nix: bool,
)
    requires
        is_blank(lead),
        is_solid(kind),
        is_blank(trail),
    ensures
        virt_setup(trimmed(lead + kind + trail), arch, nix) == virt_setup(kind, arch, nix),
{
    lemma_padding(lead, kind, trail);
}

/// Bare metal calls for nothing.
pub proof fn law_bare_metal_needs_nothing(arch: bool, nix: bool)
    ensures
        virt_setup("none"@, arch, nix) == no_setup(),
{
    reveal_strlit("none");
    reveal_strlit("oracle");
    reveal_strlit("vmware");
    reveal_strlit("qemu");
    reveal_strlit("kvm");
    reveal_strlit("microsoft");
    assert("none"@[0] != "qemu"@[0]);
}

/// One entry that names Hyper-V is enough, and entries that do not, or that could
/// not be read, are no evidence against it.
pub proof fn law_one_entry_is_enough(entries: Seq<Option<String>>, more: Seq<Option<String>>)
    ensures
        some_names_hyperv(entries + more) <==> some_names_hyperv(entries) || some_names_hyperv(
            more,
        ),
{
    let all = entries + more;
    if some_names_hyperv(all) {
        let i = choose|i: int|
            0 <= i < all.len() && (#[trigger] all[i] matches Some(entry) && names_hyperv(
                lowered(entry@),
            ));
        if i < entries.len() {
            assert(entries[i] == all[i]);
        } else {
            assert(more[i - entries.len()] == all[i]);
        }
    }
    if some_names_hyperv(entries) {
        let i = choose|i: int|
            0 <= i < entries.len() && (#[trigger] entries[i] matches Some(entry) && names_hyperv(
                lowered(entry@),
            ));
        assert(all[i] == entries[i]);
    }
    if some_names_hyperv(more) {
        let i = choose|i: int|
            0 <= i < more.len() && (#[trigger] more[i] matches Some(entry) && names_hyperv(
                lowered(entry@),
            ));
        assert(all[entries.len() + i] == more[i]);
    }
}

/// Letter case does not matter to whether an ASCII entry names Hyper-V.
pub proof fn law_hyperv_is_named_in_any_case(entry: Seq<char>, other: Seq<char>)
    requires
        is_ascii_chars(entry),
        is_ascii_chars(other),
        ascii_lower(entry) == ascii_lower(other),
    ensures
        names_hyperv(lowered(entry)) == names_hyperv(lowered(other)),
{
}

} // verus!
