//! What is read off a line of the listing of devices.

use vstd::prelude::*;
use vstd::utf8::*;

use crate::laws::numbers::{dec_value, law_decimal_is_read_back};
use crate::laws::words::law_lines_are_cut_at_white_space;
use crate::number::{decimal, hex_number, is_hex};
use crate::outside::{ascii_lower, begins_with_code, first_code};
use crate::pci::{
    bus_id, bus_id_of, describes_display, detected, device_on, devices_on, pci_address, vendor_of,
    GpuDeviceView, GpuVendor, PciAddress,
};
use crate::text::{
    cut, first, is_solid, is_space, last, lemma_absent, lemma_first_finds,
    lemma_last_before, lemma_splits_after, lines_of, space, splits, trimmed,
};

verus! {

/// A bus ID can be read: after `PCI` stand bus and domain, with `@` between them,
/// then the device and then the function, in base ten and with colons between.
pub proof fn law_bus_id_is_read_back(address: PciAddress)
    ensures
        ({
            let parts = splits(bus_id(address), ':');
            &&& parts.len() == 4
            &&& parts[0] == "PCI"@
            &&& splits(parts[1], '@').len() == 2
            &&& dec_value(splits(parts[1], '@')[0]) == address.bus
            &&& dec_value(splits(parts[1], '@')[1]) == address.domain
            &&& dec_value(parts[2]) == address.device
            &&& dec_value(parts[3]) == address.function
        }),
{
    let bus = decimal(address.bus as nat);
    let domain = decimal(address.domain as nat);
    let device = decimal(address.device as nat);
    let function = decimal(address.function as nat);
    law_decimal_is_read_back(address.bus as nat);
    law_decimal_is_read_back(address.domain as nat);
    law_decimal_is_read_back(address.device as nat);
    law_decimal_is_read_back(address.function as nat);
    reveal_strlit("PCI:");
    reveal_strlit("PCI");
    reveal_strlit("@");
    reveal_strlit(":");
    let pair = bus + seq!['@'] + domain;
    let last = device + seq![':'] + function;
    let rest = pair + seq![':'] + last;
    assert(bus_id(address) =~= "PCI"@ + seq![':'] + rest);
    assert(!"PCI"@.contains(':'));
    assert forall|i: int| 0 <= i < pair.len() implies pair[i] != ':' by {
        if i < bus.len() {
            assert(pair[i] == bus[i]);
        } else if i > bus.len() {
            assert(pair[i] == domain[i - bus.len() - 1]);
        }
    }
    lemma_splits_after("PCI"@, ':', rest);
    lemma_splits_after(pair, ':', last);
    lemma_splits_after(device, ':', function);
    lemma_absent(function, ':');
    lemma_splits_after(bus, '@', domain);
    lemma_absent(domain, '@');
    assert(splits(bus_id(address), ':') =~= seq!["PCI"@, pair, device, function]);
    assert(splits(pair, '@') =~= seq![bus, domain]);
}

/// An address is read part by part, with white space around each part: domain, bus
/// and device before colons and the function after a dot, each in base sixteen. All
/// must be numbers.
pub proof fn law_address_is_read_in_parts(
    domain: Seq<char>,
    bus: Seq<char>,
    device: Seq<char>,
    function: Seq<char>,
)
    requires
        !domain.contains(':'),
        !bus.contains(':'),
        !device.contains(':'),
        !function.contains('.'),
    ensures
        ({
            let text = domain + seq![':'] + (bus + seq![':'] + device) + seq!['.'] + function;
            match pci_address(text) {
                Some(address) => {
                    &&& hex_number(trimmed(domain)) == Some(address.domain)
                    &&& hex_number(trimmed(bus)) == Some(address.bus)
                    &&& hex_number(trimmed(device)) == Some(address.device)
                    &&& hex_number(trimmed(function)) == Some(address.function)
                    &&& bus_id_of(text) == Some(bus_id(address))
                },
                None => {
                    &&& bus_id_of(text) is None
                    &&& {
                        ||| hex_number(trimmed(domain)) is None
                        ||| hex_number(trimmed(bus)) is None
                        ||| hex_number(trimmed(device)) is None
                        ||| hex_number(trimmed(function)) is None
                    }
                },
            }
        }),
{
    let head = domain + seq![':'] + (bus + seq![':'] + device);
    let text = head + seq!['.'] + function;
    lemma_last_before(head, '.', function);
    assert(text.take(head.len() as int) =~= head);
    assert(text.skip(head.len() as int + 1) =~= function);
    lemma_splits_after(domain, ':', bus + seq![':'] + device);
    lemma_splits_after(bus, ':', device);
    lemma_absent(device, ':');
    assert(splits(head, ':') =~= seq![domain, bus, device]);
}

/// What has no dot, or more or fewer parts before its last one, is no address.
pub proof fn law_other_text_is_no_address(text: Seq<char>, head: Seq<char>, function: Seq<char>)
    requires
        !function.contains('.'),
    ensures
        !text.contains('.') ==> pci_address(text) is None && bus_id_of(text) is None,
        splits(head, ':').len() != 2 && splits(head, ':').len() != 3 ==> pci_address(
            head + seq!['.'] + function,
        ) is None && bus_id_of(head + seq!['.'] + function) is None,
{
    if !text.contains('.') {
        lemma_no_last(text, '.');
    }
    let whole = head + seq!['.'] + function;
    lemma_last_before(head, '.', function);
    assert(whole.take(head.len() as int) =~= head);
}

proof fn lemma_no_last(text: Seq<char>, sep: char)
    requires
        !text.contains(sep),
    ensures
        last(text, sep) == -1,
    decreases text.len(),
{
    if text.len() > 0 {
        assert(text.contains(text.last()));
        assert forall|j: int| 0 <= j < text.len() - 1 implies text.drop_last()[j] != sep by {
            assert(text.contains(text[j]));
        }
        lemma_no_last(text.drop_last(), sep);
    }
}

/// Whether four hexadecimal digits stand in `text` from `at` on.
pub open spec fn four_digits(text: Seq<char>, at: int) -> bool {
    &&& 0 <= at <= text.len() - 4
    &&& is_hex(text[at]) && is_hex(text[at + 1]) && is_hex(text[at + 2]) && is_hex(text[at + 3])
}

/// Whether a class code such as `[0300]` stands in `text` at `at`.
pub open spec fn class_at(text: Seq<char>, at: int) -> bool {
    &&& 0 <= at <= text.len() - 6
    &&& text[at] == '['
    &&& four_digits(text, at + 1)
    &&& text[at + 5] == ']'
}

/// Whether a vendor and a device such as `[10de:1f95]` stand in `text` at `at`.
pub open spec fn pair_at(text: Seq<char>, at: int) -> bool {
    &&& 0 <= at <= text.len() - 11
    &&& text[at] == '['
    &&& four_digits(text, at + 1)
    &&& text[at + 5] == ':'
    &&& four_digits(text, at + 6)
    &&& text[at + 10] == ']'
}

/// Whether a pair, or else a class code, stands in `text` at `at`.
spec fn code_at(text: Seq<char>, pair: bool, at: int) -> bool {
    if pair {
        pair_at(text, at)
    } else {
        class_at(text, at)
    }
}

proof fn lemma_code_here(text: Seq<char>, pair: bool)
    ensures
        begins_with_code(text, pair) == code_at(text, pair, 0),
{
    if text.len() >= 6 {
        let code = text.subrange(1, 5);
        assert(code[0] == text[1] && code[1] == text[2] && code[2] == text[3] && code[3]
            == text[4]);
    }
    if text.len() >= 11 {
        let code = text.subrange(6, 10);
        assert(code[0] == text[6] && code[1] == text[7] && code[2] == text[8] && code[3]
            == text[9]);
    }
}

proof fn lemma_first_code(text: Seq<char>, pair: bool, at: int)
    requires
        code_at(text, pair, at),
        forall|k: int| 0 <= k < at ==> !#[trigger] code_at(text, pair, k),
    ensures
        first_code(text, pair) == Some(text.subrange(at + 1, at + 5)),
    decreases text.len(),
{
    lemma_code_here(text, pair);
    if at > 0 {
        let rest = text.skip(1);
        assert(!code_at(text, pair, 0));
        assert(code_at(rest, pair, at - 1) == code_at(text, pair, at));
        assert forall|k: int| 0 <= k < at - 1 implies !#[trigger] code_at(rest, pair, k) by {
            assert(code_at(rest, pair, k) == code_at(text, pair, k + 1));
        }
        lemma_first_code(rest, pair, at - 1);
        assert(rest.subrange(at, at + 4) =~= text.subrange(at + 1, at + 5));
    }
}

proof fn lemma_no_code(text: Seq<char>, pair: bool)
    requires
        forall|k: int| !#[trigger] code_at(text, pair, k),
    ensures
        first_code(text, pair) is None,
    decreases text.len(),
{
    lemma_code_here(text, pair);
    if text.len() > 0 {
        let rest = text.skip(1);
        assert(!code_at(text, pair, 0));
        assert forall|k: int| !#[trigger] code_at(rest, pair, k) by {
            assert(!code_at(text, pair, k + 1));
        }
        lemma_no_code(rest, pair);
    }
}

/// The leftmost class code tells what a device is: a display controller exactly if
/// it begins with `03`. Without a class code it is none.
pub proof fn law_class_tells_display_controllers(text: Seq<char>, at: int)
    requires
        class_at(text, at),
        forall|k: int| 0 <= k < at ==> !#[trigger] class_at(text, k),
    ensures
        describes_display(text) <==> text[at + 1] == '0' && text[at + 2] == '3',
{
    assert forall|k: int| 0 <= k < at implies !#[trigger] code_at(text, false, k) by {
        assert(!class_at(text, k));
    }
    lemma_first_code(text, false, at);
    reveal_strlit("03");
    let class = text.subrange(at + 1, at + 5);
    let start = class.subrange(0, 2);
    assert(start[0] == text[at + 1] && start[1] == text[at + 2]);
    if text[at + 1] == '0' && text[at + 2] == '3' {
        assert(start =~= "03"@);
    }
}

/// What holds no class code describes no display controller, and what holds no pair
/// is of no known vendor.
pub proof fn law_codes_are_needed(text: Seq<char>)
    ensures
        (forall|k: int| !#[trigger] class_at(text, k)) ==> !describes_display(text),
        (forall|k: int| !#[trigger] pair_at(text, k)) ==> vendor_of(text) == GpuVendor::Other,
{
    if forall|k: int| !#[trigger] class_at(text, k) {
        assert forall|k: int| !#[trigger] code_at(text, false, k) by {
            assert(!class_at(text, k));
        }
        lemma_no_code(text, false);
    }
    if forall|k: int| !#[trigger] pair_at(text, k) {
        assert forall|k: int| !#[trigger] code_at(text, true, k) by {
            assert(!pair_at(text, k));
        }
        lemma_no_code(text, true);
    }
}

/// The leftmost pair tells the vendor, in either case: `10de` is NVIDIA, `8086` is
/// Intel, `1002` and `1022` are AMD, and any other is none of these.
pub proof fn law_pair_tells_the_vendor(text: Seq<char>, at: int)
    requires
        pair_at(text, at),
        forall|k: int| 0 <= k < at ==> !#[trigger] pair_at(text, k),
    ensures
        ({
            let a = text[at + 1];
            let b = text[at + 2];
            let c = text[at + 3];
            let d = text[at + 4];
            let nvidia = a == '1' && b == '0' && (c == 'd' || c == 'D') && (d == 'e' || d == 'E');
            let intel = a == '8' && b == '0' && c == '8' && d == '6';
            let amd = a == '1' && b == '0' && (c == '0' || c == '2') && d == '2';
            &&& nvidia <==> vendor_of(text) == GpuVendor::Nvidia
            &&& intel <==> vendor_of(text) == GpuVendor::Intel
            &&& amd <==> vendor_of(text) == GpuVendor::Amd
        }),
{
    assert forall|k: int| 0 <= k < at implies !#[trigger] code_at(text, true, k) by {
        assert(!pair_at(text, k));
    }
    lemma_first_code(text, true, at);
    let id = text.subrange(at + 1, at + 5);
    let low = ascii_lower(id);
    reveal_strlit("10de");
    reveal_strlit("8086");
    reveal_strlit("1002");
    reveal_strlit("1022");
    assert(id[0] == text[at + 1] && id[1] == text[at + 2] && id[2] == text[at + 3] && id[3]
        == text[at + 4]);
    assert('D' as u32 + 32 == 'd' as u32 && 'E' as u32 + 32 == 'e' as u32);
    assert(low.len() == 4);
    assert(is_hex(id[0]) && is_hex(id[1]) && is_hex(id[2]) && is_hex(id[3]));
    let a = id[0];
    let b = id[1];
    let c = id[2];
    let d = id[3];
    if a == '1' && b == '0' && (c == 'd' || c == 'D') && (d == 'e' || d == 'E') {
        assert(low =~= "10de"@);
    }
    if a == '8' && b == '0' && c == '8' && d == '6' {
        assert(low =~= "8086"@);
    }
    if a == '1' && b == '0' && c == '0' && d == '2' {
        assert(low =~= "1002"@);
    }
    if a == '1' && b == '0' && c == '2' && d == '2' {
        assert(low =~= "1022"@);
    }
    assert("10de"@[2] == 'd' && "10de"@[3] == 'e' && "10de"@[0] == '1' && "10de"@[1] == '0');
    assert("8086"@[0] == '8' && "8086"@[1] == '0' && "8086"@[2] == '8' && "8086"@[3] == '6');
    assert("1002"@[0] == '1' && "1002"@[1] == '0' && "1002"@[2] == '0' && "1002"@[3] == '2');
    assert("1022"@[0] == '1' && "1022"@[1] == '0' && "1022"@[2] == '2' && "1022"@[3] == '2');
}

/// A device is detected for no other reason than its line: the line is an address,
/// one white space and the description of a display controller, and the device has
/// that description, the vendor that it names and the bus ID of that address.
pub proof fn law_devices_are_what_their_lines_say(line: Seq<char>, device: GpuDeviceView)
    requires
        device_on(line) == Some(device),
    ensures
        ({
            let address = line.take(line.len() - device.description.len() - 1);
            &&& device.description.len() < line.len()
            &&& address.len() > 0
            &&& is_solid(address)
            &&& is_space(line[address.len() as int])
            &&& line.skip(address.len() as int + 1) == device.description
            &&& bus_id_of(address) == Some(device.bus_id)
            &&& describes_display(device.description)
            &&& device.vendor == vendor_of(device.description)
        }),
{
    let end = first(line, space());
    lemma_first_finds(line, space());
    if end == line.len() {
        assert(cut(line).1 =~= seq![]);
        assert(!describes_display(seq![]));
    }
    let address = line.take(line.len() - device.description.len() - 1);
    assert(address =~= line.take(end as int));
    assert forall|i: int| 0 <= i < address.len() implies !is_space(#[trigger] address[i]) by {
        assert(!space()(line[i]));
    }
}

/// Every such line has its device, and a line without an address that can be read,
/// or without white space after it, has none.
pub proof fn law_lines_with_an_address_have_their_device(
    address: Seq<char>,
    c: char,
    description: Seq<char>,
)
    requires
        is_solid(address),
        is_space(c),
    ensures
        ({
            let line = address + seq![c] + description;
            &&& device_on(address) is None
            &&& match bus_id_of(address) {
                Some(id) if address.len() > 0 && describes_display(description) => device_on(line)
                    == Some(
                    GpuDeviceView { vendor: vendor_of(description), bus_id: id, description },
                ),
                _ => device_on(line) is None,
            }
        }),
{
    law_lines_are_cut_at_white_space(address, c, description);
    assert(!describes_display(seq![]));
}

/// What `lspci` prints as UTF-8 is read line by line.
pub proof fn law_listing_is_read_line_by_line(text: Seq<char>, stdout: &[u8])
    requires
        stdout@ == encode_utf8(text),
    ensures
        detected(Some(stdout)) == devices_on(lines_of(text)),
{
    encode_utf8_valid_utf8(text);
    encode_utf8_decode_utf8(text);
}

} // verus!
