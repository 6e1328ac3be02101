//! What holds of PCI addresses, bus IDs and the detection of display devices.

use vstd::prelude::*;

use crate::number::{
    all_hex, decimal, decimal_digit, hex_digit, hex_number, hex_value, is_hex, unsigned,
};
use crate::outside::begins_with_code;
use crate::pci::{
    bus_id, bus_id_of, describes_display, device_on, devices_on, pci_address,
    vendor_of, GpuDeviceView, PciAddress,
};
use crate::text::{
    cut, equals, is_space, last, lemma_absent, lemma_first, lemma_last_before, lemma_last_shift,
    lemma_lines_after, lemma_padding, lemma_splits_after, lines_of, space, splits, trimmed,
    without_return,
};

verus! {

/// The character for a hexadecimal digit, in lower case.
pub open spec fn hex_char(d: int) -> char {
    if d < 10 {
        (d + '0' as int) as char
    } else {
        (d - 10 + 'a' as int) as char
    }
}

/// The number `n` in base sixteen, with leading zeros up to `width` digits.
pub open spec fn hex_text(n: nat, width: nat) -> Seq<char>
    decreases n, width,
{
    if n < 16 && width <= 1 {
        seq![hex_char(n as int)]
    } else {
        let rest: nat = if width > 1 {
            (width - 1) as nat
        } else {
            1
        };
        hex_text(n / 16, rest).push(hex_char((n % 16) as int))
    }
}

/// An address as `lspci -D` prints it: `domain:bus:device.function` with four,
/// two, two and one hexadecimal digits.
pub open spec fn printed(address: PciAddress) -> Seq<char> {
    hex_text(address.domain as nat, 4) + seq![':'] + (hex_text(address.bus as nat, 2) + seq![':']
        + hex_text(address.device as nat, 2)) + seq!['.'] + hex_text(address.function as nat, 1)
}

pub proof fn lemma_hex_text(n: nat, width: nat)
    ensures
        hex_text(n, width).len() > 0,
        all_hex(hex_text(n, width)),
        hex_value(hex_text(n, width)) == n,
    decreases n, width,
{
    let text = hex_text(n, width);
    assert(is_hex(hex_char((n % 16) as int)));
    assert(hex_digit(hex_char((n % 16) as int)) == n % 16);
    if n < 16 && width <= 1 {
        assert(text.drop_last() =~= seq![]);
        assert(hex_value(text.drop_last()) == 0);
        assert(text.last() == hex_char(n as int));
    } else {
        let rest: nat = if width > 1 {
            (width - 1) as nat
        } else {
            1
        };
        lemma_hex_text(n / 16, rest);
        assert(text.drop_last() =~= hex_text(n / 16, rest));
        assert forall|i: int| 0 <= i < text.len() implies is_hex(#[trigger] text[i]) by {
            if i < text.len() - 1 {
                assert(text[i] == hex_text(n / 16, rest)[i]);
            }
        }
    }
}

/// A number in base sixteen is read as what it is, alone and as a part of an
/// address.
proof fn lemma_hex_part(n: u32, width: nat)
    ensures
        hex_number(trimmed(hex_text(n as nat, width))) == Some(n),
        !hex_text(n as nat, width).contains(':'),
        !hex_text(n as nat, width).contains('.'),
        forall|i: int|
            0 <= i < hex_text(n as nat, width).len() ==> !is_space(
                #[trigger] hex_text(n as nat, width)[i],
            ),
{
    let text = hex_text(n as nat, width);
    lemma_hex_text(n as nat, width);
    assert forall|i: int| 0 <= i < text.len() implies !is_space(#[trigger] text[i]) && text[i]
        != ':' && text[i] != '.' && text[i] != '+' by {
        assert(is_hex(text[i]));
    }
    lemma_padding(seq![], text, seq![]);
    assert(seq![] + text + seq![] =~= text);
    assert(unsigned(text) == text);
}

/// Every address is read back from what `lspci -D` prints for it.
pub proof fn law_printed_address_is_read_back(address: PciAddress)
    ensures
        pci_address(printed(address)) == Some(address),
        bus_id_of(printed(address)) == Some(bus_id(address)),
{
    let domain = hex_text(address.domain as nat, 4);
    let bus = hex_text(address.bus as nat, 2);
    let device = hex_text(address.device as nat, 2);
    let function = hex_text(address.function as nat, 1);
    lemma_hex_part(address.domain, 4);
    lemma_hex_part(address.bus, 2);
    lemma_hex_part(address.device, 2);
    lemma_hex_part(address.function, 1);
    let head = domain + seq![':'] + (bus + seq![':'] + device);
    let text = printed(address);
    assert(text =~= head + seq!['.'] + function);
    lemma_last_before(head, '.', function);
    assert(text.take(head.len() as int) =~= head);
    assert(text.skip(head.len() as int + 1) =~= function);
    lemma_splits_after(domain, ':', bus + seq![':'] + device);
    lemma_splits_after(bus, ':', device);
    lemma_absent(device, ':');
    assert(splits(head, ':') =~= seq![domain, bus, device]);
}

/// An address without a domain is one in domain zero: writing out any domain that
/// reads zero changes nothing.
pub proof fn law_missing_domain_is_zero(text: Seq<char>, domain: Seq<char>)
    requires
        last(text, '.') >= 0,
        splits(text.take(last(text, '.')), ':').len() == 2,
        !domain.contains(':'),
        hex_number(trimmed(domain)) == Some(0u32),
    ensures
        pci_address(domain + seq![':'] + text) == pci_address(text),
{
    let dot = last(text, '.');
    let whole = domain + seq![':'] + text;
    lemma_last_shift(domain + seq![':'], text, '.');
    let shifted = last(whole, '.');
    assert(shifted == domain.len() + 1 + dot);
    let head = text.take(dot);
    assert(whole.take(shifted) =~= domain + seq![':'] + head);
    assert(whole.skip(shifted + 1) =~= text.skip(dot + 1));
    lemma_splits_after(domain, ':', head);
    let parts = splits(head, ':');
    assert(splits(whole.take(shifted), ':') =~= seq![domain, parts[0], parts[1]]);
    reveal_strlit("0");
    let zero = "0"@;
    assert(!is_space(zero[0]));
    lemma_padding(seq![], zero, seq![]);
    assert(seq![] + zero + seq![] =~= zero);
    assert(zero.drop_last() =~= seq![]);
    assert(hex_value(zero.drop_last()) == 0);
    assert(unsigned(zero) == zero);
    assert(all_hex(zero));
    assert(hex_number(trimmed(zero)) == Some(0u32));
}

proof fn lemma_decimal(n: nat)
    ensures
        decimal(n).len() > 0,
        forall|i: int| 0 <= i < decimal(n).len() ==> '0' <= #[trigger] decimal(n)[i] <= '9',
        n < 10 <==> decimal(n).len() == 1,
    decreases n,
{
    if n >= 10 {
        lemma_decimal(n / 10);
    }
}

proof fn lemma_decimal_injective(a: nat, b: nat)
    requires
        decimal(a) == decimal(b),
    ensures
        a == b,
    decreases a,
{
    lemma_decimal(a);
    lemma_decimal(b);
    if a < 10 {
        assert(decimal(a)[0] as int == a + 48);
        assert(decimal(b)[0] as int == b + 48);
    } else {
        assert(decimal(a).drop_last() =~= decimal(a / 10));
        assert(decimal(b).drop_last() =~= decimal(b / 10));
        lemma_decimal_injective(a / 10, b / 10);
        assert(decimal(a).last() == decimal_digit((a % 10) as int));
        assert(decimal(b).last() == decimal_digit((b % 10) as int));
        assert(decimal_digit((a % 10) as int) as int == a % 10 + 48);
        assert(decimal_digit((b % 10) as int) as int == b % 10 + 48);
    }
}

/// Text up to the first occurrence of a character is determined by the whole.
proof fn lemma_cut_unique(
    head: Seq<char>,
    tail: Seq<char>,
    other_head: Seq<char>,
    other_tail: Seq<char>,
    sep: char,
)
    requires
        head + seq![sep] + tail == other_head + seq![sep] + other_tail,
        !head.contains(sep),
        !other_head.contains(sep),
    ensures
        head == other_head,
        tail == other_tail,
{
    let whole = head + seq![sep] + tail;
    let other = other_head + seq![sep] + other_tail;
    if head.len() < other_head.len() {
        assert(other[head.len() as int] == whole[head.len() as int] == sep);
        assert(other_head[head.len() as int] == sep);
        assert(other_head.contains(other_head[head.len() as int]));
    }
    if other_head.len() < head.len() {
        assert(whole[other_head.len() as int] == other[other_head.len() as int] == sep);
        assert(head[other_head.len() as int] == sep);
        assert(head.contains(head[other_head.len() as int]));
    }
    assert forall|i: int| 0 <= i < head.len() implies head[i] == other_head[i] by {
        assert(whole[i] == other[i]);
    }
    assert(head =~= other_head);
    assert(whole.len() == other.len());
    assert forall|i: int| 0 <= i < tail.len() implies tail[i] == other_tail[i] by {
        let at = head.len() as int + 1 + i;
        assert(whole[at] == tail[i]);
        assert(other[at] == other_tail[i]);
    }
    assert(tail =~= other_tail);
}

/// The parts of a bus ID, taken apart at its separators.
proof fn lemma_bus_id_parts(address: PciAddress)
    ensures
        ({
            let bus = decimal(address.bus as nat);
            let domain = decimal(address.domain as nat);
            let device = decimal(address.device as nat);
            let function = decimal(address.function as nat);
            &&& bus_id(address) == ("PCI:"@ + bus) + seq!['@'] + (domain + seq![':'] + (device
                + seq![':'] + function))
            &&& !("PCI:"@ + bus).contains('@')
            &&& !domain.contains(':')
            &&& !device.contains(':')
        }),
{
    reveal_strlit("PCI:");
    reveal_strlit("@");
    reveal_strlit(":");
    let bus = decimal(address.bus as nat);
    let domain = decimal(address.domain as nat);
    let device = decimal(address.device as nat);
    let function = decimal(address.function as nat);
    lemma_decimal(address.bus as nat);
    lemma_decimal(address.domain as nat);
    lemma_decimal(address.device as nat);
    assert("@"@ =~= seq!['@']);
    assert(":"@ =~= seq![':']);
    assert(bus_id(address) =~= ("PCI:"@ + bus) + seq!['@'] + (domain + seq![':'] + (device
        + seq![':'] + function)));
    let start = "PCI:"@ + bus;
    assert forall|i: int| 0 <= i < start.len() implies start[i] != '@' by {
        if i >= 4 {
            assert(start[i] == bus[i - 4]);
        }
    }
}

/// Bus IDs tell addresses apart: no two addresses have the same one.
pub proof fn law_bus_ids_differ(a: PciAddress, b: PciAddress)
    requires
        a != b,
    ensures
        bus_id(a) != bus_id(b),
{
    if bus_id(a) == bus_id(b) {
        lemma_bus_id_parts(a);
        lemma_bus_id_parts(b);
        let rest_a = decimal(a.device as nat) + seq![':'] + decimal(a.function as nat);
        let rest_b = decimal(b.device as nat) + seq![':'] + decimal(b.function as nat);
        lemma_cut_unique(
            "PCI:"@ + decimal(a.bus as nat),
            decimal(a.domain as nat) + seq![':'] + rest_a,
            "PCI:"@ + decimal(b.bus as nat),
            decimal(b.domain as nat) + seq![':'] + rest_b,
            '@',
        );
        lemma_cut_unique(
            decimal(a.domain as nat),
            rest_a,
            decimal(b.domain as nat),
            rest_b,
            ':',
        );
        lemma_cut_unique(
            decimal(a.device as nat),
            decimal(a.function as nat),
            decimal(b.device as nat),
            decimal(b.function as nat),
            ':',
        );
        let start_a = "PCI:"@ + decimal(a.bus as nat);
        let start_b = "PCI:"@ + decimal(b.bus as nat);
        let skip = "PCI:"@.len() as int;
        assert(start_a.skip(skip) =~= decimal(a.bus as nat));
        assert(start_b.skip(skip) =~= decimal(b.bus as nat));
        lemma_decimal_injective(a.bus as nat, b.bus as nat);
        lemma_decimal_injective(a.domain as nat, b.domain as nat);
        lemma_decimal_injective(a.device as nat, b.device as nat);
        lemma_decimal_injective(a.function as nat, b.function as nat);
    }
}

/// A vendor and a device in brackets are never taken for a class code.
pub proof fn law_pairs_are_no_class_codes(text: Seq<char>)
    requires
        begins_with_code(text, true),
    ensures
        !begins_with_code(text, false),
{
}

/// A listing can be read in parts: its devices are those of each part, in order.
pub proof fn law_devices_keep_their_order(before: Seq<Seq<char>>, after: Seq<Seq<char>>)
    ensures
        devices_on(before + after) == devices_on(before) + devices_on(after),
    decreases after.len(),
{
    let whole = before + after;
    if after.len() == 0 {
        assert(whole =~= before);
        assert(devices_on(before) + devices_on(after) =~= devices_on(before));
    } else {
        assert(whole.drop_last() =~= before + after.drop_last());
        assert(whole.last() == after.last());
        law_devices_keep_their_order(before, after.drop_last());
        assert(devices_on(whole) =~= devices_on(before) + devices_on(after));
    }
}

/// Hardware other than display controllers has no say: a line that does not
/// describe one changes nothing of what is detected, wherever it stands.
pub proof fn law_other_hardware_has_no_say(
    before: Seq<Seq<char>>,
    line: Seq<char>,
    after: Seq<Seq<char>>,
)
    requires
        !describes_display(cut(line).1),
    ensures
        devices_on(before + seq![line] + after) == devices_on(before + after),
{
    law_devices_keep_their_order(before + seq![line], after);
    law_devices_keep_their_order(before, seq![line]);
    law_devices_keep_their_order(before, after);
    let alone = seq![line];
    assert(device_on(alone.last()) is None);
    assert(devices_on(alone.drop_last()) =~= seq![]);
    assert(devices_on(alone) =~= seq![]);
    assert(devices_on(before) + devices_on(alone) =~= devices_on(before));
}

/// The same of a whole listing: a line of other hardware may be left out of it.
pub proof fn law_listing_without_other_hardware(
    before: Seq<char>,
    line: Seq<char>,
    after: Seq<char>,
)
    requires
        before.len() > 0 ==> before.last() == '\n',
        !line.contains('\n'),
        !describes_display(cut(without_return(line)).1),
    ensures
        devices_on(lines_of(before + (line + seq!['\n']) + after)) == devices_on(
            lines_of(before + after),
        ),
{
    let ended = line + seq!['\n'];
    lemma_lines_after(before + ended, after);
    lemma_lines_after(before, ended);
    lemma_lines_after(before, after);
    assert forall|j: int| 0 <= j < line.len() implies !equals('\n')(#[trigger] ended[j]) by {
        assert(ended[j] == line[j]);
        assert(line.contains(line[j]));
    }
    lemma_first(ended, equals('\n'), line.len());
    assert(ended.take(line.len() as int) =~= line);
    assert(ended.skip(line.len() as int + 1) =~= seq![]);
    assert(lines_of(ended.skip(line.len() as int + 1)) =~= seq![]);
    assert(lines_of(ended) =~= seq![without_return(line)]);
    law_other_hardware_has_no_say(lines_of(before), without_return(line), lines_of(after));
    assert(lines_of(before + ended + after) =~= lines_of(before) + seq![without_return(line)]
        + lines_of(after));
}

/// Every display controller is detected: a line with an address as `lspci -D`
/// prints it, a space and the description of a display controller yields that
/// device, under the bus ID of its address.
pub proof fn law_display_devices_are_detected(
    before: Seq<Seq<char>>,
    address: PciAddress,
    description: Seq<char>,
    after: Seq<Seq<char>>,
)
    requires
        describes_display(description),
    ensures
        ({
            let line = printed(address) + seq![' '] + description;
            let device = GpuDeviceView {
                vendor: vendor_of(description),
                bus_id: bus_id(address),
                description,
            };
            devices_on(before + seq![line] + after) == devices_on(before) + seq![device]
                + devices_on(after)
        }),
{
    let text = printed(address);
    let line = text + seq![' '] + description;
    law_printed_address_is_read_back(address);
    lemma_hex_part(address.domain, 4);
    lemma_hex_part(address.bus, 2);
    lemma_hex_part(address.device, 2);
    lemma_hex_part(address.function, 1);
    assert forall|i: int| 0 <= i < text.len() implies !space()(#[trigger] line[i]) by {
        let domain = hex_text(address.domain as nat, 4);
        let bus = hex_text(address.bus as nat, 2);
        let device = hex_text(address.device as nat, 2);
        let function = hex_text(address.function as nat, 1);
        let at_bus = domain.len() + 1;
        let at_device = at_bus + bus.len() + 1;
        let at_function = at_device + device.len() + 1;
        assert(line[i] == text[i]);
        if i < domain.len() {
            assert(text[i] == domain[i]);
        } else if at_bus <= i < at_bus + bus.len() {
            assert(text[i] == bus[i - at_bus]);
        } else if at_device <= i < at_device + device.len() {
            assert(text[i] == device[i - at_device]);
        } else if at_function <= i {
            assert(text[i] == function[i - at_function]);
        } else {
            assert(text[i] == ':' || text[i] == '.');
        }
    }
    assert(line[text.len() as int] == ' ');
    lemma_first(line, space(), text.len());
    assert(line.take(text.len() as int) =~= text);
    assert(line.skip(text.len() as int + 1) =~= description);
    lemma_hex_text(address.domain as nat, 4);
    let alone = seq![line];
    assert(devices_on(alone.drop_last()) =~= seq![]);
    assert(alone.last() == line);
    law_devices_keep_their_order(before + seq![line], after);
    law_devices_keep_their_order(before, seq![line]);
    let device = GpuDeviceView {
        vendor: vendor_of(description),
        bus_id: bus_id(address),
        description,
    };
    assert(devices_on(alone) =~= seq![device]);
}

} // verus!
