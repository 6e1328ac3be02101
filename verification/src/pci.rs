//! Display devices on the PCI bus, as `lspci -D -nn` lists them.

use vstd::prelude::*;
use vstd::string::*;
use vstd::utf8::*;

use crate::number::{all_hex, decimal, hex_number, is_hex, parse_hex, to_decimal};
use crate::outside::{
    ascii_lower, begins_with_code, decode_lossy, decoded, first_code, first_group, lower_case,
    CLASS_PATTERN, PAIR_PATTERN,
};
use crate::plan::{capture, Action, ActionView};
use crate::text::{
    begins_with, cut, cut_at_space, last, lines, lines_of, rsplit_once, same, split_on, splits,
    starts_with, strings, texts, trim, trimmed,
};

verus! {

/// Vendor of a PCI display device, as far as graphics configuration cares.
#[derive(Debug, Clone, Copy, PartialEq, Eq, Structural)]
pub enum GpuVendor {
    Nvidia,
    Intel,
    Amd,
    Other,
}

/// A detected display-class PCI device together with its bus ID.
#[derive(Debug, Clone)]
pub struct GpuDevice {
    pub vendor: GpuVendor,
    /// Bus ID in the form `PCI:bus@domain:device:function`, all in decimal.
    pub bus_id: String,
    /// Everything after the PCI address on the device's line, such as
    /// `3D controller [0302]: NVIDIA Corporation TU106M [10de:1f95]`.
    pub description: String,
}

/// What a `GpuDevice` says.
#[verifier::ext_equal]
pub struct GpuDeviceView {
    pub vendor: GpuVendor,
    pub bus_id: Seq<char>,
    pub description: Seq<char>,
}

impl View for GpuDevice {
    type V = GpuDeviceView;

    open spec fn view(&self) -> GpuDeviceView {
        GpuDeviceView {
            vendor: self.vendor,
            bus_id: self.bus_id@,
            description: self.description@,
        }
    }
}

/// What each of the devices says.
pub open spec fn devices_view(devices: Seq<GpuDevice>) -> Seq<GpuDeviceView> {
    Seq::new(devices.len(), |i: int| devices[i]@)
}

/// Where a function of a device stands on the PCI buses of a machine.
#[derive(Debug, Clone, Copy, PartialEq, Eq, Structural)]
pub struct PciAddress {
    pub domain: u32,
    pub bus: u32,
    pub device: u32,
    pub function: u32,
}

/// The address whose parts the four texts write in hexadecimal, white space
/// around each aside.
pub open spec fn address_of(
    domain: Seq<char>,
    bus: Seq<char>,
    device: Seq<char>,
    function: Seq<char>,
) -> Option<PciAddress> {
    match (
        hex_number(trimmed(domain)),
        hex_number(trimmed(bus)),
        hex_number(trimmed(device)),
        hex_number(trimmed(function)),
    ) {
        (Some(domain), Some(bus), Some(device), Some(function)) => Some(
            PciAddress { domain, bus, device, function },
        ),
        _ => None,
    }
}

/// The address that `text` writes as `domain:bus:device.function`, or as
/// `bus:device.function` in domain zero. The function follows the last dot.
pub open spec fn pci_address(text: Seq<char>) -> Option<PciAddress> {
    let dot = last(text, '.');
    let parts = splits(text.take(dot), ':');
    let function = text.skip(dot + 1);
    if dot < 0 {
        None
    } else if parts.len() == 3 {
        address_of(parts[0], parts[1], parts[2], function)
    } else if parts.len() == 2 {
        address_of("0"@, parts[0], parts[1], function)
    } else {
        None
    }
}

/// The bus ID of an address: `PCI:bus@domain:device:function` in decimal.
pub open spec fn bus_id(address: PciAddress) -> Seq<char> {
    "PCI:"@ + decimal(address.bus as nat) + "@"@ + decimal(address.domain as nat) + ":"@ + decimal(
        address.device as nat,
    ) + ":"@ + decimal(address.function as nat)
}

/// The bus ID of the address that `text` writes.
pub open spec fn bus_id_of(text: Seq<char>) -> Option<Seq<char>> {
    match pci_address(text) {
        Some(address) => Some(bus_id(address)),
        None => None,
    }
}

/// The vendor whose PCI identifier is `id`, in lower case.
pub open spec fn vendor_with_id(id: Seq<char>) -> GpuVendor {
    if id == "10de"@ {
        GpuVendor::Nvidia
    } else if id == "8086"@ {
        GpuVendor::Intel
    } else if id == "1002"@ || id == "1022"@ {
        GpuVendor::Amd
    } else {
        GpuVendor::Other
    }
}

/// The vendor of the device that `description` describes: that of its leftmost
/// `[vendor:device]` pair.
pub open spec fn vendor_of(description: Seq<char>) -> GpuVendor {
    match first_code(description, true) {
        Some(id) => vendor_with_id(ascii_lower(id)),
        None => GpuVendor::Other,
    }
}

/// Whether `description` is that of a display controller: its leftmost class code
/// is of base class 03.
pub open spec fn describes_display(description: Seq<char>) -> bool {
    match first_code(description, false) {
        Some(class) => begins_with(class, "03"@),
        None => false,
    }
}

/// The display device that a line of the listing names, if it names one: the line
/// begins with an address, white space and the description of a display
/// controller follow.
pub open spec fn device_on(line: Seq<char>) -> Option<GpuDeviceView> {
    let (address, description) = cut(line);
    if address.len() > 0 && describes_display(description) {
        match bus_id_of(address) {
            Some(bus_id) => Some(
                GpuDeviceView { vendor: vendor_of(description), bus_id, description },
            ),
            None => None,
        }
    } else {
        None
    }
}

/// The display devices that `lines` name, in their order.
pub open spec fn devices_on(lines: Seq<Seq<char>>) -> Seq<GpuDeviceView>
    decreases lines.len(),
{
    if lines.len() == 0 {
        seq![]
    } else {
        match device_on(lines.last()) {
            Some(device) => devices_on(lines.drop_last()).push(device),
            None => devices_on(lines.drop_last()),
        }
    }
}

/// The display devices of a machine, by what `lspci` printed; none where it could
/// not be run.
pub open spec fn detected(lspci: Option<&[u8]>) -> Seq<GpuDeviceView> {
    match lspci {
        Some(stdout) => devices_on(lines_of(decoded(stdout@))),
        None => seq![],
    }
}

/// A code in brackets is four hexadecimal digits.
proof fn lemma_first_code(text: Seq<char>, pair: bool)
    ensures
        first_code(text, pair) matches Some(code) ==> code.len() == 4 && all_hex(code)
            && is_ascii_chars(code),
    decreases text.len(),
{
    if text.len() > 0 {
        if begins_with_code(text, pair) {
            let code = text.subrange(1, 5);
            assert forall|i: int| 0 <= i < code.len() implies '\0' <= #[trigger] code[i]
                <= '\u{7f}' by {
                assert(is_hex(code[i]));
            }
        } else {
            lemma_first_code(text.skip(1), pair);
        }
    }
}

/// Converts a PCI address as `lspci -D` prints it (hexadecimal
/// `domain:bus:device.function`, such as `0000:01:00.0`) into the form
/// `PCI:bus@domain:device:function` in decimal. Without a domain, it is zero.
pub fn pci_addr_to_busid(addr: &str) -> (id: Option<String>)
    ensures
        match id {
            Some(found) => bus_id_of(addr@) == Some(found@),
            None => bus_id_of(addr@) is None,
        },
{
    let (head, func_hex) = match rsplit_once(addr, '.') {
        Some(parts) => parts,
        None => {
            return None;
        },
    };
    let segments = split_on(head, ':');
    let ghost parts = splits(head@, ':');
    assert(segments@.len() == texts(segments@).len());
    let (domain_hex, bus_hex, device_hex): (&str, &str, &str) = if segments.len() == 3 {
        assert(parts[0] == segments@[0]@ && parts[1] == segments@[1]@ && parts[2]
            == segments@[2]@);
        (segments[0], segments[1], segments[2])
    } else if segments.len() == 2 {
        assert(parts[0] == segments@[0]@ && parts[1] == segments@[1]@);
        ("0", segments[0], segments[1])
    } else {
        return None;
    };
    let domain = parse_hex(trim(domain_hex));
    let bus = parse_hex(trim(bus_hex));
    let device = parse_hex(trim(device_hex));
    let function = parse_hex(trim(func_hex));
    match (domain, bus, device, function) {
        (Some(domain), Some(bus), Some(device), Some(function)) => {
            let mut id = "PCI:".to_string();
            id.append(to_decimal(bus as u64).as_str());
            id.append("@");
            id.append(to_decimal(domain as u64).as_str());
            id.append(":");
            id.append(to_decimal(device as u64).as_str());
            id.append(":");
            id.append(to_decimal(function as u64).as_str());
            assert(id@ == bus_id(PciAddress { domain, bus, device, function }));
            Some(id)
        },
        _ => None,
    }
}

/// The vendor of the device that `description` describes.
fn read_vendor(description: &str) -> (vendor: GpuVendor)
    ensures
        vendor == vendor_of(description@),
{
    proof {
        lemma_first_code(description@, true);
    }
    match first_group(PAIR_PATTERN, description) {
        Some(code) => {
            let id = lower_case(code.as_str());
            if same(id.as_str(), "10de") {
                GpuVendor::Nvidia
            } else if same(id.as_str(), "8086") {
                GpuVendor::Intel
            } else if same(id.as_str(), "1002") || same(id.as_str(), "1022") {
                GpuVendor::Amd
            } else {
                GpuVendor::Other
            }
        },
        None => GpuVendor::Other,
    }
}

/// The display device that a line of the listing names, if it names one.
pub fn device_in_line(line: &str) -> (device: Option<GpuDevice>)
    ensures
        match device {
            Some(found) => device_on(line@) == Some(found@),
            None => device_on(line@) is None,
        },
{
    let (address, description) = cut_at_space(line);
    if address.is_empty() {
        return None;
    }
    let display = match first_group(CLASS_PATTERN, description) {
        Some(class) => starts_with(class.as_str(), "03"),
        None => false,
    };
    if !display {
        return None;
    }
    let vendor = read_vendor(description);
    match pci_addr_to_busid(address) {
        Some(bus_id) => Some(
            GpuDevice { vendor, bus_id, description: description.to_string() },
        ),
        None => None,
    }
}

/// The display devices that a listing names, in its order.
pub fn devices_in_listing(listing: &str) -> (devices: Vec<GpuDevice>)
    ensures
        devices_view(devices@) == devices_on(lines_of(listing@)),
{
    let all = lines(listing);
    let ghost every = texts(all@);
    let mut devices: Vec<GpuDevice> = Vec::new();
    let mut k: usize = 0;
    while k < all.len()
        invariant
            k <= all@.len(),
            every == texts(all@),
            devices_view(devices@) == devices_on(every.take(k as int)),
        decreases all@.len() - k,
    {
        let ghost before = devices_view(devices@);
        assert(every.take(k + 1).drop_last() =~= every.take(k as int));
        match device_in_line(all[k]) {
            Some(device) => {
                devices.push(device);
                assert(devices_view(devices@) =~= before.push(device@));
            },
            None => {},
        }
        k = k + 1;
    }
    assert(every.take(k as int) =~= every);
    devices
}

/// What lists the devices on the PCI buses: `lspci` with domains and with numbers
/// beside names.
pub fn list_devices() -> (action: Action)
    ensures
        action@ == (ActionView::Capture { program: "lspci"@, args: seq!["-D"@, "-nn"@] }),
{
    let args: Vec<String> = vec!["-D".to_string(), "-nn".to_string()];
    assert(strings(args@) =~= seq!["-D"@, "-nn"@]);
    capture("lspci", args)
}

/// Detects every display-class PCI device of the machine from what `lspci -D -nn`
/// printed. Without that output there is nothing to detect: detection is best
/// effort.
pub fn detect_gpus(lspci: Option<&[u8]>) -> (devices: Vec<GpuDevice>)
    ensures
        devices_view(devices@) == detected(lspci),
{
    match lspci {
        Some(stdout) => {
            let listing = decode_lossy(stdout);
            devices_in_listing(listing.as_str())
        },
        None => {
            let devices: Vec<GpuDevice> = Vec::new();
            devices
        },
    }
}

} // verus!
