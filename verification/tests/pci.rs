use install_core::pci::{
    detect_gpus, device_in_line, devices_in_listing, list_devices, pci_addr_to_busid, GpuVendor,
};
use install_core::plan::Action;

const LISTING: &str = "\
0000:00:00.0 Host bridge [0600]: Advanced Micro Devices, Inc. [AMD] Renoir [1022:1630]
0000:00:02.0 VGA compatible controller [0300]: Intel Corporation UHD Graphics [8086:9bc4] (rev 05)
0000:00:1f.6 Ethernet controller [0200]: Intel Corporation Ethernet [8086:15fb]
0000:01:00.0 3D controller [0302]: NVIDIA Corporation TU106M [GeForce RTX 2060 Mobile] [10de:1f15] (rev a1)
";

#[test]
fn addresses_become_bus_ids() {
    assert_eq!(pci_addr_to_busid("0000:01:00.0").as_deref(), Some("PCI:1@0:0:0"));
    assert_eq!(pci_addr_to_busid("0000:0a:1f.7").as_deref(), Some("PCI:10@0:31:7"));
    assert_eq!(pci_addr_to_busid("10de:FF:00.0").as_deref(), Some("PCI:255@4318:0:0"));
    assert_eq!(pci_addr_to_busid(" 0 : +1 : 2 . 3 ").as_deref(), Some("PCI:1@0:2:3"));
}

#[test]
fn missing_domain_is_zero() {
    assert_eq!(pci_addr_to_busid("01:00.0").as_deref(), Some("PCI:1@0:0:0"));
    assert_eq!(pci_addr_to_busid("01:00.0"), pci_addr_to_busid("0000:01:00.0"));
    assert_eq!(pci_addr_to_busid("01:00.0"), pci_addr_to_busid("0:01:00.0"));
}

#[test]
fn other_addresses_have_no_bus_id() {
    for text in [
        "", ".", "01:00", "00.0", "0:0:0:0.0", "0000:01:00.", "0000:01:.0", "0000:g1:00.0",
        "0000:01:00.x", "100000000:01:00.0", "0000:-1:00.0", "0000:01.00:0",
    ] {
        assert_eq!(pci_addr_to_busid(text), None, "{text:?}");
    }
}

#[test]
fn bus_ids_tell_addresses_apart() {
    let addresses = ["0000:01:00.0", "0001:00:00.0", "0000:00:01.0", "0000:00:00.1"];
    for (i, a) in addresses.iter().enumerate() {
        for (j, b) in addresses.iter().enumerate() {
            assert_eq!(pci_addr_to_busid(a) == pci_addr_to_busid(b), i == j);
        }
    }
}

#[test]
fn printed_addresses_are_read_back() {
    for (domain, bus, device, function) in [(0, 0, 2, 0), (0x10000, 255, 31, 7), (1, 0x3d, 0, 5)] {
        let printed = format!("{domain:04x}:{bus:02x}:{device:02x}.{function:x}");
        let id = format!("PCI:{bus}@{domain}:{device}:{function}");
        assert_eq!(pci_addr_to_busid(&printed), Some(id));
    }
}

#[test]
fn only_display_devices_are_detected() {
    let gpus = devices_in_listing(LISTING);
    assert_eq!(gpus.len(), 2);
    assert_eq!(gpus[0].vendor, GpuVendor::Intel);
    assert_eq!(gpus[0].bus_id, "PCI:0@0:2:0");
    assert_eq!(
        gpus[0].description,
        "VGA compatible controller [0300]: Intel Corporation UHD Graphics [8086:9bc4] (rev 05)"
    );
    assert_eq!(gpus[1].vendor, GpuVendor::Nvidia);
    assert_eq!(gpus[1].bus_id, "PCI:1@0:0:0");
}

#[test]
fn other_hardware_changes_nothing() {
    let fewer: Vec<&str> = LISTING.lines().filter(|line| line.contains("[03")).collect();
    let less = fewer.join("\n");
    assert_eq!(
        format!("{:?}", devices_in_listing(&less)),
        format!("{:?}", devices_in_listing(LISTING))
    );
}

#[test]
fn the_first_class_code_counts() {
    assert!(device_in_line("0000:00:01.0 Audio [0403]: thing [0300] [10de:10f0]").is_none());
    assert!(device_in_line("0000:00:01.0 Display [0380]: thing [0403]").is_some());
    assert!(device_in_line("0000:00:01.0 x[[03ff]]").is_some());
    assert!(device_in_line("0000:00:01.0 [10de:0300] no class").is_none());
    assert!(device_in_line("0000:00:01.0 [030] [03000] [030g]").is_none());
}

#[test]
fn vendors_are_known_by_their_ids() {
    let vendor = |id: &str| {
        let line = format!("0000:00:01.0 VGA [0300]: some device [{id}]");
        device_in_line(&line).unwrap().vendor
    };
    assert_eq!(vendor("10de:0001"), GpuVendor::Nvidia);
    assert_eq!(vendor("10DE:ABCD"), GpuVendor::Nvidia);
    assert_eq!(vendor("8086:0001"), GpuVendor::Intel);
    assert_eq!(vendor("1002:0001"), GpuVendor::Amd);
    assert_eq!(vendor("1022:0001"), GpuVendor::Amd);
    assert_eq!(vendor("1234:1111"), GpuVendor::Other);
    assert_eq!(vendor("1234:1111] [10de:0001"), GpuVendor::Other);
    assert_eq!(vendor("no id"), GpuVendor::Other);
}

#[test]
fn lines_without_an_address_are_skipped() {
    assert!(device_in_line("").is_none());
    assert!(device_in_line(" 0000:00:01.0 VGA [0300]").is_none());
    assert!(device_in_line("0000:00:01.0").is_none());
    assert!(device_in_line("nowhere VGA [0300]").is_none());
}

#[test]
fn detection_survives_a_missing_listing() {
    assert!(detect_gpus(None).is_empty());
    assert!(detect_gpus(Some(b"")).is_empty());
}

#[test]
fn detection_reads_bytes() {
    assert_eq!(detect_gpus(Some(LISTING.as_bytes())).len(), 2);
    let gpus = detect_gpus(Some(b"0000:02:00.0 VGA \xff [0300]: [1002:1]\n"));
    assert_eq!(gpus[0].description, "VGA \u{fffd} [0300]: [1002:1]");
    assert_eq!(gpus[0].vendor, GpuVendor::Other);
}

#[test]
fn devices_are_listed_with_domains_and_numbers() {
    match list_devices() {
        Action::Capture { program, args } => {
            assert_eq!(program, "lspci");
            assert_eq!(args, vec!["-D", "-nn"]);
        }
        _ => panic!("not a capture"),
    }
}
