use rawuefi::crc32::crc32;
use rawuefi::tables::revision_major;
use rawuefi::tables::revision_minor;
use rawuefi::runtime_services::EFI_RUNTIME_SERVICES;
use rawuefi::runtime_services::EFI_RUNTIME_SERVICES_SIGNATURE;
use rawuefi::runtime_services::EFI_TIME;
use rawuefi::runtime_services::EFI_TIME_CAPABILITIES;
use rawuefi::runtime_services::EFI_UNSPECIFIED_TIMEZONE;
use rawuefi::simple_text_input::EFI_SIMPLE_TEXT_INPUT_PROTOCOL;
use rawuefi::simple_text_output::simple_text_output_protocol_guid;
use rawuefi::status::EFI_SUCCESS;
use rawuefi::system::EFI_2_100_SYSTEM_TABLE_REVISION;
use rawuefi::system::EFI_SPECIFICATION_VERSION;
use rawuefi::system::EFI_SYSTEM_TABLE;
use rawuefi::system::EFI_SYSTEM_TABLE_SIGNATURE;
use rawuefi::types::EFI_IPv4_ADDRESS;
use rawuefi::types::EFI_IPv6_ADDRESS;
use rawuefi::types::EFI_IP_ADDRESS;

fn noon() -> EFI_TIME {
    EFI_TIME {
        Year: 2024,
        Month: 6,
        Day: 15,
        Hour: 12,
        Minute: 0,
        Second: 0,
        Pad1: 0,
        Nanosecond: 0,
        TimeZone: EFI_UNSPECIFIED_TIMEZONE,
        Daylight: 0,
        Pad2: 0,
    }
}

#[test]
fn table_signatures_spell_their_names() {
    assert_eq!(EFI_SYSTEM_TABLE_SIGNATURE, 0x5453595320494249);
    assert_eq!(EFI_RUNTIME_SERVICES_SIGNATURE, 0x56524553544e5552);
}

#[test]
fn the_specification_version_is_the_2_100_revision() {
    assert_eq!(EFI_SPECIFICATION_VERSION, EFI_2_100_SYSTEM_TABLE_REVISION);
    assert_eq!(EFI_2_100_SYSTEM_TABLE_REVISION, (2 << 16) | 100);
}

#[test]
fn revision_fields_split_into_major_and_minor() {
    assert_eq!(revision_major(EFI_2_100_SYSTEM_TABLE_REVISION), 2);
    assert_eq!(revision_minor(EFI_2_100_SYSTEM_TABLE_REVISION), 100);
    assert_eq!(revision_major((2 << 16) | 31), 2);
    assert_eq!(revision_minor((2 << 16) | 31), 31);
}

#[test]
fn system_table_header_is_built_with_signature_and_checksum() {
    let con_in = EFI_SIMPLE_TEXT_INPUT_PROTOCOL::new(0x40);
    let vendor: Vec<u16> = vec![0x56, 0x31, 0];
    let table = EFI_SYSTEM_TABLE::new(vendor.clone(), 0x00010002, 0x2000, con_in);
    assert_eq!(table.Hdr.Signature, EFI_SYSTEM_TABLE_SIGNATURE);
    assert_eq!(table.Hdr.Revision, EFI_2_100_SYSTEM_TABLE_REVISION);
    assert_eq!(table.Hdr.HeaderSize, 56);
    assert_eq!(table.Hdr.Crc32, crc32(&table.Hdr.bytes_with_zeroed_crc()));
    assert_eq!(table.firmware_vendor(), &vendor);
    assert_eq!(table.FirmwareRevision, 0x00010002);
    assert_eq!(table.ConsoleInHandle, 0x2000);
    assert_eq!(table.con_in().wait_for_key(), 0x40);
}

#[test]
fn console_input_is_reachable_through_the_system_table() {
    let con_in = EFI_SIMPLE_TEXT_INPUT_PROTOCOL::new(0);
    let vendor: Vec<u16> = vec![0];
    let mut table = EFI_SYSTEM_TABLE::new(vendor, 0, 0, con_in);
    table.con_in_mut().key_arrives(rawuefi::simple_text_input::EFI_INPUT_KEY {
        ScanCode: 0,
        UnicodeChar: 0x7A,
    });
    let mut out = rawuefi::simple_text_input::EFI_INPUT_KEY { ScanCode: 0, UnicodeChar: 0 };
    assert_eq!(table.con_in_mut().ReadKeyStroke(&mut out), EFI_SUCCESS);
    assert_eq!(out.UnicodeChar, 0x7A);
}

#[test]
fn get_time_returns_the_clock_state() {
    let caps = EFI_TIME_CAPABILITIES { Resolution: 1, Accuracy: 50_000_000, SetsToZero: 0 };
    let rt = EFI_RUNTIME_SERVICES::new(noon(), caps);
    assert_eq!(rt.Hdr.Signature, EFI_RUNTIME_SERVICES_SIGNATURE);
    assert_eq!(rt.Hdr.HeaderSize, 40);
    let mut t = EFI_TIME { Year: 0, ..noon() };
    let mut c = EFI_TIME_CAPABILITIES { Resolution: 0, Accuracy: 0, SetsToZero: 1 };
    assert_eq!(rt.GetTime(&mut t, &mut c), EFI_SUCCESS);
    assert_eq!(t, noon());
    assert_eq!(c, caps);
}

#[test]
fn time_validity_follows_the_documented_ranges() {
    assert!(noon().is_valid());
    assert!(!EFI_TIME { Year: 1899, ..noon() }.is_valid());
    assert!(!EFI_TIME { Month: 13, ..noon() }.is_valid());
    assert!(!EFI_TIME { Day: 0, ..noon() }.is_valid());
    assert!(!EFI_TIME { Hour: 24, ..noon() }.is_valid());
    assert!(!EFI_TIME { Minute: 60, ..noon() }.is_valid());
    assert!(!EFI_TIME { Second: 60, ..noon() }.is_valid());
    assert!(!EFI_TIME { Nanosecond: 1_000_000_000, ..noon() }.is_valid());
    assert!(EFI_TIME { TimeZone: 1440, ..noon() }.is_valid());
    assert!(!EFI_TIME { TimeZone: 1441, ..noon() }.is_valid());
    assert!(!EFI_TIME { Daylight: 4, ..noon() }.is_valid());
    assert!(!EFI_TIME { Pad1: 1, ..noon() }.is_valid());
}

#[test]
fn output_protocol_guid_has_its_registered_value() {
    let g = simple_text_output_protocol_guid();
    assert_eq!(g.0, 0x387477C2);
    assert_eq!(g.1, 0x69D7);
    assert_eq!(g.2, 0x11D2);
    assert_eq!(g.3, [0x8E, 0x39, 0x00, 0xA0, 0xC9, 0x69, 0x72, 0x3B]);
}

#[test]
fn ip_addresses_share_one_sixteen_byte_buffer_form() {
    let v4 = EFI_IP_ADDRESS::IPv4(EFI_IPv4_ADDRESS { Addr: [192, 168, 0, 1] });
    assert!(v4.is_v4());
    let bytes = v4.to_bytes();
    assert_eq!(bytes.len(), 16);
    assert_eq!(&bytes[..4], &[192, 168, 0, 1]);
    assert_eq!(&bytes[4..], &[0; 12], "an IPv4 address pads the buffer with zeros");
    let v6 = EFI_IP_ADDRESS::IPv6(EFI_IPv6_ADDRESS { Addr: [0xFE; 16] });
    assert!(!v6.is_v4());
    assert_eq!(v6.to_bytes(), vec![0xFE; 16]);
}
