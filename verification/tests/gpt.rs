use parttab::gpt::{parse_header, parse_partition, parse_partition_table, read_data};
use parttab::flags::PartitionOrigin;
use parttab::DecodeError;

fn header_bytes() -> [u8; 92] {
    let mut h = [0u8; 92];
    h[0..8].copy_from_slice(b"EFI PART");
    h[8..12].copy_from_slice(&[0x00, 0x00, 0x01, 0x00]);
    h[12..16].copy_from_slice(&[0x00, 0x00, 0x00, 0x5c]);
    h[56..72].copy_from_slice(&[
        0x01, 0x02, 0x03, 0x04, 0x05, 0x06, 0x07, 0x08, 0x09, 0x0a, 0x0b, 0x0c, 0x0d, 0x0e,
        0x0f, 0x10,
    ]);
    h[80..84].copy_from_slice(&[0x00, 0x00, 0x00, 0x02]);
    h[84..88].copy_from_slice(&[0x00, 0x00, 0x00, 0x80]);
    h
}

#[test]
fn parse_header_decodes_the_fields() {
    let h = parse_header(&header_bytes()).unwrap();
    assert_eq!(h.signature.as_str(), "EFI PART");
    assert_eq!(h.revision.as_str(), "00000100");
    assert_eq!(h.header_size, 92);
    assert_eq!(h.header_crc32.as_str(), "00000000");
    assert_eq!(h.disk_guid.as_str(), "01020304-0506-0708-090a-0b0c0d0e0f10");
    assert_eq!(h.num_partition_entries, 2);
    assert_eq!(h.partition_entry_size, 128);
    assert_eq!(h.partition_array_crc32.as_str(), "00000000");
}

#[test]
fn parse_header_rejects_invalid_signature_bytes() {
    let mut bytes = header_bytes();
    bytes[0] = 0xff;
    assert!(matches!(parse_header(&bytes), Err(DecodeError::Encoding)));
}

#[test]
fn header_with_zero_entries_reads_no_partitions() {
    let mut buf = [0u8; 1024];
    buf[512..520].copy_from_slice(b"EFI PART");
    let h = read_data(&buf).unwrap();
    assert_eq!(h.signature.as_str(), "EFI PART");
    assert_eq!(h.num_partition_entries, 0);
    let entries = parse_partition_table(&buf[1024..], h.num_partition_entries, 128);
    assert!(entries.is_empty());
}

fn named_entry() -> [u8; 128] {
    let mut e = [0u8; 128];
    e[0] = 0x01;
    e[16..32].copy_from_slice(&[0xaa; 16]);
    e[32..40].copy_from_slice(&[0, 0, 0, 0, 0, 0, 0x08, 0x00]);
    e[40..48].copy_from_slice(&[0, 0, 0, 0, 0, 0x03, 0x1f, 0xff]);
    e[56..76].copy_from_slice(b"a twenty byte name!!");
    e
}

#[test]
fn non_empty_entry_keeps_nul_padding_in_name() {
    let decoded = parse_partition(&named_entry()).unwrap().unwrap();
    assert_eq!(decoded.type_guid.as_str(), "01000000-0000-0000-0000-000000000000");
    assert_eq!(decoded.unique_guid.as_str(), "aaaaaaaa-aaaa-aaaa-aaaa-aaaaaaaaaaaa");
    assert_eq!(decoded.first_lba.as_str(), "0000000000000800");
    assert_eq!(decoded.last_lba.as_str(), "0000000000031fff");
    assert_eq!(decoded.name.len(), 72);
    assert_eq!(&decoded.name[..20], "a twenty byte name!!");
    assert!(decoded.name[20..].chars().all(|c| c == '\0'));
}

#[test]
fn zero_type_guid_word_means_empty_whatever_follows() {
    let mut e = [0u8; 128];
    e[4] = 0xab;
    e[60] = 0xff;
    e[100] = 0xff;
    assert!(matches!(parse_partition(&e), Ok(None)));
}

#[test]
fn invalid_name_bytes_fail_with_encoding() {
    let mut e = named_entry();
    e[60] = 0xff;
    assert!(matches!(parse_partition(&e), Err(DecodeError::Encoding)));
}

#[test]
fn conflicting_attribute_bits_fail_the_entry() {
    let mut e = named_entry();
    e[55] = 0x80;
    e[54] = 0x04;
    assert!(matches!(parse_partition(&e), Err(DecodeError::ConflictingFlags)));
}

#[test]
fn entry_attributes_reach_the_decoder() {
    let mut e = named_entry();
    e[54] = 0x04;
    let decoded = parse_partition(&e).unwrap().unwrap();
    assert_eq!(decoded.attributes.origin, PartitionOrigin::ChromeOs);
    assert_eq!(decoded.attributes.chrome_priority, 2);
}

#[test]
fn multibyte_name_text_is_decoded() {
    let mut e = named_entry();
    e[56] = 0xc3;
    e[57] = 0xa9;
    let decoded = parse_partition(&e).unwrap().unwrap();
    assert!(decoded.name.starts_with('\u{e9}'));
    assert_eq!(decoded.name.chars().count(), 71);
}

#[test]
fn table_scan_skips_a_malformed_entry_and_goes_on() {
    let mut buf = [0u8; 384];
    buf[128..256].copy_from_slice(&named_entry());
    buf[128 + 60] = 0xff;
    buf[256..384].copy_from_slice(&named_entry());
    let results = parse_partition_table(&buf, 3, 128);
    assert_eq!(results.len(), 3);
    assert!(matches!(&results[0], Ok(None)));
    assert!(matches!(&results[1], Err(DecodeError::Encoding)));
    let last = results[2].as_ref().unwrap().as_ref().unwrap();
    assert_eq!(&last.name[..20], "a twenty byte name!!");
}
