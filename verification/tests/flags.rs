use parttab::flags::{parse_flags, PartitionOrigin};
use parttab::DecodeError;

#[test]
fn bit_63_alone_is_windows_no_drive_letter() {
    let mut dat = [0u8; 8];
    dat[7] = 0x80;
    let a = parse_flags(&dat).unwrap();
    assert_eq!(a.origin, PartitionOrigin::Windows);
    assert!(a.no_drive_letter);
    assert!(!a.read_only);
    assert!(!a.shadow_copy);
    assert!(!a.hidden);
}

#[test]
fn bit_50_alone_is_chrome_priority_two() {
    let mut dat = [0u8; 8];
    dat[6] = 0x04;
    let a = parse_flags(&dat).unwrap();
    assert_eq!(a.origin, PartitionOrigin::ChromeOs);
    assert_eq!(a.chrome_priority, 2);
    assert_eq!(a.reserved_bits, vec![50]);
}

#[test]
fn bits_63_and_50_conflict() {
    let mut dat = [0u8; 8];
    dat[7] = 0x80;
    dat[6] = 0x04;
    assert!(matches!(parse_flags(&dat), Err(DecodeError::ConflictingFlags)));
}

#[test]
fn low_bits_decode_directly() {
    let mut dat = [0u8; 8];
    dat[0] = 0x07;
    let a = parse_flags(&dat).unwrap();
    assert!(a.platform_required);
    assert!(a.efi_ignore);
    assert!(a.legacy_bios_bootable);
    assert_eq!(a.origin, PartitionOrigin::Unclassified);
    assert!(a.reserved_bits.is_empty());
}

#[test]
fn successful_boot_bit_does_not_classify() {
    let mut dat = [0u8; 8];
    dat[7] = 0x01;
    let a = parse_flags(&dat).unwrap();
    assert!(a.successful_boot);
    assert_eq!(a.origin, PartitionOrigin::Unclassified);
}

#[test]
fn reserved_bit_is_recorded() {
    let mut dat = [0u8; 8];
    dat[1] = 0x04;
    let a = parse_flags(&dat).unwrap();
    assert_eq!(a.reserved_bits, vec![10]);
    assert_eq!(a.origin, PartitionOrigin::Unclassified);
}

#[test]
fn retry_bits_are_listed_ascending() {
    let mut dat = [0u8; 8];
    dat[6] = 0x60;
    let a = parse_flags(&dat).unwrap();
    assert_eq!(a.chrome_retries, vec![53, 54]);
    assert_eq!(a.origin, PartitionOrigin::ChromeOs);
    assert_eq!(a.chrome_priority, 0);
}

#[test]
fn highest_priority_bit_wins() {
    let mut dat = [0u8; 8];
    dat[6] = 0x12;
    let a = parse_flags(&dat).unwrap();
    assert_eq!(a.chrome_priority, 4);
    assert_eq!(a.reserved_bits, vec![49, 52]);
}

#[test]
fn windows_flags_each_decode() {
    let mut dat = [0u8; 8];
    dat[7] = 0x70;
    let a = parse_flags(&dat).unwrap();
    assert_eq!(a.origin, PartitionOrigin::Windows);
    assert!(a.read_only);
    assert!(a.shadow_copy);
    assert!(a.hidden);
    assert!(!a.no_drive_letter);
}
