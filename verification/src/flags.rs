//! Interpreter of the 8-byte GPT partition-attribute field.
//!
//! The 64 bits are indexed 0 (least significant bit of the first byte)
//! through 63. Bits 60-63 follow the Windows basic-data convention, bits
//! 48-56 the ChromeOS boot convention; the two conventions cannot both be
//! meant on one entry, so observing bits of both is a fatal conflict.

use vstd::prelude::*;
use crate::DecodeError;

verus! {

/// Whether bit `k` of byte `b` is set, bit 0 being least significant.
pub open spec fn byte_bit(b: u8, k: u8) -> bool
    recommends
        k < 8,
{
    (b >> k) & 1 == 1
}

/// Whether bit `i` of the attribute field is set, bits indexed 0 (least
/// significant bit of the first byte) through 63.
pub open spec fn bit_of(s: Seq<u8>, i: int) -> bool
    recommends
        0 <= i < 8 * s.len(),
{
    byte_bit(s[i / 8], (i % 8) as u8)
}

/// Whether any Windows basic-data bit (60-63) is set.
pub open spec fn windows_bits_set(s: Seq<u8>) -> bool {
    bit_of(s, 60) || bit_of(s, 61) || bit_of(s, 62) || bit_of(s, 63)
}

/// Whether any bit of the ChromeOS region (48-55) is set.
pub open spec fn chrome_bits_set(s: Seq<u8>) -> bool {
    bit_of(s, 48) || bit_of(s, 49) || bit_of(s, 50) || bit_of(s, 51) || bit_of(s, 52) || bit_of(
        s,
        53,
    ) || bit_of(s, 54) || bit_of(s, 55)
}

/// The indices of the set bits of `s` in `[lo, hi)`, in ascending order.
pub open spec fn set_bits_in(s: Seq<u8>, lo: int, hi: int) -> Seq<u32>
    decreases hi - lo,
{
    if lo >= hi {
        Seq::empty()
    } else if bit_of(s, lo) {
        seq![lo as u32] + set_bits_in(s, lo + 1, hi)
    } else {
        set_bits_in(s, lo + 1, hi)
    }
}

pub proof fn lemma_set_bits_in_extend(s: Seq<u8>, lo: int, hi: int)
    requires
        lo <= hi,
    ensures
        set_bits_in(s, lo, hi + 1) == set_bits_in(s, lo, hi) + (if bit_of(s, hi) {
            seq![hi as u32]
        } else {
            Seq::<u32>::empty()
        }),
    decreases hi - lo,
{
    if lo == hi {
        assert(set_bits_in(s, lo + 1, hi + 1) == Seq::<u32>::empty());
        assert(set_bits_in(s, lo, hi + 1) =~= set_bits_in(s, lo, hi) + (if bit_of(s, hi) {
            seq![hi as u32]
        } else {
            Seq::<u32>::empty()
        }));
    } else {
        lemma_set_bits_in_extend(s, lo + 1, hi);
        assert(set_bits_in(s, lo, hi + 1) =~= set_bits_in(s, lo, hi) + (if bit_of(s, hi) {
            seq![hi as u32]
        } else {
            Seq::<u32>::empty()
        }));
    }
}

/// The boot priority encoded by bits 48-52: the index of the highest set
/// bit of that range minus 48, or 0 when none is set. During an ascending
/// scan a later set bit overrides an earlier one, so the highest wins.
pub open spec fn chrome_priority_of(s: Seq<u8>) -> u32 {
    if bit_of(s, 52) {
        4
    } else if bit_of(s, 51) {
        3
    } else if bit_of(s, 50) {
        2
    } else if bit_of(s, 49) {
        1
    } else {
        0
    }
}

/// Which operating-system convention the attribute bits follow.
#[derive(Clone, Copy, Debug, PartialEq, Eq, Structural)]
pub enum PartitionOrigin {
    /// At least one Windows basic-data bit (60-63) is set.
    Windows,
    /// No Windows bit, and at least one ChromeOS-region bit (48-55) is set.
    ChromeOs,
    /// Neither convention's bits are set.
    Unclassified,
}

/// The decoded attribute field of one GPT partition entry.
#[derive(Clone, Debug)]
pub struct PartitionAttributes {
    /// Bit 0: the platform requires this partition.
    pub platform_required: bool,
    /// Bit 1: EFI firmware should ignore this partition.
    pub efi_ignore: bool,
    /// Bit 2: bootable by legacy BIOS.
    pub legacy_bios_bootable: bool,
    /// Bit 56: the ChromeOS successful-boot flag.
    pub successful_boot: bool,
    /// Bit 60: Windows read-only.
    pub read_only: bool,
    /// Bit 61: Windows shadow copy.
    pub shadow_copy: bool,
    /// Bit 62: Windows hidden drive.
    pub hidden: bool,
    /// Bit 63: Windows no drive letter (no automount).
    pub no_drive_letter: bool,
    /// The indices of all set bits in the reserved range 3-55, ascending.
    pub reserved_bits: Vec<u32>,
    /// The indices of the set retry-count bits 53-55, ascending.
    pub chrome_retries: Vec<u32>,
    /// The boot priority encoded by bits 48-52.
    pub chrome_priority: u32,
    /// The convention the set bits follow.
    pub origin: PartitionOrigin,
}

/// What a correct decode of the attribute field `s` looks like.
pub open spec fn attributes_match(s: Seq<u8>, a: PartitionAttributes) -> bool {
    &&& a.platform_required == bit_of(s, 0)
    &&& a.efi_ignore == bit_of(s, 1)
    &&& a.legacy_bios_bootable == bit_of(s, 2)
    &&& a.successful_boot == bit_of(s, 56)
    &&& a.read_only == bit_of(s, 60)
    &&& a.shadow_copy == bit_of(s, 61)
    &&& a.hidden == bit_of(s, 62)
    &&& a.no_drive_letter == bit_of(s, 63)
    &&& a.reserved_bits@ == set_bits_in(s, 3, 56)
    &&& a.chrome_retries@ == set_bits_in(s, 53, 56)
    &&& a.chrome_priority == chrome_priority_of(s)
    &&& a.origin == (if windows_bits_set(s) {
        PartitionOrigin::Windows
    } else if chrome_bits_set(s) {
        PartitionOrigin::ChromeOs
    } else {
        PartitionOrigin::Unclassified
    })
}

/// Read bit `i` of the 8-byte field `dat`.
fn field_bit(dat: &[u8], i: usize) -> (r: bool)
    requires
        dat@.len() == 8,
        i < 64,
    ensures
        r == bit_of(dat@, i as int),
{
    let b = dat[i / 8];
    let k = (i % 8) as u8;
    ((b >> k) & 1) == 1
}

/// Decode the 8-byte attribute field of a GPT partition entry.
///
/// Fails with `DecodeError::ConflictingFlags` exactly when a Windows
/// basic-data bit (60-63) and a ChromeOS-region bit (48-55) are set at the
/// same time; otherwise returns the named flags, the reserved-bit indices
/// and the origin classification.
pub fn parse_flags(dat: &[u8]) -> (r: Result<PartitionAttributes, DecodeError>)
    requires
        dat@.len() == 8,
    ensures
        (r matches Err(_)) <==> (windows_bits_set(dat@) && chrome_bits_set(dat@)),
        r matches Err(e) ==> e == DecodeError::ConflictingFlags,
        r matches Ok(a) ==> attributes_match(dat@, a),
{
    let platform_required = field_bit(dat, 0);
    let efi_ignore = field_bit(dat, 1);
    let legacy_bios_bootable = field_bit(dat, 2);
    let successful_boot = field_bit(dat, 56);
    let read_only = field_bit(dat, 60);
    let shadow_copy = field_bit(dat, 61);
    let hidden = field_bit(dat, 62);
    let no_drive_letter = field_bit(dat, 63);
    let is_windows = read_only || shadow_copy || hidden || no_drive_letter;
    let is_chrome = field_bit(dat, 48) || field_bit(dat, 49) || field_bit(dat, 50) || field_bit(
        dat,
        51,
    ) || field_bit(dat, 52) || field_bit(dat, 53) || field_bit(dat, 54) || field_bit(dat, 55);
    if is_windows && is_chrome {
        return Err(DecodeError::ConflictingFlags);
    }
    let mut reserved_bits: Vec<u32> = Vec::new();
    let mut i: usize = 3;
    while i < 56
        invariant
            3 <= i <= 56,
            dat@.len() == 8,
            reserved_bits@ == set_bits_in(dat@, 3, i as int),
        decreases 56 - i,
    {
        if field_bit(dat, i) {
            reserved_bits.push(i as u32);
        }
        proof {
            lemma_set_bits_in_extend(dat@, 3, i as int);
            assert(reserved_bits@ =~= set_bits_in(dat@, 3, i + 1));
        }
        i = i + 1;
    }
    let mut chrome_retries: Vec<u32> = Vec::new();
    if field_bit(dat, 53) {
        chrome_retries.push(53);
    }
    if field_bit(dat, 54) {
        chrome_retries.push(54);
    }
    if field_bit(dat, 55) {
        chrome_retries.push(55);
    }
    proof {
        assert(set_bits_in(dat@, 53, 53) == Seq::<u32>::empty());
        lemma_set_bits_in_extend(dat@, 53, 53);
        lemma_set_bits_in_extend(dat@, 53, 54);
        lemma_set_bits_in_extend(dat@, 53, 55);
        assert(chrome_retries@ =~= set_bits_in(dat@, 53, 56));
    }
    let chrome_priority: u32 = if field_bit(dat, 52) {
        4
    } else if field_bit(dat, 51) {
        3
    } else if field_bit(dat, 50) {
        2
    } else if field_bit(dat, 49) {
        1
    } else {
        0
    };
    let origin = if is_windows {
        PartitionOrigin::Windows
    } else if is_chrome {
        PartitionOrigin::ChromeOs
    } else {
        PartitionOrigin::Unclassified
    };
    Ok(
        PartitionAttributes {
            platform_required,
            efi_ignore,
            legacy_bios_bootable,
            successful_boot,
            read_only,
            shadow_copy,
            hidden,
            no_drive_letter,
            reserved_bits,
            chrome_retries,
            chrome_priority,
            origin,
        },
    )
}

} // verus!
