//! Decoder for the GUID Partition Table.
//!
//! The 92-byte header starts at absolute offset 512 of the image (the
//! second 512-byte logical block). Its declared entry size gives the
//! stride at which the declared number of partition entries follow. An
//! entry whose leading type-GUID word is zero is empty and gets no
//! further decoding. Integer fields are read big-endian; CRC fields are
//! surfaced as opaque hex text and never verified.

use vstd::prelude::*;
use vstd::slice::slice_subrange;
use crate::codec::{get_hex, guid_text, hex_of, parse_guid, u32_be, unpack_int};
use crate::flags::{
    attributes_match, chrome_bits_set, parse_flags, windows_bits_set, PartitionAttributes,
};
use crate::DecodeError;

verus! {

/// Relies on `String::from_utf8`: it succeeds exactly on valid UTF-8
/// input and then returns the decoded text of the bytes.
#[verifier::external_body]
fn utf8_string(bytes: &[u8]) -> (r: Option<String>)
    ensures
        r is Some <==> vstd::utf8::valid_utf8(bytes@),
        r matches Some(s) ==> s@ == vstd::utf8::decode_utf8(bytes@),
{
    match String::from_utf8(bytes.to_vec()) {
        Ok(s) => Some(s),
        Err(_) => None,
    }
}

/// The decoded 92-byte GPT header.
///
/// The signature is not checked against the expected `EFI PART` literal,
/// and neither CRC32 field is verified; both are surfaced for the caller
/// to act on.
#[derive(Clone, Debug)]
pub struct GptHeader {
    /// Bytes 0-7, decoded as text.
    pub signature: String,
    /// Bytes 8-11 as hex text: the GPT revision.
    pub revision: String,
    /// Bytes 12-15 big-endian: the declared header size.
    pub header_size: u32,
    /// Bytes 16-19 as hex text: the header's CRC32, not verified.
    pub header_crc32: String,
    /// Bytes 20-23 as hex text: the reserved chunk.
    pub reserved: String,
    /// Bytes 24-31 as hex text: the LBA of this header.
    pub current_lba: String,
    /// Bytes 32-39 as hex text: the LBA of the backup header.
    pub backup_lba: String,
    /// Bytes 40-47 as hex text: the first usable LBA.
    pub first_usable_lba: String,
    /// Bytes 48-55 as hex text: the last usable LBA.
    pub last_usable_lba: String,
    /// Bytes 56-71 as GUID text: the disk's GUID.
    pub disk_guid: String,
    /// Bytes 72-79 as hex text: the LBA where the entry array starts.
    pub starting_lba_of_entries: String,
    /// Bytes 80-83 big-endian: how many partition entries follow.
    pub num_partition_entries: u32,
    /// Bytes 84-87 big-endian: the stride of one partition entry.
    pub partition_entry_size: u32,
    /// Bytes 88-91 as hex text: the entry array's CRC32, not verified.
    pub partition_array_crc32: String,
}

/// What a correct decode of the 92 header bytes `s` looks like.
pub open spec fn header_matches(s: Seq<u8>, h: GptHeader) -> bool {
    &&& h.signature@ == vstd::utf8::decode_utf8(s.subrange(0, 8))
    &&& h.revision@ == hex_of(s.subrange(8, 12))
    &&& h.header_size == u32_be(s.subrange(12, 16))
    &&& h.header_crc32@ == hex_of(s.subrange(16, 20))
    &&& h.reserved@ == hex_of(s.subrange(20, 24))
    &&& h.current_lba@ == hex_of(s.subrange(24, 32))
    &&& h.backup_lba@ == hex_of(s.subrange(32, 40))
    &&& h.first_usable_lba@ == hex_of(s.subrange(40, 48))
    &&& h.last_usable_lba@ == hex_of(s.subrange(48, 56))
    &&& h.disk_guid@ == guid_text(s.subrange(56, 72))
    &&& h.starting_lba_of_entries@ == hex_of(s.subrange(72, 80))
    &&& h.num_partition_entries == u32_be(s.subrange(80, 84))
    &&& h.partition_entry_size == u32_be(s.subrange(84, 88))
    &&& h.partition_array_crc32@ == hex_of(s.subrange(88, 92))
}

/// Decode a 92-byte GPT header region.
///
/// Fails with `DecodeError::Encoding` exactly when the 8-byte signature
/// region is not valid UTF-8: that is the one field where malformed bytes
/// abort the header decode, because a caller's offset arithmetic leans on
/// a byte-for-byte valid header.
pub fn parse_header(header: &[u8]) -> (r: Result<GptHeader, DecodeError>)
    requires
        header@.len() == 92,
    ensures
        vstd::utf8::valid_utf8(header@.subrange(0, 8)) ==> (r matches Ok(h) && header_matches(
            header@,
            h,
        )),
        !vstd::utf8::valid_utf8(header@.subrange(0, 8)) ==> r == Err::<
            GptHeader,
            DecodeError,
        >(DecodeError::Encoding),
{
    let signature = match utf8_string(slice_subrange(header, 0, 8)) {
        Some(s) => s,
        None => {
            return Err(DecodeError::Encoding);
        },
    };
    let revision = get_hex(slice_subrange(header, 8, 12));
    let header_size = match unpack_int(slice_subrange(header, 12, 16)) {
        Ok(v) => v,
        Err(e) => {
            return Err(e);
        },
    };
    let header_crc32 = get_hex(slice_subrange(header, 16, 20));
    let reserved = get_hex(slice_subrange(header, 20, 24));
    let current_lba = get_hex(slice_subrange(header, 24, 32));
    let backup_lba = get_hex(slice_subrange(header, 32, 40));
    let first_usable_lba = get_hex(slice_subrange(header, 40, 48));
    let last_usable_lba = get_hex(slice_subrange(header, 48, 56));
    let disk_guid = match parse_guid(slice_subrange(header, 56, 72)) {
        Ok(s) => s,
        Err(e) => {
            return Err(e);
        },
    };
    let starting_lba_of_entries = get_hex(slice_subrange(header, 72, 80));
    let num_partition_entries = match unpack_int(slice_subrange(header, 80, 84)) {
        Ok(v) => v,
        Err(e) => {
            return Err(e);
        },
    };
    let partition_entry_size = match unpack_int(slice_subrange(header, 84, 88)) {
        Ok(v) => v,
        Err(e) => {
            return Err(e);
        },
    };
    let partition_array_crc32 = get_hex(slice_subrange(header, 88, 92));
    Ok(
        GptHeader {
            signature,
            revision,
            header_size,
            header_crc32,
            reserved,
            current_lba,
            backup_lba,
            first_usable_lba,
            last_usable_lba,
            disk_guid,
            starting_lba_of_entries,
            num_partition_entries,
            partition_array_crc32,
            partition_entry_size,
        },
    )
}

/// Decode the GPT header out of a raw image buffer of at least 1024
/// bytes: the first 512 bytes are the protective MBR and are ignored, and
/// the 92 header bytes start at absolute offset 512.
pub fn read_data(dat: &[u8]) -> (r: Result<GptHeader, DecodeError>)
    requires
        dat@.len() >= 1024,
    ensures
        vstd::utf8::valid_utf8(dat@.subrange(512, 520)) ==> (r matches Ok(h) && header_matches(
            dat@.subrange(512, 604),
            h,
        )),
        !vstd::utf8::valid_utf8(dat@.subrange(512, 520)) ==> r == Err::<
            GptHeader,
            DecodeError,
        >(DecodeError::Encoding),
{
    let header = slice_subrange(dat, 512, 604);
    proof {
        assert(header@.subrange(0, 8) =~= dat@.subrange(512, 520));
    }
    parse_header(header)
}

/// One decoded, non-empty GPT partition entry.
#[derive(Clone, Debug)]
pub struct GptPartitionEntry {
    /// Bytes 0-15 as GUID text: the partition type.
    pub type_guid: String,
    /// Bytes 16-31 as GUID text: this partition's own GUID.
    pub unique_guid: String,
    /// Bytes 32-39 as hex text: the first LBA.
    pub first_lba: String,
    /// Bytes 40-47 as hex text: the last LBA.
    pub last_lba: String,
    /// Bytes 48-55, interpreted bit by bit.
    pub attributes: PartitionAttributes,
    /// Bytes 56 to the end of the entry, decoded as text. NUL padding is
    /// kept literally, not trimmed.
    pub name: String,
}

/// What the fields of a decoded non-empty entry say about its bytes.
pub open spec fn entry_fields_match(s: Seq<u8>, e: GptPartitionEntry) -> bool {
    &&& e.type_guid@ == guid_text(s.subrange(0, 16))
    &&& e.unique_guid@ == guid_text(s.subrange(16, 32))
    &&& e.first_lba@ == hex_of(s.subrange(32, 40))
    &&& e.last_lba@ == hex_of(s.subrange(40, 48))
    &&& attributes_match(s.subrange(48, 56), e.attributes)
    &&& e.name@ == vstd::utf8::decode_utf8(s.subrange(56, s.len() as int))
}

/// What a correct decode of one whole entry returns.
///
/// An entry is empty exactly when its first four bytes, read big-endian,
/// are zero; empty entries are skipped without touching the remaining
/// bytes. A non-empty entry fails with `DecodeError::Encoding` when its
/// name region is not valid UTF-8, else with
/// `DecodeError::ConflictingFlags` when its attribute field mixes the
/// Windows and ChromeOS conventions, and otherwise decodes in full.
pub open spec fn entry_result_matches(
    s: Seq<u8>,
    r: Result<Option<GptPartitionEntry>, DecodeError>,
) -> bool {
    if u32_be(s.subrange(0, 4)) == 0 {
        r == Ok::<Option<GptPartitionEntry>, DecodeError>(None)
    } else if !vstd::utf8::valid_utf8(s.subrange(56, s.len() as int)) {
        r == Err::<Option<GptPartitionEntry>, DecodeError>(DecodeError::Encoding)
    } else if windows_bits_set(s.subrange(48, 56)) && chrome_bits_set(s.subrange(48, 56)) {
        r == Err::<Option<GptPartitionEntry>, DecodeError>(DecodeError::ConflictingFlags)
    } else {
        r matches Ok(Some(e)) && entry_fields_match(s, e)
    }
}

/// Decode one GPT partition entry of the header-declared size.
///
/// Returns `Ok(None)` for an empty entry, whatever its remaining bytes
/// hold; `Ok(Some(_))` with every field decoded otherwise.
pub fn parse_partition(data: &[u8]) -> (r: Result<Option<GptPartitionEntry>, DecodeError>)
    requires
        data@.len() >= 56,
    ensures
        entry_result_matches(data@, r),
{
    let type_word = match unpack_int(data) {
        Ok(v) => v,
        Err(e) => {
            return Err(e);
        },
    };
    proof {
        assert(u32_be(data@.subrange(0, 4)) == u32_be(data@));
    }
    if type_word == 0 {
        return Ok(None);
    }
    let name = match utf8_string(slice_subrange(data, 56, data.len())) {
        Some(s) => s,
        None => {
            return Err(DecodeError::Encoding);
        },
    };
    let attributes = match parse_flags(slice_subrange(data, 48, 56)) {
        Ok(a) => a,
        Err(e) => {
            return Err(e);
        },
    };
    let type_guid = match parse_guid(slice_subrange(data, 0, 16)) {
        Ok(s) => s,
        Err(e) => {
            return Err(e);
        },
    };
    let unique_guid = match parse_guid(slice_subrange(data, 16, 32)) {
        Ok(s) => s,
        Err(e) => {
            return Err(e);
        },
    };
    let first_lba = get_hex(slice_subrange(data, 32, 40));
    let last_lba = get_hex(slice_subrange(data, 40, 48));
    Ok(Some(GptPartitionEntry { type_guid, unique_guid, first_lba, last_lba, attributes, name }))
}

/// Decode `num_parts` consecutive partition entries of `part_size` bytes
/// each from `buf`, the array that follows the header region.
///
/// Both the iteration count and the stride are header-driven. Each entry
/// gets a tagged result of its own, so a caller scanning a partially
/// corrupt image can skip a malformed entry and keep going; position `k`
/// of the result describes entry `k` of the array.
pub fn parse_partition_table(buf: &[u8], num_parts: u32, part_size: u32) -> (r: Vec<
    Result<Option<GptPartitionEntry>, DecodeError>,
>)
    requires
        part_size >= 56,
        num_parts * part_size <= buf@.len(),
    ensures
        r@.len() == num_parts,
        forall|k: int|
            0 <= k < num_parts ==> entry_result_matches(
                buf@.subrange(k * part_size, (k + 1) * part_size),
                #[trigger] r@[k],
            ),
{
    let mut r: Vec<Result<Option<GptPartitionEntry>, DecodeError>> = Vec::new();
    let mut k: u32 = 0;
    while k < num_parts
        invariant
            k <= num_parts,
            part_size >= 56,
            num_parts * part_size <= buf@.len(),
            r@.len() == k,
            forall|j: int|
                0 <= j < k ==> entry_result_matches(
                    buf@.subrange(j * part_size, (j + 1) * part_size),
                    #[trigger] r@[j],
                ),
        decreases num_parts - k,
    {
        let n = buf.len();
        proof {
            assert(0 <= k * part_size && (k + 1) * part_size == k * part_size + part_size && (k
                + 1) * part_size <= num_parts * part_size) by (nonlinear_arith)
                requires
                    0 <= k < num_parts,
                    part_size >= 56,
            ;
        }
        let start: usize = (k as usize) * (part_size as usize);
        let entry = slice_subrange(buf, start, start + part_size as usize);
        let decoded = parse_partition(entry);
        r.push(decoded);
        k = k + 1;
    }
    r
}

} // verus!
