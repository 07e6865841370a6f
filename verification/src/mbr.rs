//! Decoder for the legacy Master Boot Record partition table.
//!
//! An MBR holds exactly four 16-byte partition entries in the fixed region
//! `[446, 510)` of its 512-byte sector. In contrast to the big-endian GPT
//! integer fields, the MBR's LBA-start and sector-count fields are read
//! little-endian; that asymmetry follows the two on-disk conventions and
//! is deliberate. CHS bounds are only rendered as reversed-byte hex text,
//! never converted to LBA.

use vstd::prelude::*;
use vstd::string::*;
use vstd::slice::slice_to_vec;
use crate::codec::{
    dec_text, hex_of, hex_pair, lemma_hex_of_push, nibble_char, nibble_str, u32_le,
};

verus! {

/// Hexadecimal text of the bytes taken in reverse order: the
/// little-endian display of a multi-byte field.
pub open spec fn hex_rev_of(s: Seq<u8>) -> Seq<char> {
    hex_of(s.reverse())
}

/// The hexadecimal text of one byte with no leading zero: one digit below
/// 0x10, two digits otherwise.
pub open spec fn hex_short(b: u8) -> Seq<char> {
    if b < 16 {
        seq![nibble_char(b)]
    } else {
        hex_pair(b)
    }
}

/// The text `true` or `false`.
pub open spec fn bool_text(b: bool) -> Seq<char> {
    if b {
        "true"@
    } else {
        "false"@
    }
}

/// Render `dat` as hexadecimal text, the last byte's digits first.
fn hex_helper(dat: &[u8]) -> (out: String)
    ensures
        out@ == hex_rev_of(dat@),
{
    let mut out = String::new();
    let mut i: usize = dat.len();
    while i > 0
        invariant
            i <= dat@.len(),
            out@ == hex_of(dat@.reverse().take(dat@.len() - i)),
        decreases i,
    {
        i = i - 1;
        let b = dat[i];
        out.append(nibble_str(b / 16));
        out.append(nibble_str(b % 16));
        proof {
            let r = dat@.reverse();
            let j = dat@.len() - i - 1;
            assert(r[j] == b);
            lemma_hex_of_push(r.take(j), b);
            assert(r.take(j + 1) =~= r.take(j).push(b));
            assert(seq![nibble_char(b / 16)] + seq![nibble_char(b % 16)] =~= hex_pair(b));
            assert(out@ =~= hex_of(r.take(j + 1)));
        }
    }
    proof {
        assert(dat@.reverse().take(dat@.reverse().len() as int) =~= dat@.reverse());
    }
    out
}

/// The decoded fields of one 16-byte MBR partition entry.
#[derive(Clone, Debug)]
pub struct MbrPartitionEntry {
    /// True exactly when the entry's first byte is `0x80`.
    pub active: bool,
    /// Byte 4: the filesystem type tag.
    pub filesystem_id: u8,
    /// Bytes 1-2 as reversed-byte hex text: the CHS start bound.
    pub chs_start: String,
    /// Bytes 5-7 as reversed-byte hex text: the CHS end bound.
    pub chs_end: String,
    /// Bytes 8-11 read little-endian: the starting LBA.
    pub lba_start: u32,
    /// Bytes 12-15 read little-endian: the partition size in sectors.
    pub size_sectors: u32,
}

/// What a correct decode of the 16-byte entry `s` looks like.
pub open spec fn mbr_entry_matches(s: Seq<u8>, e: MbrPartitionEntry) -> bool {
    &&& e.active == (s[0] == 0x80)
    &&& e.filesystem_id == s[4]
    &&& e.chs_start@ == hex_rev_of(s.subrange(1, 3))
    &&& e.chs_end@ == hex_rev_of(s.subrange(5, 8))
    &&& e.lba_start == u32_le(s.subrange(8, 12))
    &&& e.size_sectors == u32_le(s.subrange(12, 16))
}

/// One 16-byte MBR partition entry, held as its raw bytes.
pub struct MbrPart {
    data: Vec<u8>,
}

impl View for MbrPart {
    type V = Seq<u8>;

    closed spec fn view(&self) -> Seq<u8> {
        self.data@
    }
}

impl MbrPart {
    /// The entry holds exactly 16 bytes, the fixed size of one MBR
    /// partition-table slot.
    pub open spec fn wf(&self) -> bool {
        self@.len() == 16
    }

    /// Wrap one 16-byte slot of the partition-table region.
    pub fn new(chunk: &[u8]) -> (r: MbrPart)
        requires
            chunk@.len() == 16,
        ensures
            r@ == chunk@,
            r.wf(),
    {
        MbrPart { data: slice_to_vec(chunk) }
    }

    /// The raw-hex rendering of the whole entry: each byte as `0x`, two
    /// lowercase hex digits and a trailing space.
    pub fn fancy_format_part(&self) -> (out: String)
        ensures
            out@ == fancy_text(self@),
    {
        let mut out = String::new();
        let mut i: usize = 0;
        while i < self.data.len()
            invariant
                i <= self@.len(),
                out@ == fancy_text(self@.take(i as int)),
            decreases self@.len() - i,
        {
            let b = self.data[i];
            out.append("0x");
            out.append(nibble_str(b / 16));
            out.append(nibble_str(b % 16));
            out.append(" ");
            proof {
                lemma_fancy_text_push(self@.take(i as int), b);
                assert(self@.take(i + 1) =~= self@.take(i as int).push(b));
                assert(out@ =~= fancy_text(self@.take(i + 1)));
            }
            i = i + 1;
        }
        proof {
            assert(self@.take(self@.len() as int) =~= self@);
        }
        out
    }

    /// Decode the entry into its structured fields.
    pub fn decode(&self) -> (e: MbrPartitionEntry)
        requires
            self.wf(),
        ensures
            mbr_entry_matches(self@, e),
    {
        let active = self.data[0] == 0x80;
        let filesystem_id = self.data[4];
        let chs_start = hex_helper(vstd::slice::slice_subrange(self.data.as_slice(), 1, 3));
        let chs_end = hex_helper(vstd::slice::slice_subrange(self.data.as_slice(), 5, 8));
        let lba_start = read_u32_le(&self.data, 8);
        let size_sectors = read_u32_le(&self.data, 12);
        MbrPartitionEntry { active, filesystem_id, chs_start, chs_end, lba_start, size_sectors }
    }

    /// Render the decoded fields of the entry as the lines of a report:
    /// the active flag, the filesystem tag without a leading zero, the CHS
    /// bounds and LBA start as reversed-byte hex, and the sector count in
    /// decimal.
    pub fn info(&self) -> (out: String)
        requires
            self.wf(),
        ensures
            out@ == info_text(self@),
    {
        let e = self.decode();
        let mut out = String::new();
        out.append("\tActive partition: ");
        out.append(if e.active {
            "true"
        } else {
            "false"
        });
        out.append("\n\tPartition FS: 0x");
        if e.filesystem_id < 16 {
            out.append(nibble_str(e.filesystem_id));
        } else {
            out.append(nibble_str(e.filesystem_id / 16));
            out.append(nibble_str(e.filesystem_id % 16));
            proof {
                assert(seq![nibble_char(e.filesystem_id / 16)] + seq![
                    nibble_char(e.filesystem_id % 16),
                ] =~= hex_pair(e.filesystem_id));
            }
        }
        out.append("\n\tStart Cylinder: 0x");
        out.append(e.chs_start.as_str());
        out.append("\n\tEnd Cylinder: 0x");
        out.append(e.chs_end.as_str());
        out.append("\n\tSector Start: 0x");
        out.append(hex_helper(vstd::slice::slice_subrange(self.data.as_slice(), 8, 12)).as_str());
        out.append("\n\tPartition Size: 0x");
        out.append(crate::codec::dec_string(e.size_sectors).as_str());
        out.append("\n");
        proof {
            assert(out@ =~= info_text(self@));
        }
        out
    }
}

/// The raw-hex rendering used by `MbrPart::fancy_format_part`.
pub open spec fn fancy_text(s: Seq<u8>) -> Seq<char>
    decreases s.len(),
{
    if s.len() == 0 {
        Seq::empty()
    } else {
        "0x"@ + hex_pair(s[0]) + " "@ + fancy_text(s.drop_first())
    }
}

pub proof fn lemma_fancy_text_push(s: Seq<u8>, b: u8)
    ensures
        fancy_text(s.push(b)) == fancy_text(s) + "0x"@ + hex_pair(b) + " "@,
    decreases s.len(),
{
    if s.len() == 0 {
        assert(s.push(b)[0] == b);
        assert(s.push(b).drop_first() =~= Seq::<u8>::empty());
        assert(fancy_text(s.push(b).drop_first()) == Seq::<char>::empty());
        assert(fancy_text(s.push(b)) =~= fancy_text(s) + "0x"@ + hex_pair(b) + " "@);
    } else {
        assert(s.push(b).drop_first() =~= s.drop_first().push(b));
        lemma_fancy_text_push(s.drop_first(), b);
        assert(fancy_text(s.push(b)) =~= fancy_text(s) + "0x"@ + hex_pair(b) + " "@);
    }
}

/// The report text of one decoded entry, as `MbrPart::info` renders it.
pub open spec fn info_text(s: Seq<u8>) -> Seq<char>
    recommends
        s.len() == 16,
{
    "\tActive partition: "@ + bool_text(s[0] == 0x80) + "\n\tPartition FS: 0x"@ + hex_short(s[4])
        + "\n\tStart Cylinder: 0x"@ + hex_rev_of(s.subrange(1, 3)) + "\n\tEnd Cylinder: 0x"@
        + hex_rev_of(s.subrange(5, 8)) + "\n\tSector Start: 0x"@ + hex_rev_of(s.subrange(8, 12))
        + "\n\tPartition Size: 0x"@ + dec_text(u32_le(s.subrange(12, 16))) + "\n"@
}

/// Read a little-endian unsigned 32-bit integer from the four bytes of
/// `dat` starting at `at`.
fn read_u32_le(dat: &Vec<u8>, at: usize) -> (r: u32)
    requires
        at + 4 <= dat@.len(),
    ensures
        r == u32_le(dat@.subrange(at as int, at + 4)),
{
    let n = dat.len();
    assert(at + 4 <= n);
    let r: u32 = (dat[at + 3] as u32) * 0x100_0000 + (dat[at + 2] as u32) * 0x1_0000 + (dat[at
        + 1] as u32) * 0x100 + (dat[at] as u32);
    proof {
        let s = dat@.subrange(at as int, at + 4);
        assert(s[0] == dat@[at as int] && s[1] == dat@[at + 1] && s[2] == dat@[at + 2] && s[3]
            == dat@[at + 3]);
    }
    r
}

/// Decode the 64-byte MBR partition-table region `[446, 510)` into its
/// four 16-byte entries, in table order.
pub fn parse_partitions(part_table: &[u8]) -> (r: Vec<MbrPart>)
    requires
        part_table@.len() == 64,
    ensures
        r@.len() == 4,
        forall|k: int|
            0 <= k < 4 ==> (#[trigger] r@[k])@ == part_table@.subrange(16 * k, 16 * k + 16),
        forall|k: int| 0 <= k < 4 ==> (#[trigger] r@[k]).wf(),
{
    let mut r: Vec<MbrPart> = Vec::new();
    r.push(MbrPart::new(vstd::slice::slice_subrange(part_table, 0, 16)));
    r.push(MbrPart::new(vstd::slice::slice_subrange(part_table, 16, 32)));
    r.push(MbrPart::new(vstd::slice::slice_subrange(part_table, 32, 48)));
    r.push(MbrPart::new(vstd::slice::slice_subrange(part_table, 48, 64)));
    r
}

} // verus!
