//! Primitive decoders: lowercase hexadecimal text, GUID text, and
//! big-endian integer unpacking.
//!
//! The MBR and GPT decoders both lean on these, so the byte-order policy is
//! auditable in one place: GPT integer fields are big-endian, and the text
//! renderings never reorder bytes.

use vstd::prelude::*;
use vstd::string::*;
use vstd::slice::slice_subrange;
use crate::DecodeError;

verus! {

/// The lowercase hexadecimal digit for one nibble.
pub open spec fn nibble_char(n: u8) -> char
    recommends
        n < 16,
{
    if n == 0 {
        '0'
    } else if n == 1 {
        '1'
    } else if n == 2 {
        '2'
    } else if n == 3 {
        '3'
    } else if n == 4 {
        '4'
    } else if n == 5 {
        '5'
    } else if n == 6 {
        '6'
    } else if n == 7 {
        '7'
    } else if n == 8 {
        '8'
    } else if n == 9 {
        '9'
    } else if n == 10 {
        'a'
    } else if n == 11 {
        'b'
    } else if n == 12 {
        'c'
    } else if n == 13 {
        'd'
    } else if n == 14 {
        'e'
    } else {
        'f'
    }
}

/// The two lowercase hexadecimal digits of one byte, high nibble first.
pub open spec fn hex_pair(b: u8) -> Seq<char> {
    seq![nibble_char(b / 16), nibble_char(b % 16)]
}

/// Each byte as two lowercase hexadecimal digits, concatenated in input
/// order: no separators, no byte reversal.
pub open spec fn hex_of(s: Seq<u8>) -> Seq<char>
    decreases s.len(),
{
    if s.len() == 0 {
        Seq::empty()
    } else {
        hex_pair(s[0]) + hex_of(s.drop_first())
    }
}

pub proof fn lemma_hex_of_push(s: Seq<u8>, b: u8)
    ensures
        hex_of(s.push(b)) == hex_of(s) + hex_pair(b),
    decreases s.len(),
{
    if s.len() == 0 {
        assert(s.push(b)[0] == b);
        assert(s.push(b).drop_first() =~= Seq::<u8>::empty());
        assert(hex_of(s.push(b).drop_first()) == Seq::<char>::empty());
        assert(hex_of(s.push(b)) =~= hex_of(s) + hex_pair(b));
    } else {
        assert(s.push(b).drop_first() =~= s.drop_first().push(b));
        lemma_hex_of_push(s.drop_first(), b);
        assert(hex_of(s.push(b)) =~= hex_of(s) + hex_pair(b));
    }
}

/// The one-character string slice holding the lowercase hexadecimal digit
/// of `n`.
pub(crate) fn nibble_str(n: u8) -> (r: &'static str)
    requires
        n < 16,
    ensures
        r@ == seq![nibble_char(n)],
{
    let r: &'static str = match n {
        0 => "0",
        1 => "1",
        2 => "2",
        3 => "3",
        4 => "4",
        5 => "5",
        6 => "6",
        7 => "7",
        8 => "8",
        9 => "9",
        10 => "a",
        11 => "b",
        12 => "c",
        13 => "d",
        14 => "e",
        _ => "f",
    };
    proof {
        reveal_strlit("0");
        reveal_strlit("1");
        reveal_strlit("2");
        reveal_strlit("3");
        reveal_strlit("4");
        reveal_strlit("5");
        reveal_strlit("6");
        reveal_strlit("7");
        reveal_strlit("8");
        reveal_strlit("9");
        reveal_strlit("a");
        reveal_strlit("b");
        reveal_strlit("c");
        reveal_strlit("d");
        reveal_strlit("e");
        reveal_strlit("f");
        assert(r@ =~= seq![nibble_char(n)]);
    }
    r
}

/// Render `dat` as lowercase hexadecimal text, two digits per byte, in
/// input order.
pub fn get_hex(dat: &[u8]) -> (out: String)
    ensures
        out@ == hex_of(dat@),
{
    let mut out = String::new();
    let mut i: usize = 0;
    while i < dat.len()
        invariant
            i <= dat@.len(),
            out@ == hex_of(dat@.take(i as int)),
        decreases dat@.len() - i,
    {
        let b = dat[i];
        out.append(nibble_str(b / 16));
        out.append(nibble_str(b % 16));
        proof {
            lemma_hex_of_push(dat@.take(i as int), b);
            assert(dat@.take(i + 1) =~= dat@.take(i as int).push(b));
            assert(seq![nibble_char(b / 16)] + seq![nibble_char(b % 16)] =~= hex_pair(b));
            assert(out@ =~= hex_of(dat@.take(i + 1)));
        }
        i = i + 1;
    }
    proof {
        assert(dat@.take(dat@.len() as int) =~= dat@);
    }
    out
}

/// The GUID text of 16 raw bytes: five hyphen-separated groups of byte
/// lengths 4-2-2-2-6, each group rendered as lowercase hexadecimal in raw
/// byte order.
pub open spec fn guid_text(s: Seq<u8>) -> Seq<char>
    recommends
        s.len() == 16,
{
    hex_of(s.subrange(0, 4)) + seq!['-'] + hex_of(s.subrange(4, 6)) + seq!['-'] + hex_of(
        s.subrange(6, 8),
    ) + seq!['-'] + hex_of(s.subrange(8, 10)) + seq!['-'] + hex_of(s.subrange(10, 16))
}

/// Render a 16-byte GUID field as hyphen-separated lowercase hexadecimal.
///
/// The five groups keep the raw byte order of the input. The conventional
/// GUID text form would reverse the bytes of the first three groups; the
/// raw order here is deliberate, and a caller that needs the conventional
/// form must reorder the bytes itself.
pub fn parse_guid(dat: &[u8]) -> (r: Result<String, DecodeError>)
    ensures
        dat@.len() == 16 ==> (r matches Ok(s) && s@ == guid_text(dat@)),
        dat@.len() != 16 ==> r == Err::<String, DecodeError>(DecodeError::Length),
{
    if dat.len() != 16 {
        return Err(DecodeError::Length);
    }
    let mut out = get_hex(slice_subrange(dat, 0, 4));
    out.append("-");
    out.append(get_hex(slice_subrange(dat, 4, 6)).as_str());
    out.append("-");
    out.append(get_hex(slice_subrange(dat, 6, 8)).as_str());
    out.append("-");
    out.append(get_hex(slice_subrange(dat, 8, 10)).as_str());
    out.append("-");
    out.append(get_hex(slice_subrange(dat, 10, 16)).as_str());
    proof {
        reveal_strlit("-");
        assert("-"@ =~= seq!['-']);
        assert(out@ =~= guid_text(dat@));
    }
    Ok(out)
}

/// The value of the first four bytes of `s`, read as one big-endian
/// unsigned 32-bit integer.
pub open spec fn u32_be(s: Seq<u8>) -> int
    recommends
        s.len() >= 4,
{
    s[0] * 0x100_0000 + s[1] * 0x1_0000 + s[2] * 0x100 + s[3]
}

/// The value of the first eight bytes of `s`, read as one big-endian
/// unsigned 64-bit integer.
pub open spec fn u64_be(s: Seq<u8>) -> int
    recommends
        s.len() >= 8,
{
    s[0] * 0x100_0000_0000_0000 + s[1] * 0x1_0000_0000_0000 + s[2] * 0x100_0000_0000 + s[3]
        * 0x1_0000_0000 + s[4] * 0x100_0000 + s[5] * 0x1_0000 + s[6] * 0x100 + s[7]
}

/// Unpack a big-endian unsigned 32-bit integer from the first four bytes
/// of `dat`. Four bytes cannot overflow a `u32`, so the operation never
/// panics, whatever the byte values.
pub fn unpack_int(dat: &[u8]) -> (r: Result<u32, DecodeError>)
    ensures
        dat@.len() >= 4 ==> (r matches Ok(v) && v == u32_be(dat@)),
        dat@.len() < 4 ==> r == Err::<u32, DecodeError>(DecodeError::Length),
{
    if dat.len() < 4 {
        return Err(DecodeError::Length);
    }
    let v: u32 = (dat[0] as u32) * 0x100_0000 + (dat[1] as u32) * 0x1_0000 + (dat[2] as u32)
        * 0x100 + (dat[3] as u32);
    Ok(v)
}

/// Unpack a big-endian unsigned 64-bit integer from the first eight bytes
/// of `dat`. Eight bytes cannot overflow a `u64`, so the operation never
/// panics, whatever the byte values.
pub fn unpack_long_long(dat: &[u8]) -> (r: Result<u64, DecodeError>)
    ensures
        dat@.len() >= 8 ==> (r matches Ok(v) && v == u64_be(dat@)),
        dat@.len() < 8 ==> r == Err::<u64, DecodeError>(DecodeError::Length),
{
    if dat.len() < 8 {
        return Err(DecodeError::Length);
    }
    let v: u64 = (dat[0] as u64) * 0x100_0000_0000_0000 + (dat[1] as u64) * 0x1_0000_0000_0000 + (
    dat[2] as u64) * 0x100_0000_0000 + (dat[3] as u64) * 0x1_0000_0000 + (dat[4] as u64)
        * 0x100_0000 + (dat[5] as u64) * 0x1_0000 + (dat[6] as u64) * 0x100 + (dat[7] as u64);
    Ok(v)
}

/// The value of the first four bytes of `s`, read as one little-endian
/// unsigned 32-bit integer: the MBR convention, as opposed to the
/// big-endian convention of the GPT integer fields.
pub open spec fn u32_le(s: Seq<u8>) -> int
    recommends
        s.len() >= 4,
{
    s[3] * 0x100_0000 + s[2] * 0x1_0000 + s[1] * 0x100 + s[0]
}

/// The decimal text of the non-negative integer `n`.
pub open spec fn dec_text(n: int) -> Seq<char>
    recommends
        n >= 0,
    decreases n,
{
    if n < 10 {
        seq![nibble_char(n as u8)]
    } else {
        dec_text(n / 10) + seq![nibble_char((n % 10) as u8)]
    }
}

/// Render `n` as decimal text.
pub fn dec_string(n: u32) -> (r: String)
    ensures
        r@ == dec_text(n as int),
    decreases n,
{
    if n < 10 {
        String::from_str(nibble_str(n as u8))
    } else {
        let mut r = dec_string(n / 10);
        r.append(nibble_str((n % 10) as u8));
        r
    }
}

/// The four-byte big-endian encoding of `v`.
pub open spec fn pack_u32_be(v: u32) -> Seq<u8> {
    seq![
        ((v >> 24) & 0xFF) as u8,
        ((v >> 16) & 0xFF) as u8,
        ((v >> 8) & 0xFF) as u8,
        (v & 0xFF) as u8,
    ]
}

/// The eight-byte big-endian encoding of `v`.
pub open spec fn pack_u64_be(v: u64) -> Seq<u8> {
    seq![
        ((v >> 56) & 0xFF) as u8,
        ((v >> 48) & 0xFF) as u8,
        ((v >> 40) & 0xFF) as u8,
        ((v >> 32) & 0xFF) as u8,
        ((v >> 24) & 0xFF) as u8,
        ((v >> 16) & 0xFF) as u8,
        ((v >> 8) & 0xFF) as u8,
        (v & 0xFF) as u8,
    ]
}

/// Pack `v` into four big-endian bytes.
pub fn pack_int(v: u32) -> (r: Vec<u8>)
    ensures
        r@ == pack_u32_be(v),
{
    let mut r: Vec<u8> = Vec::new();
    r.push(((v >> 24) & 0xFF) as u8);
    r.push(((v >> 16) & 0xFF) as u8);
    r.push(((v >> 8) & 0xFF) as u8);
    r.push((v & 0xFF) as u8);
    proof {
        assert(r@ =~= pack_u32_be(v));
    }
    r
}

/// Pack `v` into eight big-endian bytes.
pub fn pack_long_long(v: u64) -> (r: Vec<u8>)
    ensures
        r@ == pack_u64_be(v),
{
    let mut r: Vec<u8> = Vec::new();
    r.push(((v >> 56) & 0xFF) as u8);
    r.push(((v >> 48) & 0xFF) as u8);
    r.push(((v >> 40) & 0xFF) as u8);
    r.push(((v >> 32) & 0xFF) as u8);
    r.push(((v >> 24) & 0xFF) as u8);
    r.push(((v >> 16) & 0xFF) as u8);
    r.push(((v >> 8) & 0xFF) as u8);
    r.push((v & 0xFF) as u8);
    proof {
        assert(r@ =~= pack_u64_be(v));
    }
    r
}

/// Packing then unpacking returns the original value: the big-endian
/// 32-bit unpack is a left-inverse of the big-endian pack.
pub proof fn lemma_u32_be_round_trip(v: u32)
    ensures
        u32_be(pack_u32_be(v)) == v,
{
    assert((((v >> 24) & 0xFF) as u8) * 0x100_0000 + (((v >> 16) & 0xFF) as u8) * 0x1_0000 + (((v
        >> 8) & 0xFF) as u8) * 0x100 + ((v & 0xFF) as u8) == v) by (bit_vector);
}

/// Packing then unpacking returns the original value: the big-endian
/// 64-bit unpack is a left-inverse of the big-endian pack.
pub proof fn lemma_u64_be_round_trip(v: u64)
    ensures
        u64_be(pack_u64_be(v)) == v,
{
    assert((((v >> 56) & 0xFF) as u8) * 0x100_0000_0000_0000 + (((v >> 48) & 0xFF) as u8)
        * 0x1_0000_0000_0000 + (((v >> 40) & 0xFF) as u8) * 0x100_0000_0000 + (((v >> 32)
        & 0xFF) as u8) * 0x1_0000_0000 + (((v >> 24) & 0xFF) as u8) * 0x100_0000 + (((v >> 16)
        & 0xFF) as u8) * 0x1_0000 + (((v >> 8) & 0xFF) as u8) * 0x100 + ((v & 0xFF) as u8)
        == v) by (bit_vector);
}

/// A lowercase hexadecimal digit.
pub open spec fn is_hex_digit(c: char) -> bool {
    ('0' <= c && c <= '9') || ('a' <= c && c <= 'f')
}

/// A hexadecimal rendering is twice as long as its input and holds nothing
/// but lowercase hexadecimal digits.
pub proof fn lemma_hex_of_digits(s: Seq<u8>)
    ensures
        hex_of(s).len() == 2 * s.len(),
        forall|i: int| 0 <= i < hex_of(s).len() ==> is_hex_digit(#[trigger] hex_of(s)[i]),
    decreases s.len(),
{
    if s.len() > 0 {
        lemma_hex_of_digits(s.drop_first());
        assert(is_hex_digit(nibble_char(s[0] / 16)));
        assert(is_hex_digit(nibble_char(s[0] % 16)));
        assert(forall|i: int|
            0 <= i < hex_of(s).len() ==> is_hex_digit(#[trigger] hex_of(s)[i]));
    }
}

/// The shape every GUID rendering takes: 36 characters, hyphens at
/// positions 8, 13, 18 and 23, and a lowercase hexadecimal digit at every
/// other position.
pub proof fn lemma_guid_text_format(s: Seq<u8>)
    requires
        s.len() == 16,
    ensures
        guid_text(s).len() == 36,
        guid_text(s)[8] == '-',
        guid_text(s)[13] == '-',
        guid_text(s)[18] == '-',
        guid_text(s)[23] == '-',
        forall|i: int|
            (0 <= i < 36 && i != 8 && i != 13 && i != 18 && i != 23) ==> is_hex_digit(
                #[trigger] guid_text(s)[i],
            ),
{
    lemma_hex_of_digits(s.subrange(0, 4));
    lemma_hex_of_digits(s.subrange(4, 6));
    lemma_hex_of_digits(s.subrange(6, 8));
    lemma_hex_of_digits(s.subrange(8, 10));
    lemma_hex_of_digits(s.subrange(10, 16));
}

} // verus!
