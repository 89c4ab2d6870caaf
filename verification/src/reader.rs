//! A mathematical reader of gzip headers, and the proof that it recovers
//! every field the serialiser was given.
//!
//! The reader exists in proofs only: it describes what any decoder that
//! follows the format sees in the bytes this crate writes.

use crate::checksum::crc32_of;
use crate::header::{
    base_bytes, body_bytes, crc16_of, extra_section, header_bytes, le16, le32, no_nul,
    zstring_section, HeaderFields,
};
use crate::trailer::{member_bytes, trailer_bytes};
use vstd::prelude::*;

verus! {

/// What a reader finds at the start of a gzip member.
pub struct ParsedHeader {
    /// The fields of the header.
    pub fields: HeaderFields,
    /// The extra-flags byte.
    pub xflags: u8,
    /// How many bytes the header occupies.
    pub len: int,
}

/// The value of two bytes read least significant first.
pub open spec fn read_le16(b0: u8, b1: u8) -> int {
    b0 as int + 256 * (b1 as int)
}

/// The value of four bytes read least significant first.
pub open spec fn read_le32(b0: u8, b1: u8, b2: u8, b3: u8) -> int {
    b0 as int + 256 * (b1 as int) + 65536 * (b2 as int) + 16777216 * (b3 as int)
}

/// The position of the first terminator byte at or after `from`.
pub open spec fn first_nul(s: Seq<u8>, from: int) -> Option<int>
    decreases s.len() - from,
{
    if from < 0 || from >= s.len() {
        None
    } else if s[from] == 0u8 {
        Some(from)
    } else {
        first_nul(s, from + 1)
    }
}

/// Reads the extra field at `pos` if the flags announce one. Gives the
/// field and the position after it, or nothing if the bytes run out.
pub open spec fn read_extra(s: Seq<u8>, pos: int, present: bool) -> Option<(Option<Seq<u8>>, int)> {
    if !present {
        Some((None, pos))
    } else if pos < 0 || pos + 2 > s.len() {
        None
    } else {
        let n = read_le16(s[pos], s[pos + 1]);
        if pos + 2 + n > s.len() {
            None
        } else {
            Some((Some(s.subrange(pos + 2, pos + 2 + n)), pos + 2 + n))
        }
    }
}

/// Reads a zero-terminated string at `pos` if the flags announce one. Gives
/// the text without its terminator and the position after the terminator,
/// or nothing if no terminator follows.
pub open spec fn read_zstring(s: Seq<u8>, pos: int, present: bool) -> Option<
    (Option<Seq<u8>>, int),
> {
    if !present {
        Some((None, pos))
    } else {
        match first_nul(s, pos) {
            Some(k) => Some((Some(s.subrange(pos, k)), k + 1)),
            None => None,
        }
    }
}

/// Checks the header checksum at `pos` if the flags announce one. Gives the
/// position after it, or nothing if it is missing or does not match the
/// bytes before it.
pub open spec fn read_crc16(s: Seq<u8>, pos: int, present: bool) -> Option<int> {
    if !present {
        Some(pos)
    } else if pos < 0 || pos + 2 > s.len() {
        None
    } else if read_le16(s[pos], s[pos + 1]) != crc16_of(s.subrange(0, pos)) {
        None
    } else {
        Some(pos + 2)
    }
}

/// Reads the header of the gzip member that `s` starts with.
pub open spec fn parse_header(s: Seq<u8>) -> Option<ParsedHeader> {
    if s.len() < 10 || s[0] != 0x1fu8 || s[1] != 0x8bu8 || s[2] != 8u8 || s[3] >= 32u8 {
        None
    } else {
        let flags = s[3] as int;
        match read_extra(s, 10, flags / 4 % 2 == 1) {
            None => None,
            Some((extra, after_extra)) => match read_zstring(s, after_extra, flags / 8 % 2 == 1) {
                None => None,
                Some((name, after_name)) => match read_zstring(
                    s,
                    after_name,
                    flags / 16 % 2 == 1,
                ) {
                    None => None,
                    Some((comment, after_comment)) => match read_crc16(
                        s,
                        after_comment,
                        flags / 2 % 2 == 1,
                    ) {
                        None => None,
                        Some(end) => Some(
                            ParsedHeader {
                                fields: HeaderFields {
                                    text: flags % 2 == 1,
                                    time: read_le32(s[4], s[5], s[6], s[7]) as u32,
                                    os: s[9],
                                    extra,
                                    name,
                                    comment,
                                    hcrc: flags / 2 % 2 == 1,
                                },
                                xflags: s[8],
                                len: end,
                            },
                        ),
                    },
                },
            },
        }
    }
}

/// Reads the gzip member that `s` consists of, with `inflate` as the
/// decompressor of the stream between header and trailer. Gives the header
/// and the payload, or nothing if the header is malformed, the stream does
/// not decompress, or the trailer does not hold the checksum and the length
/// of what came out.
pub open spec fn read_member(s: Seq<u8>, inflate: spec_fn(Seq<u8>) -> Option<Seq<u8>>) -> Option<
    (ParsedHeader, Seq<u8>),
> {
    match parse_header(s) {
        None => None,
        Some(h) => {
            let n = s.len() as int;
            if n < h.len + 8 {
                None
            } else {
                match inflate(s.subrange(h.len, n - 8)) {
                    None => None,
                    Some(payload) => if read_le32(s[n - 8], s[n - 7], s[n - 6], s[n - 5])
                        == crc32_of(payload) && read_le32(s[n - 4], s[n - 3], s[n - 2], s[n - 1])
                        == payload.len() % 0x1_0000_0000 {
                        Some((h, payload))
                    } else {
                        None
                    },
                }
            }
        },
    }
}

/// Two bytes written least significant first read back as the same number.
pub proof fn lemma_le16_reads_back(x: u16)
    ensures
        le16(x).len() == 2,
        read_le16(le16(x)[0], le16(x)[1]) == x,
{
}

/// Four bytes written least significant first read back as the same number.
pub proof fn lemma_le32_reads_back(x: u32)
    ensures
        le32(x).len() == 4,
        read_le32(le32(x)[0], le32(x)[1], le32(x)[2], le32(x)[3]) == x,
{
}

/// The first terminator at or after `from` is at `end` when no byte between
/// the two is one.
proof fn lemma_first_nul(s: Seq<u8>, from: int, end: int)
    requires
        0 <= from <= end < s.len(),
        s[end] == 0u8,
        forall|i: int| from <= i < end ==> s[i] != 0u8,
    ensures
        first_nul(s, from) == Some(end),
    decreases end - from,
{
    if from < end {
        lemma_first_nul(s, from + 1, end);
    }
}

/// An extra field is read back from the bytes written for it.
proof fn lemma_read_extra(s: Seq<u8>, pos: int, extra: Option<Seq<u8>>)
    requires
        0 <= pos,
        pos + extra_section(extra).len() <= s.len(),
        s.subrange(pos, pos + extra_section(extra).len()) == extra_section(extra),
        extra matches Some(e) ==> e.len() <= 65535,
    ensures
        read_extra(s, pos, extra is Some) == Some((extra, pos + extra_section(extra).len())),
{
    match extra {
        Some(e) => {
            let sec = extra_section(extra);
            let n = e.len() as u16;
            lemma_le16_reads_back(n);
            assert(sec[0] == le16(n)[0]);
            assert(sec[1] == le16(n)[1]);
            assert(s.subrange(pos + 2, pos + 2 + e.len()) =~= e) by {
                assert forall|i: int| 0 <= i < e.len() implies s[pos + 2 + i] == e[i] by {
                    assert(s[pos + 2 + i] == sec[2 + i]);
                }
            }
        },
        None => {},
    }
}

/// A name or comment is read back from the bytes written for it.
proof fn lemma_read_zstring(s: Seq<u8>, pos: int, text: Option<Seq<u8>>)
    requires
        0 <= pos,
        pos + zstring_section(text).len() <= s.len(),
        s.subrange(pos, pos + zstring_section(text).len()) == zstring_section(text),
        text matches Some(t) ==> no_nul(t),
    ensures
        read_zstring(s, pos, text is Some) == Some((text, pos + zstring_section(text).len())),
{
    match text {
        Some(t) => {
            let sec = zstring_section(text);
            assert forall|i: int| 0 <= i <= t.len() implies s[pos + i] == sec[i] by {
            }
            assert(s[pos + t.len()] == 0u8) by {
                assert(sec[t.len() as int] == 0u8);
            }
            assert forall|i: int| pos <= i < pos + t.len() implies s[i] != 0u8 by {
                assert(sec[i - pos] == t[i - pos]);
            }
            lemma_first_nul(s, pos, pos + t.len());
            assert(s.subrange(pos, pos + t.len()) =~= t) by {
                assert forall|i: int| 0 <= i < t.len() implies s[pos + i] == t[i] by {
                    assert(s[pos + i] == sec[i]);
                }
            }
        },
        None => {},
    }
}

/// The flag byte gives back each of the five booleans it was built from,
/// and uses none of the reserved bits.
pub proof fn lemma_flags_read_back(h: HeaderFields)
    ensures
        h.flags() < 32,
        (h.flags() as int % 2 == 1) == h.text,
        (h.flags() as int / 2 % 2 == 1) == h.hcrc,
        (h.flags() as int / 4 % 2 == 1) == (h.extra is Some),
        (h.flags() as int / 8 % 2 == 1) == (h.name is Some),
        (h.flags() as int / 16 % 2 == 1) == (h.comment is Some),
{
}

/// Reading a header that this crate wrote gives back the fields, the
/// extra-flags byte and the length that were written, whatever follows the
/// header.
pub proof fn lemma_header_round_trip(h: HeaderFields, xflags: u8, rest: Seq<u8>)
    requires
        h.valid(),
    ensures
        parse_header(header_bytes(h, xflags) + rest) == Some(
            ParsedHeader { fields: h, xflags, len: header_bytes(h, xflags).len() as int },
        ),
{
    let base = base_bytes(h, xflags);
    let se = extra_section(h.extra);
    let sn = zstring_section(h.name);
    let sc = zstring_section(h.comment);
    let body = body_bytes(h, xflags);
    let hb = header_bytes(h, xflags);
    let s = hb + rest;
    let after_extra: int = 10int + se.len() as int;
    let after_name: int = after_extra + sn.len();
    let after_comment: int = after_name + sc.len();
    lemma_flags_read_back(h);
    lemma_le32_reads_back(h.time);
    assert(body =~= s.subrange(0, after_comment));
    assert(base[4] == le32(h.time)[0] && base[5] == le32(h.time)[1] && base[6] == le32(
        h.time,
    )[2] && base[7] == le32(h.time)[3]);
    assert(s.subrange(10, after_extra) =~= se);
    assert(s.subrange(after_extra, after_name) =~= sn);
    assert(s.subrange(after_name, after_comment) =~= sc);
    lemma_read_extra(s, 10, h.extra);
    lemma_read_zstring(s, after_extra, h.name);
    lemma_read_zstring(s, after_name, h.comment);
    if h.hcrc {
        let c = crc16_of(body);
        lemma_le16_reads_back(c);
    }
    assert(read_le32(s[4], s[5], s[6], s[7]) == h.time);
}

/// Reading a member gives back the header fields and the payload it was
/// made from, for every decompressor that turns the compressed stream back
/// into the payload.
pub proof fn lemma_member_round_trip(
    h: HeaderFields,
    xflags: u8,
    deflated: Seq<u8>,
    payload: Seq<u8>,
    inflate: spec_fn(Seq<u8>) -> Option<Seq<u8>>,
)
    requires
        h.valid(),
        inflate(deflated) == Some(payload),
    ensures
        read_member(member_bytes(header_bytes(h, xflags), deflated, payload), inflate) == Some(
            (
                ParsedHeader { fields: h, xflags, len: header_bytes(h, xflags).len() as int },
                payload,
            ),
        ),
{
    let hb = header_bytes(h, xflags);
    let tr = trailer_bytes(payload);
    let m = member_bytes(hb, deflated, payload);
    let n = m.len() as int;
    let crc = crc32_of(payload);
    let len = (payload.len() % 0x1_0000_0000) as u32;
    assert(m =~= hb + (deflated + tr));
    lemma_header_round_trip(h, xflags, deflated + tr);
    lemma_le32_reads_back(crc);
    lemma_le32_reads_back(len);
    assert(m.subrange(hb.len() as int, n - 8) =~= deflated);
    assert(m[n - 8] == le32(crc)[0] && m[n - 7] == le32(crc)[1] && m[n - 6] == le32(crc)[2] && m[n
        - 5] == le32(crc)[3]);
    assert(m[n - 4] == le32(len)[0] && m[n - 3] == le32(len)[1] && m[n - 2] == le32(len)[2] && m[n
        - 1] == le32(len)[3]);
}

/// Serialising equal fields gives equal bytes, and valid fields that
/// serialise to equal bytes are equal.
pub proof fn lemma_header_bytes_determine_fields(
    a: HeaderFields,
    b: HeaderFields,
    xa: u8,
    xb: u8,
)
    requires
        a.valid(),
        b.valid(),
    ensures
        (a == b && xa == xb) <==> header_bytes(a, xa) == header_bytes(b, xb),
{
    if header_bytes(a, xa) == header_bytes(b, xb) {
        lemma_header_round_trip(a, xa, Seq::empty());
        lemma_header_round_trip(b, xb, Seq::empty());
    }
}

} // verus!
