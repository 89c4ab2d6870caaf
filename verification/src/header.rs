use crate::checksum::{crc32, crc32_of};
use crate::error::GzError;
use vstd::prelude::*;

verus! {

/// The longest extra field the two-byte length prefix can describe.
pub const MAX_EXTRA_LEN: usize = 65535;

/// The metadata carried in the header of a gzip member.
#[derive(Clone, Debug)]
pub struct GzHeaderData {
    /// Hint that the payload is probably text.
    pub text: bool,
    /// Modification time in seconds since the Unix epoch, 0 if unknown.
    pub time: u32,
    /// The operating system the member was made on.
    pub os: u8,
    /// The extra field, if one is to be written.
    pub extra: Option<Vec<u8>>,
    /// The original file name without its terminator, if one is to be
    /// written.
    pub name: Option<Vec<u8>>,
    /// The comment without its terminator, if one is to be written.
    pub comment: Option<Vec<u8>>,
    /// Whether a checksum of the header is appended to it.
    pub hcrc: bool,
}

/// The mathematical content of a [`GzHeaderData`].
pub struct HeaderFields {
    pub text: bool,
    pub time: u32,
    pub os: u8,
    pub extra: Option<Seq<u8>>,
    pub name: Option<Seq<u8>>,
    pub comment: Option<Seq<u8>>,
    pub hcrc: bool,
}

/// The content of an optional byte string.
pub open spec fn opt_bytes(v: Option<Vec<u8>>) -> Option<Seq<u8>> {
    match v {
        Some(b) => Some(b@),
        None => None,
    }
}

impl View for GzHeaderData {
    type V = HeaderFields;

    open spec fn view(&self) -> HeaderFields {
        HeaderFields {
            text: self.text,
            time: self.time,
            os: self.os,
            extra: opt_bytes(self.extra),
            name: opt_bytes(self.name),
            comment: opt_bytes(self.comment),
            hcrc: self.hcrc,
        }
    }
}

/// No byte of `s` is the terminator of a zero-terminated string.
pub open spec fn no_nul(s: Seq<u8>) -> bool {
    forall|i: int| 0 <= i < s.len() ==> s[i] != 0u8
}

/// `x` as two bytes, least significant first.
pub open spec fn le16(x: u16) -> Seq<u8> {
    seq![(x % 256) as u8, (x / 256) as u8]
}

/// `x` as four bytes, least significant first.
pub open spec fn le32(x: u32) -> Seq<u8> {
    seq![
        (x % 256) as u8,
        (x / 256 % 256) as u8,
        (x / 65536 % 256) as u8,
        (x / 16777216) as u8,
    ]
}

/// The bytes an optional extra field occupies: its length in two bytes,
/// then the field itself.
pub open spec fn extra_section(extra: Option<Seq<u8>>) -> Seq<u8> {
    match extra {
        Some(e) => le16(e.len() as u16) + e,
        None => Seq::empty(),
    }
}

/// The bytes an optional name or comment occupies: the text and its
/// terminator.
pub open spec fn zstring_section(text: Option<Seq<u8>>) -> Seq<u8> {
    match text {
        Some(t) => t.push(0u8),
        None => Seq::empty(),
    }
}

impl HeaderFields {
    /// Whether the fields can be written: the extra field fits its length
    /// prefix, and neither name nor comment holds a terminator.
    pub open spec fn valid(self) -> bool {
        &&& self.extra matches Some(e) ==> e.len() <= MAX_EXTRA_LEN
        &&& self.name matches Some(n) ==> no_nul(n)
        &&& self.comment matches Some(c) ==> no_nul(c)
    }

    /// The flag byte: one bit each for text, header checksum, extra field,
    /// name and comment, from the least significant bit up.
    pub open spec fn flags(self) -> u8 {
        ((if self.text { 1int } else { 0int })
            + (if self.hcrc { 2int } else { 0int })
            + (if self.extra is Some { 4int } else { 0int })
            + (if self.name is Some { 8int } else { 0int })
            + (if self.comment is Some { 16int } else { 0int })) as u8
    }
}

/// The fixed ten-byte record every member starts with: magic, method,
/// flags, modification time, extra flags and operating system.
pub open spec fn base_bytes(h: HeaderFields, xflags: u8) -> Seq<u8> {
    seq![0x1fu8, 0x8bu8, 8u8, h.flags()] + le32(h.time) + seq![xflags, h.os]
}

/// The header up to, and without, its optional checksum.
pub open spec fn body_bytes(h: HeaderFields, xflags: u8) -> Seq<u8> {
    base_bytes(h, xflags) + extra_section(h.extra) + zstring_section(h.name) + zstring_section(
        h.comment,
    )
}

/// The low sixteen bits of the CRC-32 of `body`, which is what the header
/// checksum stores.
pub open spec fn crc16_of(body: Seq<u8>) -> u16 {
    (crc32_of(body) % 65536) as u16
}

/// The complete header of a gzip member with the fields `h` and the
/// extra-flags byte `xflags`.
pub open spec fn header_bytes(h: HeaderFields, xflags: u8) -> Seq<u8> {
    let body = body_bytes(h, xflags);
    if h.hcrc {
        body + le16(crc16_of(body))
    } else {
        body
    }
}

/// Whether `s` holds a terminator byte.
fn contains_nul(s: &[u8]) -> (r: bool)
    ensures
        r == !no_nul(s@),
{
    let mut i: usize = 0;
    while i < s.len()
        invariant
            i <= s.len(),
            forall|j: int| 0 <= j < i ==> s@[j] != 0u8,
        decreases s.len() - i,
    {
        if s[i] == 0u8 {
            return true;
        }
        i = i + 1;
    }
    false
}

/// Appends `src` to `out`.
pub(crate) fn push_all(out: &mut Vec<u8>, src: &[u8])
    ensures
        final(out)@ == old(out)@ + src@,
{
    let mut i: usize = 0;
    while i < src.len()
        invariant
            i <= src.len(),
            out@ == old(out)@ + src@.take(i as int),
        decreases src.len() - i,
    {
        out.push(src[i]);
        i = i + 1;
    }
}

/// Appends `x` to `out`, least significant byte first.
pub(crate) fn push_le16(out: &mut Vec<u8>, x: u16)
    ensures
        final(out)@ == old(out)@ + le16(x),
{
    out.push((x % 256) as u8);
    out.push((x / 256) as u8);
}

/// Appends `x` to `out`, least significant byte first.
pub(crate) fn push_le32(out: &mut Vec<u8>, x: u32)
    ensures
        final(out)@ == old(out)@ + le32(x),
{
    out.push((x % 256) as u8);
    out.push((x / 256 % 256) as u8);
    out.push((x / 65536 % 256) as u8);
    out.push((x / 16777216) as u8);
}

/// Appends an optional name or comment with its terminator.
fn push_zstring(out: &mut Vec<u8>, text: &Option<Vec<u8>>)
    ensures
        final(out)@ == old(out)@ + zstring_section(opt_bytes(*text)),
{
    match text {
        Some(t) => {
            push_all(out, t.as_slice());
            out.push(0u8);
        },
        None => {
        },
    }
}

impl GzHeaderData {
    /// Whether the fields can be written as a gzip header.
    pub fn is_valid(&self) -> (r: bool)
        ensures
            r == self@.valid(),
    {
        let extra_ok: bool = match &self.extra {
            Some(e) => e.len() <= MAX_EXTRA_LEN,
            None => true,
        };
        let name_ok: bool = match &self.name {
            Some(n) => !contains_nul(n.as_slice()),
            None => true,
        };
        let comment_ok: bool = match &self.comment {
            Some(c) => !contains_nul(c.as_slice()),
            None => true,
        };
        extra_ok && name_ok && comment_ok
    }

    /// The flag byte of the header.
    pub fn flag_byte(&self) -> (r: u8)
        ensures
            r == self@.flags(),
    {
        let mut f: u8 = 0;
        if self.text {
            f = f + 1;
        }
        if self.hcrc {
            f = f + 2;
        }
        if self.extra.is_some() {
            f = f + 4;
        }
        if self.name.is_some() {
            f = f + 8;
        }
        if self.comment.is_some() {
            f = f + 16;
        }
        f
    }

    /// Serialises the header of a gzip member: the ten-byte base record,
    /// then the extra field, the name and the comment where present, then
    /// the header checksum where requested.
    ///
    /// Fails with `InvalidHeaderField`, and writes nothing, exactly when the
    /// fields are not valid.
    pub fn as_gz_header(&self, xflags: u8) -> (r: Result<Vec<u8>, GzError>)
        ensures
            match r {
                Ok(bytes) => self@.valid() && bytes@ == header_bytes(self@, xflags),
                Err(e) => !self@.valid() && e == GzError::InvalidHeaderField,
            },
    {
        if !self.is_valid() {
            return Err(GzError::InvalidHeaderField);
        }
        let mut out: Vec<u8> = Vec::new();
        out.push(0x1fu8);
        out.push(0x8bu8);
        out.push(8u8);
        out.push(self.flag_byte());
        push_le32(&mut out, self.time);
        out.push(xflags);
        out.push(self.os);
        match &self.extra {
            Some(e) => {
                push_le16(&mut out, e.len() as u16);
                push_all(&mut out, e.as_slice());
            },
            None => {
            },
        }
        push_zstring(&mut out, &self.name);
        push_zstring(&mut out, &self.comment);
        assert(out@ == body_bytes(self@, xflags));
        if self.hcrc {
            let c: u32 = crc32(out.as_slice());
            push_le16(&mut out, (c % 65536) as u16);
        }
        Ok(out)
    }
}

} // verus!
