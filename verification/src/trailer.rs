use crate::checksum::{crc32, crc32_of};
use crate::header::{le32, push_le32};
use vstd::prelude::*;

verus! {

/// The eight bytes that close a gzip member: the CRC-32 of the payload and
/// the payload's length modulo 2^32, each least significant byte first.
pub open spec fn trailer_bytes(payload: Seq<u8>) -> Seq<u8> {
    le32(crc32_of(payload)) + le32((payload.len() % 0x1_0000_0000) as u32)
}

/// A gzip member: the header, the compressed stream, and the trailer of the
/// payload the stream stands for.
pub open spec fn member_bytes(header: Seq<u8>, deflated: Seq<u8>, payload: Seq<u8>) -> Seq<u8> {
    header + deflated + trailer_bytes(payload)
}

/// The trailer of the empty payload is eight zero bytes.
pub proof fn lemma_trailer_of_empty()
    ensures
        trailer_bytes(Seq::<u8>::empty()) == seq![0u8, 0u8, 0u8, 0u8, 0u8, 0u8, 0u8, 0u8],
{
    crate::checksum::lemma_crc32_of_empty();
}

/// A member that wraps an empty payload is the header, whatever the engine
/// wrote for the empty stream, and eight zero bytes.
pub proof fn lemma_member_of_empty_payload(header: Seq<u8>, deflated: Seq<u8>)
    ensures
        member_bytes(header, deflated, Seq::<u8>::empty()) == header + deflated
            + seq![0u8, 0u8, 0u8, 0u8, 0u8, 0u8, 0u8, 0u8],
{
    lemma_trailer_of_empty();
}

/// The length of `payload` modulo 2^32.
fn length_mod_32(payload: &[u8]) -> (r: u32)
    ensures
        r == payload@.len() % 0x1_0000_0000,
{
    (payload.len() as u64 % 0x1_0000_0000u64) as u32
}

/// Appends the trailer of `payload` to `out`.
pub(crate) fn push_trailer(out: &mut Vec<u8>, payload: &[u8])
    ensures
        final(out)@ == old(out)@ + trailer_bytes(payload@),
{
    let c: u32 = crc32(payload);
    let n: u32 = length_mod_32(payload);
    push_le32(out, c);
    push_le32(out, n);
}

} // verus!
