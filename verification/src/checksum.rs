use vstd::prelude::*;

verus! {

/// The reflected CRC-32 polynomial used by gzip.
pub const CRC32_POLY: u32 = 0xEDB8_8320u32;

/// One step of the bitwise CRC division: shift out the low bit and, if it
/// was set, subtract the polynomial.
pub open spec fn crc_shift(c: u32) -> u32 {
    if c & 1u32 == 1u32 {
        (c >> 1u32) ^ CRC32_POLY
    } else {
        c >> 1u32
    }
}

/// The CRC register after the byte `b` has been fed into register `c`.
pub open spec fn crc_feed(c: u32, b: u8) -> u32 {
    crc_shift(
        crc_shift(
            crc_shift(crc_shift(crc_shift(crc_shift(crc_shift(crc_shift(c ^ (b as u32))))))),
        ),
    )
}

/// The CRC register after all of `data` has been fed, first byte first,
/// starting from register `c`.
pub open spec fn crc_fold(c: u32, data: Seq<u8>) -> u32
    decreases data.len(),
{
    if data.len() == 0 {
        c
    } else {
        crc_feed(crc_fold(c, data.drop_last()), data.last())
    }
}

/// The CRC-32 of `data` as gzip defines it: the register starts with all
/// bits set and is complemented at the end.
pub open spec fn crc32_of(data: Seq<u8>) -> u32 {
    crc_fold(0xFFFF_FFFFu32, data) ^ 0xFFFF_FFFFu32
}

/// The CRC-32 of the empty sequence is zero.
pub proof fn lemma_crc32_of_empty()
    ensures
        crc32_of(Seq::<u8>::empty()) == 0u32,
{
    assert(0xFFFF_FFFFu32 ^ 0xFFFF_FFFFu32 == 0u32) by (bit_vector);
}

fn shift(c: u32) -> (r: u32)
    ensures
        r == crc_shift(c),
{
    if c & 1u32 == 1u32 {
        (c >> 1u32) ^ CRC32_POLY
    } else {
        c >> 1u32
    }
}

fn feed(c: u32, b: u8) -> (r: u32)
    ensures
        r == crc_feed(c, b),
{
    let mut r: u32 = c ^ (b as u32);
    r = shift(r);
    r = shift(r);
    r = shift(r);
    r = shift(r);
    r = shift(r);
    r = shift(r);
    r = shift(r);
    r = shift(r);
    r
}

/// Computes the CRC-32 of `data`.
pub fn crc32(data: &[u8]) -> (r: u32)
    ensures
        r == crc32_of(data@),
{
    let mut c: u32 = 0xFFFF_FFFFu32;
    let mut i: usize = 0;
    while i < data.len()
        invariant
            i <= data.len(),
            c == crc_fold(0xFFFF_FFFFu32, data@.take(i as int)),
        decreases data.len() - i,
    {
        proof {
            assert(data@.take(i + 1).drop_last() =~= data@.take(i as int));
        }
        c = feed(c, data[i]);
        i = i + 1;
    }
    proof {
        assert(data@.take(i as int) =~= data@);
    }
    c ^ 0xFFFF_FFFFu32
}

} // verus!
