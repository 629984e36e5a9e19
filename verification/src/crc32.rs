//! CRC-32 as UEFI tables use it.
//!
//! Unless otherwise specified, UEFI uses a standard CCITT32 CRC algorithm with
//! a seed polynomial value of `0x04C11DB7` for its CRC calculations: all-ones
//! initial remainder, bytes folded in least-significant-bit first, final
//! complement. [`spec_crc32`] states the computation bit by bit, and [`crc32`]
//! is proved to return exactly that value.

use vstd::prelude::*;

verus! {

/// The seed polynomial `0x04C11DB7` in its reflected (least-significant-bit
/// first) form, the form the byte-at-a-time computation divides by.
pub const CRC32_REFLECTED_POLYNOMIAL: u32 = 0xEDB8_8320;

/// One shift step of the running remainder: halve it, folding the reflected
/// polynomial back in when a one bit falls off the low end.
pub open spec fn spec_crc32_step(c: u32) -> u32 {
    if c & 1 == 1 {
        (c >> 1) ^ CRC32_REFLECTED_POLYNOMIAL
    } else {
        c >> 1
    }
}

/// `n` shift steps of the running remainder.
pub open spec fn spec_crc32_steps(c: u32, n: nat) -> u32
    decreases n,
{
    if n == 0 {
        c
    } else {
        spec_crc32_step(spec_crc32_steps(c, (n - 1) as nat))
    }
}

/// One byte folded into the running remainder: the byte mixed into the low
/// bits, then eight shift steps.
pub open spec fn spec_crc32_byte(c: u32, b: u8) -> u32 {
    spec_crc32_steps(c ^ (b as u32), 8)
}

/// The running remainder after folding in all of `bytes`, starting from `c`.
pub open spec fn spec_crc32_accum(c: u32, bytes: Seq<u8>) -> u32
    decreases bytes.len(),
{
    if bytes.len() == 0 {
        c
    } else {
        spec_crc32_accum(spec_crc32_byte(c, bytes[0]), bytes.drop_first())
    }
}

/// The CRC-32 of a byte sequence: all-ones seed, every byte folded in, final
/// complement.
pub open spec fn spec_crc32(bytes: Seq<u8>) -> u32 {
    !spec_crc32_accum(0xFFFF_FFFFu32, bytes)
}

/// Folding bytes in one at a time from the left is the same as folding the
/// last byte into the remainder of all the bytes before it.
pub proof fn lemma_crc32_accum_push(c: u32, bytes: Seq<u8>, b: u8)
    ensures
        spec_crc32_accum(c, bytes.push(b)) == spec_crc32_byte(spec_crc32_accum(c, bytes), b),
    decreases bytes.len(),
{
    if bytes.len() == 0 {
        assert(bytes.push(b)[0] == b);
        assert(bytes.push(b).drop_first() =~= Seq::<u8>::empty());
        assert(spec_crc32_accum(spec_crc32_byte(c, b), Seq::<u8>::empty())
            == spec_crc32_byte(c, b));
        assert(spec_crc32_accum(c, bytes.push(b)) == spec_crc32_byte(c, b));
    } else {
        assert(bytes.push(b)[0] == bytes[0]);
        assert(bytes.push(b).drop_first() =~= bytes.drop_first().push(b));
        lemma_crc32_accum_push(spec_crc32_byte(c, bytes[0]), bytes.drop_first(), b);
        assert(spec_crc32_accum(c, bytes.push(b)) == spec_crc32_accum(
            spec_crc32_byte(c, bytes[0]),
            bytes.drop_first().push(b),
        ));
    }
}

/// Computes the CRC-32 of `data`.
pub fn crc32(data: &Vec<u8>) -> (r: u32)
    ensures
        r == spec_crc32(data@),
{
    let mut c: u32 = 0xFFFF_FFFF;
    let mut i: usize = 0;
    while i < data.len()
        invariant
            i <= data@.len(),
            c == spec_crc32_accum(0xFFFF_FFFFu32, data@.take(i as int)),
        decreases data@.len() - i,
    {
        let b = data[i];
        let mut acc: u32 = c ^ (b as u32);
        let mut j: usize = 0;
        while j < 8
            invariant
                j <= 8,
                acc == spec_crc32_steps(c ^ (b as u32), j as nat),
            decreases 8 - j,
        {
            if acc & 1 == 1 {
                acc = (acc >> 1) ^ CRC32_REFLECTED_POLYNOMIAL;
            } else {
                acc = acc >> 1;
            }
            j = j + 1;
        }
        proof {
            assert(acc == spec_crc32_byte(c, data@[i as int]));
            assert(data@.take(i as int).push(data@[i as int]) =~= data@.take(i + 1));
            lemma_crc32_accum_push(0xFFFF_FFFFu32, data@.take(i as int), data@[i as int]);
        }
        c = acc;
        i = i + 1;
    }
    proof {
        assert(data@.take(data@.len() as int) =~= data@);
    }
    !c
}

} // verus!
