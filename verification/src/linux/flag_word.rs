//! The feature flags as the bits of the flag word of the header.
//!
//! The header holds the flags of the features in a word of 256 bits, of
//! which bit 0 is reserved and the bits 1 to 17 each stand for one feature.
//! This module shows that the number of features that a header declares is
//! the number of these bits that are set.

use super::features::{header_at, header_flags_of, word_bit};
use super::perf_format::{feature_at, HeaderFlags};
use super::primitives::popcount;
use vstd::arithmetic::div_mod::lemma_fundamental_div_mod_converse;
use vstd::arithmetic::power2::{lemma2_to64, lemma_pow2_strictly_increases, lemma_pow2_unfold, pow2};
use vstd::prelude::*;

verus! {

/// The number for a bit: one where it is set.
#[verifier::opaque]
pub open spec fn bit(b: bool) -> int {
    if b {
        1
    } else {
        0
    }
}

/// Doubling a number and adding a bit adds the bit to its count of set bits.
pub proof fn lemma_popcount_shift(x: u64, b: bool)
    requires
        2 * x + bit(b) <= u64::MAX,
    ensures
        popcount((2 * x + bit(b)) as u64) == popcount(x) + bit(b),
{
    reveal(bit);
    let y = (2 * x + bit(b)) as u64;
    if y != 0 {
        assert(y % 2 == bit(b));
        assert(y / 2 == x);
    }
}

/// The bits of a byte make up the byte.
pub proof fn lemma_byte_bits(b: u8)
    ensures
        b == bit(lsb(b, 0)) + 2 * bit(lsb(b, 1)) + 4 * bit(lsb(b, 2)) + 8 * bit(lsb(b, 3))
            + 16 * bit(lsb(b, 4))
            + 32 * bit(lsb(b, 5)) + 64 * bit(lsb(b, 6)) + 128 * bit(lsb(b, 7)),
        forall|k: int| 0 <= #[trigger] bit(lsb(b, k)) <= 1,
{
    reveal(bit);
    assert(b == ((b >> 0u8) & 1) + 2 * ((b >> 1u8) & 1) + 4 * ((b >> 2u8) & 1)
        + 8 * ((b >> 3u8) & 1) + 16 * ((b >> 4u8) & 1)
        + 32 * ((b >> 5u8) & 1) + 64 * ((b >> 6u8) & 1) + 128 * ((b >> 7u8) & 1)) by (bit_vector);
    assert(((b >> 0u8) & 1 == 0 || (b >> 0u8) & 1 == 1)
        && ((b >> 1u8) & 1 == 0 || (b >> 1u8) & 1 == 1)
        && ((b >> 2u8) & 1 == 0 || (b >> 2u8) & 1 == 1)
            && ((b >> 3u8) & 1 == 0 || (b >> 3u8) & 1 == 1)
        && ((b >> 4u8) & 1 == 0 || (b >> 4u8) & 1 == 1)
            && ((b >> 5u8) & 1 == 0 || (b >> 5u8) & 1 == 1)
        && ((b >> 6u8) & 1 == 0 || (b >> 6u8) & 1 == 1)
            && ((b >> 7u8) & 1 == 0 || (b >> 7u8) & 1 == 1)) by (bit_vector);
}

/// Bit `k` of a byte, where bit 0 is the lowest.
pub open spec fn lsb(b: u8, k: int) -> bool {
    (b >> (k as u8)) & 1 == 1
}

/// The number whose bits, from the lowest on, are the bits of `e` from `k` on.
pub open spec fn bits_value(e: Seq<bool>, k: int) -> int
    decreases e.len() - k,
{
    if k < 0 || k >= e.len() {
        0
    } else {
        bit(e[k]) + 2 * bits_value(e, k + 1)
    }
}

/// How many of the bits of `e` from `k` on are set.
pub open spec fn bits_set(e: Seq<bool>, k: int) -> int
    decreases e.len() - k,
{
    if k < 0 || k >= e.len() {
        0
    } else {
        bit(e[k]) + bits_set(e, k + 1)
    }
}

/// A number has as many bits set as the bits it is made of.
pub proof fn lemma_popcount_of_bits(e: Seq<bool>, k: int)
    requires
        0 <= k <= e.len(),
        e.len() - k <= 63,
    ensures
        0 <= bits_value(e, k) < pow2((e.len() - k) as nat),
        bits_value(e, k) <= u64::MAX,
        popcount(bits_value(e, k) as u64) == bits_set(e, k),
    decreases e.len() - k,
{
    reveal(bit);
    lemma2_to64();
    if k < e.len() {
        lemma_popcount_of_bits(e, k + 1);
        lemma_pow2_unfold((e.len() - k) as nat);
        lemma_pow2_strictly_increases((e.len() - k) as nat, 64);
        lemma_popcount_shift(bits_value(e, k + 1) as u64, e[k]);
    } else {
        lemma_pow2_strictly_increases(0, 64);
    }
}

/// The 24 lowest bits of the flag word, as a number.
pub open spec fn low_word(f: Seq<u8>) -> int {
    f[0] as int + 0x100 * (f[1] as int) + 0x1_0000 * (f[2] as int)
}

/// The feature flags as they stand in the flag word: its bits 1 to 17.
pub open spec fn feature_word(f: Seq<u8>) -> u64 {
    (low_word(f) as u64) & 0x3_fffe
}

/// The bits 0 to 17 of the flag word, the reserved bit 0 taken as clear.
pub open spec fn feature_bits(f: Seq<u8>) -> Seq<bool> {
    Seq::new(18, |n: int| n > 0 && word_bit(f, n))
}

/// Masking out all but the bits 1 to 17 of a number leaves what these bits make up.
proof fn lemma_mask_feature_bits(w: u64, low: int, high: int, e0: int)
    requires
        w == low + 0x4_0000 * high,
        0 <= low < 0x4_0000,
        0 <= high,
        0 <= e0 <= 1,
        (low - e0) % 2 == 0,
    ensures
        w & 0x3_fffe == low - e0,
{
    assert(w % 0x4_0000 == low) by {
        lemma_fundamental_div_mod_converse(w as int, 0x4_0000, high, low);
    }
    assert(w % 2 == e0) by {
        lemma_fundamental_div_mod_converse(
            w as int,
            2,
            (low - e0) / 2 + 0x2_0000 * high,
            e0,
        );
    }
    assert(w & 0x3_fffe == (w % 0x4_0000) - (w % 2)) by (bit_vector);
}

/// The feature word, written out in the bits of the three bytes it is taken from.
#[verifier::rlimit(80)]
#[verifier::spinoff_prover]
proof fn lemma_feature_word_written_out(b0: u8, b1: u8, b2: u8)
    ensures
        (((b0 as int + 0x100 * (b1 as int)
            + 0x1_0000 * (b2 as int)) as u64) & 0x3_fffe) == 2 * bit(lsb(b0, 1))
            + 4 * bit(lsb(b0, 2)) + 8 * bit(lsb(b0, 3)) + 16 * bit(lsb(b0, 4))
            + 32 * bit(lsb(b0, 5)) + 64 * bit(lsb(b0, 6)) + 128 * bit(lsb(b0, 7))
            + 256 * bit(lsb(b1, 0)) + 512 * bit(lsb(b1, 1)) + 1024 * bit(lsb(b1, 2))
            + 2048 * bit(lsb(b1, 3)) + 4096 * bit(lsb(b1, 4)) + 8192 * bit(lsb(b1, 5))
            + 16384 * bit(lsb(b1, 6)) + 32768 * bit(lsb(b1, 7)) + 65536 * bit(lsb(b2, 0))
            + 131072 * bit(lsb(b2, 1)),
{
    lemma_byte_bits(b0);
    lemma_byte_bits(b1);
    lemma_byte_bits(b2);
    let w = (b0 as int + 0x100 * (b1 as int) + 0x1_0000 * (b2 as int)) as u64;
    let e0 = bit(lsb(b0, 0));
    let low = 1 * bit(lsb(b0, 0)) + 2 * bit(lsb(b0, 1)) + 4 * bit(lsb(b0, 2))
        + 8 * bit(lsb(b0, 3)) + 16 * bit(lsb(b0, 4)) + 32 * bit(lsb(b0, 5)) + 64 * bit(lsb(b0, 6))
        + 128 * bit(lsb(b0, 7)) + 256 * bit(lsb(b1, 0)) + 512 * bit(lsb(b1, 1))
        + 1024 * bit(lsb(b1, 2)) + 2048 * bit(lsb(b1, 3)) + 4096 * bit(lsb(b1, 4))
        + 8192 * bit(lsb(b1, 5)) + 16384 * bit(lsb(b1, 6)) + 32768 * bit(lsb(b1, 7))
        + 65536 * bit(lsb(b2, 0)) + 131072 * bit(lsb(b2, 1));
    let high = 1 * bit(lsb(b2, 2)) + 2 * bit(lsb(b2, 3)) + 4 * bit(lsb(b2, 4))
        + 8 * bit(lsb(b2, 5)) + 16 * bit(lsb(b2, 6)) + 32 * bit(lsb(b2, 7));
    lemma_mask_feature_bits(w, low, high, e0);
}

/// What 18 bits make up, written out.
proof fn lemma_bits_value_18(e: Seq<bool>)
    requires
        e.len() == 18,
    ensures
        bits_value(e, 0) == 1 * bit(e[0]) + 2 * bit(e[1]) + 4 * bit(e[2]) + 8 * bit(e[3])
            + 16 * bit(e[4]) + 32 * bit(e[5]) + 64 * bit(e[6]) + 128 * bit(e[7]) + 256 * bit(e[8])
            + 512 * bit(e[9]) + 1024 * bit(e[10]) + 2048 * bit(e[11]) + 4096 * bit(e[12])
            + 8192 * bit(e[13]) + 16384 * bit(e[14]) + 32768 * bit(e[15]) + 65536 * bit(e[16])
            + 131072 * bit(e[17]),
        bits_set(e, 0) == bit(e[0]) + bit(e[1]) + bit(e[2]) + bit(e[3]) + bit(e[4]) + bit(e[5])
            + bit(e[6]) + bit(e[7]) + bit(e[8]) + bit(e[9]) + bit(e[10]) + bit(e[11]) + bit(e[12])
            + bit(e[13]) + bit(e[14]) + bit(e[15]) + bit(e[16]) + bit(e[17]),
{
    reveal_with_fuel(bits_value, 19);
    reveal_with_fuel(bits_set, 19);
}

/// The feature bits are the bits of the first three bytes of the flag word.
proof fn lemma_feature_bits(f: Seq<u8>)
    ensures
        feature_bits(f).len() == 18,
        !feature_bits(f)[0],
        feature_bits(f)[1] == lsb(f[0], 1),
        feature_bits(f)[2] == lsb(f[0], 2),
        feature_bits(f)[3] == lsb(f[0], 3),
        feature_bits(f)[4] == lsb(f[0], 4),
        feature_bits(f)[5] == lsb(f[0], 5),
        feature_bits(f)[6] == lsb(f[0], 6),
        feature_bits(f)[7] == lsb(f[0], 7),
        feature_bits(f)[8] == lsb(f[1], 0),
        feature_bits(f)[9] == lsb(f[1], 1),
        feature_bits(f)[10] == lsb(f[1], 2),
        feature_bits(f)[11] == lsb(f[1], 3),
        feature_bits(f)[12] == lsb(f[1], 4),
        feature_bits(f)[13] == lsb(f[1], 5),
        feature_bits(f)[14] == lsb(f[1], 6),
        feature_bits(f)[15] == lsb(f[1], 7),
        feature_bits(f)[16] == lsb(f[2], 0),
        feature_bits(f)[17] == lsb(f[2], 1),
{
}

/// The feature word is the number that the feature bits make up.
proof fn lemma_feature_word(f: Seq<u8>)
    ensures
        feature_word(f) == bits_value(feature_bits(f), 0),
{
    lemma_feature_word_written_out(f[0], f[1], f[2]);
    lemma_bits_value_18(feature_bits(f));
    lemma_feature_bits(f);
    assert(bit(false) == 0) by {
        reveal(bit);
    }
}

/// The number of the declared features, written out.
proof fn lemma_count_written_out(flags: HeaderFlags)
    ensures
        flags.count() == bit(flags.has(feature_at(0))) + bit(flags.has(feature_at(1)))
            + bit(flags.has(feature_at(2))) + bit(flags.has(feature_at(3)))
            + bit(flags.has(feature_at(4))) + bit(flags.has(feature_at(5)))
            + bit(flags.has(feature_at(6))) + bit(flags.has(feature_at(7)))
            + bit(flags.has(feature_at(8))) + bit(flags.has(feature_at(9)))
            + bit(flags.has(feature_at(10))) + bit(flags.has(feature_at(11)))
            + bit(flags.has(feature_at(12))) + bit(flags.has(feature_at(13)))
            + bit(flags.has(feature_at(14))) + bit(flags.has(feature_at(15)))
            + bit(flags.has(feature_at(16))),
{
    reveal(bit);
    reveal_with_fuel(HeaderFlags::count_before, 18);
}

/// The flags of the header are the feature bits of the flag word.
proof fn lemma_flags_are_feature_bits(f: Seq<u8>)
    ensures
        header_flags_of(f).has(feature_at(0)) == feature_bits(f)[1],
        header_flags_of(f).has(feature_at(1)) == feature_bits(f)[2],
        header_flags_of(f).has(feature_at(2)) == feature_bits(f)[3],
        header_flags_of(f).has(feature_at(3)) == feature_bits(f)[4],
        header_flags_of(f).has(feature_at(4)) == feature_bits(f)[5],
        header_flags_of(f).has(feature_at(5)) == feature_bits(f)[6],
        header_flags_of(f).has(feature_at(6)) == feature_bits(f)[7],
        header_flags_of(f).has(feature_at(7)) == feature_bits(f)[8],
        header_flags_of(f).has(feature_at(8)) == feature_bits(f)[9],
        header_flags_of(f).has(feature_at(9)) == feature_bits(f)[10],
        header_flags_of(f).has(feature_at(10)) == feature_bits(f)[11],
        header_flags_of(f).has(feature_at(11)) == feature_bits(f)[12],
        header_flags_of(f).has(feature_at(12)) == feature_bits(f)[13],
        header_flags_of(f).has(feature_at(13)) == feature_bits(f)[14],
        header_flags_of(f).has(feature_at(14)) == feature_bits(f)[15],
        header_flags_of(f).has(feature_at(15)) == feature_bits(f)[16],
        header_flags_of(f).has(feature_at(16)) == feature_bits(f)[17],
{
}

/// The header declares as many features as the flag word has feature bits set.
pub proof fn lemma_count_is_popcount(f: Seq<u8>)
    ensures
        header_flags_of(f).count() == popcount(feature_word(f)),
{
    reveal(bit);
    lemma_feature_word(f);
    lemma_count_written_out(header_flags_of(f));
    lemma_flags_are_feature_bits(f);
    lemma_bits_value_18(feature_bits(f));
    lemma_feature_bits(f);
    lemma_popcount_of_bits(feature_bits(f), 0);
}

/// A file has as many feature sections as the flag word of its header has
/// feature bits set.
pub proof fn lemma_section_count_is_popcount(s: Seq<u8>)
    ensures
        header_at(s).flags.count() == popcount(feature_word(s.subrange(72, 104))),
{
    lemma_count_is_popcount(s.subrange(72, 104));
}

} // verus!
