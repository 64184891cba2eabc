//! Readers for the primitive items of the file format: little-endian
//! integers, single bits, byte blocks and NUL-terminated strings.
//!
//! Each reader takes the bytes that are left and returns what it read together
//! with the bytes behind it, or says why it could not read. No reader changes
//! its input.
//!
//! The layout of an item is stated by its *extent*: the number of bytes that
//! it occupies at the start of a byte sequence, or the error that reading it
//! there gives.

use super::perf_format::PerfError;
use vstd::arithmetic::power2::{lemma2_to64, lemma_pow2_unfold, pow2};
use vstd::prelude::*;
use vstd::slice::slice_subrange;

verus! {

/// What a reader returns: the bytes behind the item, and the item.
pub type ParseResult<'a, T> = Result<(&'a [u8], T), PerfError>;

/// The extent of an item: how many bytes it occupies, or why it cannot be read.
pub type Extent = Result<int, PerfError>;

/// The error of an item that needs `expected` bytes where `available` remain.
pub open spec fn truncated(expected: int, available: int) -> PerfError {
    PerfError::Truncated { expected: expected as usize, available: available as usize }
}

/// The extent of an item of exactly `n` bytes.
pub open spec fn fixed_len(s: Seq<u8>, n: int) -> Extent {
    if s.len() >= n {
        Ok(n)
    } else {
        Err(truncated(n, s.len() as int))
    }
}

/// The extent of `n` items of `size` bytes each, read one after the other: the
/// first that does not fit fails, with what the ones before it left over.
pub open spec fn array_len(s: Seq<u8>, n: int, size: int) -> Extent {
    if n * size <= s.len() {
        Ok(n * size)
    } else {
        Err(truncated(size, (s.len() as int) % size))
    }
}

/// The extent of one item followed by another.
pub open spec fn then_len(first: Extent, s: Seq<u8>, second: spec_fn(Seq<u8>) -> Extent) -> Extent {
    match first {
        Err(e) => Err(e),
        Ok(n) => match second(s.skip(n)) {
            Err(e) => Err(e),
            Ok(m) => Ok(n + m),
        },
    }
}

/// The extent of `n` items that lie one behind the other, where `item` gives
/// the extent of one. `list_len(s, i, item)` is also where item `i` starts.
pub open spec fn list_len(s: Seq<u8>, n: nat, item: spec_fn(Seq<u8>) -> Extent) -> Extent
    decreases n,
{
    if n == 0 {
        Ok(0)
    } else {
        then_len(list_len(s, (n - 1) as nat, item), s, item)
    }
}

/// Where item `i` of a list starts, given that the items before it can be read.
pub open spec fn list_item_start(s: Seq<u8>, i: nat, item: spec_fn(Seq<u8>) -> Extent) -> int {
    match list_len(s, i, item) {
        Ok(at) => at,
        Err(_) => 0,
    }
}

/// Once an item of a list cannot be read, no longer list can.
pub proof fn lemma_list_len_error(
    s: Seq<u8>,
    i: nat,
    n: nat,
    item: spec_fn(Seq<u8>) -> Extent,
)
    requires
        i <= n,
        list_len(s, i, item) is Err,
    ensures
        list_len(s, n, item) == list_len(s, i, item),
    decreases n,
{
    if i < n {
        lemma_list_len_error(s, i, (n - 1) as nat, item);
    }
}

/// The unsigned integer in the byte at `at`.
pub open spec fn le_u8(s: Seq<u8>, at: int) -> u8 {
    s[at]
}

/// The unsigned integer that the two bytes from `at` on hold, lowest byte first.
pub open spec fn le_u16(s: Seq<u8>, at: int) -> u16 {
    (s[at] as int + 0x100 * (s[at + 1] as int)) as u16
}

/// The unsigned integer that the four bytes from `at` on hold, lowest byte first.
pub open spec fn le_u32(s: Seq<u8>, at: int) -> u32 {
    (s[at] as int + 0x100 * (s[at + 1] as int) + 0x1_0000 * (s[at + 2] as int) + 0x100_0000 * (s[at
        + 3] as int)) as u32
}

/// The unsigned integer that the eight bytes from `at` on hold, lowest byte first.
pub open spec fn le_u64(s: Seq<u8>, at: int) -> u64 {
    (le_u32(s, at) as int + 0x1_0000_0000 * (le_u32(s, at + 4) as int)) as u64
}

/// The signed integer that the four bytes from `at` on hold in two's
/// complement, lowest byte first.
pub open spec fn le_i32(s: Seq<u8>, at: int) -> i32 {
    let u = le_u32(s, at) as int;
    if u >= 0x8000_0000 {
        (u - 0x1_0000_0000) as i32
    } else {
        u as i32
    }
}

/// Bit `k` of a byte sequence, where bit 0 is the highest bit of the first byte.
pub open spec fn bit_at(s: Seq<u8>, k: int) -> bool {
    (s[k / 8] >> ((7 - k % 8) as u8)) & 1 == 1
}

/// The number of bytes before the first NUL byte, or the length where there is none.
pub open spec fn nul_index(s: Seq<u8>) -> int
    decreases s.len(),
{
    if s.len() == 0 || s[0] == 0 {
        0
    } else {
        1 + nul_index(s.skip(1))
    }
}

/// The bytes before the first NUL byte: all of them where there is none.
pub open spec fn until_nul(s: Seq<u8>) -> Seq<u8> {
    s.take(nul_index(s))
}

/// The extent of a NUL-terminated string, the NUL included.
pub open spec fn c_string_len(s: Seq<u8>) -> Extent {
    if nul_index(s) < s.len() {
        Ok(nul_index(s) + 1)
    } else {
        Err(truncated(1, 0))
    }
}

/// `nul_index` is the place of the first NUL byte.
pub proof fn lemma_nul_index(s: Seq<u8>)
    ensures
        0 <= nul_index(s) <= s.len(),
        forall|j: int| 0 <= j < nul_index(s) ==> s[j] != 0,
        nul_index(s) < s.len() ==> s[nul_index(s)] == 0,
    decreases s.len(),
{
    if s.len() == 0 || s[0] == 0 {
    } else {
        let t = s.skip(1);
        lemma_nul_index(t);
        assert forall|j: int| 0 <= j < nul_index(s) implies s[j] != 0 by {
            if j > 0 {
                assert(t[j - 1] == s[j]);
            }
        }
        if nul_index(s) < s.len() {
            assert(t[nul_index(t)] == s[nul_index(s)]);
        }
    }
}

/// A place before which no byte is NUL, and which is the end or holds a NUL, is `nul_index`.
pub proof fn lemma_nul_index_is(s: Seq<u8>, i: int)
    requires
        0 <= i <= s.len(),
        forall|j: int| 0 <= j < i ==> s[j] != 0,
        i < s.len() ==> s[i] == 0,
    ensures
        nul_index(s) == i,
{
    lemma_nul_index(s);
    let k = nul_index(s);
    if k < i {
        assert(s[k] != 0);
    } else if i < k {
        assert(s[i] == 0);
    }
}

/// The number of bits that are set in `x`.
pub open spec fn popcount(x: u64) -> nat
    decreases x,
{
    if x == 0 {
        0
    } else {
        (x % 2) as nat + popcount(x / 2)
    }
}

/// A number below `2^k` has at most `k` bits set.
pub proof fn lemma_popcount_bound(x: u64, k: nat)
    requires
        x < pow2(k),
    ensures
        popcount(x) <= k,
    decreases x,
{
    if x != 0 {
        if k == 0 {
            lemma2_to64();
        } else {
            lemma_pow2_unfold(k);
            lemma_popcount_bound(x / 2, (k - 1) as nat);
        }
    }
}

/// A 64-bit word has at most 64 bits set.
pub proof fn lemma_popcount_le_64(x: u64)
    ensures
        popcount(x) <= 64,
{
    lemma2_to64();
    lemma_popcount_bound(x, 64);
}

/// Counts the bits that are set in `x`.
pub fn count_ones(x: u64) -> (r: usize)
    ensures
        r == popcount(x),
        r <= 64,
{
    proof {
        lemma_popcount_le_64(x);
    }
    let mut rest: u64 = x;
    let mut n: usize = 0;
    while rest != 0
        invariant
            n + popcount(rest) == popcount(x),
            popcount(x) <= 64,
        decreases rest,
    {
        if rest % 2 == 1 {
            n = n + 1;
        }
        rest = rest / 2;
    }
    n
}

/// The byte at `at`.
pub fn u8_at(input: &[u8], at: usize) -> (v: u8)
    requires
        at < input@.len(),
    ensures
        v == le_u8(input@, at as int),
{
    input[at]
}

/// The little-endian `u16` in the two bytes from `at` on.
pub fn u16_at(input: &[u8], at: usize) -> (v: u16)
    requires
        at + 2 <= input@.len(),
    ensures
        v == le_u16(input@, at as int),
{
    (input[at] as u16) + 0x100 * (input[at + 1] as u16)
}

/// The little-endian `u32` in the four bytes from `at` on.
pub fn u32_at(input: &[u8], at: usize) -> (v: u32)
    requires
        at + 4 <= input@.len(),
    ensures
        v == le_u32(input@, at as int),
{
    (input[at] as u32) + 0x100 * (input[at + 1] as u32) + 0x1_0000 * (input[at + 2] as u32)
        + 0x100_0000 * (input[at + 3] as u32)
}

/// The little-endian `u64` in the eight bytes from `at` on.
pub fn u64_at(input: &[u8], at: usize) -> (v: u64)
    requires
        at + 8 <= input@.len(),
    ensures
        v == le_u64(input@, at as int),
{
    assert(at + 8 <= input.len());
    let low: u32 = u32_at(input, at);
    let high: u32 = u32_at(input, at + 4);
    (low as u64) + 0x1_0000_0000 * (high as u64)
}

/// The little-endian `i32` in the four bytes from `at` on.
pub fn i32_at(input: &[u8], at: usize) -> (v: i32)
    requires
        at + 4 <= input@.len(),
    ensures
        v == le_i32(input@, at as int),
{
    let u: u32 = u32_at(input, at);
    if u >= 0x8000_0000 {
        ((u - 0x8000_0000) as i32) - 0x7fff_ffff - 1
    } else {
        u as i32
    }
}

/// Bit `k` of the input, where bit 0 is the highest bit of the first byte.
pub fn read_bit(input: &[u8], k: usize) -> (b: bool)
    requires
        k / 8 < input@.len(),
    ensures
        b == bit_at(input@, k as int),
{
    let shift: u8 = (7 - k % 8) as u8;
    (input[k / 8] >> shift) & 1 == 1
}

/// The bytes of the input from `n` on.
pub fn skip_bytes<'a>(input: &'a [u8], n: usize) -> (rest: &'a [u8])
    requires
        n <= input@.len(),
    ensures
        rest@ == input@.skip(n as int),
{
    slice_subrange(input, n, input.len())
}

/// Fails unless `n` bytes are left.
pub fn need(input: &[u8], n: usize) -> (r: Result<(), PerfError>)
    ensures
        match r {
            Ok(_) => input@.len() >= n,
            Err(e) => fixed_len(input@, n as int) == Err::<int, PerfError>(e),
        },
{
    let len = input.len();
    if len < n {
        Err(PerfError::Truncated { expected: n, available: len })
    } else {
        Ok(())
    }
}

/// Reads one byte.
pub fn read_le_u8<'a>(input: &'a [u8]) -> (r: ParseResult<'a, u8>)
    ensures
        match r {
            Ok((rest, v)) => fixed_len(input@, 1) is Ok && rest@ == input@.skip(1) && v == le_u8(
                input@,
                0,
            ),
            Err(e) => fixed_len(input@, 1) == Err::<int, PerfError>(e),
        },
{
    let len = input.len();
    if len < 1 {
        return Err(PerfError::Truncated { expected: 1, available: len });
    }
    Ok((skip_bytes(input, 1), u8_at(input, 0)))
}

/// Reads a little-endian `u16`.
pub fn read_le_u16<'a>(input: &'a [u8]) -> (r: ParseResult<'a, u16>)
    ensures
        match r {
            Ok((rest, v)) => fixed_len(input@, 2) is Ok && rest@ == input@.skip(2) && v == le_u16(
                input@,
                0,
            ),
            Err(e) => fixed_len(input@, 2) == Err::<int, PerfError>(e),
        },
{
    let len = input.len();
    if len < 2 {
        return Err(PerfError::Truncated { expected: 2, available: len });
    }
    Ok((skip_bytes(input, 2), u16_at(input, 0)))
}

/// Reads a little-endian `u32`.
pub fn read_le_u32<'a>(input: &'a [u8]) -> (r: ParseResult<'a, u32>)
    ensures
        match r {
            Ok((rest, v)) => fixed_len(input@, 4) is Ok && rest@ == input@.skip(4) && v == le_u32(
                input@,
                0,
            ),
            Err(e) => fixed_len(input@, 4) == Err::<int, PerfError>(e),
        },
{
    let len = input.len();
    if len < 4 {
        return Err(PerfError::Truncated { expected: 4, available: len });
    }
    Ok((skip_bytes(input, 4), u32_at(input, 0)))
}

/// Reads a little-endian `u64`.
pub fn read_le_u64<'a>(input: &'a [u8]) -> (r: ParseResult<'a, u64>)
    ensures
        match r {
            Ok((rest, v)) => fixed_len(input@, 8) is Ok && rest@ == input@.skip(8) && v == le_u64(
                input@,
                0,
            ),
            Err(e) => fixed_len(input@, 8) == Err::<int, PerfError>(e),
        },
{
    let len = input.len();
    if len < 8 {
        return Err(PerfError::Truncated { expected: 8, available: len });
    }
    Ok((skip_bytes(input, 8), u64_at(input, 0)))
}

/// Reads a little-endian `i32`.
pub fn read_le_i32<'a>(input: &'a [u8]) -> (r: ParseResult<'a, i32>)
    ensures
        match r {
            Ok((rest, v)) => fixed_len(input@, 4) is Ok && rest@ == input@.skip(4) && v == le_i32(
                input@,
                0,
            ),
            Err(e) => fixed_len(input@, 4) == Err::<int, PerfError>(e),
        },
{
    let len = input.len();
    if len < 4 {
        return Err(PerfError::Truncated { expected: 4, available: len });
    }
    Ok((skip_bytes(input, 4), i32_at(input, 0)))
}

/// Reads a block of `n` bytes.
pub fn read_bytes<'a>(input: &'a [u8], n: usize) -> (r: ParseResult<'a, &'a [u8]>)
    ensures
        match r {
            Ok((rest, block)) => fixed_len(input@, n as int) is Ok && rest@ == input@.skip(
                n as int,
            ) && block@ == input@.take(n as int),
            Err(e) => fixed_len(input@, n as int) == Err::<int, PerfError>(e),
        },
{
    let len = input.len();
    if len < n {
        return Err(PerfError::Truncated { expected: n, available: len });
    }
    Ok((skip_bytes(input, n), slice_subrange(input, 0, n)))
}

/// The number of bytes before the first NUL byte of the input.
pub fn find_nul(input: &[u8]) -> (i: usize)
    ensures
        i == nul_index(input@),
        i <= input@.len(),
{
    let len = input.len();
    let mut i: usize = 0;
    while i < len && input[i] != 0
        invariant
            len == input@.len(),
            i <= len,
            forall|j: int| 0 <= j < i ==> input@[j] != 0,
        decreases len - i,
    {
        i = i + 1;
    }
    proof {
        lemma_nul_index_is(input@, i as int);
    }
    i
}

/// Reads the bytes of a NUL-terminated string. The NUL is consumed and is not
/// part of what is returned. Without a NUL in the input there is no string.
pub fn parse_c_string<'a>(input: &'a [u8]) -> (r: ParseResult<'a, &'a [u8]>)
    ensures
        match r {
            Ok((rest, bytes)) => c_string_len(input@) is Ok && 0 <= nul_index(input@)
                < input@.len() && rest@ == input@.skip(nul_index(input@) + 1) && bytes@
                == until_nul(input@),
            Err(e) => c_string_len(input@) == Err::<int, PerfError>(e),
        },
{
    let i = find_nul(input);
    if i >= input.len() {
        return Err(PerfError::Truncated { expected: 1, available: 0 });
    }
    Ok((skip_bytes(input, i + 1), slice_subrange(input, 0, i)))
}

/// The text that `String::from_utf8_lossy` makes of a byte sequence. It is
/// named here, not defined: see `text_from_bytes`.
pub uninterp spec fn lossy_text(bytes: Seq<u8>) -> Seq<char>;

/// Turns bytes into text with `String::from_utf8_lossy`.
///
/// This is taken for granted of the standard library, not proved: the text is
/// a function of the bytes alone, and bytes that are valid UTF-8 give the
/// characters that they encode. Of other bytes nothing more is stated (the
/// standard library puts U+FFFD in place of what it cannot decode).
#[verifier::external_body]
pub(crate) fn text_from_bytes(bytes: &[u8]) -> (text: String)
    ensures
        text@ == lossy_text(bytes@),
        vstd::utf8::valid_utf8(bytes@) ==> text@ == vstd::utf8::decode_utf8(bytes@),
{
    String::from_utf8_lossy(bytes).into_owned()
}

/// Reads a NUL-terminated string and decodes it as text.
pub fn read_cstring<'a>(input: &'a [u8]) -> (r: ParseResult<'a, String>)
    ensures
        match r {
            Ok((rest, text)) => c_string_len(input@) is Ok && 0 <= nul_index(input@)
                < input@.len() && rest@ == input@.skip(nul_index(input@) + 1) && text@
                == lossy_text(until_nul(input@)),
            Err(e) => c_string_len(input@) == Err::<int, PerfError>(e),
        },
{
    let (rest, bytes) = parse_c_string(input)?;
    Ok((rest, text_from_bytes(bytes)))
}

} // verus!
