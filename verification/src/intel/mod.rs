//! How the tables of Intel performance events name a processor, and how the
//! description of an event is laid out in lines.
//!
//! A table of events is looked up by a key made of what `cpuid` reports: the
//! vendor, the family in decimal, and the extended model and the model, each
//! in upper-case hexadecimal, as in `GenuineIntel-6-2C`.

use vstd::prelude::*;

verus! {

/// What is taken for granted of `String::push`: it appends the character to
/// the end of the string, and leaves the characters before it as they are.
pub assume_specification[ String::push ](s: &mut String, ch: char)
    ensures
        final(s)@ == old(s)@.push(ch),
;

/// The character for a digit below 16: `0` to `9`, then `A` to `F`.
pub open spec fn digit_char(d: int) -> char {
    if d < 10 {
        ((0x30 + d) as u8) as char
    } else {
        ((0x37 + d) as u8) as char
    }
}

/// The digits of `n` without leading zeros, and one zero for zero: in
/// hexadecimal where `hex` holds, else in decimal.
pub open spec fn digits(n: nat, hex: bool) -> Seq<char>
    decreases n,
{
    if hex {
        if n < 16 {
            seq![digit_char(n as int)]
        } else {
            digits(n / 16, hex).push(digit_char((n % 16) as int))
        }
    } else {
        if n < 10 {
            seq![digit_char(n as int)]
        } else {
            digits(n / 10, hex).push(digit_char((n % 10) as int))
        }
    }
}

/// The key of a processor of the given vendor, family and model.
pub open spec fn model_key_of(vendor: Seq<char>, family: u8, extended_model: u8, model: u8) -> Seq<
    char,
> {
    vendor.push('-') + digits(family as nat, false).push('-') + digits(extended_model as nat, true)
        + digits(model as nat, true)
}

/// The character for a digit below 16.
fn digit(d: u8) -> (c: char)
    requires
        d < 16,
    ensures
        c == digit_char(d as int),
{
    if d < 10 {
        (0x30 + d) as char
    } else {
        (0x37 + d) as char
    }
}

/// Appends the digits of `n` to `out`: in hexadecimal where `hex` holds, else in decimal.
fn push_digits(out: &mut String, n: u8, hex: bool)
    ensures
        final(out)@ == old(out)@ + digits(n as nat, hex),
    decreases n,
{
    let base: u8 = if hex {
        16
    } else {
        10
    };
    if n < base {
        out.push(digit(n));
        assert(old(out)@.push(digit_char(n as int)) =~= old(out)@ + digits(n as nat, hex));
    } else {
        push_digits(out, n / base, hex);
        out.push(digit(n % base));
        assert((old(out)@ + digits((n / base) as nat, hex)).push(digit_char((n % base) as int))
            =~= old(out)@ + digits(n as nat, hex));
    }
}

/// The key under which the tables of events know the processor that
/// `cpuid` describes.
pub fn model_key(vendor: &str, family: u8, extended_model: u8, model: u8) -> (key: String)
    ensures
        key@ == model_key_of(vendor@, family, extended_model, model),
{
    let mut key = vendor.to_owned();
    key.push('-');
    push_digits(&mut key, family, false);
    key.push('-');
    push_digits(&mut key, extended_model, true);
    push_digits(&mut key, model, true);
    assert(key@ =~= model_key_of(vendor@, family, extended_model, model));
    key
}

/// How many characters of words a line of a description holds at most,
/// unless a single word is longer.
pub const LINE_WIDTH: usize = 60;

/// How many characters of words stand in the current line when the first `i`
/// words of the lengths `lens` are laid out: a word that would bring the line
/// beyond `LINE_WIDTH` starts a new line.
pub open spec fn line_fill(lens: Seq<usize>, i: nat) -> int
    decreases i, 0nat,
{
    if i == 0 {
        0
    } else if breaks_before(lens, (i - 1) as nat) {
        lens[i - 1] as int
    } else {
        line_fill(lens, (i - 1) as nat) + lens[i - 1]
    }
}

/// Whether a new line starts before word `i`.
pub open spec fn breaks_before(lens: Seq<usize>, i: nat) -> bool
    decreases i, 1nat,
{
    lens[i as int] + line_fill(lens, i) > 60
}

/// Says before which words of the lengths `lens` a new line starts.
pub fn line_breaks(lens: &Vec<usize>) -> (breaks: Vec<bool>)
    ensures
        breaks@.len() == lens@.len(),
        forall|i: int| 0 <= i < lens@.len() ==> breaks@[i] == breaks_before(lens@, i as nat),
{
    let mut breaks: Vec<bool> = Vec::with_capacity(lens.len());
    let mut chars: usize = 0;
    let mut i: usize = 0;
    while i < lens.len()
        invariant
            i <= lens@.len(),
            breaks@.len() == i,
            chars == line_fill(lens@, i as nat),
            forall|j: int| 0 <= j < i ==> breaks@[j] == breaks_before(lens@, j as nat),
        decreases lens@.len() - i,
    {
        let len = lens[i];
        let new_line = len > LINE_WIDTH || chars > LINE_WIDTH - len;
        proof {
            assert(new_line == breaks_before(lens@, i as nat));
            assert(line_fill(lens@, (i + 1) as nat) == if new_line {
                len as int
            } else {
                chars + len
            });
        }
        if new_line {
            chars = 0;
        }
        breaks.push(new_line);
        chars = chars + len;
        i = i + 1;
    }
    breaks
}

} // verus!
