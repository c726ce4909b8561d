use vstd::arithmetic::power2::{lemma_pow2_unfold, pow2};
use vstd::bits::lemma_u64_pow2_no_overflow;
use vstd::prelude::*;

use crate::text::{all_digits, chars_of, parse_number, parse_unsigned};

verus! {

/// A display level: the exact ratio `num / den`, with `den > 0`.
///
/// Binary levels are `0/1` and `1/1`; an unknown value is `1/2` and a high-impedance value
/// `1/4`; a vector value is its number over the largest number its width can hold.
#[derive(Clone, Copy, Debug, PartialEq, Eq, Structural)]
pub struct Level {
    pub num: u64,
    pub den: u64,
}

/// The level held before a signal has any recorded value.
pub open spec fn ground() -> Level {
    Level { num: 0, den: 1 }
}

/// The number of bits that scale a vector value: the width, at most 32.
pub open spec fn scale_bits(width: usize) -> nat {
    if width < 32 {
        width as nat
    } else {
        32
    }
}

/// The largest number that `scale_bits(width)` bits can hold.
pub open spec fn full_scale(width: usize) -> nat {
    (pow2(scale_bits(width)) - 1) as nat
}

/// The number a vector token denotes: read in base 2 when it holds only `0` and `1`, else in
/// base 10; 0 when it does not read as a `u64`.
pub open spec fn token_number(v: Seq<char>) -> nat {
    let p = if all_digits(v, 2) {
        parse_unsigned(v, 2, u64::MAX as nat)
    } else {
        parse_unsigned(v, 10, u64::MAX as nat)
    };
    match p {
        Some(n) => n,
        None => 0,
    }
}

/// The level of the value token `v` of a signal of `width` bits.
pub open spec fn level_of(v: Seq<char>, width: usize) -> Level {
    if v == seq!['0'] {
        Level { num: 0, den: 1 }
    } else if v == seq!['1'] {
        Level { num: 1, den: 1 }
    } else if v == seq!['x'] || v == seq!['X'] {
        Level { num: 1, den: 2 }
    } else if v == seq!['z'] || v == seq!['Z'] {
        Level { num: 1, den: 4 }
    } else if width > 1 {
        Level { num: token_number(v) as u64, den: full_scale(width) as u64 }
    } else {
        Level { num: token_number(v) as u64, den: 1 }
    }
}

fn is_single(v: &Vec<char>, c: char) -> (r: bool)
    ensures
        r == (v@ == seq![c]),
{
    if v.len() == 1 && v[0] == c {
        assert(v@ =~= seq![c]);
        true
    } else {
        proof {
            if v@ == seq![c] {
                assert(v@[0] == c);
            }
        }
        false
    }
}

fn binary_only(v: &Vec<char>) -> (r: bool)
    ensures
        r == all_digits(v@, 2),
{
    let mut i: usize = 0;
    while i < v.len()
        invariant
            i <= v.len(),
            forall|j: int| 0 <= j < i ==> crate::text::is_digit(#[trigger] v@[j], 2),
        decreases v.len() - i,
    {
        let u = v[i] as u32;
        if u != 48 && u != 49 {
            return false;
        }
        i = i + 1;
    }
    true
}

/// `2^scale_bits(width) - 1`.
fn scale_of(width: usize) -> (r: u64)
    ensures
        r as nat == full_scale(width),
{
    let bits: usize = if width < 32 {
        width
    } else {
        32
    };
    let mut p: u64 = 1;
    let mut k: usize = 0;
    proof {
        vstd::arithmetic::power2::lemma2_to64();
    }
    while k < bits
        invariant
            k <= bits <= 32,
            p as nat == pow2(k as nat),
        decreases bits - k,
    {
        proof {
            lemma_pow2_unfold((k + 1) as nat);
            lemma_u64_pow2_no_overflow((k + 1) as nat);
        }
        p = p * 2;
        k = k + 1;
    }
    proof {
        vstd::arithmetic::power2::lemma_pow2_pos(k as nat);
    }
    p - 1
}

/// The level of the value token `v` of a signal of `width` bits.
pub fn level_of_chars(v: &Vec<char>, width: usize) -> (r: Level)
    ensures
        r == level_of(v@, width),
{
    if is_single(v, '0') {
        Level { num: 0, den: 1 }
    } else if is_single(v, '1') {
        Level { num: 1, den: 1 }
    } else if is_single(v, 'x') || is_single(v, 'X') {
        Level { num: 1, den: 2 }
    } else if is_single(v, 'z') || is_single(v, 'Z') {
        Level { num: 1, den: 4 }
    } else {
        let parsed = if binary_only(v) {
            parse_number(v, 2, u64::MAX)
        } else {
            parse_number(v, 10, u64::MAX)
        };
        let n: u64 = match parsed {
            Some(n) => n,
            None => 0,
        };
        if width > 1 {
            Level { num: n, den: scale_of(width) }
        } else {
            Level { num: n, den: 1 }
        }
    }
}

/// The display level of the raw value token `raw` of a signal of `width` bits.
pub fn normalize(raw: &str, width: usize) -> (r: Level)
    ensures
        r == level_of(raw@, width),
        r.den > 0,
{
    let v = chars_of(raw);
    let r = level_of_chars(&v, width);
    proof {
        lemma_level_den_positive(raw@, width);
    }
    r
}

/// Every level has a positive denominator.
pub proof fn lemma_level_den_positive(v: Seq<char>, width: usize)
    ensures
        level_of(v, width).den > 0,
{
    if width > 1 {
        lemma_pow2_unfold(scale_bits(width));
        vstd::arithmetic::power2::lemma_pow2_pos((scale_bits(width) - 1) as nat);
        lemma_u64_pow2_no_overflow(scale_bits(width));
    }
}

} // verus!
