//! Showing a number as a ratio of two whole numbers.
use crate::encoding::settled;
use crate::number::Num;
use vstd::prelude::*;

verus! {

/// The most multiples of a value that the search for a ratio tries.
pub const MAX_RATIO_TERMS: i64 = 1_000_000;

/// The character for the digit `d`.
pub open spec fn digit_char(d: int) -> char {
    ((48 + d) as u8) as char
}

/// The decimal digits of `n`, most significant first, without leading zeros.
pub open spec fn digits(n: nat) -> Seq<char>
    decreases n,
{
    if n < 10 {
        seq![digit_char(n as int)]
    } else {
        digits(n / 10).push(digit_char((n % 10) as int))
    }
}

/// A whole number in decimal, with a minus sign before a negative one.
pub open spec fn decimal(n: int) -> Seq<char> {
    if n < 0 {
        seq!['-'] + digits((-n) as nat)
    } else {
        digits(n as nat)
    }
}

/// The ratio `a:b` as text: the two numbers in decimal with a colon between
/// them and nothing else.
pub open spec fn ratio_text(a: int, b: int) -> Seq<char> {
    decimal(a) + seq![':'] + decimal(b)
}

/// `sums` and `fractions` are the course of a search for the value `v`: the
/// first sum is `v` itself and each further one is the sum before it plus `v`,
/// as `sum` computes it; each fraction is the fractional part of the sum at
/// its place, as `fraction` computes it; and no sum but the last is settled.
/// There are at most `MAX_RATIO_TERMS` of them.
pub open spec fn searched<F: Fn(u64) -> u64, A: Fn(u64, u64) -> u64>(
    v: u64,
    fraction: F,
    sum: A,
    sums: Seq<u64>,
    fractions: Seq<u64>,
) -> bool {
    &&& 1 <= sums.len() <= MAX_RATIO_TERMS
    &&& fractions.len() == sums.len()
    &&& sums[0] == v
    &&& forall|i: int| 0 < i < sums.len() ==> call_ensures(sum, (sums[i - 1], v), #[trigger] sums[i])
    &&& forall|i: int|
        0 <= i < sums.len() ==> call_ensures(fraction, (sums[i],), #[trigger] fractions[i])
    &&& forall|i: int| 0 <= i < sums.len() - 1 ==> !settled(#[trigger] fractions[i])
}

/// `out` shows the value `v` as a ratio.
///
/// The search adds `v` to itself until the sum is settled, that is, until its
/// fractional part is not strictly between 0.0001 and 0.9999.  If it settles
/// with the `a`-th sum, `out` is the text `a:b`, where `b` is that sum rounded
/// to a whole number by `nearest`.  If the sum after `MAX_RATIO_TERMS` terms
/// is still not settled, `out` is nothing.
pub open spec fn ratio_shown<F: Fn(u64) -> u64, A: Fn(u64, u64) -> u64, N: Fn(u64) -> i64>(
    v: u64,
    fraction: F,
    sum: A,
    nearest: N,
    out: Option<String>,
) -> bool {
    exists|sums: Seq<u64>, fractions: Seq<u64>|
        {
            &&& searched(v, fraction, sum, sums, fractions)
            &&& match out {
                Some(text) => settled(fractions.last()) && exists|b: i64|
                    call_ensures(nearest, (sums.last(),), b) && text@ == ratio_text(
                        sums.len() as int,
                        b as int,
                    ),
                None => sums.len() == MAX_RATIO_TERMS && !settled(fractions.last()),
            }
        }
}

/// The character for a digit.
fn digit(d: u64) -> (c: char)
    requires
        d < 10,
    ensures
        c == digit_char(d as int),
{
    (48u8 + (d as u8)) as char
}

/// Writes the decimal digits of `n` at the end of `text`.
fn push_digits(text: &mut String, n: u64)
    ensures
        final(text)@ == old(text)@ + digits(n as nat),
    decreases n,
{
    if n >= 10 {
        push_digits(text, n / 10);
    }
    text.push(digit(n % 10));
}

/// Writes `n` in decimal at the end of `text`.
fn push_decimal(text: &mut String, n: i64)
    ensures
        final(text)@ == old(text)@ + decimal(n as int),
{
    if n < 0 {
        text.push('-');
        let m: u64 = ((-(n + 1)) as u64) + 1;
        push_digits(text, m);
    } else {
        push_digits(text, n as u64);
    }
}

/// The text of the ratio `a:b`.
pub fn format_ratio(a: i64, b: i64) -> (text: String)
    ensures
        text@ == ratio_text(a as int, b as int),
{
    let mut text = String::new();
    push_decimal(&mut text, a);
    text.push(':');
    push_decimal(&mut text, b);
    text
}

impl Num {
    /// The number as a ratio `a:b` of whole numbers, read as `b / a`: `a` is
    /// the least count of terms for which the value, added up that many
    /// times, has a fractional part that is not strictly between 0.0001 and
    /// 0.9999, and `b` is that sum rounded to a whole number.  A sum below
    /// zero has a fractional part below zero, so a negative value is settled
    /// at once, with `a` equal to one.  An absent number gives the empty
    /// text.  Where no count up to `MAX_RATIO_TERMS` will do, there is no
    /// ratio to show and the result is nothing.
    ///
    /// The caller supplies the three floating-point operations, each on
    /// encodings: `fraction(x)` is the fractional part of `x`, with the sign
    /// of `x`; `sum(x, y)` is `x` plus `y`; `nearest(x)` is `x` rounded to the
    /// nearest whole number.  `ratio_shown` says which is asked for what.
    pub fn display_ratio<F: Fn(u64) -> u64, A: Fn(u64, u64) -> u64, N: Fn(u64) -> i64>(
        &self,
        fraction: F,
        sum: A,
        nearest: N,
    ) -> (r: Option<String>)
        requires
            forall|x: u64| call_requires(fraction, (x,)),
            forall|x: u64, y: u64| call_requires(sum, (x, y)),
            forall|x: u64| call_requires(nearest, (x,)),
        ensures
            match self.payload() {
                Some(v) => ratio_shown(v, fraction, sum, nearest, r),
                None => r matches Some(text) && text@ == Seq::<char>::empty(),
            },
    {
        let v = match self.as_option() {
            Some(v) => v,
            None => {
                return Some(String::new());
            },
        };
        let mut terms: i64 = 1;
        let mut total = v;
        let mut part = fraction(total);
        let ghost mut sums: Seq<u64> = seq![v];
        let ghost mut fractions: Seq<u64> = seq![part];
        while !settled(part)
            invariant
                self.payload() == Some(v),
                terms == sums.len(),
                total == sums.last(),
                part == fractions.last(),
                searched(v, fraction, sum, sums, fractions),
                forall|x: u64| call_requires(fraction, (x,)),
                forall|x: u64, y: u64| call_requires(sum, (x, y)),
            decreases MAX_RATIO_TERMS - terms,
        {
            if terms >= MAX_RATIO_TERMS {
                return None;
            }
            terms += 1;
            total = sum(total, v);
            part = fraction(total);
            proof {
                sums = sums.push(total);
                fractions = fractions.push(part);
            }
        }
        Some(format_ratio(terms, nearest(total)))
    }
}

} // verus!
