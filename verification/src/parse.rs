//! Reading a number, or a ratio of two numbers, from text.
use crate::number::Num;
use crate::prefix::{find_prefix, prefix_of, MetricPrefix};
use crate::text::{chars_of, text_of};
use vstd::prelude::*;

verus! {

/// The character as it is read: a comma counts as a decimal point.
pub open spec fn normal(c: char) -> char {
    if c == ',' {
        '.'
    } else {
        c
    }
}

/// The text with each comma replaced by a decimal point.
pub open spec fn normalized(text: Seq<char>) -> Seq<char> {
    Seq::new(text.len(), |i: int| normal(text[i]))
}

/// The metric prefix that the text ends with: the one that its last
/// character stands for, if it has a last character and that stands for one.
pub open spec fn trailing_prefix(text: Seq<char>) -> Option<MetricPrefix> {
    if text.len() > 0 {
        prefix_of(normal(text.last()))
    } else {
        None
    }
}

/// The part of the text that is read as a number: the normalized text,
/// without its last character where that is a metric prefix.
pub open spec fn mantissa(text: Seq<char>) -> Seq<char> {
    if trailing_prefix(text) is Some {
        normalized(text).drop_last()
    } else {
        normalized(text)
    }
}

/// The power of ten that the number is scaled by: that of the trailing
/// prefix, or zero (a factor of one) where there is none.
pub open spec fn exponent(text: Seq<char>) -> i32 {
    match trailing_prefix(text) {
        Some(p) => p.exponent,
        None => 0i32,
    }
}

/// The number that a reading gives: entered with the value read, or absent
/// where nothing could be read.
pub open spec fn entered(reading: Option<u64>) -> Num {
    match reading {
        Some(v) => Num::In(v),
        None => Num::Absent,
    }
}

/// `out` is what `text` parses to: `value` is asked once, for the mantissa
/// and the exponent of the text, and what it reads is an entered number.
pub open spec fn parsed<F: Fn(&str, i32) -> Option<u64>>(
    text: Seq<char>,
    value: F,
    out: Num,
) -> bool {
    exists|m: &str, reading: Option<u64>|
        m@ == mantissa(text) && call_ensures(value, (m, exponent(text)), reading) && out
            == entered(reading)
}

/// The place of the first colon at or after `from`, or the length of the text
/// where there is none.
pub open spec fn colon_from(text: Seq<char>, from: int) -> int
    decreases text.len() - from,
{
    if from < 0 || from >= text.len() {
        text.len() as int
    } else if text[from] == ':' {
        from
    } else {
        colon_from(text, from + 1)
    }
}

/// The two sides of a ratio, with commas replaced by decimal points: what
/// stands before and after the colon of a text that holds exactly one colon.
/// Any other text splits into one part or into more than two, and has no
/// sides.
pub open spec fn ratio_sides(text: Seq<char>) -> Option<(Seq<char>, Seq<char>)> {
    let t = normalized(text);
    let at = colon_from(t, 0);
    if at < t.len() && colon_from(t, at + 1) == t.len() {
        Some((t.subrange(0, at), t.subrange(at + 1, t.len() as int)))
    } else {
        None
    }
}

/// `out` is what `text` parses to as a ratio: absent unless the text has two
/// sides; else the second side's number over the first side's, each side
/// parsed as a number and the two put together by the rule for two numbers
/// under an operator, with `quotient` as the operator.
pub open spec fn ratio_parsed<F: Fn(&str, i32) -> Option<u64>, Q: Fn(u64, u64) -> u64>(
    text: Seq<char>,
    value: F,
    quotient: Q,
    out: Num,
) -> bool {
    match ratio_sides(text) {
        Some((first, second)) => exists|a: Num, b: Num|
            parsed(first, value, a) && parsed(second, value, b) && b.combined(a, quotient, out),
        None => out is Absent,
    }
}

/// The characters of `text`, each comma replaced by a decimal point.
fn normalize(text: &str) -> (chars: Vec<char>)
    ensures
        chars@ == normalized(text@),
{
    let raw = chars_of(text);
    let mut chars: Vec<char> = Vec::new();
    let mut i: usize = 0;
    while i < raw.len()
        invariant
            i <= raw.len(),
            raw@ == text@,
            chars@ == normalized(text@).take(i as int),
        decreases raw.len() - i,
    {
        let c = raw[i];
        chars.push(
            if c == ',' {
                '.'
            } else {
                c
            },
        );
        i += 1;
    }
    chars
}

/// Splits a text into the part to be read as a number and the power of ten
/// that its metric prefix, if it ends with one, scales it by.
pub fn split_prefix(text: &str) -> (r: (String, i32))
    ensures
        r.0@ == mantissa(text@),
        r.1 == exponent(text@),
{
    let chars = normalize(text);
    let n = chars.len();
    if n == 0 {
        return (String::new(), 0);
    }
    match find_prefix(chars[n - 1]) {
        Some(p) => (text_of(&chars, 0, n - 1), p.exponent),
        None => (text_of(&chars, 0, n), 0),
    }
}

/// The place of the first colon of `chars` at or after `from`, or the length
/// of `chars`.
fn find_colon(chars: &Vec<char>, from: usize) -> (at: usize)
    requires
        from <= chars.len(),
    ensures
        at == colon_from(chars@, from as int),
        from <= at <= chars.len(),
{
    let mut i: usize = from;
    while i < chars.len()
        invariant
            from <= i <= chars.len(),
            colon_from(chars@, from as int) == colon_from(chars@, i as int),
        decreases chars.len() - i,
    {
        if chars[i] == ':' {
            return i;
        }
        i += 1;
    }
    i
}

/// Splits a text at its colon into the two sides of a ratio, or returns
/// nothing where the text does not hold exactly one colon.
pub fn split_ratio(text: &str) -> (r: Option<(String, String)>)
    ensures
        match r {
            Some((first, second)) => ratio_sides(text@) == Some((first@, second@)),
            None => ratio_sides(text@) is None,
        },
{
    let chars = normalize(text);
    let n = chars.len();
    let at = find_colon(&chars, 0);
    if at >= n {
        return None;
    }
    let next = find_colon(&chars, at + 1);
    if next < n {
        return None;
    }
    Some((text_of(&chars, 0, at), text_of(&chars, at + 1, n)))
}

/// Parses with a borrowed reader, so that a ratio can use it for both sides.
fn parse_with<F: Fn(&str, i32) -> Option<u64>>(text: &str, value: &F) -> (r: Num)
    requires
        forall|m: &str, e: i32| call_requires(*value, (m, e)),
    ensures
        parsed(text@, *value, r),
{
    let (m, e) = split_prefix(text);
    match value(m.as_str(), e) {
        Some(v) => Num::In(v),
        None => Num::Absent,
    }
}

impl Num {
    /// Parses a number: a comma counts as a decimal point, and a trailing
    /// metric prefix scales the number by its power of ten.
    ///
    /// The caller supplies the reading of the number itself: `value(m, e)`
    /// is the encoding of the number that the text `m` denotes, times ten to
    /// the power `e`, or nothing where `m` denotes no number.  A text that
    /// cannot be read gives an absent number, never an error.
    pub fn parse<F: Fn(&str, i32) -> Option<u64>>(text: &str, value: F) -> (r: Num)
        requires
            forall|m: &str, e: i32| call_requires(value, (m, e)),
        ensures
            parsed(text@, value, r),
    {
        parse_with(text, &value)
    }

    /// Parses a ratio `a:b` to the number `b / a`.
    ///
    /// A text without a colon, or with more than one, gives an absent number.
    /// Else each side is parsed as `parse` does, with `value`, and the second
    /// is divided by the first as two numbers are: `quotient(x, y)` is the
    /// encoding of `x` over `y`, and the result is absent if either side is.
    pub fn parse_ratio<F: Fn(&str, i32) -> Option<u64>, Q: Fn(u64, u64) -> u64>(
        text: &str,
        value: F,
        quotient: Q,
    ) -> (r: Num)
        requires
            forall|m: &str, e: i32| call_requires(value, (m, e)),
            forall|x: u64, y: u64| call_requires(quotient, (x, y)),
        ensures
            ratio_parsed(text@, value, quotient, r),
    {
        match split_ratio(text) {
            Some((first, second)) => {
                let a = parse_with(first.as_str(), &value);
                let b = parse_with(second.as_str(), &value);
                b.combine(a, quotient)
            },
            None => Num::Absent,
        }
    }
}

} // verus!
