//! What holds of the library as a whole.
use crate::display::{fraction_digits, integer_figures, with_symbol, zero_fraction_digits};
use crate::encoding::{in_prefix_range, is_zero, magnitude, settled};
use crate::number::Num;
use crate::parse::{colon_from, exponent, mantissa, normal, normalized, ratio_sides};
use crate::prefix::{metric_prefixes, prefix_from, prefix_of, MetricPrefix, PREFIX_COUNT};
use crate::ratio::{decimal, digit_char, digits, ratio_text};
use vstd::prelude::*;

verus! {

/// A number made from a value is of the kind it was made as and of no other,
/// and holds that value.  The absent number is of neither kind and holds no
/// value.
pub proof fn kind_is_as_made(v: u64)
    ensures
        Num::In(v).is_input() && !Num::In(v).is_output() && !Num::In(v).is_none(),
        Num::Out(v).is_output() && !Num::Out(v).is_input() && !Num::Out(v).is_none(),
        Num::In(v).is_num() && Num::In(v).as_option() == Some(v),
        Num::Out(v).is_num() && Num::Out(v).as_option() == Some(v),
        Num::Absent.is_none() && !Num::Absent.is_input() && !Num::Absent.is_output(),
        !Num::Absent.is_num() && Num::Absent.as_option() is None,
{
}

/// Every number is of exactly one of the three kinds, and it is a number
/// exactly when it is not absent, which is when it holds a value.
pub proof fn kinds_exclude_each_other(x: Num)
    ensures
        x.is_input() || x.is_output() || x.is_none(),
        !(x.is_input() && x.is_output()),
        !(x.is_input() && x.is_none()),
        !(x.is_output() && x.is_none()),
        x.is_num() == !x.is_none(),
        x.is_num() == x.as_option() is Some,
{
}

/// An absent operand makes the result absent: on the left or on the right of
/// another number, before a bare value, and under the square root; whatever
/// the other operand and whatever the operator.
pub proof fn absent_absorbs<F: Fn(u64, u64) -> u64, G: Fn(u64) -> u64>(
    x: Num,
    scalar: u64,
    op: F,
    root: G,
    out: Num,
)
    ensures
        Num::Absent.combined(x, op, out) ==> out == Num::Absent,
        x.combined(Num::Absent, op, out) ==> out == Num::Absent,
        Num::Absent.applied(scalar, op, out) ==> out == Num::Absent,
        Num::Absent.mapped(root, out) ==> out == Num::Absent,
{
}

/// Between two numbers that are both there, the result is of the left
/// operand's kind, and its payload is a result of the operator on the two
/// payloads, left then right.
pub proof fn left_kind_is_kept<F: Fn(u64, u64) -> u64>(x: Num, y: Num, op: F, out: Num)
    requires
        x.combined(y, op, out),
        y.is_num(),
    ensures
        out.same_kind(x),
        x.is_num() ==> out.is_num() && call_ensures(op, (x.payload()->0, y.payload()->0), out.payload()->0),
{
}

/// A number and a bare value give a result of the number's kind: absent only
/// if the number is, and else with a result of the operator as payload.
pub proof fn scalar_keeps_the_kind<F: Fn(u64, u64) -> u64>(x: Num, scalar: u64, op: F, out: Num)
    requires
        x.applied(scalar, op, out),
    ensures
        out.same_kind(x),
        x.is_num() ==> call_ensures(op, (x.payload()->0, scalar), out.payload()->0),
{
}

/// The square root of a number is of the number's kind.
pub proof fn root_keeps_the_kind<G: Fn(u64) -> u64>(x: Num, root: G, out: Num)
    requires
        x.mapped(root, out),
    ensures
        out.same_kind(x),
        x.is_num() ==> call_ensures(root, (x.payload()->0,), out.payload()->0),
{
}

/// The figures before and after the decimal point add up to the significant
/// figures asked for, unless the figures before the point alone are more.
/// There is always one figure before the point, and zero is laid out as a
/// value with exactly one.
pub proof fn figures_add_up(significant_figures: usize, order: i64)
    ensures
        integer_figures(order) >= 1,
        fraction_digits(significant_figures, order) <= significant_figures,
        significant_figures >= integer_figures(order) ==> integer_figures(order) + fraction_digits(
            significant_figures,
            order,
        ) == significant_figures,
        significant_figures < integer_figures(order) ==> fraction_digits(significant_figures, order)
            == 0,
        zero_fraction_digits(significant_figures) == fraction_digits(significant_figures, 0),
{
}

/// Zero lies in no prefix's range, and what lies in the range is its own
/// magnitude: it is above zero.
pub proof fn range_is_above_zero(v: u64)
    ensures
        is_zero(v) ==> !in_prefix_range(v) && !in_prefix_range(magnitude(v)),
        in_prefix_range(v) ==> magnitude(v) == v && !is_zero(v),
{
    assert(v & 0x7FFF_FFFF_FFFF_FFFF == 0 ==> !(0x3FF0_0000_0000_0000 <= v < 0x408F_4000_0000_0000))
        by (bit_vector);
    assert(0x3FF0_0000_0000_0000 <= v < 0x408F_4000_0000_0000 ==> v & 0x7FFF_FFFF_FFFF_FFFF == v)
        by (bit_vector);
}

/// A fractional part of zero and a fractional part below zero are settled.
pub proof fn whole_and_negative_are_settled(f: u64)
    ensures
        is_zero(f) ==> settled(f),
        magnitude(f) != f ==> settled(f),
{
    assert(f & 0x7FFF_FFFF_FFFF_FFFF == 0 ==> !(0x3F1A_36E2_EB1C_432D < f < 0x3FEF_FF2E_48E8_A71E))
        by (bit_vector);
    assert(f & 0x7FFF_FFFF_FFFF_FFFF != f ==> !(0x3F1A_36E2_EB1C_432D < f < 0x3FEF_FF2E_48E8_A71E))
        by (bit_vector);
}

/// The table has ten entries; their powers of ten go from -15 to 15 in steps
/// of three, without zero; and no two entries share a symbol.
pub proof fn table_is_regular()
    ensures
        metric_prefixes().len() == PREFIX_COUNT,
        forall|i: int| 0 <= i < 5 ==> (#[trigger] metric_prefixes()[i]).exponent == 3 * i - 15,
        forall|i: int| 5 <= i < 10 ==> (#[trigger] metric_prefixes()[i]).exponent == 3 * i - 12,
        forall|i: int, j: int|
            0 <= i < j < 10 ==> (#[trigger] metric_prefixes()[i]).symbol != (
            #[trigger] metric_prefixes()[j]).symbol,
{
}

/// A character stands for a prefix exactly when it is the symbol of an entry
/// of the table, and then for that entry.
pub proof fn symbol_names_its_entry(c: char)
    ensures
        match prefix_of(c) {
            Some(p) => p.symbol == c && metric_prefixes().contains(p),
            None => forall|i: int| 0 <= i < 10 ==> (#[trigger] metric_prefixes()[i]).symbol != c,
        },
        forall|i: int|
            0 <= i < 10 && (#[trigger] metric_prefixes()[i]).symbol == c ==> prefix_of(c) == Some(
                metric_prefixes()[i],
            ),
{
    reveal_with_fuel(prefix_from, 11);
}

/// What is shown reads back: a text made of digits and the symbol of a
/// prefix, as `display` makes it, is split by `parse` into the same digits and
/// that prefix's power of ten; digits shown without a prefix are read whole,
/// with a factor of one.
///
/// This holds of digits without a comma that do not themselves end in a
/// prefix symbol, as is the case whenever they end in a decimal digit.
pub proof fn shown_text_reads_back(digits: Seq<char>, prefix: Option<MetricPrefix>)
    requires
        prefix matches Some(p) ==> metric_prefixes().contains(p),
        forall|i: int| 0 <= i < digits.len() ==> digits[i] != ',',
        prefix is None && digits.len() > 0 ==> prefix_of(digits.last()) is None,
    ensures
        mantissa(with_symbol(digits, prefix)) == digits,
        exponent(with_symbol(digits, prefix)) == match prefix {
            Some(p) => p.exponent,
            None => 0i32,
        },
{
    if let Some(p) = prefix {
        symbol_names_its_entry(p.symbol);
    }
}

/// Whether `c` is one of the characters that a whole number is written with:
/// a decimal digit or the minus sign.
pub open spec fn is_numeral(c: char) -> bool {
    c == '-' || exists|d: int| 0 <= d < 10 && c == digit_char(d)
}

/// A character that a whole number is written with is no comma, no colon and
/// no prefix symbol.
pub proof fn numeral_is_no_mark(c: char)
    requires
        is_numeral(c),
    ensures
        c != ',',
        c != ':',
        normal(c) == c,
        prefix_of(c) is None,
{
    reveal_with_fuel(prefix_from, 11);
}

/// A whole number in decimal is not empty, is written with digits and the
/// minus sign alone, and ends in a digit.
pub proof fn decimal_is_plain(n: int)
    ensures
        decimal(n).len() > 0,
        forall|i: int| 0 <= i < decimal(n).len() ==> is_numeral(#[trigger] decimal(n)[i]),
        exists|d: int| 0 <= d < 10 && decimal(n).last() == digit_char(d),
{
    let m: nat = if n < 0 {
        (-n) as nat
    } else {
        n as nat
    };
    digits_are_plain(m);
}

/// The digits of a natural number are digits, and there is at least one.
proof fn digits_are_plain(m: nat)
    ensures
        digits(m).len() > 0,
        forall|i: int| 0 <= i < digits(m).len() ==> is_numeral(#[trigger] digits(m)[i]),
        exists|d: int| 0 <= d < 10 && digits(m).last() == digit_char(d),
    decreases m,
{
    if m >= 10 {
        digits_are_plain(m / 10);
    }
}

/// Where no colon stands from `from` up to `to`, the first colon at or after
/// `from` is the first at or after `to`.
proof fn colon_skips(text: Seq<char>, from: int, to: int)
    requires
        0 <= from <= to <= text.len(),
        forall|i: int| from <= i < to ==> text[i] != ':',
    ensures
        colon_from(text, from) == colon_from(text, to),
    decreases to - from,
{
    if from < to {
        colon_skips(text, from + 1, to);
    }
}

/// A whole number in decimal is read whole: nothing is taken off it as a
/// prefix, and its factor is one.
pub proof fn decimal_reads_whole(n: int)
    ensures
        mantissa(decimal(n)) == decimal(n),
        exponent(decimal(n)) == 0,
{
    decimal_is_plain(n);
    let text = decimal(n);
    assert forall|i: int| 0 <= i < text.len() implies normal(#[trigger] text[i]) == text[i] by {
        numeral_is_no_mark(text[i]);
    }
    numeral_is_no_mark(text.last());
}

/// The text of a ratio splits back into its two numbers: the ratio `a:b`, as
/// `display_ratio` writes it, has the sides `a` and `b` when `parse_ratio`
/// reads it.
pub proof fn ratio_text_splits_back(a: int, b: int)
    ensures
        ratio_sides(ratio_text(a, b)) == Some((decimal(a), decimal(b))),
{
    decimal_is_plain(a);
    decimal_is_plain(b);
    let text = ratio_text(a, b);
    let at = decimal(a).len() as int;
    assert forall|i: int| 0 <= i < text.len() implies normal(#[trigger] text[i]) == text[i] by {
        if i != at {
            numeral_is_no_mark(text[i]);
        }
    }
    assert(normalized(text) =~= text);
    assert forall|i: int| 0 <= i < at implies text[i] != ':' by {
        numeral_is_no_mark(text[i]);
    }
    assert forall|i: int| at + 1 <= i < text.len() implies text[i] != ':' by {
        numeral_is_no_mark(text[i]);
    }
    colon_skips(text, 0, at);
    colon_skips(text, at + 1, text.len() as int);
}

} // verus!
