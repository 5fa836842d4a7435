//! Showing a number with a metric prefix and a given count of significant
//! figures.
use crate::encoding::{in_prefix_range, is_zero, magnitude};
use crate::number::Num;
use crate::prefix::{metric_prefix, metric_prefixes, MetricPrefix, PREFIX_COUNT};
use vstd::prelude::*;

verus! {

/// The number of digits before the decimal point of a value whose decimal
/// order (the floor of its base-ten logarithm) is `order`: one more than the
/// order, and at least one.
pub open spec fn integer_figures(order: i64) -> int {
    if order < 0 {
        1
    } else {
        order + 1
    }
}

/// The number of digits after the decimal point: what `significant_figures`
/// leaves once the digits before the point are counted, and never less than
/// none.
pub open spec fn fraction_digits(significant_figures: usize, order: i64) -> usize {
    if significant_figures > integer_figures(order) {
        (significant_figures - integer_figures(order)) as usize
    } else {
        0
    }
}

/// The number of digits after the decimal point for zero, which has no
/// logarithm: one digit counts as standing before the point.
pub open spec fn zero_fraction_digits(significant_figures: usize) -> usize {
    if significant_figures > 0 {
        (significant_figures - 1) as usize
    } else {
        0
    }
}

/// Whether the scan that gave `quotients` ended on a quotient in range.
pub open spec fn found(quotients: Seq<u64>) -> bool {
    quotients.len() > 0 && in_prefix_range(quotients.last())
}

/// `quotients` is what a scan of the table gives for the magnitude `a`: the
/// quotient of `a` by each entry's power of ten, as `scale` computes it, in
/// table order, up to and including the first that lies in the range from 1 to
/// 1000, or for the whole table if none does.
pub open spec fn scanned<S: Fn(u64, i32) -> u64>(scale: S, a: u64, quotients: Seq<u64>) -> bool {
    &&& quotients.len() <= PREFIX_COUNT
    &&& forall|i: int|
        0 <= i < quotients.len() ==> call_ensures(
            scale,
            (a, metric_prefixes()[i].exponent),
            #[trigger] quotients[i],
        )
    &&& forall|i: int| 0 <= i < quotients.len() - 1 ==> !in_prefix_range(#[trigger] quotients[i])
    &&& (quotients.len() == PREFIX_COUNT || found(quotients))
}

/// The prefix that a scan selects: the entry of its last quotient if that one
/// is in range, else none.
pub open spec fn selected(quotients: Seq<u64>) -> Option<MetricPrefix> {
    if found(quotients) {
        Some(metric_prefixes()[quotients.len() - 1])
    } else {
        None
    }
}

/// The digits followed by the prefix's symbol, or the digits alone where
/// there is no prefix.
pub open spec fn with_symbol(digits: Seq<char>, prefix: Option<MetricPrefix>) -> Seq<char> {
    match prefix {
        Some(p) => digits.push(p.symbol),
        None => digits,
    }
}

/// `text` shows the value `v` to `significant_figures` figures.
///
/// Zero is shown without a prefix, with one figure counted before the point.
/// For any other value the table is scanned with the magnitude of `v`; `v` is
/// divided by the power of ten of the selected entry, or left as it is where
/// none is selected; `order` gives the decimal order of the result's
/// magnitude, which fixes the count of decimals; `render` writes the result
/// with that many decimals; and the symbol of the selected entry follows the
/// digits directly.
pub open spec fn shown<S: Fn(u64, i32) -> u64, O: Fn(u64) -> i64, R: Fn(u64, usize) -> String>(
    v: u64,
    significant_figures: usize,
    scale: S,
    order: O,
    render: R,
    text: Seq<char>,
) -> bool {
    if is_zero(v) {
        exists|digits: String|
            call_ensures(render, (v, zero_fraction_digits(significant_figures)), digits) && text
                == digits@
    } else {
        exists|quotients: Seq<u64>, scaled: u64, figures: i64, digits: String|
            {
                &&& scanned(scale, magnitude(v), quotients)
                &&& match selected(quotients) {
                    Some(p) => call_ensures(scale, (v, p.exponent), scaled),
                    None => scaled == v,
                }
                &&& call_ensures(order, (magnitude(scaled),), figures)
                &&& call_ensures(
                    render,
                    (scaled, fraction_digits(significant_figures, figures)),
                    digits,
                )
                &&& text == with_symbol(digits@, selected(quotients))
            }
    }
}

/// The number of decimals with which a value of the decimal order `order` is
/// written to `significant_figures` figures.
pub fn fractional_figures(significant_figures: usize, order: i64) -> (n: usize)
    ensures
        n == fraction_digits(significant_figures, order),
{
    if order < 0 {
        if significant_figures > 0 {
            significant_figures - 1
        } else {
            0
        }
    } else if significant_figures as u64 > order as u64 {
        significant_figures - 1 - (order as usize)
    } else {
        0
    }
}

impl Num {
    /// The number as text, with a metric prefix and `significant_figures`
    /// significant figures; the empty text for an absent number.
    ///
    /// The caller supplies the three floating-point operations, each on
    /// encodings: `scale(x, e)` is `x` divided by ten to the power `e`;
    /// `order(x)` is the floor of the base-ten logarithm of `x`, which is
    /// handed a magnitude; `render(x, n)` is `x` written with `n` digits after
    /// the decimal point.  `shown` says which of them is asked for what.
    pub fn display<S: Fn(u64, i32) -> u64, O: Fn(u64) -> i64, R: Fn(u64, usize) -> String>(
        &self,
        significant_figures: usize,
        scale: S,
        order: O,
        render: R,
    ) -> (text: String)
        requires
            forall|x: u64, e: i32| call_requires(scale, (x, e)),
            forall|x: u64| call_requires(order, (x,)),
            forall|x: u64, n: usize| call_requires(render, (x, n)),
        ensures
            match self.payload() {
                Some(v) => shown(v, significant_figures, scale, order, render, text@),
                None => text@ == Seq::<char>::empty(),
            },
    {
        let v = match self.as_option() {
            Some(v) => v,
            None => {
                return String::new();
            },
        };
        if is_zero(v) {
            let decimals = if significant_figures > 0 {
                significant_figures - 1
            } else {
                0
            };
            return render(v, decimals);
        }
        let a = magnitude(v);
        let mut prefix: Option<MetricPrefix> = None;
        let mut scaled = v;
        let ghost mut quotients: Seq<u64> = Seq::empty();
        let mut i: usize = 0;
        while i < PREFIX_COUNT
            invariant_except_break
                prefix is None,
                scaled == v,
                i == quotients.len(),
                forall|j: int| 0 <= j < quotients.len() ==> !in_prefix_range(#[trigger] quotients[j]),
            invariant
                i <= PREFIX_COUNT,
                a == magnitude(v),
                forall|x: u64, e: i32| call_requires(scale, (x, e)),
                forall|j: int|
                    0 <= j < quotients.len() ==> call_ensures(
                        scale,
                        (a, metric_prefixes()[j].exponent),
                        #[trigger] quotients[j],
                    ),
            ensures
                scanned(scale, magnitude(v), quotients),
                prefix == selected(quotients),
                match prefix {
                    Some(p) => call_ensures(scale, (v, p.exponent), scaled),
                    None => scaled == v,
                },
            decreases PREFIX_COUNT - i,
        {
            let p = metric_prefix(i);
            let q = scale(a, p.exponent);
            proof {
                quotients = quotients.push(q);
            }
            if in_prefix_range(q) {
                scaled = scale(v, p.exponent);
                prefix = Some(p);
                break ;
            }
            i += 1;
        }
        let figures = order(magnitude(scaled));
        let decimals = fractional_figures(significant_figures, figures);
        let mut text = render(scaled, decimals);
        if let Some(p) = prefix {
            text.push(p.symbol);
        }
        text
    }
}

} // verus!
