//! The table of metric prefixes.
use vstd::prelude::*;

verus! {

/// A metric prefix: the character that stands for it and the power of ten
/// that it scales by.
#[derive(Copy, Clone, Debug, PartialEq, Eq, Structural)]
pub struct MetricPrefix {
    pub symbol: char,
    pub exponent: i32,
}

/// The number of entries in the table.
pub const PREFIX_COUNT: usize = 10;

/// The table, in the order in which it is searched: femto, pico, nano, micro
/// (the micro sign, U+00B5), milli, kilo, mega, giga, tera, peta.
pub open spec fn metric_prefixes() -> Seq<MetricPrefix> {
    seq![
        MetricPrefix { symbol: 'f', exponent: -15i32 },
        MetricPrefix { symbol: 'p', exponent: -12i32 },
        MetricPrefix { symbol: 'n', exponent: -9i32 },
        MetricPrefix { symbol: '\u{b5}', exponent: -6i32 },
        MetricPrefix { symbol: 'm', exponent: -3i32 },
        MetricPrefix { symbol: 'k', exponent: 3i32 },
        MetricPrefix { symbol: 'M', exponent: 6i32 },
        MetricPrefix { symbol: 'G', exponent: 9i32 },
        MetricPrefix { symbol: 'T', exponent: 12i32 },
        MetricPrefix { symbol: 'P', exponent: 15i32 },
    ]
}

/// The first entry at or after `from`, in table order, whose symbol is `c`.
pub open spec fn prefix_from(c: char, from: int) -> Option<MetricPrefix>
    decreases PREFIX_COUNT - from,
{
    if from < 0 || from >= PREFIX_COUNT {
        None
    } else if metric_prefixes()[from].symbol == c {
        Some(metric_prefixes()[from])
    } else {
        prefix_from(c, from + 1)
    }
}

/// The prefix that the character `c` stands for: the first entry of the
/// table, in its order, with that symbol.
pub open spec fn prefix_of(c: char) -> Option<MetricPrefix> {
    prefix_from(c, 0)
}

/// The entry at `index` of the table.
pub fn metric_prefix(index: usize) -> (p: MetricPrefix)
    requires
        index < PREFIX_COUNT,
    ensures
        p == metric_prefixes()[index as int],
{
    match index {
        0 => MetricPrefix { symbol: 'f', exponent: -15 },
        1 => MetricPrefix { symbol: 'p', exponent: -12 },
        2 => MetricPrefix { symbol: 'n', exponent: -9 },
        3 => MetricPrefix { symbol: '\u{b5}', exponent: -6 },
        4 => MetricPrefix { symbol: 'm', exponent: -3 },
        5 => MetricPrefix { symbol: 'k', exponent: 3 },
        6 => MetricPrefix { symbol: 'M', exponent: 6 },
        7 => MetricPrefix { symbol: 'G', exponent: 9 },
        8 => MetricPrefix { symbol: 'T', exponent: 12 },
        _ => MetricPrefix { symbol: 'P', exponent: 15 },
    }
}

/// Looks `c` up in the table: the entries are tried in table order and the
/// first whose symbol is `c` is returned.
pub fn find_prefix(c: char) -> (r: Option<MetricPrefix>)
    ensures
        r == prefix_of(c),
{
    let mut i: usize = 0;
    while i < PREFIX_COUNT
        invariant
            i <= PREFIX_COUNT,
            prefix_of(c) == prefix_from(c, i as int),
        decreases PREFIX_COUNT - i,
    {
        let p = metric_prefix(i);
        if p.symbol == c {
            return Some(p);
        }
        i += 1;
    }
    None
}

} // verus!
