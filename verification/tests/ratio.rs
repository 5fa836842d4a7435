use calc_number::ratio::{format_ratio, MAX_RATIO_TERMS};
use calc_number::Num;
use std::cell::Cell;

fn fraction(x: u64) -> u64 {
    f64::from_bits(x).fract().to_bits()
}

fn sum(a: u64, b: u64) -> u64 {
    (f64::from_bits(a) + f64::from_bits(b)).to_bits()
}

fn nearest(x: u64) -> i64 {
    f64::from_bits(x).round() as i64
}

fn value_of(m: &str, e: i32) -> Option<u64> {
    match m.parse::<f64>() {
        Ok(v) => Some((v * 10f64.powi(e)).to_bits()),
        Err(_) => None,
    }
}

fn quotient(a: u64, b: u64) -> u64 {
    (f64::from_bits(a) / f64::from_bits(b)).to_bits()
}

fn ratio(x: f64) -> Option<String> {
    Num::In(x.to_bits()).display_ratio(fraction, sum, nearest)
}

#[test]
fn ratio_of_a_whole_number() {
    assert_eq!(ratio(3.0), Some("1:3".to_string()));
    assert_eq!(ratio(0.0), Some("1:0".to_string()));
    assert_eq!(ratio(250.0), Some("1:250".to_string()));
}

#[test]
fn ratio_of_a_fraction() {
    assert_eq!(ratio(0.5), Some("2:1".to_string()));
    assert_eq!(ratio(0.75), Some("4:3".to_string()));
    assert_eq!(ratio(1.5), Some("2:3".to_string()));
    assert_eq!(ratio(1.0 / 3.0), Some("3:1".to_string()));
    assert_eq!(ratio(0.1), Some("10:1".to_string()));
    assert_eq!(ratio(2.0 / 7.0), Some("7:2".to_string()));
}

#[test]
fn ratio_within_the_tolerance() {
    assert_eq!(ratio(0.00001), Some("1:0".to_string()));
    assert_eq!(ratio(2.99995), Some("1:3".to_string()));
    assert_eq!(ratio(0.00015), Some("6667:1".to_string()));
}

#[test]
fn ratio_of_a_negative_number_settles_at_once() {
    assert_eq!(ratio(-1.5), Some("1:-2".to_string()));
    assert_eq!(ratio(-3.0), Some("1:-3".to_string()));
}

#[test]
fn ratio_of_an_output() {
    assert_eq!(
        Num::Out(0.5f64.to_bits()).display_ratio(fraction, sum, nearest),
        Some("2:1".to_string())
    );
}

#[test]
fn ratio_of_absent_is_empty() {
    assert_eq!(
        Num::Absent.display_ratio(fraction, sum, nearest),
        Some(String::new())
    );
}

#[test]
fn ratio_of_an_irrational_value_ends() {
    assert_eq!(ratio(2.0f64.sqrt()), Some("5741:8119".to_string()));
    assert_eq!(ratio(std::f64::consts::PI), Some("113:355".to_string()));
}

#[test]
fn ratio_gives_up_after_the_most_terms() {
    let asked = Cell::new(0i64);
    let added = Cell::new(0i64);
    let r = Num::In(7).display_ratio(
        |_: u64| -> u64 {
            asked.set(asked.get() + 1);
            0.5f64.to_bits()
        },
        |a: u64, b: u64| -> u64 {
            added.set(added.get() + 1);
            a.wrapping_add(b)
        },
        |_: u64| -> i64 { panic!("asked") },
    );
    assert_eq!(r, None);
    assert_eq!(asked.get(), MAX_RATIO_TERMS);
    assert_eq!(added.get(), MAX_RATIO_TERMS - 1);
}

#[test]
fn ratio_settles_with_the_last_term_allowed() {
    let asked = Cell::new(0i64);
    let r = Num::In(7).display_ratio(
        |_: u64| -> u64 {
            asked.set(asked.get() + 1);
            if asked.get() == MAX_RATIO_TERMS {
                0
            } else {
                0.5f64.to_bits()
            }
        },
        |a: u64, _: u64| -> u64 { a + 1 },
        |x: u64| -> i64 { x as i64 },
    );
    assert_eq!(r, Some(format!("{}:{}", MAX_RATIO_TERMS, 7 + MAX_RATIO_TERMS - 1)));
}

#[test]
fn ratio_adds_the_value_to_the_running_sum() {
    let r = Num::In(100).display_ratio(
        |x: u64| -> u64 {
            if x == 130 {
                0
            } else {
                0.5f64.to_bits()
            }
        },
        |a: u64, b: u64| -> u64 {
            assert_eq!(b, 100);
            a + 10
        },
        |x: u64| -> i64 { -(x as i64) },
    );
    assert_eq!(r, Some("4:-130".to_string()));
}

#[test]
fn ratio_reads_back() {
    for x in [3.0, 0.5, 0.75, 1.5, 0.1, 250.0] {
        let text = ratio(x).unwrap();
        let back = Num::parse_ratio(&text, value_of, quotient);
        assert_eq!(back, Num::In(f64::to_bits(x)), "{}", text);
    }
}

#[test]
fn format_ratio_in_decimal() {
    assert_eq!(format_ratio(1, 3), "1:3");
    assert_eq!(format_ratio(0, 0), "0:0");
    assert_eq!(format_ratio(10, 100), "10:100");
    assert_eq!(format_ratio(-1, -30), "-1:-30");
    assert_eq!(format_ratio(907, -1000001), "907:-1000001");
    assert_eq!(
        format_ratio(i64::MIN, i64::MAX),
        format!("{}:{}", i64::MIN, i64::MAX)
    );
    assert_eq!(
        format_ratio(i64::MAX, i64::MIN),
        "9223372036854775807:-9223372036854775808"
    );
    for n in [9, 10, 11, 99, 100, 101, 12345, 1234567890123] {
        assert_eq!(format_ratio(n, -n), format!("{}:{}", n, -n));
    }
}
