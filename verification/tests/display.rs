use calc_number::display::fractional_figures;
use calc_number::encoding::ONE;
use calc_number::Num;

fn scale(x: u64, e: i32) -> u64 {
    (f64::from_bits(x) / 10f64.powi(e)).to_bits()
}

fn order(x: u64) -> i64 {
    f64::from_bits(x).log10().floor() as i64
}

fn render(x: u64, n: usize) -> String {
    format!("{:.*}", n, f64::from_bits(x))
}

fn show(x: f64, figures: usize) -> String {
    Num::In(x.to_bits()).display(figures, scale, order, render)
}

#[test]
fn display_nano() {
    assert_eq!(show(0.000000001, 3), "1.00n");
}

#[test]
fn display_kilo() {
    assert_eq!(show(1500.0, 3), "1.50k");
}

#[test]
fn display_zero() {
    assert_eq!(show(0.0, 3), "0.00");
    assert_eq!(show(0.0, 1), "0");
    assert_eq!(show(0.0, 0), "0");
    assert_eq!(show(-0.0, 3), "-0.00");
}

#[test]
fn display_absent_is_empty() {
    assert_eq!(Num::Absent.display(3, scale, order, render), "");
}

#[test]
fn display_does_not_ask_for_an_absent_number() {
    let text = Num::Absent.display(
        3,
        |_: u64, _: i32| -> u64 { panic!("asked") },
        |_: u64| -> i64 { panic!("asked") },
        |_: u64, _: usize| -> String { panic!("asked") },
    );
    assert_eq!(text, "");
}

#[test]
fn display_output_as_input() {
    assert_eq!(
        Num::Out(1500.0f64.to_bits()).display(3, scale, order, render),
        "1.50k"
    );
}

#[test]
fn display_rounds_to_the_figures() {
    assert_eq!(show(1234.0, 3), "1.23k");
    assert_eq!(show(5500.0, 2), "5.5k");
    assert_eq!(show(2.5e-7, 4), "250.0n");
    assert_eq!(show(0.047, 2), "47m");
}

#[test]
fn display_negative() {
    assert_eq!(show(-1500.0, 3), "-1.50k");
    assert_eq!(show(-0.047, 3), "-47.0m");
}

#[test]
fn display_each_prefix() {
    assert_eq!(show(2e-15, 2), "2.0f");
    assert_eq!(show(2e-12, 2), "2.0p");
    assert_eq!(show(2e-9, 2), "2.0n");
    assert_eq!(show(2e-6, 2), "2.0\u{b5}");
    assert_eq!(show(2e-3, 2), "2.0m");
    assert_eq!(show(2e3, 2), "2.0k");
    assert_eq!(show(2e6, 2), "2.0M");
    assert_eq!(show(2e9, 2), "2.0G");
    assert_eq!(show(2e12, 2), "2.0T");
    assert_eq!(show(2e15, 2), "2.0P");
}

#[test]
fn display_without_a_prefix() {
    assert_eq!(show(2.0, 3), "2.00");
    assert_eq!(show(25.0, 3), "25.0");
    assert_eq!(show(250.0, 3), "250");
    assert_eq!(show(1e18, 3), "1000000000000000000");
    assert_eq!(show(1e-16, 3), "0.00");
}

#[test]
fn display_more_figures_before_the_point_than_asked_for() {
    assert_eq!(show(123456.0, 2), "123k");
    assert_eq!(show(1e17, 3), "100P");
    assert_eq!(show(1.0, 0), "1");
}

#[test]
fn display_of_no_number_and_of_infinity() {
    assert_eq!(show(f64::NAN, 3), "NaN");
    assert_eq!(show(f64::INFINITY, 3), "inf");
    assert_eq!(show(f64::NEG_INFINITY, 3), "-inf");
}

#[test]
fn display_takes_the_first_prefix_in_range() {
    // every quotient is in range: the first entry of the table is taken
    let text = Num::In(7).display(
        3,
        |_: u64, _: i32| -> u64 { ONE },
        |_: u64| -> i64 { 0 },
        |_: u64, n: usize| -> String { format!("<{}>", n) },
    );
    assert_eq!(text, "<2>f");
    // only the quotient by ten to the sixth is in range
    let text = Num::In(7).display(
        5,
        |_: u64, e: i32| -> u64 { if e == 6 { ONE } else { 0 } },
        |_: u64| -> i64 { 1 },
        |_: u64, n: usize| -> String { format!("<{}>", n) },
    );
    assert_eq!(text, "<3>M");
    // none is: no prefix, and the value is rendered as it is
    let text = Num::In(7).display(
        5,
        |_: u64, _: i32| -> u64 { 0 },
        |_: u64| -> i64 { -3 },
        |x: u64, n: usize| -> String { format!("<{} {}>", x, n) },
    );
    assert_eq!(text, "<7 4>");
}

#[test]
fn display_scales_the_signed_value_and_measures_its_magnitude() {
    let sign = 1u64 << 63;
    let text = Num::In(sign | 7).display(
        3,
        |x: u64, e: i32| -> u64 {
            if e == 3 {
                if x == 7 { ONE } else { sign | 9 }
            } else {
                0
            }
        },
        |x: u64| -> i64 {
            assert_eq!(x, 9);
            0
        },
        |x: u64, n: usize| -> String {
            assert_eq!(x, sign | 9);
            format!("<{}>", n)
        },
    );
    assert_eq!(text, "<2>k");
}

#[test]
fn fractional_figures_by_the_formula() {
    assert_eq!(fractional_figures(3, 0), 2);
    assert_eq!(fractional_figures(3, 1), 1);
    assert_eq!(fractional_figures(3, 2), 0);
    assert_eq!(fractional_figures(3, 3), 0);
    assert_eq!(fractional_figures(3, 20), 0);
    assert_eq!(fractional_figures(3, -1), 2);
    assert_eq!(fractional_figures(3, -20), 2);
    assert_eq!(fractional_figures(0, 0), 0);
    assert_eq!(fractional_figures(0, -5), 0);
    assert_eq!(fractional_figures(1, 0), 0);
    assert_eq!(fractional_figures(8, 2), 5);
    assert_eq!(fractional_figures(3, i64::MAX), 0);
    assert_eq!(fractional_figures(3, i64::MIN), 2);
    assert_eq!(fractional_figures(usize::MAX, 0), usize::MAX - 1);
    assert_eq!(fractional_figures(usize::MAX, i64::MAX), usize::MAX - 1 - (i64::MAX as usize));
}
