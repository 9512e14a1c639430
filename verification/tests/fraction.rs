use gridlines::fraction::push_natural;
use gridlines::{AxisRange, Error, Fraction, LineSegment, Point};

fn decimal(numerator: i64, denominator: i64) -> String {
    Fraction::new(numerator, denominator).unwrap().to_string()
}

#[test]
fn fraction_needs_a_positive_denominator() {
    assert!(Fraction::new(1, 0).is_none());
    assert!(Fraction::new(1, -1).is_none());
    assert!(Fraction::new(0, i64::MIN).is_none());
    let made = Fraction::new(-3, 4).unwrap();
    assert_eq!((-3, 4), (made.numerator(), made.denominator()));
}

#[test]
fn fraction_whole_is_over_one() {
    let made = Fraction::whole(-17);
    assert_eq!((-17, 1), (made.numerator(), made.denominator()));
    assert_eq!("-17", made.to_string());
    assert_eq!("0", Fraction::whole(0).to_string());
    assert_eq!("2147483647", Fraction::whole(i32::MAX).to_string());
    assert_eq!("-2147483648", Fraction::whole(i32::MIN).to_string());
}

#[test]
fn fraction_decimal_drops_trailing_zeros() {
    assert_eq!("97.5", decimal(390, 4));
    assert_eq!("185", decimal(740, 4));
    assert_eq!("0.0625", decimal(1, 16));
    assert_eq!("0.000001", decimal(1, 1_000_000));
    assert_eq!("100.01", decimal(10_001, 100));
    assert_eq!("-272.5", decimal(-545, 2));
}

#[test]
fn fraction_decimal_rounds_to_six_places() {
    assert_eq!("0.333333", decimal(1, 3));
    assert_eq!("0.666667", decimal(2, 3));
    assert_eq!("-0.666667", decimal(-2, 3));
    assert_eq!("0.000001", decimal(1, 2_000_000));
    assert_eq!("0", decimal(1, 2_000_001));
    assert_eq!("0", decimal(-1, 2_000_001));
    assert_eq!("1", decimal(1_999_999, 2_000_000));
    assert_eq!("-1", decimal(-1_999_999, 2_000_000));
    assert_eq!("0.142857", decimal(1, 7));
}

#[test]
fn fraction_decimal_of_the_largest_numbers() {
    assert_eq!("9223372036854775807", decimal(i64::MAX, 1));
    assert_eq!("-9223372036854775808", decimal(i64::MIN, 1));
    assert_eq!("1", decimal(i64::MAX, i64::MAX));
    assert_eq!("-1", decimal(i64::MIN, i64::MAX));
    assert_eq!("0", decimal(1, i64::MAX));
}

#[test]
fn natural_digits_are_appended() {
    let mut text = String::from("n=");
    push_natural(&mut text, 0);
    push_natural(&mut text, 1905);
    push_natural(&mut text, u128::MAX);
    assert_eq!("n=01905340282366920938463463374607431768211455", text);
}

#[test]
fn segment_writes_its_data_and_its_element() {
    let segment = LineSegment::new(
        Point::new(Fraction::whole(-3), Fraction::new(1, 8).unwrap()),
        Point::new(Fraction::new(22, 7).unwrap(), Fraction::whole(40)),
    );
    assert_eq!("M-3,0.125 L3.142857,40", segment.path_data());
    assert_eq!(
        "<path d=\"M-3,0.125 L3.142857,40\" opacity=\"1\" stroke=\"#BFEFF2\" stroke-width=\"1\" zIndex=\"1\"/>",
        segment.to_string()
    );
}

#[test]
fn spacing_counts_gaps_from_three_lines_on() {
    assert_eq!(Err(Error::LineNumber), gridlines::spacing::gaps(0));
    assert_eq!(Err(Error::LineNumber), gridlines::spacing::gaps(1));
    assert_eq!(Err(Error::LineNumber), gridlines::spacing::gaps(2));
    assert_eq!(Ok(2), gridlines::spacing::gaps(3));
    assert_eq!(Ok(254), gridlines::spacing::gaps(255));
}

#[test]
fn spacing_of_a_range() {
    let range = AxisRange::new(10, 360);
    let delta = gridlines::spacing::delta(range, 5).unwrap();
    assert_eq!((350, 4), (delta.numerator(), delta.denominator()));
    let coordinates = gridlines::spacing::coordinates(range, 5).unwrap();
    let numerators: Vec<i64> = coordinates.iter().map(|c| c.numerator()).collect();
    assert_eq!(vec![40, 390, 740, 1090, 1440], numerators);
    assert!(coordinates.iter().all(|c| c.denominator() == 4));
    assert!(gridlines::spacing::delta(range, 2).is_err());
    assert!(gridlines::spacing::coordinates(range, 2).is_err());
}

#[test]
fn error_messages() {
    assert_eq!(
        "Number of chart lines must be greater than 2.",
        Error::LineNumber.to_string()
    );
    assert_eq!(
        "I/O error at `out/grid.svg`: permission denied",
        Error::IoError {
            io_error: String::from("permission denied"),
            path: String::from("out/grid.svg"),
        }
        .to_string()
    );
    assert_eq!(
        "Error when writing to `std::out`: broken pipe",
        Error::StdIoError { io_error: String::from("broken pipe") }.to_string()
    );
}
