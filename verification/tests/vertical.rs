use gridlines::{Error, Fraction, Vertical};

fn ratio(fraction: &Fraction) -> f64 {
    fraction.numerator() as f64 / fraction.denominator() as f64
}

fn ratios(fractions: &[Fraction]) -> Vec<f64> {
    fractions.iter().map(ratio).collect()
}

#[test]
fn vertical_segment_width_btwn_3_lines() -> Result<(), Error> {
    let x: (i32, i32) = (120, 1500);
    let y: (i32, i32) = (10, 360);

    let have = Vertical::new()
        .x_range(x.0, x.1)
        .y_range(y.0, y.1)
        .lines(3)
        .delta()?;

    let want = 690.0;

    assert_eq!(want, ratio(&have));
    Ok(())
}

#[test]
fn vertical_segment_width_btwn_5_lines() -> Result<(), Error> {
    let x: (i32, i32) = (120, 1500);
    let y: (i32, i32) = (10, 360);

    let have = Vertical::new()
        .x_range(x.0, x.1)
        .y_range(y.0, y.1)
        .lines(5)
        .delta()?;

    let want = 345.0;

    assert_eq!(want, ratio(&have));
    Ok(())
}

#[test]
fn x_coords_of_3_lines() -> Result<(), Error> {
    let x: (i32, i32) = (120, 1500);
    let y: (i32, i32) = (10, 360);

    let have = Vertical::new()
        .x_range(x.0, x.1)
        .y_range(y.0, y.1)
        .lines(3)
        .coordinates()?;

    let want = vec![120.0, 810.0, 1500.0];

    assert_eq!(want, ratios(&have));
    Ok(())
}

#[test]
fn x_coords_of_5_lines() -> Result<(), Error> {
    let x: (i32, i32) = (120, 1500);
    let y: (i32, i32) = (10, 360);

    let have = Vertical::new()
        .x_range(x.0, x.1)
        .y_range(y.0, y.1)
        .lines(5)
        .coordinates()?;

    let want = vec![120.0, 465.0, 810.0, 1155.0, 1500.0];

    assert_eq!(want, ratios(&have));
    Ok(())
}

#[test]
fn vertical_generates_svg_path() -> Result<(), Error> {
    let x: (i32, i32) = (120, 1500);
    let y: (i32, i32) = (10, 360);

    let have = Vertical::new()
        .x_range(x.0, x.1)
        .y_range(y.0, y.1)
        .lines(5)
        .get_path(Fraction::whole(120))?
        .to_string();

    let want = format!("<path d=\"M{},{} L{},{}\" opacity=\"1\" stroke=\"#BFEFF2\" stroke-width=\"1\" zIndex=\"1\"/>",
        x.0, y.0, x.0, y.1);

    assert_eq!(want, have);
    Ok(())
}

#[test]
fn vertical_generates_svg_tags() -> Result<(), Error> {
    let x: (i32, i32) = (120, 1500);
    let y: (i32, i32) = (10, 360);
    let have = Vertical::new()
        .x_range(x.0, x.1)
        .y_range(y.0, y.1)
        .lines(5)
        .tags()?
        .to_string();

    let want = format!("<svg xmlns=\"http://www.w3.org/2000/svg\">\n\
        <path d=\"M{},{} L{},{}\" opacity=\"1\" stroke=\"#BFEFF2\" stroke-width=\"1\" zIndex=\"1\"/>\n\
        <path d=\"M{},{} L{},{}\" opacity=\"1\" stroke=\"#BFEFF2\" stroke-width=\"1\" zIndex=\"1\"/>\n\
        <path d=\"M{},{} L{},{}\" opacity=\"1\" stroke=\"#BFEFF2\" stroke-width=\"1\" zIndex=\"1\"/>\n\
        <path d=\"M{},{} L{},{}\" opacity=\"1\" stroke=\"#BFEFF2\" stroke-width=\"1\" zIndex=\"1\"/>\n\
        <path d=\"M{},{} L{},{}\" opacity=\"1\" stroke=\"#BFEFF2\" stroke-width=\"1\" zIndex=\"1\"/>\n\
        </svg>",
        120,  10, 120,  360,
        465,  10, 465,  360,
        810,  10, 810,  360,
        1155, 10, 1155, 360,
        1500, 10, 1500, 360);

    assert_eq!(want, have);
    Ok(())
}

#[test]
fn vertical_two_lines_are_too_few() {
    let mut generator = Vertical::new();
    generator.x_range(120, 1500).y_range(10, 360).lines(2);
    assert_eq!(generator.delta().err(), Some(Error::LineNumber));
    assert_eq!(generator.coordinates().err(), Some(Error::LineNumber));
    assert!(matches!(generator.tags(), Err(Error::LineNumber)));
}

#[test]
fn vertical_no_line_or_one_is_too_few() {
    for lines in 0u8..3 {
        let mut generator = Vertical::new();
        generator.x_range(0, 10).y_range(0, 10).lines(lines);
        assert_eq!(generator.delta().err(), Some(Error::LineNumber));
        assert_eq!(generator.coordinates().err(), Some(Error::LineNumber));
        assert!(matches!(generator.tags(), Err(Error::LineNumber)));
    }
}

#[test]
fn vertical_new_holds_an_empty_document() {
    assert_eq!(
        Vertical::new().to_string(),
        "<svg xmlns=\"http://www.w3.org/2000/svg\"/>"
    );
}

#[test]
fn vertical_tags_twice_give_the_same_text() -> Result<(), Error> {
    let mut generator = Vertical::new();
    generator.x_range(120, 1500).y_range(10, 360).lines(5);
    let first = generator.tags()?.to_string();
    let second = generator.tags()?.to_string();
    assert_eq!(first, second);
    Ok(())
}

#[test]
fn vertical_reversed_range_steps_up_and_ends_at_the_end() -> Result<(), Error> {
    let mut generator = Vertical::new();
    generator.x_range(100, -100).y_range(-5, 5).lines(3);
    assert_eq!(100.0, ratio(&generator.delta()?));
    assert_eq!(vec![100.0, 200.0, -100.0], ratios(&generator.coordinates()?));
    let have = generator.tags()?.to_string();
    let want = "<svg xmlns=\"http://www.w3.org/2000/svg\">\n\
        <path d=\"M100,-5 L100,5\" opacity=\"1\" stroke=\"#BFEFF2\" stroke-width=\"1\" zIndex=\"1\"/>\n\
        <path d=\"M200,-5 L200,5\" opacity=\"1\" stroke=\"#BFEFF2\" stroke-width=\"1\" zIndex=\"1\"/>\n\
        <path d=\"M-100,-5 L-100,5\" opacity=\"1\" stroke=\"#BFEFF2\" stroke-width=\"1\" zIndex=\"1\"/>\n\
        </svg>";
    assert_eq!(want, have);
    Ok(())
}

#[test]
fn vertical_range_of_one_point_stacks_the_lines() -> Result<(), Error> {
    let mut generator = Vertical::new();
    generator.x_range(7, 7).y_range(0, 1).lines(3);
    assert_eq!(0.0, ratio(&generator.delta()?));
    assert_eq!(vec![7.0, 7.0, 7.0], ratios(&generator.coordinates()?));
    Ok(())
}
