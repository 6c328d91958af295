use linesolve::algebra::line_from_point_and_slope;
use linesolve::algebra::line_from_points;
use linesolve::algebra::slope;
use linesolve::algebra::x_from_y;
use linesolve::algebra::y_from_x;
use linesolve::dispatch::respond;
use linesolve::numstr::dec_string;
use linesolve::numstr::rat_to_string;
use linesolve::Element;
use linesolve::Inputs;
use linesolve::Line;
use linesolve::Rat;

fn rat(n: i128, d: i128) -> Rat {
    Rat::new(n, d).unwrap()
}

fn no_inputs() -> Inputs {
    Inputs {
        x1: None,
        y1: None,
        x2: None,
        y2: None,
        x: None,
        y: None,
        slope: None,
        intercept: None,
    }
}

#[test]
fn element_tokens() {
    assert_eq!(Element::from("l".to_string()), Element::Line);
    assert_eq!(Element::from("line".to_string()), Element::Line);
    assert_eq!(Element::from("s".to_string()), Element::Slope);
    assert_eq!(Element::from("slope".to_string()), Element::Slope);
    assert_eq!(Element::from("i".to_string()), Element::Intercept);
    assert_eq!(Element::from("intercept".to_string()), Element::Intercept);
    assert_eq!(Element::from("x".to_string()), Element::X);
    assert_eq!(Element::from("X".to_string()), Element::X);
    assert_eq!(Element::from("y".to_string()), Element::Y);
    assert_eq!(Element::from("Y".to_string()), Element::Y);
    assert_eq!(Element::from("banana".to_string()), Element::Unrecognized);
    assert_eq!(Element::from("L".to_string()), Element::Unrecognized);
    assert_eq!(Element::from("".to_string()), Element::Unrecognized);
}

#[test]
fn rat_new_bounds() {
    assert!(Rat::new(1, 0).is_none());
    assert!(Rat::new(1, -1).is_none());
    assert!(Rat::new(0x4000_0000_0000_0000, 1).is_none());
    assert!(Rat::new(1, 0x4000_0000_0000_0000).is_none());
    assert_eq!(Rat::new(-3, 2), Some(Rat { n: -3, d: 2 }));
}

#[test]
fn line_through_two_points() {
    let l = line_from_points(&rat(0, 1), &rat(0, 1), &rat(2, 1), &rat(4, 1)).unwrap();
    assert_eq!(l.m, Rat { n: 4, d: 2 });
    assert_eq!(l.q, Rat { n: 0, d: 2 });
    assert_eq!(rat_to_string(&l.m), "2");
    assert_eq!(rat_to_string(&l.q), "0");
    // the line passes through both points
    let y1 = y_from_x(&l, &rat(0, 1)).unwrap();
    assert!(y1.same_value(&rat(0, 1)));
    let y2 = y_from_x(&l, &rat(2, 1)).unwrap();
    assert!(y2.same_value(&rat(4, 1)));
}

#[test]
fn vertical_line_has_no_slope() {
    assert!(line_from_points(&rat(1, 1), &rat(1, 1), &rat(1, 1), &rat(5, 1)).is_none());
    assert!(slope(&rat(1, 1), &rat(7, 2), &rat(1, 1), &rat(9, 4)).is_none());
    // equal x values in different representations are still a vertical line
    assert!(line_from_points(&rat(1, 1), &rat(0, 1), &rat(2, 2), &rat(5, 1)).is_none());
}

#[test]
fn zero_slope_has_no_x() {
    let l = Line { m: rat(0, 1), q: rat(7, 2) };
    assert!(x_from_y(&l, &rat(10, 1)).is_none());
    assert!(x_from_y(&l, &rat(7, 2)).is_none());
}

#[test]
fn point_and_slope_passes_through_point() {
    let l = line_from_point_and_slope(&rat(3, 1), &rat(5, 1), &rat(2, 1)).unwrap();
    assert_eq!(rat_to_string(&l.q), "-1");
    let y = y_from_x(&l, &rat(3, 1)).unwrap();
    assert!(y.same_value(&rat(5, 1)));
}

#[test]
fn solve_round_trip() {
    let l = Line { m: rat(3, 2), q: rat(1, 1) };
    let x = rat(4, 1);
    let y = y_from_x(&l, &x).unwrap();
    let back = x_from_y(&l, &y).unwrap();
    assert!(back.same_value(&x));
}

#[test]
fn rendering_integers_and_fractions() {
    assert_eq!(rat_to_string(&rat(24, 6)), "4");
    assert_eq!(rat_to_string(&rat(-4, 2)), "-2");
    assert_eq!(rat_to_string(&rat(7, 3)), "7/3");
    assert_eq!(rat_to_string(&rat(-3, 2)), "-3/2");
    assert_eq!(rat_to_string(&rat(0, 5)), "0");
    assert_eq!(dec_string(1234567890), "1234567890");
    assert_eq!(dec_string(0), "0");
}

#[test]
fn arithmetic_range_exhaustion() {
    let big = rat(0x3fff_ffff_ffff_ffff, 1);
    assert!(big.checked_add(&big).is_none());
    assert!(big.checked_mul(&big).is_none());
    assert!(line_from_point_and_slope(&big, &big, &big).is_none());
}

#[test]
fn find_line_from_points() {
    let mut inp = no_inputs();
    inp.x1 = Some(rat(0, 1));
    inp.y1 = Some(rat(0, 1));
    inp.x2 = Some(rat(2, 1));
    inp.y2 = Some(rat(4, 1));
    let out = respond(&Element::Line, &inp);
    assert_eq!(out, vec!["the line equation is y = 2x + 0".to_string()]);
}

#[test]
fn find_line_from_point_and_slope() {
    let mut inp = no_inputs();
    inp.x1 = Some(rat(1, 1));
    inp.y1 = Some(rat(2, 1));
    inp.slope = Some(rat(3, 1));
    let out = respond(&Element::Line, &inp);
    assert_eq!(out, vec!["the line equation is y = 3x + -1".to_string()]);
}

#[test]
fn find_line_missing_inputs() {
    let mut inp = no_inputs();
    inp.x1 = Some(rat(1, 1));
    let out = respond(&Element::Line, &inp);
    assert_eq!(
        out,
        vec![
            "couldn't compute a line; please, check your input to specify x1, y1, x2, y2 or x1, y1, and slope"
                .to_string()
        ]
    );
}

#[test]
fn find_slope_vertical() {
    let mut inp = no_inputs();
    inp.x1 = Some(rat(1, 1));
    inp.y1 = Some(rat(1, 1));
    inp.x2 = Some(rat(1, 1));
    inp.y2 = Some(rat(5, 1));
    let out = respond(&Element::Slope, &inp);
    assert_eq!(out, vec!["couldn't compute a slope; please, check your input".to_string()]);
}

#[test]
fn find_slope_missing_inputs() {
    let out = respond(&Element::Slope, &no_inputs());
    assert_eq!(
        out,
        vec!["couldn't compute a slope; please, check your input to specify x1, y1, x2, y2".to_string()]
    );
}

#[test]
fn find_intercept_from_point_and_slope() {
    let mut inp = no_inputs();
    inp.x1 = Some(rat(3, 1));
    inp.y1 = Some(rat(5, 1));
    inp.slope = Some(rat(2, 1));
    let out = respond(&Element::Intercept, &inp);
    assert_eq!(out, vec!["the line intercept is -1".to_string()]);
}

#[test]
fn find_intercept_missing_inputs() {
    let out = respond(&Element::Intercept, &no_inputs());
    assert_eq!(
        out,
        vec![
            "couldn't compute the intercept; please, check your input to specify x1, y1, x2, y2 or x1, y1, and slope"
                .to_string()
        ]
    );
}

#[test]
fn find_x_from_slope_and_intercept() {
    let mut inp = no_inputs();
    inp.y = Some(rat(10, 1));
    inp.slope = Some(rat(2, 1));
    inp.intercept = Some(rat(0, 1));
    let out = respond(&Element::X, &inp);
    assert_eq!(out, vec!["x value when y = 10 is 5".to_string()]);
}

#[test]
fn find_x_zero_slope() {
    let mut inp = no_inputs();
    inp.y = Some(rat(10, 1));
    inp.slope = Some(rat(0, 1));
    inp.intercept = Some(rat(4, 1));
    let out = respond(&Element::X, &inp);
    assert_eq!(
        out,
        vec!["couldn't compute x; please, check your slope to be not equal to 0".to_string()]
    );
}

#[test]
fn find_x_without_y() {
    let mut inp = no_inputs();
    inp.slope = Some(rat(2, 1));
    inp.intercept = Some(rat(0, 1));
    let out = respond(&Element::X, &inp);
    assert_eq!(
        out,
        vec!["couldn't compute x; please, check your input to always specify Y".to_string()]
    );
}

#[test]
fn find_x_missing_line_inputs() {
    let mut inp = no_inputs();
    inp.y = Some(rat(10, 1));
    let out = respond(&Element::X, &inp);
    assert_eq!(
        out,
        vec![
            "couldn't compute x; please, check your input to always specify Y and then x1, y1, x2, y2 or x1, y1, and slope or slope and intercept"
                .to_string()
        ]
    );
}

#[test]
fn find_y_from_points() {
    let mut inp = no_inputs();
    inp.x = Some(rat(3, 1));
    inp.x1 = Some(rat(0, 1));
    inp.y1 = Some(rat(0, 1));
    inp.x2 = Some(rat(1, 1));
    inp.y2 = Some(rat(1, 1));
    let out = respond(&Element::Y, &inp);
    assert_eq!(
        out,
        vec![
            "the line equation is y = 1x + 0".to_string(),
            "y value when x = 3 is 3".to_string()
        ]
    );
}

#[test]
fn find_y_vertical_points() {
    let mut inp = no_inputs();
    inp.x = Some(rat(3, 1));
    inp.x1 = Some(rat(2, 1));
    inp.y1 = Some(rat(0, 1));
    inp.x2 = Some(rat(2, 1));
    inp.y2 = Some(rat(1, 1));
    let out = respond(&Element::Y, &inp);
    assert_eq!(out, vec!["couldn't compute line; please, check your input".to_string()]);
}

#[test]
fn find_y_without_x() {
    let out = respond(&Element::Y, &no_inputs());
    assert_eq!(
        out,
        vec!["couldn't compute y; please, check your input to always specify X".to_string()]
    );
}

#[test]
fn find_unrecognized_prints_help() {
    let out = respond(&Element::from("banana".to_string()), &no_inputs());
    assert_eq!(
        out,
        vec![
            "please insert ONE valid element to find, choosing from: \r 'l' or 'line \r 's' or 'slope' \r 'X' or 'x' \r 'Y' or 'y' \r 'i' or 'intercept' "
                .to_string()
        ]
    );
}

#[test]
fn find_x_from_points_prints_equation_too() {
    let mut inp = no_inputs();
    inp.y = Some(rat(4, 1));
    inp.x1 = Some(rat(0, 1));
    inp.y1 = Some(rat(0, 1));
    inp.x2 = Some(rat(1, 1));
    inp.y2 = Some(rat(2, 1));
    let out = respond(&Element::X, &inp);
    assert_eq!(
        out,
        vec![
            "the line equation is y = 2x + 0".to_string(),
            "x value when y = 4 is 2".to_string()
        ]
    );
}
