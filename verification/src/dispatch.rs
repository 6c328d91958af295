//! Input resolution and dispatch.
//!
//! Given the element the user asked for and whichever optional scalars were
//! supplied, decide whether a line can be resolved (two points first, then
//! point and slope, then - for solving only - slope and intercept), apply
//! the algebra, and produce the exact lines of text to print.

use vstd::prelude::*;
use vstd::string::StringExecFns;

use crate::algebra::line_from_point_and_slope;
use crate::algebra::line_from_point_and_slope_spec;
use crate::algebra::line_from_points;
use crate::algebra::line_from_points_spec;
use crate::algebra::slope;
use crate::algebra::slope_spec;
use crate::algebra::x_from_y;
use crate::algebra::x_from_y_spec;
use crate::algebra::y_from_x;
use crate::algebra::y_from_x_spec;
use crate::algebra::Line;
use crate::algebra::QLine;
use crate::numstr::rat_seq;
use crate::numstr::rat_to_string;
use crate::rat::opt_q;
use crate::rat::Q;
use crate::rat::Rat;

verus! {

/// Which property of the line the user asked for.
#[derive(Clone, Copy, Debug, PartialEq, Eq, Structural)]
pub enum Element {
    Line,
    X,
    Y,
    Slope,
    Intercept,
    Unrecognized,
}

/// The element a selector string names; anything unknown maps to
/// `Unrecognized`.
pub open spec fn element_of(s: Seq<char>) -> Element {
    if s == "l"@ || s == "line"@ {
        Element::Line
    } else if s == "s"@ || s == "slope"@ {
        Element::Slope
    } else if s == "i"@ || s == "intercept"@ {
        Element::Intercept
    } else if s == "x"@ || s == "X"@ {
        Element::X
    } else if s == "y"@ || s == "Y"@ {
        Element::Y
    } else {
        Element::Unrecognized
    }
}

impl core::convert::From<String> for Element {
    fn from(s: String) -> (r: Element) {
        if s == String::from_str("l") || s == String::from_str("line") {
            Element::Line
        } else if s == String::from_str("s") || s == String::from_str("slope") {
            Element::Slope
        } else if s == String::from_str("i") || s == String::from_str("intercept") {
            Element::Intercept
        } else if s == String::from_str("x") || s == String::from_str("X") {
            Element::X
        } else if s == String::from_str("y") || s == String::from_str("Y") {
            Element::Y
        } else {
            Element::Unrecognized
        }
    }
}

impl vstd::std_specs::convert::FromSpecImpl<String> for Element {
    open spec fn obeys_from_spec() -> bool {
        true
    }

    open spec fn from_spec(s: String) -> Element {
        element_of(s@)
    }
}

/// The optional scalars the user supplied.
#[derive(Clone, Copy, Debug)]
pub struct Inputs {
    pub x1: Option<Rat>,
    pub y1: Option<Rat>,
    pub x2: Option<Rat>,
    pub y2: Option<Rat>,
    pub x: Option<Rat>,
    pub y: Option<Rat>,
    pub slope: Option<Rat>,
    pub intercept: Option<Rat>,
}

/// The supplied scalars at the specification level.
pub ghost struct QInputs {
    pub x1: Option<Q>,
    pub y1: Option<Q>,
    pub x2: Option<Q>,
    pub y2: Option<Q>,
    pub x: Option<Q>,
    pub y: Option<Q>,
    pub slope: Option<Q>,
    pub intercept: Option<Q>,
}

impl View for Inputs {
    type V = QInputs;

    open spec fn view(&self) -> QInputs {
        QInputs {
            x1: opt_q(self.x1),
            y1: opt_q(self.y1),
            x2: opt_q(self.x2),
            y2: opt_q(self.y2),
            x: opt_q(self.x),
            y: opt_q(self.y),
            slope: opt_q(self.slope),
            intercept: opt_q(self.intercept),
        }
    }
}

pub open spec fn opt_wf(o: Option<Rat>) -> bool {
    match o {
        Some(v) => v.wf(),
        None => true,
    }
}

fn opt_well_formed(o: &Option<Rat>) -> (r: bool)
    ensures
        r == opt_wf(*o),
{
    match o {
        Some(v) => v.is_well_formed(),
        None => true,
    }
}

impl Inputs {
    pub open spec fn wf(self) -> bool {
        &&& opt_wf(self.x1)
        &&& opt_wf(self.y1)
        &&& opt_wf(self.x2)
        &&& opt_wf(self.y2)
        &&& opt_wf(self.x)
        &&& opt_wf(self.y)
        &&& opt_wf(self.slope)
        &&& opt_wf(self.intercept)
    }

    /// What `wf` says, decided at run time for callers outside the library.
    pub fn is_well_formed(&self) -> (r: bool)
        ensures
            r == self.wf(),
    {
        opt_well_formed(&self.x1) && opt_well_formed(&self.y1) && opt_well_formed(&self.x2)
            && opt_well_formed(&self.y2) && opt_well_formed(&self.x) && opt_well_formed(&self.y)
            && opt_well_formed(&self.slope) && opt_well_formed(&self.intercept)
    }
}

pub open spec fn equation_msg(m: Q, q: Q) -> Seq<char> {
    "the line equation is y = "@ + rat_seq(m) + "x + "@ + rat_seq(q)
}

pub open spec fn slope_msg(m: Q) -> Seq<char> {
    "the slope is "@ + rat_seq(m)
}

pub open spec fn intercept_msg(q: Q) -> Seq<char> {
    "the line intercept is "@ + rat_seq(q)
}

pub open spec fn x_value_msg(y: Q, x: Q) -> Seq<char> {
    "x value when y = "@ + rat_seq(y) + " is "@ + rat_seq(x)
}

pub open spec fn y_value_msg(x: Q, y: Q) -> Seq<char> {
    "y value when x = "@ + rat_seq(x) + " is "@ + rat_seq(y)
}

pub open spec fn help_msg() -> Seq<char> {
    "please insert ONE valid element to find, choosing from: \r 'l' or 'line \r 's' or 'slope' \r 'X' or 'x' \r 'Y' or 'y' \r 'i' or 'intercept' "@
}

/// What is printed for `--find line`.
pub open spec fn line_response(i: QInputs) -> Seq<Seq<char>> {
    match (i.x1, i.y1, i.x2, i.y2) {
        (Some(x1), Some(y1), Some(x2), Some(y2)) => match line_from_points_spec(x1, y1, x2, y2) {
            Some(l) => seq![equation_msg(l.m, l.q)],
            None => seq!["couldn't compute a line; please, check your input"@],
        },
        _ => match (i.x1, i.y1, i.slope) {
            (Some(x1), Some(y1), Some(m)) => match line_from_point_and_slope_spec(x1, y1, m) {
                Some(l) => seq![equation_msg(l.m, l.q)],
                None => seq!["couldn't compute a line; please, check your input"@],
            },
            _ => seq![
                "couldn't compute a line; please, check your input to specify x1, y1, x2, y2 or x1, y1, and slope"@,
            ],
        },
    }
}

/// What is printed for `--find slope`.
pub open spec fn slope_response(i: QInputs) -> Seq<Seq<char>> {
    match (i.x1, i.y1, i.x2, i.y2) {
        (Some(x1), Some(y1), Some(x2), Some(y2)) => match slope_spec(x1, y1, x2, y2) {
            Some(m) => seq![slope_msg(m)],
            None => seq!["couldn't compute a slope; please, check your input"@],
        },
        _ => seq!["couldn't compute a slope; please, check your input to specify x1, y1, x2, y2"@],
    }
}

/// What is printed for `--find intercept`.
pub open spec fn intercept_response(i: QInputs) -> Seq<Seq<char>> {
    match (i.x1, i.y1, i.x2, i.y2) {
        (Some(x1), Some(y1), Some(x2), Some(y2)) => match line_from_points_spec(x1, y1, x2, y2) {
            Some(l) => seq![intercept_msg(l.q)],
            None => seq!["couldn't compute a line; please, check your input"@],
        },
        _ => match (i.x1, i.y1, i.slope) {
            (Some(x1), Some(y1), Some(m)) => match line_from_point_and_slope_spec(x1, y1, m) {
                Some(l) => seq![intercept_msg(l.q)],
                None => seq!["couldn't compute the intercept; please, check your input"@],
            },
            _ => seq![
                "couldn't compute the intercept; please, check your input to specify x1, y1, x2, y2 or x1, y1, and slope"@,
            ],
        },
    }
}

/// The line or lines printed once a line is at hand and x is solved for.
pub open spec fn x_solve_tail(l: QLine, yv: Q) -> Seq<Seq<char>> {
    match x_from_y_spec(l, yv) {
        Some(xv) => seq![x_value_msg(yv, xv)],
        None => if l.m.n == 0 {
            seq!["couldn't compute x; please, check your slope to be not equal to 0"@]
        } else {
            seq!["couldn't compute x; please, check your input"@]
        },
    }
}

/// What is printed for `--find x`.
pub open spec fn x_response(i: QInputs) -> Seq<Seq<char>> {
    match i.y {
        Some(yv) => match (i.x1, i.y1, i.x2, i.y2) {
            (Some(x1), Some(y1), Some(x2), Some(y2)) => match line_from_points_spec(
                x1,
                y1,
                x2,
                y2,
            ) {
                Some(l) => seq![equation_msg(l.m, l.q)] + x_solve_tail(l, yv),
                None => seq!["couldn't compute line; please, check your input"@],
            },
            _ => match (i.x1, i.y1, i.slope) {
                (Some(x1), Some(y1), Some(m)) => match line_from_point_and_slope_spec(x1, y1, m) {
                    Some(l) => seq![equation_msg(l.m, l.q)] + x_solve_tail(l, yv),
                    None => seq!["couldn't compute line; please, check your input"@],
                },
                _ => match (i.slope, i.intercept) {
                    (Some(m), Some(q)) => x_solve_tail(QLine { m, q }, yv),
                    _ => seq![
                        "couldn't compute x; please, check your input to always specify Y and then x1, y1, x2, y2 or x1, y1, and slope or slope and intercept"@,
                    ],
                },
            },
        },
        None => seq!["couldn't compute x; please, check your input to always specify Y"@],
    }
}

/// The line printed once a line is at hand and y is evaluated.
pub open spec fn y_solve_tail(l: QLine, xv: Q) -> Seq<Seq<char>> {
    match y_from_x_spec(l, xv) {
        Some(yv) => seq![y_value_msg(xv, yv)],
        None => seq!["couldn't compute y; please, check your input"@],
    }
}

/// What is printed for `--find y`.
pub open spec fn y_response(i: QInputs) -> Seq<Seq<char>> {
    match i.x {
        Some(xv) => match (i.x1, i.y1, i.x2, i.y2) {
            (Some(x1), Some(y1), Some(x2), Some(y2)) => match line_from_points_spec(
                x1,
                y1,
                x2,
                y2,
            ) {
                Some(l) => seq![equation_msg(l.m, l.q)] + y_solve_tail(l, xv),
                None => seq!["couldn't compute line; please, check your input"@],
            },
            _ => match (i.x1, i.y1, i.slope) {
                (Some(x1), Some(y1), Some(m)) => match line_from_point_and_slope_spec(x1, y1, m) {
                    Some(l) => seq![equation_msg(l.m, l.q)] + y_solve_tail(l, xv),
                    None => seq!["couldn't compute line; please, check your input"@],
                },
                _ => match (i.slope, i.intercept) {
                    (Some(m), Some(q)) => y_solve_tail(QLine { m, q }, xv),
                    _ => seq![
                        "couldn't compute y; please, check your input to always specify X and then x1, y1, x2, y2 or x1, y1, and slope or slope and intercept"@,
                    ],
                },
            },
        },
        None => seq!["couldn't compute y; please, check your input to always specify X"@],
    }
}

/// Everything the tool prints for one invocation, in order.
pub open spec fn response(e: Element, i: QInputs) -> Seq<Seq<char>> {
    match e {
        Element::Line => line_response(i),
        Element::Slope => slope_response(i),
        Element::Intercept => intercept_response(i),
        Element::X => x_response(i),
        Element::Y => y_response(i),
        Element::Unrecognized => seq![help_msg()],
    }
}

pub open spec fn lines_view(v: Vec<String>) -> Seq<Seq<char>> {
    v@.map_values(|s: String| s@)
}

fn one_line(s: String) -> (v: Vec<String>)
    ensures
        lines_view(v) == seq![s@],
{
    let mut v: Vec<String> = Vec::new();
    v.push(s);
    proof {
        assert(lines_view(v) =~= seq![v@[0]@]);
    }
    v
}

fn two_lines(a: String, b: String) -> (v: Vec<String>)
    ensures
        lines_view(v) == seq![a@, b@],
{
    let mut v: Vec<String> = Vec::new();
    v.push(a);
    v.push(b);
    proof {
        assert(lines_view(v) =~= seq![v@[0]@, v@[1]@]);
    }
    v
}

fn equation_string(m: &Rat, q: &Rat) -> (s: String)
    requires
        m.wf(),
        q.wf(),
    ensures
        s@ == equation_msg(m@, q@),
{
    let mut s = String::from_str("the line equation is y = ");
    let ms = rat_to_string(m);
    s.append(ms.as_str());
    s.append("x + ");
    let qs = rat_to_string(q);
    s.append(qs.as_str());
    s
}

fn slope_string(m: &Rat) -> (s: String)
    requires
        m.wf(),
    ensures
        s@ == slope_msg(m@),
{
    let mut s = String::from_str("the slope is ");
    let ms = rat_to_string(m);
    s.append(ms.as_str());
    s
}

fn intercept_string(q: &Rat) -> (s: String)
    requires
        q.wf(),
    ensures
        s@ == intercept_msg(q@),
{
    let mut s = String::from_str("the line intercept is ");
    let qs = rat_to_string(q);
    s.append(qs.as_str());
    s
}

fn x_value_string(y: &Rat, x: &Rat) -> (s: String)
    requires
        y.wf(),
        x.wf(),
    ensures
        s@ == x_value_msg(y@, x@),
{
    let mut s = String::from_str("x value when y = ");
    let ys = rat_to_string(y);
    s.append(ys.as_str());
    s.append(" is ");
    let xs = rat_to_string(x);
    s.append(xs.as_str());
    s
}

fn y_value_string(x: &Rat, y: &Rat) -> (s: String)
    requires
        x.wf(),
        y.wf(),
    ensures
        s@ == y_value_msg(x@, y@),
{
    let mut s = String::from_str("y value when x = ");
    let xs = rat_to_string(x);
    s.append(xs.as_str());
    s.append(" is ");
    let ys = rat_to_string(y);
    s.append(ys.as_str());
    s
}

/// Solve for x on a resolved line and phrase the outcome, with the zero
/// slope guidance when that is what blocked the solve.
fn x_tail_string(l: &Line, yv: &Rat) -> (s: String)
    requires
        l.wf(),
        yv.wf(),
    ensures
        seq![s@] == x_solve_tail(l@, yv@),
{
    match x_from_y(l, yv) {
        Some(xv) => x_value_string(yv, &xv),
        None => {
            if l.m.is_zero() {
                String::from_str("couldn't compute x; please, check your slope to be not equal to 0")
            } else {
                String::from_str("couldn't compute x; please, check your input")
            }
        },
    }
}

/// Evaluate y on a resolved line and phrase the outcome.
fn y_tail_string(l: &Line, xv: &Rat) -> (s: String)
    requires
        l.wf(),
        xv.wf(),
    ensures
        seq![s@] == y_solve_tail(l@, xv@),
{
    match y_from_x(l, xv) {
        Some(yv) => y_value_string(xv, &yv),
        None => String::from_str("couldn't compute y; please, check your input"),
    }
}

/// The whole invocation: resolve a line from whichever inputs are present,
/// apply the algebra the requested element asks for, and hand back the
/// exact lines of text to print, in order.
pub fn respond(e: &Element, inp: &Inputs) -> (out: Vec<String>)
    requires
        inp.wf(),
    ensures
        lines_view(out) == response(*e, inp@),
{
    match e {
        Element::Line => {
            if inp.x1.is_some() && inp.y1.is_some() && inp.x2.is_some() && inp.y2.is_some() {
                let x1 = inp.x1.unwrap();
                let y1 = inp.y1.unwrap();
                let x2 = inp.x2.unwrap();
                let y2 = inp.y2.unwrap();
                match line_from_points(&x1, &y1, &x2, &y2) {
                    Some(l) => one_line(equation_string(&l.m, &l.q)),
                    None => one_line(
                        String::from_str("couldn't compute a line; please, check your input"),
                    ),
                }
            } else if inp.x1.is_some() && inp.y1.is_some() && inp.slope.is_some() {
                let x1 = inp.x1.unwrap();
                let y1 = inp.y1.unwrap();
                let m = inp.slope.unwrap();
                match line_from_point_and_slope(&x1, &y1, &m) {
                    Some(l) => one_line(equation_string(&l.m, &l.q)),
                    None => one_line(
                        String::from_str("couldn't compute a line; please, check your input"),
                    ),
                }
            } else {
                one_line(
                    String::from_str(
                        "couldn't compute a line; please, check your input to specify x1, y1, x2, y2 or x1, y1, and slope",
                    ),
                )
            }
        },
        Element::Slope => {
            if inp.x1.is_some() && inp.y1.is_some() && inp.x2.is_some() && inp.y2.is_some() {
                let x1 = inp.x1.unwrap();
                let y1 = inp.y1.unwrap();
                let x2 = inp.x2.unwrap();
                let y2 = inp.y2.unwrap();
                match slope(&x1, &y1, &x2, &y2) {
                    Some(m) => one_line(slope_string(&m)),
                    None => one_line(
                        String::from_str("couldn't compute a slope; please, check your input"),
                    ),
                }
            } else {
                one_line(
                    String::from_str(
                        "couldn't compute a slope; please, check your input to specify x1, y1, x2, y2",
                    ),
                )
            }
        },
        Element::Intercept => {
            if inp.x1.is_some() && inp.y1.is_some() && inp.x2.is_some() && inp.y2.is_some() {
                let x1 = inp.x1.unwrap();
                let y1 = inp.y1.unwrap();
                let x2 = inp.x2.unwrap();
                let y2 = inp.y2.unwrap();
                match line_from_points(&x1, &y1, &x2, &y2) {
                    Some(l) => one_line(intercept_string(&l.q)),
                    None => one_line(
                        String::from_str("couldn't compute a line; please, check your input"),
                    ),
                }
            } else if inp.x1.is_some() && inp.y1.is_some() && inp.slope.is_some() {
                let x1 = inp.x1.unwrap();
                let y1 = inp.y1.unwrap();
                let m = inp.slope.unwrap();
                match line_from_point_and_slope(&x1, &y1, &m) {
                    Some(l) => one_line(intercept_string(&l.q)),
                    None => one_line(
                        String::from_str("couldn't compute the intercept; please, check your input"),
                    ),
                }
            } else {
                one_line(
                    String::from_str(
                        "couldn't compute the intercept; please, check your input to specify x1, y1, x2, y2 or x1, y1, and slope",
                    ),
                )
            }
        },
        Element::X => {
            if inp.y.is_some() {
                let yv = inp.y.unwrap();
                if inp.x1.is_some() && inp.y1.is_some() && inp.x2.is_some() && inp.y2.is_some() {
                    let x1 = inp.x1.unwrap();
                    let y1 = inp.y1.unwrap();
                    let x2 = inp.x2.unwrap();
                    let y2 = inp.y2.unwrap();
                    match line_from_points(&x1, &y1, &x2, &y2) {
                        Some(l) => two_lines(
                            equation_string(&l.m, &l.q),
                            x_tail_string(&l, &yv),
                        ),
                        None => one_line(
                            String::from_str("couldn't compute line; please, check your input"),
                        ),
                    }
                } else if inp.x1.is_some() && inp.y1.is_some() && inp.slope.is_some() {
                    let x1 = inp.x1.unwrap();
                    let y1 = inp.y1.unwrap();
                    let m = inp.slope.unwrap();
                    match line_from_point_and_slope(&x1, &y1, &m) {
                        Some(l) => two_lines(
                            equation_string(&l.m, &l.q),
                            x_tail_string(&l, &yv),
                        ),
                        None => one_line(
                            String::from_str("couldn't compute line; please, check your input"),
                        ),
                    }
                } else if inp.slope.is_some() && inp.intercept.is_some() {
                    let l = Line { m: inp.slope.unwrap(), q: inp.intercept.unwrap() };
                    one_line(x_tail_string(&l, &yv))
                } else {
                    one_line(
                        String::from_str(
                            "couldn't compute x; please, check your input to always specify Y and then x1, y1, x2, y2 or x1, y1, and slope or slope and intercept",
                        ),
                    )
                }
            } else {
                one_line(
                    String::from_str("couldn't compute x; please, check your input to always specify Y"),
                )
            }
        },
        Element::Y => {
            if inp.x.is_some() {
                let xv = inp.x.unwrap();
                if inp.x1.is_some() && inp.y1.is_some() && inp.x2.is_some() && inp.y2.is_some() {
                    let x1 = inp.x1.unwrap();
                    let y1 = inp.y1.unwrap();
                    let x2 = inp.x2.unwrap();
                    let y2 = inp.y2.unwrap();
                    match line_from_points(&x1, &y1, &x2, &y2) {
                        Some(l) => two_lines(
                            equation_string(&l.m, &l.q),
                            y_tail_string(&l, &xv),
                        ),
                        None => one_line(
                            String::from_str("couldn't compute line; please, check your input"),
                        ),
                    }
                } else if inp.x1.is_some() && inp.y1.is_some() && inp.slope.is_some() {
                    let x1 = inp.x1.unwrap();
                    let y1 = inp.y1.unwrap();
                    let m = inp.slope.unwrap();
                    match line_from_point_and_slope(&x1, &y1, &m) {
                        Some(l) => two_lines(
                            equation_string(&l.m, &l.q),
                            y_tail_string(&l, &xv),
                        ),
                        None => one_line(
                            String::from_str("couldn't compute line; please, check your input"),
                        ),
                    }
                } else if inp.slope.is_some() && inp.intercept.is_some() {
                    let l = Line { m: inp.slope.unwrap(), q: inp.intercept.unwrap() };
                    one_line(y_tail_string(&l, &xv))
                } else {
                    one_line(
                        String::from_str(
                            "couldn't compute y; please, check your input to always specify X and then x1, y1, x2, y2 or x1, y1, and slope or slope and intercept",
                        ),
                    )
                }
            } else {
                one_line(
                    String::from_str("couldn't compute y; please, check your input to always specify X"),
                )
            }
        },
        Element::Unrecognized => {
            one_line(
                String::from_str(
                    "please insert ONE valid element to find, choosing from: \r 'l' or 'line \r 's' or 'slope' \r 'X' or 'x' \r 'Y' or 'y' \r 'i' or 'intercept' ",
                ),
            )
        },
    }
}

} // verus!
