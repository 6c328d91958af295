//! Line algebra over exact rationals.
//!
//! A line is y = m*x + q. The operations compute the textbook formulas
//! exactly; a two-point slope is refused exactly when the two x values are
//! equal (a vertical line), and solving for x is refused exactly when the
//! slope is zero.

use vstd::prelude::*;

use crate::rat::c_add;
use crate::rat::c_div;
use crate::rat::c_mul;
use crate::rat::c_sub;
use crate::rat::opt_q;
use crate::rat::q_add;
use crate::rat::q_div;
use crate::rat::q_eq;
use crate::rat::q_mul;
use crate::rat::q_sub;
use crate::rat::q_wf;
use crate::rat::Q;
use crate::rat::Rat;

verus! {

/// A line at the specification level: y = m*x + q.
pub ghost struct QLine {
    pub m: Q,
    pub q: Q,
}

/// A line y = m*x + q with exact rational slope and intercept.
#[derive(Clone, Copy, Debug, PartialEq, Eq, Structural)]
pub struct Line {
    pub m: Rat,
    pub q: Rat,
}

impl View for Line {
    type V = QLine;

    open spec fn view(&self) -> QLine {
        QLine { m: self.m@, q: self.q@ }
    }
}

impl Line {
    pub open spec fn wf(self) -> bool {
        self.m.wf() && self.q.wf()
    }
}

pub open spec fn opt_line(r: Option<Line>) -> Option<QLine> {
    match r {
        Some(l) => Some(l@),
        None => None,
    }
}

/// (y2 - y1) / (x2 - x1); `None` exactly when x1 == x2 as rationals or a
/// component of the exact result does not fit.
pub open spec fn slope_spec(x1: Q, y1: Q, x2: Q, y2: Q) -> Option<Q> {
    if q_eq(x1, x2) {
        None
    } else {
        match (c_sub(y2, y1), c_sub(x2, x1)) {
            (Some(dy), Some(dx)) => c_div(dy, dx),
            _ => None,
        }
    }
}

/// y1 - m * x1; `None` exactly when a component of the exact result does
/// not fit.
pub open spec fn intercept_spec(x1: Q, y1: Q, m: Q) -> Option<Q> {
    match c_mul(m, x1) {
        Some(p) => c_sub(y1, p),
        None => None,
    }
}

/// The line through (x1, y1) and (x2, y2): slope then intercept.
pub open spec fn line_from_points_spec(x1: Q, y1: Q, x2: Q, y2: Q) -> Option<QLine> {
    match slope_spec(x1, y1, x2, y2) {
        Some(m) => match intercept_spec(x1, y1, m) {
            Some(q) => Some(QLine { m, q }),
            None => None,
        },
        None => None,
    }
}

/// The line through (x1, y1) with slope m.
pub open spec fn line_from_point_and_slope_spec(x1: Q, y1: Q, m: Q) -> Option<QLine> {
    match intercept_spec(x1, y1, m) {
        Some(q) => Some(QLine { m, q }),
        None => None,
    }
}

/// m * x + q.
pub open spec fn y_from_x_spec(l: QLine, x: Q) -> Option<Q> {
    match c_mul(l.m, x) {
        Some(p) => c_add(p, l.q),
        None => None,
    }
}

/// (y - q) / m; `None` exactly when the slope is zero or a component of
/// the exact result does not fit.
pub open spec fn x_from_y_spec(l: QLine, y: Q) -> Option<Q> {
    match c_sub(y, l.q) {
        Some(p) => c_div(p, l.m),
        None => None,
    }
}

/// The slope of the line through two points. `None` when the two x values
/// are equal (a vertical line has no slope) or on range exhaustion.
pub fn slope(x1: &Rat, y1: &Rat, x2: &Rat, y2: &Rat) -> (r: Option<Rat>)
    requires
        x1.wf(),
        y1.wf(),
        x2.wf(),
        y2.wf(),
    ensures
        opt_q(r) == slope_spec(x1@, y1@, x2@, y2@),
        r matches Some(v) ==> v.wf(),
        q_eq(x1@, x2@) ==> r is None,
{
    if x1.same_value(x2) {
        return None;
    }
    let dy = match y2.checked_sub(y1) {
        Some(v) => v,
        None => {
            return None;
        },
    };
    let dx = match x2.checked_sub(x1) {
        Some(v) => v,
        None => {
            return None;
        },
    };
    dy.checked_div(&dx)
}

/// The intercept of a line through (x1, y1) with slope m: y1 - m * x1.
/// `None` only on range exhaustion.
pub fn intercept(x1: &Rat, y1: &Rat, m: &Rat) -> (r: Option<Rat>)
    requires
        x1.wf(),
        y1.wf(),
        m.wf(),
    ensures
        opt_q(r) == intercept_spec(x1@, y1@, m@),
        r matches Some(v) ==> v.wf(),
{
    let p = match m.checked_mul(x1) {
        Some(v) => v,
        None => {
            return None;
        },
    };
    y1.checked_sub(&p)
}

/// The line through (x1, y1) and (x2, y2). `None` when x1 == x2 (vertical
/// line, undefined slope) or on range exhaustion.
pub fn line_from_points(x1: &Rat, y1: &Rat, x2: &Rat, y2: &Rat) -> (r: Option<Line>)
    requires
        x1.wf(),
        y1.wf(),
        x2.wf(),
        y2.wf(),
    ensures
        opt_line(r) == line_from_points_spec(x1@, y1@, x2@, y2@),
        r matches Some(l) ==> l.wf(),
        q_eq(x1@, x2@) ==> r is None,
{
    let m = match slope(x1, y1, x2, y2) {
        Some(v) => v,
        None => {
            return None;
        },
    };
    let q = match intercept(x1, y1, &m) {
        Some(v) => v,
        None => {
            return None;
        },
    };
    Some(Line { m, q })
}

/// The line through (x1, y1) with slope m. `None` only on range
/// exhaustion; any slope, zero included, is valid.
pub fn line_from_point_and_slope(x1: &Rat, y1: &Rat, m: &Rat) -> (r: Option<Line>)
    requires
        x1.wf(),
        y1.wf(),
        m.wf(),
    ensures
        opt_line(r) == line_from_point_and_slope_spec(x1@, y1@, m@),
        r matches Some(l) ==> l.wf(),
{
    let q = match intercept(x1, y1, m) {
        Some(v) => v,
        None => {
            return None;
        },
    };
    Some(Line { m: *m, q })
}

/// y = m * x + q. `None` only on range exhaustion.
pub fn y_from_x(l: &Line, x: &Rat) -> (r: Option<Rat>)
    requires
        l.wf(),
        x.wf(),
    ensures
        opt_q(r) == y_from_x_spec(l@, x@),
        r matches Some(v) ==> v.wf(),
{
    let p = match l.m.checked_mul(x) {
        Some(v) => v,
        None => {
            return None;
        },
    };
    p.checked_add(&l.q)
}

/// x = (y - q) / m. `None` when the slope is zero (no unique x) or on
/// range exhaustion.
pub fn x_from_y(l: &Line, y: &Rat) -> (r: Option<Rat>)
    requires
        l.wf(),
        y.wf(),
    ensures
        opt_q(r) == x_from_y_spec(l@, y@),
        r matches Some(v) ==> v.wf(),
        l@.m.n == 0 ==> r is None,
{
    let p = match y.checked_sub(&l.q) {
        Some(v) => v,
        None => {
            return None;
        },
    };
    p.checked_div(&l.m)
}

/// Core identity: if q is exactly y1 - m*x1, then m*x1 + q and y1 are the
/// same rational.
proof fn lemma_intercept_cancels(
    x1n: int,
    x1d: int,
    y1n: int,
    y1d: int,
    mn: int,
    md: int,
    qn: int,
    qd: int,
)
    requires
        qn == y1n * (md * x1d) - (mn * x1n) * y1d,
        qd == y1d * (md * x1d),
    ensures
        ((mn * x1n) * qd + qn * (md * x1d)) * y1d == y1n * ((md * x1d) * qd),
{
    broadcast use vstd::arithmetic::mul::group_mul_properties;

}

/// Core identity: if v relates to b/a + q by cross-multiplication, with a
/// and b standing for the products m.d*x.d and m.n*x.n, then v - q
/// cross-relates back to b/a.
proof fn lemma_solve_back_core(a: int, b: int, qn: int, qd: int, vn: int, vd: int)
    requires
        vn * (a * qd) == (b * qd + qn * a) * vd,
    ensures
        (vn * qd - qn * vd) * a == b * (vd * qd),
{
    broadcast use vstd::arithmetic::mul::group_mul_properties;

}

/// Regrouping step: substitute the intercept pair and gather the slope
/// factor. p stands for b*x1d and c for b*x2d.
proof fn lemma_gather(a: int, x2n: int, y1d: int, p: int, y1n: int, x1n: int, c: int)
    ensures
        (a * x2n) * (y1d * p) + (y1n * p - (a * x1n) * y1d) * c == a * (y1d * (x2n * p - x1n * c))
            + (y1n * p) * c,
{
    broadcast use vstd::arithmetic::mul::group_mul_properties;

}

/// Distributivity: the common factor b comes out of the point difference.
proof fn lemma_common_factor(x2n: int, b: int, x1d: int, x1n: int, x2d: int)
    ensures
        x2n * (b * x1d) - x1n * (b * x2d) == b * (x2n * x1d - x1n * x2d),
{
    broadcast use vstd::arithmetic::mul::group_mul_properties;

}

/// Distributivity over a sum.
proof fn lemma_distribute(x: int, y: int, z: int)
    ensures
        (x + y) * z == x * z + y * z,
{
    broadcast use vstd::arithmetic::mul::group_mul_properties;

}

/// Product rearrangement.
proof fn lemma_regroup_slope(a: int, y1d: int, b: int, t: int, y2d: int)
    ensures
        (a * (y1d * (b * t))) * y2d == b * (a * ((y2d * y1d) * t)),
{
    broadcast use vstd::arithmetic::mul::group_mul_properties;

}

/// Product rearrangement.
proof fn lemma_regroup_rest(y1n: int, b: int, x1d: int, x2d: int, y2d: int)
    ensures
        ((y1n * (b * x1d)) * (b * x2d)) * y2d == b * (b * (y2d * (y1n * (x1d * x2d)))),
{
    broadcast use vstd::arithmetic::mul::group_mul_properties;

}

/// Collecting both summands over the common factor b*b*(x1d*x2d).
proof fn lemma_collect(s: int, b: int, x1d: int, x2d: int, y2d: int, y1n: int)
    ensures
        b * ((s * (x2d * x1d)) * b) + b * (b * (y2d * (y1n * (x1d * x2d)))) == ((s + y2d * y1n) * (
        x1d * x2d)) * (b * b),
{
    broadcast use vstd::arithmetic::mul::group_mul_properties;

}

/// Product rearrangement.
proof fn lemma_regroup_goal(y2n: int, y1d: int, x1d: int, x2d: int, b: int)
    ensures
        ((y2n * y1d) * (x1d * x2d)) * (b * b) == y2n * ((b * x2d) * (y1d * (b * x1d))),
{
    broadcast use vstd::arithmetic::mul::group_mul_properties;

}

/// The division pair cross-relates to the raw quotient whatever the
/// divisor's sign.
proof fn lemma_div_cross(a: Q, b: Q)
    ensures
        q_div(a, b).n * (a.d * b.n) == (a.n * b.d) * q_div(a, b).d,
{
    if b.n < 0 {
        assert((-(a.n * b.d)) * (a.d * b.n) == (a.n * b.d) * (-(a.d * b.n))) by (nonlinear_arith);
    }
}

/// The line that `line_from_point_and_slope` yields passes through the
/// given point: m*x1 + q is the same rational as y1, both in the total
/// algebra and through the checked evaluation.
pub proof fn lemma_point_slope_line_through_point(x1: Q, y1: Q, m: Q, l: QLine)
    requires
        q_wf(x1),
        q_wf(y1),
        q_wf(m),
        line_from_point_and_slope_spec(x1, y1, m) == Some(l),
    ensures
        q_eq(q_add(q_mul(l.m, x1), l.q), y1),
        y_from_x_spec(l, x1) matches Some(v) ==> q_eq(v, y1),
{
    assert(l.m == m && l.q == q_sub(y1, q_mul(m, x1)));
    lemma_intercept_cancels(x1.n, x1.d, y1.n, y1.d, m.n, m.d, l.q.n, l.q.d);
}

/// The line that `line_from_points` yields passes through both points:
/// m*x1 + q equals y1 and m*x2 + q equals y2, as rationals.
pub proof fn lemma_line_through_points(x1: Q, y1: Q, x2: Q, y2: Q, l: QLine)
    requires
        q_wf(x1),
        q_wf(y1),
        q_wf(x2),
        q_wf(y2),
        line_from_points_spec(x1, y1, x2, y2) == Some(l),
    ensures
        q_eq(q_add(q_mul(l.m, x1), l.q), y1),
        q_eq(q_add(q_mul(l.m, x2), l.q), y2),
        y_from_x_spec(l, x1) matches Some(v1) ==> q_eq(v1, y1),
        y_from_x_spec(l, x2) matches Some(v2) ==> q_eq(v2, y2),
{
    let dy = q_sub(y2, y1);
    let dx = q_sub(x2, x1);
    assert(l.m == q_div(dy, dx));
    assert(l.q == q_sub(y1, q_mul(l.m, x1)));
    lemma_div_cross(dy, dx);
    let tn = x2.n * x1.d - x1.n * x2.d;
    let sn = y2.n * y1.d - y1.n * y2.d;
    assert(l.m.n * ((y2.d * y1.d) * tn) == (sn * (x2.d * x1.d)) * l.m.d);
    lemma_intercept_cancels(x1.n, x1.d, y1.n, y1.d, l.m.n, l.m.d, l.q.n, l.q.d);
    // m*x2 + q cross-relates to y2: substitute the intercept pair, pull the
    // slope relation in, and cancel. Each rearrangement is its own small
    // nonlinear step; plain equalities glue them together.
    let a = l.m.n;
    let b = l.m.d;
    let u = (a * x2.n) * l.q.d + l.q.n * (b * x2.d);
    lemma_gather(a, x2.n, y1.d, b * x1.d, y1.n, x1.n, b * x2.d);
    assert(u == a * (y1.d * (x2.n * (b * x1.d) - x1.n * (b * x2.d))) + (y1.n * (b * x1.d)) * (b
        * x2.d));
    lemma_common_factor(x2.n, b, x1.d, x1.n, x2.d);
    assert(u == a * (y1.d * (b * tn)) + (y1.n * (b * x1.d)) * (b * x2.d));
    lemma_distribute(a * (y1.d * (b * tn)), (y1.n * (b * x1.d)) * (b * x2.d), y2.d);
    lemma_regroup_slope(a, y1.d, b, tn, y2.d);
    lemma_regroup_rest(y1.n, b, x1.d, x2.d, y2.d);
    assert(u * y2.d == b * ((sn * (x2.d * x1.d)) * b) + b * (b * (y2.d * (y1.n * (x1.d * x2.d)))));
    lemma_collect(sn, b, x1.d, x2.d, y2.d, y1.n);
    assert(sn + y2.d * y1.n == y2.n * y1.d) by (nonlinear_arith)
        requires
            sn == y2.n * y1.d - y1.n * y2.d,
    ;
    lemma_regroup_goal(y2.n, y1.d, x1.d, x2.d, b);
    assert(u * y2.d == y2.n * ((b * x2.d) * l.q.d));
}

/// Round trip: solving y = m*x + q back for x recovers x whenever the
/// slope is not zero, both in the total algebra and through the checked
/// evaluation.
pub proof fn lemma_solve_round_trip(l: QLine, x: Q)
    requires
        q_wf(l.m),
        q_wf(l.q),
        q_wf(x),
        l.m.n != 0,
    ensures
        q_eq(q_div(q_sub(q_add(q_mul(l.m, x), l.q), l.q), l.m), x),
        match y_from_x_spec(l, x) {
            Some(v) => match x_from_y_spec(l, v) {
                Some(xr) => q_eq(xr, x),
                None => true,
            },
            None => true,
        },
{
    let v = q_add(q_mul(l.m, x), l.q);
    assert(v.n * ((l.m.d * x.d) * l.q.d) == ((l.m.n * x.n) * l.q.d + l.q.n * (l.m.d * x.d))
        * v.d) by (nonlinear_arith)
        requires
            v.n == (l.m.n * x.n) * l.q.d + l.q.n * (l.m.d * x.d),
            v.d == (l.m.d * x.d) * l.q.d,
    ;
    lemma_solve_back_core(l.m.d * x.d, l.m.n * x.n, l.q.n, l.q.d, v.n, v.d);
    let p = q_sub(v, l.q);
    assert((p.n * l.m.d) * x.d == x.n * (p.d * l.m.n)) by (nonlinear_arith)
        requires
            p.n * (l.m.d * x.d) == (l.m.n * x.n) * p.d,
            p.n == v.n * l.q.d - l.q.n * v.d,
            p.d == v.d * l.q.d,
    ;
    assert(v.d > 0 && p.d > 0) by (nonlinear_arith)
        requires
            l.m.d > 0,
            l.q.d > 0,
            x.d > 0,
            v.d == (l.m.d * x.d) * l.q.d,
            p.d == v.d * l.q.d,
    ;
    lemma_rel_to_eq(p, l.m, x);
    match y_from_x_spec(l, x) {
        Some(w) => {
            assert(w == v);
            match x_from_y_spec(l, w) {
                Some(xr) => {
                    assert(xr == q_div(p, l.m));
                },
                None => {},
            }
        },
        None => {},
    }
}

/// If the raw quotient of p by m cross-relates to x, so does the
/// sign-normalized quotient.
proof fn lemma_rel_to_eq(p: Q, m: Q, x: Q)
    requires
        m.n != 0,
        p.d != 0,
        (p.n * m.d) * x.d == x.n * (p.d * m.n),
    ensures
        q_eq(q_div(p, m), x),
{
    lemma_div_cross(p, m);
    let r = q_div(p, m);
    assert(r.n * x.d == x.n * r.d) by (nonlinear_arith)
        requires
            m.n != 0,
            p.d != 0,
            (p.n * m.d) * x.d == x.n * (p.d * m.n),
            r.n * (p.d * m.n) == (p.n * m.d) * r.d,
    ;
}

} // verus!
