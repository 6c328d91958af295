//! Exact rational numbers.
//!
//! Every quantity the line algebra touches is a rational n/d held in two
//! `i128` fields. Arithmetic computes the textbook numerator/denominator
//! formulas exactly and reports `None` when a component would leave the
//! range that keeps all intermediate products inside `i128`.

use vstd::prelude::*;

verus! {

/// Fields of a well-formed `Rat` stay strictly inside (-BOUND, BOUND), so a
/// product of any two of them fits in an `i128` with room to spare.
pub const BOUND: i128 = 0x4000_0000_0000_0000;

/// A rational number at the specification level: the value n/d.
/// Meaningful whenever d > 0; all operations keep denominators positive.
pub ghost struct Q {
    pub n: int,
    pub d: int,
}

/// The denominator is positive, so the pair stands for a number.
pub open spec fn q_wf(a: Q) -> bool {
    a.d > 0
}

/// Both components are small enough for an executable `Rat` to hold them.
pub open spec fn q_fits(a: Q) -> bool {
    &&& -BOUND < a.n < BOUND
    &&& 0 < a.d < BOUND
}

/// The two pairs stand for the same rational: cross-multiplication.
pub open spec fn q_eq(a: Q, b: Q) -> bool {
    a.n * b.d == b.n * a.d
}

pub open spec fn q_add(a: Q, b: Q) -> Q {
    Q { n: a.n * b.d + b.n * a.d, d: a.d * b.d }
}

pub open spec fn q_sub(a: Q, b: Q) -> Q {
    Q { n: a.n * b.d - b.n * a.d, d: a.d * b.d }
}

pub open spec fn q_mul(a: Q, b: Q) -> Q {
    Q { n: a.n * b.n, d: a.d * b.d }
}

/// Division, with the divisor's sign moved into the numerator so that the
/// denominator stays positive. Meaningful only when b.n != 0.
pub open spec fn q_div(a: Q, b: Q) -> Q {
    if b.n < 0 {
        Q { n: -(a.n * b.d), d: -(a.d * b.n) }
    } else {
        Q { n: a.n * b.d, d: a.d * b.n }
    }
}

/// The exact sum when its components fit, `None` otherwise.
pub open spec fn c_add(a: Q, b: Q) -> Option<Q> {
    if q_fits(q_add(a, b)) {
        Some(q_add(a, b))
    } else {
        None
    }
}

/// The exact difference when its components fit, `None` otherwise.
pub open spec fn c_sub(a: Q, b: Q) -> Option<Q> {
    if q_fits(q_sub(a, b)) {
        Some(q_sub(a, b))
    } else {
        None
    }
}

/// The exact product when its components fit, `None` otherwise.
pub open spec fn c_mul(a: Q, b: Q) -> Option<Q> {
    if q_fits(q_mul(a, b)) {
        Some(q_mul(a, b))
    } else {
        None
    }
}

/// The exact quotient; `None` on division by zero or when a component
/// would not fit.
pub open spec fn c_div(a: Q, b: Q) -> Option<Q> {
    if b.n == 0 {
        None
    } else if q_fits(q_div(a, b)) {
        Some(q_div(a, b))
    } else {
        None
    }
}

/// An exact rational number: the value n/d, with d > 0.
#[derive(Clone, Copy, Debug, PartialEq, Eq, Structural)]
pub struct Rat {
    pub n: i128,
    pub d: i128,
}

impl View for Rat {
    type V = Q;

    open spec fn view(&self) -> Q {
        Q { n: self.n as int, d: self.d as int }
    }
}

pub open spec fn opt_q(r: Option<Rat>) -> Option<Q> {
    match r {
        Some(v) => Some(v@),
        None => None,
    }
}

/// A product of two values that lie strictly inside (-b, b) lies strictly
/// inside (-b*b, b*b).
proof fn lemma_mul_bound(x: int, y: int, b: int)
    by (nonlinear_arith)
    requires
        -b < x < b,
        -b < y < b,
        0 < b,
    ensures
        -(b * b) < x * y < b * b,
{
}

impl Rat {
    /// The representation keeps both fields small enough that every product
    /// of two fields of well-formed values fits in an `i128`.
    pub open spec fn wf(self) -> bool {
        q_fits(self@)
    }

    /// The rational n/d, accepted exactly when d is positive and both
    /// components are inside the representable range.
    pub fn new(n: i128, d: i128) -> (r: Option<Rat>)
        ensures
            r is Some <==> q_fits((Q { n: n as int, d: d as int })),
            r matches Some(v) ==> v.wf() && v@ == (Q { n: n as int, d: d as int }),
    {
        if -BOUND < n && n < BOUND && 0 < d && d < BOUND {
            Some(Rat { n, d })
        } else {
            None
        }
    }

    /// Whether the fields lie inside the representable range; what `wf`
    /// says, decided at run time for callers outside the library.
    pub fn is_well_formed(&self) -> (r: bool)
        ensures
            r == self.wf(),
    {
        -BOUND < self.n && self.n < BOUND && 0 < self.d && self.d < BOUND
    }

    /// Whether the value is exactly zero.
    pub fn is_zero(&self) -> (r: bool)
        ensures
            r == (self@.n == 0),
    {
        self.n == 0
    }

    /// Whether the two values are the same rational (exact comparison).
    pub fn same_value(&self, other: &Rat) -> (r: bool)
        requires
            self.wf(),
            other.wf(),
        ensures
            r == q_eq(self@, other@),
    {
        proof {
            lemma_mul_bound(self.n as int, other.d as int, BOUND as int);
            lemma_mul_bound(other.n as int, self.d as int, BOUND as int);
        }
        self.n * other.d == other.n * self.d
    }

    /// Exact addition; `None` when a component would leave the range.
    pub fn checked_add(&self, other: &Rat) -> (r: Option<Rat>)
        requires
            self.wf(),
            other.wf(),
        ensures
            opt_q(r) == c_add(self@, other@),
            r matches Some(v) ==> v.wf(),
    {
        proof {
            lemma_mul_bound(self.n as int, other.d as int, BOUND as int);
            lemma_mul_bound(other.n as int, self.d as int, BOUND as int);
            lemma_mul_bound(self.d as int, other.d as int, BOUND as int);
        }
        let n = self.n * other.d + other.n * self.d;
        let d = self.d * other.d;
        if -BOUND < n && n < BOUND && 0 < d && d < BOUND {
            Some(Rat { n, d })
        } else {
            None
        }
    }

    /// Exact subtraction; `None` when a component would leave the range.
    pub fn checked_sub(&self, other: &Rat) -> (r: Option<Rat>)
        requires
            self.wf(),
            other.wf(),
        ensures
            opt_q(r) == c_sub(self@, other@),
            r matches Some(v) ==> v.wf(),
    {
        proof {
            lemma_mul_bound(self.n as int, other.d as int, BOUND as int);
            lemma_mul_bound(other.n as int, self.d as int, BOUND as int);
            lemma_mul_bound(self.d as int, other.d as int, BOUND as int);
        }
        let n = self.n * other.d - other.n * self.d;
        let d = self.d * other.d;
        if -BOUND < n && n < BOUND && 0 < d && d < BOUND {
            Some(Rat { n, d })
        } else {
            None
        }
    }

    /// Exact multiplication; `None` when a component would leave the range.
    pub fn checked_mul(&self, other: &Rat) -> (r: Option<Rat>)
        requires
            self.wf(),
            other.wf(),
        ensures
            opt_q(r) == c_mul(self@, other@),
            r matches Some(v) ==> v.wf(),
    {
        proof {
            lemma_mul_bound(self.n as int, other.n as int, BOUND as int);
            lemma_mul_bound(self.d as int, other.d as int, BOUND as int);
        }
        let n = self.n * other.n;
        let d = self.d * other.d;
        if -BOUND < n && n < BOUND && 0 < d && d < BOUND {
            Some(Rat { n, d })
        } else {
            None
        }
    }

    /// Exact division; `None` on a zero divisor or when a component would
    /// leave the range.
    pub fn checked_div(&self, other: &Rat) -> (r: Option<Rat>)
        requires
            self.wf(),
            other.wf(),
        ensures
            opt_q(r) == c_div(self@, other@),
            r matches Some(v) ==> v.wf(),
            other@.n == 0 ==> r is None,
    {
        if other.n == 0 {
            return None;
        }
        proof {
            lemma_mul_bound(self.n as int, other.d as int, BOUND as int);
            lemma_mul_bound(self.d as int, other.n as int, BOUND as int);
        }
        let n0 = self.n * other.d;
        let d0 = self.d * other.n;
        let n: i128 = if other.n < 0 { -n0 } else { n0 };
        let d: i128 = if other.n < 0 { -d0 } else { d0 };
        if -BOUND < n && n < BOUND && 0 < d && d < BOUND {
            Some(Rat { n, d })
        } else {
            None
        }
    }
}

} // verus!
