//! Decimal rendering of exact rationals.
//!
//! A value whose denominator divides its numerator prints as a plain
//! integer; any other value prints as numerator/denominator.

use vstd::prelude::*;
use vstd::string::StrSliceExecFns;
use vstd::string::StringExecFns;

use crate::rat::Q;
use crate::rat::Rat;

verus! {

pub open spec fn digit_char(n: nat) -> char {
    if n == 0 {
        '0'
    } else if n == 1 {
        '1'
    } else if n == 2 {
        '2'
    } else if n == 3 {
        '3'
    } else if n == 4 {
        '4'
    } else if n == 5 {
        '5'
    } else if n == 6 {
        '6'
    } else if n == 7 {
        '7'
    } else if n == 8 {
        '8'
    } else {
        '9'
    }
}

/// The usual decimal digits of n, most significant first.
pub open spec fn dec_seq(n: nat) -> Seq<char>
    decreases n,
{
    if n < 10 {
        seq![digit_char(n)]
    } else {
        dec_seq(n / 10).push(digit_char(n % 10))
    }
}

/// How a rational prints: an integer when the denominator divides the
/// numerator, and numerator/denominator otherwise, with a leading minus
/// on a negative value. Meaningful when a.d > 0.
pub open spec fn rat_seq(a: Q) -> Seq<char> {
    let m = if a.n < 0 {
        -a.n
    } else {
        a.n
    };
    if m % a.d == 0 {
        if a.n < 0 {
            seq!['-'] + dec_seq((m / a.d) as nat)
        } else {
            dec_seq((m / a.d) as nat)
        }
    } else {
        if a.n < 0 {
            seq!['-'] + dec_seq(m as nat) + seq!['/'] + dec_seq(a.d as nat)
        } else {
            dec_seq(m as nat) + seq!['/'] + dec_seq(a.d as nat)
        }
    }
}

fn digit_str(d: u128) -> (s: &'static str)
    requires
        d < 10,
    ensures
        s@ == seq![digit_char(d as nat)],
{
    if d == 0 {
        proof {
            reveal_strlit("0");
            assert("0"@ =~= seq![digit_char(0nat)]);
        }
        return "0";
    }
    if d == 1 {
        proof {
            reveal_strlit("1");
            assert("1"@ =~= seq![digit_char(1nat)]);
        }
        return "1";
    }
    if d == 2 {
        proof {
            reveal_strlit("2");
            assert("2"@ =~= seq![digit_char(2nat)]);
        }
        return "2";
    }
    if d == 3 {
        proof {
            reveal_strlit("3");
            assert("3"@ =~= seq![digit_char(3nat)]);
        }
        return "3";
    }
    if d == 4 {
        proof {
            reveal_strlit("4");
            assert("4"@ =~= seq![digit_char(4nat)]);
        }
        return "4";
    }
    if d == 5 {
        proof {
            reveal_strlit("5");
            assert("5"@ =~= seq![digit_char(5nat)]);
        }
        return "5";
    }
    if d == 6 {
        proof {
            reveal_strlit("6");
            assert("6"@ =~= seq![digit_char(6nat)]);
        }
        return "6";
    }
    if d == 7 {
        proof {
            reveal_strlit("7");
            assert("7"@ =~= seq![digit_char(7nat)]);
        }
        return "7";
    }
    if d == 8 {
        proof {
            reveal_strlit("8");
            assert("8"@ =~= seq![digit_char(8nat)]);
        }
        return "8";
    }
    proof {
        reveal_strlit("9");
        assert("9"@ =~= seq![digit_char(9nat)]);
    }
    "9"
}

/// The decimal digits of n.
pub fn dec_string(n: u128) -> (s: String)
    ensures
        s@ == dec_seq(n as nat),
    decreases n,
{
    if n < 10 {
        return digit_str(n).to_owned();
    }
    let mut s = dec_string(n / 10);
    s.append(digit_str(n % 10));
    proof {
        assert(s@ =~= dec_seq(n as nat));
    }
    s
}

/// A rational, printed as `rat_seq` says.
pub fn rat_to_string(r: &Rat) -> (s: String)
    requires
        r.wf(),
    ensures
        s@ == rat_seq(r@),
{
    let neg = r.n < 0;
    let m: u128 = if neg {
        (-r.n) as u128
    } else {
        r.n as u128
    };
    let d: u128 = r.d as u128;
    if m % d == 0 {
        let whole = dec_string(m / d);
        if neg {
            let mut s = String::from_str("-");
            s.append(whole.as_str());
            proof {
                reveal_strlit("-");
                assert("-"@ =~= seq!['-']);
                assert(s@ =~= rat_seq(r@));
            }
            s
        } else {
            whole
        }
    } else {
        let num = dec_string(m);
        let den = dec_string(d);
        let mut s = if neg {
            let mut t = String::from_str("-");
            t.append(num.as_str());
            t
        } else {
            num
        };
        s.append("/");
        s.append(den.as_str());
        proof {
            reveal_strlit("-");
            reveal_strlit("/");
            assert("-"@ =~= seq!['-']);
            assert("/"@ =~= seq!['/']);
            assert(s@ =~= rat_seq(r@));
        }
        s
    }
}

} // verus!
