//! Rational time bases and exact timestamp rescaling.
//!
//! A time base is a positive rational `num/den`: timestamps of a stream are
//! integer counts of `num/den` seconds.  Moving a packet from an encoder's
//! time base to a container stream's time base multiplies the timestamp by
//! the ratio of the two bases, with exact integer arithmetic (floored) and
//! saturation at the `i64` range.

use vstd::prelude::*;

verus! {

use vstd::arithmetic::div_mod::{lemma_fundamental_div_mod, lemma_fundamental_div_mod_converse};
use vstd::arithmetic::mul::{
    lemma_mul_is_commutative,
    lemma_mul_is_distributive_sub_other_way,
    lemma_mul_strictly_positive,
    lemma_mul_unary_negation,
    lemma_mul_upper_bound,
};

/// A positive rational time base.
#[derive(Clone, Copy, Debug, PartialEq, Eq, Structural)]
pub struct Rational {
    pub num: u32,
    pub den: u32,
}

impl Rational {
    /// A time base is well formed when both components are positive.
    pub open spec fn wf(self) -> bool {
        self.num >= 1 && self.den >= 1
    }

    pub fn new(num: u32, den: u32) -> (r: Rational)
        requires
            num >= 1,
            den >= 1,
        ensures
            r.num == num,
            r.den == den,
            r.wf(),
    {
        Rational { num, den }
    }
}

/// Saturate a mathematical integer at the `i64` range.
pub open spec fn clip_to_i64(v: int) -> int {
    if v < i64::MIN {
        i64::MIN as int
    } else if v > i64::MAX {
        i64::MAX as int
    } else {
        v
    }
}

/// The value of a timestamp `t` counted in `from` units, re-counted in `to`
/// units: `t * (from.num/from.den) / (to.num/to.den)`, floored, saturated at
/// the `i64` range.
pub open spec fn rescale_spec(t: int, from: Rational, to: Rational) -> int
    recommends
        from.wf(),
        to.wf(),
{
    clip_to_i64((t * from.num * to.den) / (from.den * to.num))
}

/// Exact rational rescaling: when the source value scales evenly into the
/// target base and the result is representable, the rescaled timestamp times
/// the divisor recovers the scaled value exactly.  In particular a timestamp
/// `t` in time base `1/30` rescaled to `1/1000` is exactly `t * 1000 / 30`
/// whenever `30` divides `t * 1000`.
pub proof fn lemma_rescale_exact(t: int, from: Rational, to: Rational)
    requires
        from.wf(),
        to.wf(),
        (t * from.num * to.den) % (from.den * to.num) == 0,
        i64::MIN <= (t * from.num * to.den) / (from.den * to.num) <= i64::MAX,
    ensures
        rescale_spec(t, from, to) * (from.den * to.num) == t * from.num * to.den,
{
    lemma_mul_strictly_positive(from.den as int, to.num as int);
    lemma_fundamental_div_mod(t * from.num * to.den, from.den * to.num);
    lemma_mul_is_commutative(
        from.den * to.num,
        (t * from.num * to.den) / (from.den * to.num),
    );
}

/// Rescale timestamp `t` from time base `from` to time base `to`.
pub fn rescale_ts(t: i64, from: Rational, to: Rational) -> (r: i64)
    requires
        from.wf(),
        to.wf(),
    ensures
        r as int == rescale_spec(t as int, from, to),
{
    proof {
        lemma_mul_strictly_positive(from.den as int, to.num as int);
        lemma_mul_upper_bound(from.den as int, 0xffff_ffff, to.num as int, 0xffff_ffff);
    }
    let q: u128 = (from.den as u128) * (to.num as u128);
    if t >= 0 {
        proof {
            lemma_mul_upper_bound(t as int, 0x7fff_ffff_ffff_ffff, from.num as int, 0xffff_ffff);
        }
        let tn: u128 = (t as u128) * (from.num as u128);
        proof {
            lemma_mul_upper_bound(
                tn as int,
                0x7fff_ffff_ffff_ffff as int * 0xffff_ffff as int,
                to.den as int,
                0xffff_ffff,
            );
        }
        let p: u128 = tn * (to.den as u128);
        let d: u128 = p / q;
        if d > i64::MAX as u128 {
            i64::MAX
        } else {
            d as i64
        }
    } else {
        let m: u128 = (-(t as i128)) as u128;
        proof {
            lemma_mul_upper_bound(m as int, 0x8000_0000_0000_0000, from.num as int, 0xffff_ffff);
        }
        let mn: u128 = m * (from.num as u128);
        proof {
            lemma_mul_upper_bound(
                mn as int,
                0x8000_0000_0000_0000 as int * 0xffff_ffff as int,
                to.den as int,
                0xffff_ffff,
            );
        }
        let p: u128 = mn * (to.den as u128);
        let d: u128 = p / q;
        let rem: u128 = p % q;
        proof {
            let ti = t as int;
            let qi = q as int;
            let di = d as int;
            let ri = rem as int;
            // The scaled value is the negation of the magnitude product.
            lemma_mul_unary_negation(ti, from.num as int);
            lemma_mul_unary_negation(ti * (from.num as int), to.den as int);
            assert(ti * from.num * to.den == -(p as int));
            lemma_fundamental_div_mod(p as int, qi);
            if ri == 0 {
                lemma_mul_unary_negation(di, qi);
                lemma_mul_is_commutative(di, qi);
                lemma_fundamental_div_mod_converse(ti * from.num * to.den, qi, -di, 0);
            } else {
                lemma_mul_is_distributive_sub_other_way(qi, -di, 1);
                lemma_mul_unary_negation(di, qi);
                lemma_mul_is_commutative(di, qi);
                lemma_fundamental_div_mod_converse(
                    ti * from.num * to.den,
                    qi,
                    -di - 1,
                    qi - ri,
                );
            }
        }
        let mag: u128 = if rem == 0 {
            d
        } else {
            d + 1
        };
        if mag > (i64::MAX as u128) + 1 {
            i64::MIN
        } else {
            (-(mag as i128)) as i64
        }
    }
}

} // verus!
