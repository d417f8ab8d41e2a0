//! A signed fixed-point fee multiplier.
//!
//! A [`FeeMultiplier`] conceptually lies in `[-1, +infinity)`: a bounded
//! [`Perbill`] fraction plus, on the positive side, an unbounded whole-unit
//! carry. Combining two multipliers is manual fixed-point addition and
//! subtraction with explicit carry and borrow between the fractional limb
//! and the integer limb, because the fraction alone cannot hold values at
//! or above one, or below minus one.

use vstd::prelude::*;

use crate::arith::sat_add;
use crate::arith::sat_mul;
use crate::arith::saturate;
use crate::perbill::scale_spec;
use crate::perbill::Perbill;
use crate::perbill::BILLION;
use crate::weight::Weight;

verus! {

/// The mathematical content of a [`FeeMultiplier`]: its shape, its fraction
/// in parts per billion, and — on the positive shape — its whole-unit carry.
pub enum MultiplierView {
    /// The value `carry + parts / BILLION`.
    Positive { parts: int, carry: int },
    /// The value `-parts / BILLION`.
    Negative { parts: int },
}

/// A fraction within `[0, BILLION]` parts and a carry within the weight
/// range: what every multiplier built by this module's functions holds.
pub open spec fn view_wf(v: MultiplierView) -> bool {
    match v {
        MultiplierView::Positive { parts, carry } => {
            &&& 0 <= parts <= BILLION as int
            &&& 0 <= carry <= u32::MAX as int
        },
        MultiplierView::Negative { parts } => 0 <= parts <= BILLION as int,
    }
}

/// The weight that applying a multiplier to `weight` yields.
///
/// A positive multiplier adds a proportional bonus and `carry` further
/// whole multiples of the weight, each step clamped into the weight range;
/// a negative one grants a discount, clamped so the result never drops
/// below zero.
pub open spec fn apply_spec(v: MultiplierView, weight: int) -> int {
    match v {
        MultiplierView::Positive { parts, carry } => saturate(
            saturate(weight + scale_spec(parts, weight)) + saturate(weight * carry),
        ),
        MultiplierView::Negative { parts } => if scale_spec(parts, weight) <= weight {
            weight - scale_spec(parts, weight)
        } else {
            0
        },
    }
}

/// Combining a positive multiplier `carry1 + parts1 / BILLION` with a
/// negative one `-parts2 / BILLION`: subtract the fractions when that stays
/// non-negative; otherwise borrow one unit from the carry if there is one,
/// else flip the sign.
pub open spec fn sum_pos_neg(parts1: int, carry1: int, parts2: int) -> MultiplierView {
    if parts2 <= parts1 {
        MultiplierView::Positive { parts: parts1 - parts2, carry: carry1 }
    } else if carry1 > 0 {
        MultiplierView::Positive { parts: parts2 - parts1, carry: carry1 - 1 }
    } else {
        MultiplierView::Negative { parts: parts2 - parts1 }
    }
}

/// The combination of two multipliers.
///
/// Like signs add their fractions — positives wrap a fractional sum that
/// reaches one whole unit into the carry, negatives cap at minus one —
/// and unlike signs subtract with a borrow as [`sum_pos_neg`] says.
pub open spec fn sum_spec(a: MultiplierView, b: MultiplierView) -> MultiplierView {
    match (a, b) {
        (
            MultiplierView::Positive { parts: p1, carry: r1 },
            MultiplierView::Positive { parts: p2, carry: r2 },
        ) => {
            if p1 + p2 >= BILLION as int {
                MultiplierView::Positive {
                    parts: (p1 + p2) % (BILLION as int),
                    carry: saturate(saturate(r1 + r2) + 1),
                }
            } else {
                MultiplierView::Positive { parts: p1 + p2, carry: saturate(r1 + r2) }
            }
        },
        (MultiplierView::Negative { parts: p1 }, MultiplierView::Negative { parts: p2 }) => {
            MultiplierView::Negative {
                parts: if p1 + p2 > BILLION as int {
                    BILLION as int
                } else {
                    p1 + p2
                },
            }
        },
        (
            MultiplierView::Positive { parts: p1, carry: r1 },
            MultiplierView::Negative { parts: p2 },
        ) => sum_pos_neg(p1, r1, p2),
        (
            MultiplierView::Negative { parts: p2 },
            MultiplierView::Positive { parts: p1, carry: r1 },
        ) => sum_pos_neg(p1, r1, p2),
    }
}

/// A signed multiplier over weights, in the range `[-1, +infinity)`.
///
/// The multiplier is applied to the weight of a transaction to obtain the
/// final fee-relevant cost. A fresh one is derived each block from how full
/// the last block was, combined with earlier adjustments via [`Self::sum`],
/// and consumed by [`Self::apply_to`] when a transaction is priced.
#[derive(Clone, Copy, Debug, PartialEq, Eq, Structural)]
pub enum FeeMultiplier {
    /// A positive ratio added to the weight: `weight + weight * (carry + p)`
    /// where `p` is the fraction.
    Positive(Perbill, Weight),
    /// A negative ratio subtracted from the weight: `weight - weight * p`
    /// where `p` is the fraction.
    Negative(Perbill),
}

impl View for FeeMultiplier {
    type V = MultiplierView;

    open spec fn view(&self) -> MultiplierView {
        match *self {
            FeeMultiplier::Positive(p, r) => MultiplierView::Positive {
                parts: p@,
                carry: r as int,
            },
            FeeMultiplier::Negative(p) => MultiplierView::Negative { parts: p@ },
        }
    }
}

impl FeeMultiplier {
    /// Ranks the shapes so that the delegation in `sum` terminates.
    pub open spec fn shape_order(self) -> int {
        match self {
            FeeMultiplier::Positive(_, _) => 0,
            FeeMultiplier::Negative(_) => 1,
        }
    }

    /// Applies the self, as a multiplier, to the given weight.
    pub fn apply_to(&self, weight: Weight) -> (w: Weight)
        ensures
            w as int == apply_spec(self@, weight as int),
    {
        match *self {
            FeeMultiplier::Positive(p, r) => {
                let bonus = p.mul_weight(weight);
                sat_add(sat_add(weight, bonus), sat_mul(weight, r))
            },
            FeeMultiplier::Negative(p) => {
                let discount = p.mul_weight(weight);
                if discount <= weight {
                    weight - discount
                } else {
                    0
                }
            },
        }
    }

    /// Consumes self and returns the combination of `self` and `rhs`,
    /// taking the sign into account.
    pub fn sum(self, rhs: Self) -> (r: Self)
        ensures
            r@ == sum_spec(self@, rhs@),
        decreases self.shape_order(),
    {
        match (self, rhs) {
            (FeeMultiplier::Positive(p1, r1), FeeMultiplier::Positive(p2, r2)) => {
                let s1 = p1.parts();
                let s2 = p2.parts();
                if s1 + s2 >= BILLION {
                    FeeMultiplier::Positive(
                        Perbill::from_parts((s1 + s2) % BILLION),
                        sat_add(sat_add(r1, r2), 1),
                    )
                } else {
                    FeeMultiplier::Positive(p1.saturating_add(p2), sat_add(r1, r2))
                }
            },
            (FeeMultiplier::Negative(p1), FeeMultiplier::Negative(p2)) => {
                FeeMultiplier::Negative(p1.saturating_add(p2))
            },
            (FeeMultiplier::Positive(p1, r1), FeeMultiplier::Negative(p2)) => {
                let s1 = p1.parts();
                let s2 = p2.parts();
                if s2 <= s1 {
                    FeeMultiplier::Positive(Perbill::from_parts(s1 - s2), r1)
                } else {
                    let flipped = Perbill::from_parts(s2 - s1);
                    if r1 > 0 {
                        FeeMultiplier::Positive(flipped, r1 - 1)
                    } else {
                        FeeMultiplier::Negative(flipped)
                    }
                }
            },
            (FeeMultiplier::Negative(_), FeeMultiplier::Positive(_, _)) => rhs.sum(self),
        }
    }
}

impl Default for FeeMultiplier {
    /// The identity multiplier: a zero fraction and a zero carry.
    fn default() -> (r: Self)
        ensures
            r@ == (MultiplierView::Positive { parts: 0, carry: 0 }),
    {
        FeeMultiplier::Positive(Perbill::zero(), 0)
    }
}

/// Identity: applying the default multiplier — a zero fraction with a zero
/// carry — returns every weight unchanged.
pub proof fn lemma_default_is_identity(weight: u32)
    ensures
        apply_spec(MultiplierView::Positive { parts: 0, carry: 0 }, weight as int) == weight as int,
{
    let wi = weight as int;
    assert(0 * wi == 0) by (nonlinear_arith);
    assert(wi * 0 == 0) by (nonlinear_arith);
    assert(scale_spec(0, wi) == 0);
}

/// Combining multipliers does not depend on the order of the operands: for
/// like signs the fractions and carries add symmetrically, and for unlike
/// signs both orders take the same subtraction-with-borrow path.
pub proof fn lemma_sum_commutes(a: MultiplierView, b: MultiplierView)
    ensures
        sum_spec(a, b) == sum_spec(b, a),
{
}

/// Combining two multipliers whose fractions lie within one whole unit and
/// whose carries fit the weight range yields a multiplier whose parts do
/// too: the wrap, cap and borrow branches all keep both limbs bounded.
pub proof fn lemma_sum_preserves_bounds(a: MultiplierView, b: MultiplierView)
    requires
        view_wf(a),
        view_wf(b),
    ensures
        view_wf(sum_spec(a, b)),
{
}

/// Discount clamp: a negative multiplier never drives a weight below zero,
/// however large its fraction; within bounds the result is exactly the
/// weight less the discount, and at a full `BILLION` parts — a 100%
/// discount — it is exactly zero.
pub proof fn lemma_discount_clamped(parts: int, weight: u32)
    requires
        0 <= parts,
    ensures
        0 <= apply_spec(MultiplierView::Negative { parts }, weight as int) <= weight as int,
        parts <= BILLION as int ==> apply_spec(MultiplierView::Negative { parts }, weight as int)
            == weight as int - scale_spec(parts, weight as int),
        parts == BILLION as int ==> apply_spec(MultiplierView::Negative { parts }, weight as int)
            == 0,
{
    let wi = weight as int;
    assert(0 * wi <= parts * wi) by (nonlinear_arith)
        requires
            0 <= parts,
            0 <= wi,
    ;
    vstd::arithmetic::div_mod::lemma_div_is_ordered(0, parts * wi, BILLION as int);
    assert(0 <= scale_spec(parts, wi));
    if parts <= BILLION as int {
        assert(parts * wi <= BILLION as int * wi) by (nonlinear_arith)
            requires
                0 <= parts <= BILLION as int,
                0 <= wi,
        ;
        vstd::arithmetic::div_mod::lemma_div_is_ordered(
            parts * wi,
            BILLION as int * wi,
            BILLION as int,
        );
        vstd::arithmetic::div_mod::lemma_div_multiples_vanish(wi, BILLION as int);
        assert(BILLION as int * wi == wi * BILLION as int) by (nonlinear_arith);
        assert(scale_spec(parts, wi) <= wi);
    }
    if parts == BILLION as int {
        assert(parts * wi == wi * BILLION as int) by (nonlinear_arith)
            requires
                parts == BILLION as int,
        ;
        vstd::arithmetic::div_mod::lemma_div_multiples_vanish(wi, BILLION as int);
        assert(scale_spec(parts, wi) == wi);
    }
}

} // verus!
