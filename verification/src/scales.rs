//! Scales to weigh transactions by their parameters.
//!
//! Each scale maps the parameters of one call to a [`Weight`] through
//! saturating arithmetic, so no parameter value can make the computation
//! wrap or fail. Each also reports whether the caller pays a fee and how
//! the call is classified; both are fixed for every scale here.

use vstd::prelude::*;

use crate::arith::sat_add;
use crate::arith::sat_mul;
use crate::arith::saturate;
use crate::weight::DispatchClass;
use crate::weight::Weight;

verus! {

/// The weight of a `Linear(factor)` call with parameter `x`:
/// the product, clamped into the weight range.
pub open spec fn linear_weight(factor: int, x: int) -> int {
    saturate(x * factor)
}

/// The weight of a `Quadratic(a, b, c)` call with parameters `x` and `y`:
/// `a*x^2 + b*y + c`, where every multiplication and addition clamps into
/// the weight range on its own before the next step.
pub open spec fn quadratic_weight(a: int, b: int, c: int, x: int, y: int) -> int {
    let ax2 = saturate(saturate(x * x) * a);
    let by = saturate(y * b);
    saturate(saturate(ax2 + by) + c)
}

/// The weight of a `Conditional(factor)` call: linear in `val` when the
/// switch is set, the constant `factor` otherwise.
pub open spec fn conditional_weight(factor: int, switch: bool, val: int) -> int {
    if switch {
        saturate(val * factor)
    } else {
        factor
    }
}

/// A scale for calls that take a single `u32` parameter: the weight is the
/// product of the parameter and the factor held here.
pub struct Linear(pub u32);

impl Linear {
    /// Weigh a call with parameter `x`.
    ///
    /// Saturation keeps an extremely large parameter from overflowing.
    pub fn weigh_data(&self, x: u32) -> (w: Weight)
        ensures
            w as int == linear_weight(self.0 as int, x as int),
    {
        sat_mul(x, self.0)
    }

    /// Whether fees are actually charged from the caller. If not, the
    /// weight still counts towards the block maximums.
    pub fn pays_fee(&self) -> (b: bool)
        ensures
            b,
    {
        true
    }

    /// Classify the call as `Normal` (as opposed to operational).
    pub fn classify_dispatch(&self) -> (c: DispatchClass)
        ensures
            c == DispatchClass::Normal,
    {
        DispatchClass::default()
    }
}

/// A scale for calls with two `u32` parameters, weighed by the formula
/// `a*x^2 + b*y + c` where `a`, `b` and `c` are the fields held here.
pub struct Quadratic(pub u32, pub u32, pub u32);

impl Quadratic {
    /// Weigh a call with parameters `x` and `y`.
    ///
    /// Each multiplication and addition saturates on its own, so a huge `x`
    /// clamps the squared term without disturbing the others.
    pub fn weigh_data(&self, x: u32, y: u32) -> (w: Weight)
        ensures
            w as int == quadratic_weight(
                self.0 as int,
                self.1 as int,
                self.2 as int,
                x as int,
                y as int,
            ),
    {
        let ax2 = sat_mul(sat_mul(x, x), self.0);
        let by = sat_mul(y, self.1);
        let c = self.2;
        sat_add(sat_add(ax2, by), c)
    }

    /// Whether fees are actually charged from the caller.
    pub fn pays_fee(&self) -> (b: bool)
        ensures
            b,
    {
        true
    }

    /// Classify the call as `Normal`.
    pub fn classify_dispatch(&self) -> (c: DispatchClass)
        ensures
            c == DispatchClass::Normal,
    {
        DispatchClass::default()
    }
}

/// A scale for calls whose first parameter is a switch: when it is set the
/// weight is linear in the second parameter, otherwise it is the constant
/// factor held here.
pub struct Conditional(pub u32);

impl Conditional {
    /// Weigh a call with parameters `switch` and `val`; `val` is
    /// deliberately ignored when the switch is off.
    pub fn weigh_data(&self, switch: bool, val: u32) -> (w: Weight)
        ensures
            w as int == conditional_weight(self.0 as int, switch, val as int),
    {
        if switch {
            sat_mul(val, self.0)
        } else {
            self.0
        }
    }

    /// Whether fees are actually charged from the caller.
    pub fn pays_fee(&self) -> (b: bool)
        ensures
            b,
    {
        true
    }

    /// Classify the call as `Normal`.
    pub fn classify_dispatch(&self) -> (c: DispatchClass)
        ensures
            c == DispatchClass::Normal,
    {
        DispatchClass::default()
    }
}

/// Saturation in `Linear`: once `x * factor` mathematically overflows the
/// weight range, the weight is exactly the maximum, never a wrapped value;
/// otherwise it is exactly the product.
pub proof fn lemma_linear_saturates(factor: u32, x: u32)
    ensures
        x as int * factor as int > u32::MAX as int ==> linear_weight(
            factor as int,
            x as int,
        ) == u32::MAX as int,
        x as int * factor as int <= u32::MAX as int ==> linear_weight(
            factor as int,
            x as int,
        ) == x as int * factor as int,
{
}

/// Term independence in `Quadratic`: a huge `x` saturates the squared term
/// and with it the whole weight to the maximum, leaving no way for the
/// overflow to wrap around and corrupt the `b*y + c` terms; and when the
/// squared term's coefficient is zero, `x` does not influence the weight
/// at all.
pub proof fn lemma_quadratic_terms_independent(a: u32, b: u32, c: u32, x: u32, y: u32)
    ensures
        x as int * x as int > u32::MAX as int && a >= 1 ==> quadratic_weight(
            a as int,
            b as int,
            c as int,
            x as int,
            y as int,
        ) == u32::MAX as int,
        a == 0 ==> quadratic_weight(a as int, b as int, c as int, x as int, y as int)
            == saturate(saturate(y as int * b as int) + c as int),
{
    let xi = x as int;
    let ai = a as int;
    if xi * xi > u32::MAX as int && a >= 1 {
        assert(saturate(xi * xi) * ai >= u32::MAX as int) by (nonlinear_arith)
            requires
                saturate(xi * xi) == u32::MAX as int,
                ai >= 1,
        ;
    }
    if a == 0 {
        assert(saturate(xi * xi) * ai == 0) by (nonlinear_arith)
            requires
                ai == 0,
        ;
    }
}

} // verus!
