//! A fixed-point ratio with denominator one billion.
//!
//! `Perbill` holds a number of parts per billion and stands for the ratio
//! `parts / 1_000_000_000`, so it covers `[0, 1]`. Its arithmetic saturates
//! at one; scaling a weight by it rounds down.

use vstd::prelude::*;

verus! {

/// Parts in one whole unit: a `Perbill` of this many parts is exactly one.
pub const BILLION: u32 = 1_000_000_000;

/// The value, in parts per billion, that a weight is scaled to by a fraction
/// of `parts` parts: `(parts * weight) / BILLION`, rounded down.
pub open spec fn scale_spec(parts: int, weight: int) -> int {
    (parts * weight) / (BILLION as int)
}

/// A ratio in `[0, 1]`, stored as parts per billion.
#[derive(Clone, Copy, Debug, PartialEq, Eq, Structural)]
pub struct Perbill {
    parts: u32,
}

impl View for Perbill {
    type V = int;

    /// The number of parts per billion this ratio holds.
    closed spec fn view(&self) -> int {
        self.parts as int
    }
}

impl Perbill {
    #[verifier::type_invariant]
    spec fn inv(self) -> bool {
        self.parts <= BILLION
    }

    /// Build a ratio from raw parts per billion, clamping at one whole unit.
    pub fn from_parts(parts: u32) -> (r: Perbill)
        ensures
            r@ == if parts > BILLION {
                BILLION as int
            } else {
                parts as int
            },
    {
        Perbill { parts: if parts > BILLION {
            BILLION
        } else {
            parts
        } }
    }

    /// The zero ratio.
    pub fn zero() -> (r: Perbill)
        ensures
            r@ == 0,
    {
        Perbill { parts: 0 }
    }

    /// The raw parts per billion.
    pub fn parts(&self) -> (r: u32)
        ensures
            r as int == self@,
            r <= BILLION,
    {
        proof {
            use_type_invariant(self);
        }
        self.parts
    }

    /// Add two ratios, capping the result at one whole unit.
    pub fn saturating_add(self, other: Perbill) -> (r: Perbill)
        ensures
            r@ == if self@ + other@ > BILLION {
                BILLION as int
            } else {
                self@ + other@
            },
    {
        proof {
            use_type_invariant(&self);
            use_type_invariant(&other);
        }
        let s = self.parts + other.parts;
        Perbill { parts: if s > BILLION {
            BILLION
        } else {
            s
        } }
    }

    /// Scale a weight by this ratio, rounding down. Never exceeds the weight.
    pub fn mul_weight(self, weight: u32) -> (r: u32)
        ensures
            r as int == scale_spec(self@, weight as int),
            r <= weight,
    {
        proof {
            use_type_invariant(&self);
        }
        let p64: u64 = self.parts as u64;
        let w64: u64 = weight as u64;
        assert(p64 * w64 <= 1_000_000_000 * 0xffff_ffffu64) by (nonlinear_arith)
            requires
                p64 <= 1_000_000_000,
                w64 <= 0xffff_ffffu64,
        ;
        let prod: u64 = p64 * w64;
        let q: u64 = prod / 1_000_000_000;
        proof {
            assert(prod <= 1_000_000_000 * w64) by (nonlinear_arith)
                requires
                    prod == p64 * w64,
                    p64 <= 1_000_000_000,
            ;
            vstd::arithmetic::div_mod::lemma_div_is_ordered(
                prod as int,
                1_000_000_000 * (w64 as int),
                1_000_000_000,
            );
            vstd::arithmetic::div_mod::lemma_div_multiples_vanish(w64 as int, 1_000_000_000);
        }
        q as u32
    }
}

} // verus!
