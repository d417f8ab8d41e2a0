//! Transaction weighting primitives.
//!
//! Two independent pieces:
//!
//! * weight scales ([`Linear`], [`Quadratic`], [`Conditional`], and the
//!   [`TransactionWeight`] variants) that turn call parameters into a bounded
//!   cost via saturating arithmetic, and
//! * [`FeeMultiplier`], a signed fixed-point adjustment over a [`Perbill`]
//!   fraction, combined with explicit carry/borrow propagation and applied
//!   multiplicatively to a weight.

mod arith;
mod codec;
mod multiplier;
mod perbill;
mod scales;
mod weight;

pub use arith::sat_add;
pub use arith::sat_mul;
pub use arith::saturate;
pub use codec::decode_spec;
pub use codec::encode_spec;
pub use codec::lemma_encode_decode_round_trip;
pub use codec::TAG_NEGATIVE;
pub use codec::TAG_POSITIVE;
pub use multiplier::apply_spec;
pub use multiplier::lemma_default_is_identity;
pub use multiplier::lemma_discount_clamped;
pub use multiplier::lemma_sum_commutes;
pub use multiplier::lemma_sum_preserves_bounds;
pub use multiplier::sum_pos_neg;
pub use multiplier::sum_spec;
pub use multiplier::view_wf;
pub use multiplier::FeeMultiplier;
pub use multiplier::MultiplierView;
pub use perbill::Perbill;
pub use perbill::scale_spec;
pub use perbill::BILLION;
pub use scales::conditional_weight;
pub use scales::lemma_linear_saturates;
pub use scales::lemma_quadratic_terms_independent;
pub use scales::linear_weight;
pub use scales::quadratic_weight;
pub use scales::Conditional;
pub use scales::Linear;
pub use scales::Quadratic;
pub use weight::DispatchClass;
pub use weight::TransactionWeight;
pub use weight::Weighable;
pub use weight::Weight;
pub use weight::IDEAL_TRANSACTIONS_WEIGHT;
pub use weight::MAX_TRANSACTIONS_WEIGHT;
