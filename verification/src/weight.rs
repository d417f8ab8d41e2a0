//! The weight unit, block-level bounds, and the default transaction scales.

use vstd::prelude::*;

use crate::arith::sat_add;
use crate::arith::sat_mul;
use crate::arith::saturate;

verus! {

/// Abstract, non-negative cost units charged to a transaction.
pub type Weight = u32;

/// Maximum total weight a block may accumulate: 4 Mi units.
pub const MAX_TRANSACTIONS_WEIGHT: u32 = 4 * 1024 * 1024;

/// Target total weight per block: 1 Mi units, a quarter of the maximum.
pub const IDEAL_TRANSACTIONS_WEIGHT: u32 = 1024 * 1024;

/// How the dispatch layer classifies a call.
#[derive(Clone, Copy, Debug, PartialEq, Eq, Structural)]
pub enum DispatchClass {
    /// An ordinary call.
    Normal,
    /// An operational, higher-priority call.
    Operational,
}

impl Default for DispatchClass {
    /// The default classification is `Normal`.
    fn default() -> (r: Self)
        ensures
            r == DispatchClass::Normal,
    {
        DispatchClass::Normal
    }
}

/// Anything that can report the weight of a call, given the encoded length
/// of the transaction carrying it.
pub trait Weighable {
    /// The weight this value assigns to a call of encoded length `len`.
    spec fn spec_weight(&self, len: int) -> int;

    /// Return the weight of this call.
    /// The `len` argument is the encoded length of the transaction/call.
    fn weight(&self, len: usize) -> (w: Weight)
        ensures
            w as int == self.spec_weight(len as int),
    ;
}

/// The default weight scales attached to a call when no bespoke scale is.
#[derive(Clone, Copy, Debug, PartialEq, Eq, Structural)]
pub enum TransactionWeight {
    /// Basic weight (base, byte).
    /// The values contained are the base weight and byte weight respectively.
    Basic(Weight, Weight),
    /// Maximum fee: the call claims a large fixed share of the remaining
    /// block capacity, so little or nothing more fits in the block.
    Max,
    /// Free: the call does not count towards the block's total weight.
    Free,
}

impl Weighable for TransactionWeight {
    open spec fn spec_weight(&self, len: int) -> int {
        match *self {
            TransactionWeight::Basic(base, byte) => saturate(
                base as int + saturate(byte as int * len),
            ),
            TransactionWeight::Max => (3 * 1024 * 1024) as int,
            TransactionWeight::Free => 0int,
        }
    }

    fn weight(&self, len: usize) -> (w: Weight) {
        match *self {
            TransactionWeight::Basic(base, byte) => {
                let capped: u32 = if len >= u32::MAX as usize {
                    u32::MAX
                } else {
                    len as u32
                };
                proof {
                    let bi = byte as int;
                    let li = len as int;
                    let ci = capped as int;
                    if li >= u32::MAX as int {
                        if byte == 0 {
                            assert(bi * ci == 0 && bi * li == 0) by (nonlinear_arith)
                                requires
                                    bi == 0,
                            ;
                        } else {
                            assert(bi * li >= bi * ci && bi * ci >= u32::MAX as int)
                                by (nonlinear_arith)
                                requires
                                    bi >= 1,
                                    li >= ci,
                                    ci == u32::MAX as int,
                            ;
                        }
                    }
                    assert(saturate(bi * ci) == saturate(bi * li));
                }
                sat_add(base, sat_mul(byte, capped))
            },
            TransactionWeight::Max => 3 * 1024 * 1024,
            TransactionWeight::Free => 0,
        }
    }
}

impl Default for TransactionWeight {
    /// Weight is the transaction's size and nothing more: base 0, one unit
    /// per encoded byte.
    fn default() -> (r: Self)
        ensures
            r == TransactionWeight::Basic(0, 1),
    {
        TransactionWeight::Basic(0, 1)
    }
}

} // verus!
