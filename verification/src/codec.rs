//! A stable byte form for [`FeeMultiplier`].
//!
//! A multiplier is written as a one-byte shape tag followed by its fields
//! in order, each as a little-endian `u32`: tag `0` for the positive shape
//! (fraction parts, then carry) and tag `1` for the negative shape
//! (fraction parts only). Decoding accepts exactly the byte strings this
//! encoding produces and rejects everything else — an unknown tag, a wrong
//! length, or a fraction beyond one whole unit.

use vstd::prelude::*;

use crate::multiplier::view_wf;
use crate::multiplier::FeeMultiplier;
use crate::multiplier::MultiplierView;
use crate::perbill::Perbill;
use crate::perbill::BILLION;
use vstd::bytes::lemma_auto_spec_u32_to_from_le_bytes;
use vstd::bytes::spec_u32_from_le_bytes;
use vstd::bytes::spec_u32_to_le_bytes;
use vstd::bytes::u32_from_le_bytes;
use vstd::bytes::u32_to_le_bytes;
use vstd::slice::slice_subrange;

verus! {

/// The tag byte that opens the positive shape.
pub const TAG_POSITIVE: u8 = 0;

/// The tag byte that opens the negative shape.
pub const TAG_NEGATIVE: u8 = 1;

/// The byte string that encodes a multiplier.
pub open spec fn encode_spec(v: MultiplierView) -> Seq<u8> {
    match v {
        MultiplierView::Positive { parts, carry } => seq![TAG_POSITIVE] + spec_u32_to_le_bytes(
            parts as u32,
        ) + spec_u32_to_le_bytes(carry as u32),
        MultiplierView::Negative { parts } => seq![TAG_NEGATIVE] + spec_u32_to_le_bytes(
            parts as u32,
        ),
    }
}

/// The multiplier a byte string decodes to, or nothing when no well-formed
/// multiplier encodes to it.
pub open spec fn decode_spec(bytes: Seq<u8>) -> Option<MultiplierView> {
    if bytes.len() == 9 && bytes[0] == TAG_POSITIVE && spec_u32_from_le_bytes(
        bytes.subrange(1, 5),
    ) <= BILLION {
        Some(
            MultiplierView::Positive {
                parts: spec_u32_from_le_bytes(bytes.subrange(1, 5)) as int,
                carry: spec_u32_from_le_bytes(bytes.subrange(5, 9)) as int,
            },
        )
    } else if bytes.len() == 5 && bytes[0] == TAG_NEGATIVE && spec_u32_from_le_bytes(
        bytes.subrange(1, 5),
    ) <= BILLION {
        Some(MultiplierView::Negative { parts: spec_u32_from_le_bytes(bytes.subrange(1, 5)) as int })
    } else {
        None
    }
}

impl FeeMultiplier {
    /// Write this multiplier as its byte form.
    pub fn encode(&self) -> (out: Vec<u8>)
        ensures
            out@ == encode_spec(self@),
    {
        match *self {
            FeeMultiplier::Positive(p, r) => {
                let mut out: Vec<u8> = Vec::new();
                out.push(TAG_POSITIVE);
                let mut parts_bytes = u32_to_le_bytes(p.parts());
                out.append(&mut parts_bytes);
                let mut carry_bytes = u32_to_le_bytes(r);
                out.append(&mut carry_bytes);
                proof {
                    assert(out@ =~= encode_spec(self@));
                }
                out
            },
            FeeMultiplier::Negative(p) => {
                let mut out: Vec<u8> = Vec::new();
                out.push(TAG_NEGATIVE);
                let mut parts_bytes = u32_to_le_bytes(p.parts());
                out.append(&mut parts_bytes);
                proof {
                    assert(out@ =~= encode_spec(self@));
                }
                out
            },
        }
    }

    /// Read a multiplier back from its byte form; `None` on anything that
    /// is not the exact encoding of a well-formed multiplier.
    pub fn decode(bytes: &Vec<u8>) -> (r: Option<FeeMultiplier>)
        ensures
            match r {
                Some(m) => decode_spec(bytes@) == Some(m@),
                None => decode_spec(bytes@) is None,
            },
    {
        if bytes.len() == 9 && bytes[0] == TAG_POSITIVE {
            let parts = u32_from_le_bytes(slice_subrange(bytes.as_slice(), 1, 5));
            let carry = u32_from_le_bytes(slice_subrange(bytes.as_slice(), 5, 9));
            if parts <= BILLION {
                Some(FeeMultiplier::Positive(Perbill::from_parts(parts), carry))
            } else {
                None
            }
        } else if bytes.len() == 5 && bytes[0] == TAG_NEGATIVE {
            let parts = u32_from_le_bytes(slice_subrange(bytes.as_slice(), 1, 5));
            if parts <= BILLION {
                Some(FeeMultiplier::Negative(Perbill::from_parts(parts)))
            } else {
                None
            }
        } else {
            None
        }
    }
}

/// Round-trip: decoding the encoding of any well-formed multiplier yields
/// that multiplier back.
pub proof fn lemma_encode_decode_round_trip(v: MultiplierView)
    requires
        view_wf(v),
    ensures
        decode_spec(encode_spec(v)) == Some(v),
{
    lemma_auto_spec_u32_to_from_le_bytes();
    match v {
        MultiplierView::Positive { parts, carry } => {
            let bytes = encode_spec(v);
            assert(bytes.subrange(1, 5) =~= spec_u32_to_le_bytes(parts as u32));
            assert(bytes.subrange(5, 9) =~= spec_u32_to_le_bytes(carry as u32));
        },
        MultiplierView::Negative { parts } => {
            let bytes = encode_spec(v);
            assert(bytes.subrange(1, 5) =~= spec_u32_to_le_bytes(parts as u32));
        },
    }
}

} // verus!
