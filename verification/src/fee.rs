//! The fee of a declaration: given, only estimated, or estimated and raised by a margin.

use crate::felt::{field_prime, Felt};
use vstd::prelude::*;

verus! {

/// How the fee of a transaction is settled.
#[derive(Debug, Clone, Copy, PartialEq, Eq)]
pub enum FeeSetting {
    /// The caller gave the amount.
    Manual(Felt),
    /// The fee is estimated and shown; nothing is submitted.
    EstimateOnly,
    /// The fee is estimated, then raised by a margin that depends on the kind of provider.
    Automatic,
}

/// The number by which an estimate is multiplied: 5 with a JSON-RPC provider, 3 with another.
pub open spec fn multiplier_numerator(rpc: bool) -> nat {
    if rpc {
        5
    } else {
        3
    }
}

/// The number by which the multiplied estimate is divided.
pub open spec fn multiplier_denominator() -> nat {
    2
}

/// The fee for an estimate: the estimate times the numerator, divided by the denominator and
/// rounded down. The product is that of the numbers, not of the field.
pub open spec fn buffered_fee(estimate: nat, rpc: bool) -> nat {
    (estimate * multiplier_numerator(rpc)) / multiplier_denominator()
}

/// Whether the fee for an estimate is a field element.
pub open spec fn fee_fits(estimate: nat, rpc: bool) -> bool {
    buffered_fee(estimate, rpc) < field_prime()
}

/// A fee was given together with the wish for an estimate only.
#[derive(Debug, Clone, Copy, PartialEq, Eq, Structural)]
pub struct ConflictingFeeOptions;

impl FeeSetting {
    /// Whether the fee is only estimated.
    pub open spec fn spec_is_estimate_only(self) -> bool {
        self is EstimateOnly
    }

    /// The setting that the caller's options ask for: a given fee, an estimate only, or
    /// neither, which is the automatic fee. A given fee and an estimate only cannot stand
    /// together.
    pub open spec fn spec_from_options(max_fee: Option<Felt>, estimate_only: bool) -> Result<
        FeeSetting,
        ConflictingFeeOptions,
    > {
        match max_fee {
            Some(fee) => if estimate_only {
                Err(ConflictingFeeOptions)
            } else {
                Ok(FeeSetting::Manual(fee))
            },
            None => if estimate_only {
                Ok(FeeSetting::EstimateOnly)
            } else {
                Ok(FeeSetting::Automatic)
            },
        }
    }

    /// The setting that the caller's options ask for.
    pub fn from_options(max_fee: Option<Felt>, estimate_only: bool) -> (r: Result<
        FeeSetting,
        ConflictingFeeOptions,
    >)
        ensures
            r == Self::spec_from_options(max_fee, estimate_only),
    {
        match max_fee {
            Some(fee) => if estimate_only {
                Err(ConflictingFeeOptions)
            } else {
                Ok(FeeSetting::Manual(fee))
            },
            None => if estimate_only {
                Ok(FeeSetting::EstimateOnly)
            } else {
                Ok(FeeSetting::Automatic)
            },
        }
    }

    /// Whether the fee is only estimated.
    pub fn is_estimate_only(&self) -> (r: bool)
        ensures
            r == self.spec_is_estimate_only(),
    {
        match self {
            FeeSetting::EstimateOnly => true,
            _ => false,
        }
    }
}

/// The pair of numbers that an estimate is multiplied with and divided by. It depends on the
/// kind of provider alone.
pub fn fee_multiplier(rpc: bool) -> (r: (Felt, Felt))
    ensures
        r.0@ == multiplier_numerator(rpc),
        r.1@ == multiplier_denominator(),
{
    if rpc {
        (Felt::from_u64(5), Felt::from_u64(2))
    } else {
        (Felt::from_u64(3), Felt::from_u64(2))
    }
}

/// The fee for an estimate, as a field element.
pub open spec fn spec_apply_fee_buffer(estimate: Felt, rpc: bool) -> Felt {
    Felt::of(buffered_fee(estimate@, rpc))
}

/// What is added to the multiplied half of an odd estimate: half the numerator, rounded down.
fn odd_share(rpc: bool) -> (r: u8)
    ensures
        r == multiplier_numerator(rpc) / 2,
{
    if rpc {
        2
    } else {
        1
    }
}

/// Whether the fee for the estimate is a field element: whether the estimate can be raised
/// by the margin at all.
pub fn fee_buffer_fits(estimate: &Felt, rpc: bool) -> (r: bool)
    ensures
        r == fee_fits(estimate@, rpc),
{
    let (numerator, denominator): (Felt, Felt) = fee_multiplier(rpc);
    let half: Felt = estimate.floor_div(&denominator);
    let share: u8 = if estimate.is_odd() {
        odd_share(rpc)
    } else {
        0
    };
    // the fee is the numerator times the half, and the share: it is below the prime exactly
    // when the half is at most the prime less one and less the share, divided by the numerator
    let top: Felt = Felt::prime_minus(share + 1);
    let bound: Felt = top.floor_div(&numerator);
    proof {
        let e = estimate@;
        let h = half@;
        assert(e == 2 * h + e % 2);
        if rpc {
            assert(buffered_fee(e, rpc) == 5 * h + share);
            assert(5 * bound@ <= top@ < 5 * bound@ + 5);
        } else {
            assert(buffered_fee(e, rpc) == 3 * h + share);
            assert(3 * bound@ <= top@ < 3 * bound@ + 3);
        }
    }
    half.le(&bound)
}

/// Raises an estimate by the margin for the kind of provider. The fee must be a field
/// element; `checked_fee_buffer` tests that first.
pub fn apply_fee_buffer(estimate: &Felt, rpc: bool) -> (fee: Felt)
    requires
        fee_fits(estimate@, rpc),
    ensures
        fee@ == buffered_fee(estimate@, rpc),
        fee == spec_apply_fee_buffer(*estimate, rpc),
{
    let (numerator, denominator): (Felt, Felt) = fee_multiplier(rpc);
    let half: Felt = estimate.floor_div(&denominator);
    let share: u8 = if estimate.is_odd() {
        odd_share(rpc)
    } else {
        0
    };
    proof {
        let e = estimate@;
        let h = half@;
        assert(e == 2 * h + e % 2);
        if rpc {
            assert(buffered_fee(e, rpc) == 5 * h + share);
        } else {
            assert(buffered_fee(e, rpc) == 3 * h + share);
        }
    }
    let fee: Felt = half.mul(&numerator).add(&Felt::from_u64(share as u64));
    proof {
        fee.lemma_of_view();
    }
    fee
}

/// Raises an estimate by the margin for the kind of provider; `None` where the fee would be
/// no field element.
pub fn checked_fee_buffer(estimate: &Felt, rpc: bool) -> (fee: Option<Felt>)
    ensures
        fee.is_some() == fee_fits(estimate@, rpc),
        fee matches Some(f) ==> f@ == buffered_fee(estimate@, rpc) && f == spec_apply_fee_buffer(
            *estimate,
            rpc,
        ),
{
    if fee_buffer_fits(estimate, rpc) {
        Some(apply_fee_buffer(estimate, rpc))
    } else {
        None
    }
}

/// The fee is the estimate times 5/2 with a JSON-RPC provider, and times 3/2 with another,
/// rounded down.
pub proof fn lemma_buffered_fee_exact(estimate: nat, rpc: bool)
    ensures
        rpc ==> buffered_fee(estimate, rpc) == (estimate * 5) / 2,
        !rpc ==> buffered_fee(estimate, rpc) == (estimate * 3) / 2,
{
}

/// The fee is never below the estimate.
pub proof fn lemma_buffered_fee_covers_estimate(estimate: nat, rpc: bool)
    ensures
        buffered_fee(estimate, rpc) >= estimate,
{
}

/// The fee of a fee that fits is the number that the automatic setting sends.
pub proof fn lemma_fee_is_its_number(estimate: Felt, rpc: bool)
    requires
        fee_fits(estimate@, rpc),
    ensures
        spec_apply_fee_buffer(estimate, rpc)@ == buffered_fee(estimate@, rpc),
{
    Felt::lemma_of(buffered_fee(estimate@, rpc));
}

} // verus!
