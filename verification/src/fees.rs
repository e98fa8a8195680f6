//! The split of a mint payment between the platform and the collection owner.

use vstd::prelude::*;

verus! {

/// The platform's share of a payment of `amount` at `fee` percent:
/// `floor(amount * fee / 100)`.
pub open spec fn taker_amount_spec(amount: u128, fee: u64) -> int {
    (amount * fee) / 100
}

/// The collection owner's share: the remainder of the payment.
pub open spec fn owner_amount_spec(amount: u128, fee: u64) -> int {
    amount - taker_amount_spec(amount, fee)
}

/// Fee-split conservation: the two shares always add back up to the
/// payment, and each share lies within it.
pub proof fn lemma_fee_split_conservation(amount: u128, fee: u64)
    requires
        fee <= 100,
    ensures
        taker_amount_spec(amount, fee) + owner_amount_spec(amount, fee) == amount,
        0 <= taker_amount_spec(amount, fee) <= amount,
        0 <= owner_amount_spec(amount, fee) <= amount,
{
    assert(0 <= (amount * fee) / 100 <= amount) by (nonlinear_arith)
        requires
            fee <= 100,
    ;
}

/// Split a payment of `amount` at `fee` percent into the platform's share
/// and the collection owner's share.
pub fn split_fee(amount: u128, fee: u64) -> (r: (u128, u128))
    requires
        fee <= 100,
    ensures
        r.0 == taker_amount_spec(amount, fee),
        r.1 == owner_amount_spec(amount, fee),
        r.0 + r.1 == amount,
{
    let q = amount / 100;
    let rem = amount % 100;
    let fee128 = fee as u128;
    proof {
        assert(amount == 100 * q + rem && rem < 100) by (nonlinear_arith)
            requires
                q == amount / 100 && rem == amount % 100,
        ;
        assert(q * fee128 <= amount) by (nonlinear_arith)
            requires
                fee128 <= 100 && amount == 100 * q + rem && rem >= 0,
        ;
        assert(rem * fee128 <= 9900) by (nonlinear_arith)
            requires
                rem < 100 && fee128 <= 100,
        ;
        assert(q * fee128 + (rem * fee128) / 100 <= amount) by (nonlinear_arith)
            requires
                fee128 <= 100 && amount == 100 * q + rem && 0 <= rem < 100,
        ;
    }
    let taker = q * fee128 + (rem * fee128) / 100;
    proof {
        assert(taker == (amount * fee128) / 100) by (nonlinear_arith)
            requires
                amount == 100 * q + rem && 0 <= rem < 100 && fee128 >= 0 && taker == q * fee128 + (
                rem * fee128) / 100,
        ;
        assert(amount * fee == amount * fee128);
    }
    let owner = amount - taker;
    (taker, owner)
}

} // verus!
