//! System-wide laws, proved over the transition specifications.
//!
//! Each proof function here covers one invocation; invariants over whole
//! request sequences follow by applying the step lemma at every step.

use vstd::prelude::*;

use crate::contract::execute_spec;
use crate::fees::{lemma_fee_split_conservation, owner_amount_spec, taker_amount_spec};
use crate::mint::{mint_spec, payment_available, transfers_spec, TransferV};
use crate::msg::ExecuteMsg;
use crate::phase::{classify_spec, Phase};
use crate::quota::{quota_count, quota_key_of};
use crate::state::{CoinV, LaunchpadV};

verus! {

/// Monotonicity: one invocation never decreases `last_token_id` of any
/// launch that exists before and after it.
pub proof fn lemma_token_ids_monotonic(
    s: LaunchpadV,
    now: u64,
    sender: Seq<char>,
    payment: CoinV,
    msg: ExecuteMsg,
)
    ensures
        (match execute_spec(s, now, sender, payment, msg) {
            Ok(p) => forall|id: Seq<char>|
                s.launches.contains_key(id) && #[trigger] p.0.launches.contains_key(id)
                    ==> p.0.launches[id].last_token_id >= s.launches[id].last_token_id,
            Err(_) => true,
        }),
{
}

/// Every launch's token counter stays within its supply cap.
pub open spec fn supply_bounded(s: LaunchpadV) -> bool {
    forall|id: Seq<char>| #[trigger]
        s.launches.contains_key(id) ==> s.launches[id].last_token_id
            <= s.launches[id].max_supply
}

/// A successful mint advances the launch's counter by exactly one and
/// keeps it within the supply cap, whatever the prior state looked like.
pub proof fn lemma_mint_supply_bound(
    s: LaunchpadV,
    now: u64,
    sender: Seq<char>,
    payment: CoinV,
    id: Seq<char>,
    receiver: Option<Seq<char>>,
    merkle_proof: Option<Seq<Seq<char>>>,
)
    ensures
        (match mint_spec(s, now, sender, payment, id, receiver, merkle_proof) {
            Ok(p) => p.0.launches[id].last_token_id == s.launches[id].last_token_id + 1
                && p.0.launches[id].last_token_id <= p.0.launches[id].max_supply,
            Err(_) => true,
        }),
{
}

/// Monotonicity, second half: `last_token_id` never exceeds `max_supply`
/// across invocations. The one proviso concerns `ModifyLaunch`: a
/// modification must not shrink `max_supply` below the tokens already
/// issued, since the merge keeps the counter as it is.
pub proof fn lemma_supply_bound_preserved(
    s: LaunchpadV,
    now: u64,
    sender: Seq<char>,
    payment: CoinV,
    msg: ExecuteMsg,
)
    requires
        supply_bounded(s),
        (match msg {
            ExecuteMsg::ModifyLaunch(u) => (match u@.max_supply {
                Some(m) => s.launches.contains_key(u@.contract_address) ==> m >= s.launches[u@.contract_address].last_token_id,
                None => true,
            }),
            _ => true,
        }),
    ensures
        (match execute_spec(s, now, sender, payment, msg) {
            Ok(p) => supply_bounded(p.0),
            Err(_) => true,
        }),
{
}

/// No double-count under cap: when a launch caps its whitelist phase at
/// `n`, no invocation pushes an address's whitelist counter for that
/// launch beyond `n`. Applied step by step, at most `n` whitelist mints
/// ever succeed for one address under that cap.
pub proof fn lemma_whitelist_quota_cap(
    s: LaunchpadV,
    now: u64,
    sender: Seq<char>,
    payment: CoinV,
    msg: ExecuteMsg,
    id: Seq<char>,
    addr: Seq<char>,
    n: u16,
)
    requires
        s.launches.contains_key(id) ==> s.launches[id].whitelist_max_buy == Some(n),
        quota_count(s.quotas, quota_key_of(id, Phase::Whitelist, addr)) <= n as u64,
    ensures
        (match execute_spec(s, now, sender, payment, msg) {
            Ok(p) => quota_count(p.0.quotas, quota_key_of(id, Phase::Whitelist, addr)) <= n as u64,
            Err(_) => true,
        }),
{
}

/// The total amount a sequence of transfer instructions moves.
pub open spec fn sum_amounts(ts: Seq<TransferV>) -> int
    decreases ts.len(),
{
    if ts.len() == 0 {
        0
    } else {
        ts.first().amount + sum_amounts(ts.drop_first())
    }
}

/// Fee-split conservation at the instruction level: the emitted transfers
/// move exactly the paid amount, zero-amount instructions are suppressed,
/// and every emitted instruction moves a positive amount.
pub proof fn lemma_transfers_conserve(
    amount: u128,
    denom: Seq<char>,
    fee: u64,
    taker_address: Seq<char>,
    owner_address: Seq<char>,
)
    requires
        fee <= 100,
    ensures
        sum_amounts(transfers_spec(amount, denom, fee, taker_address, owner_address)) == amount,
        forall|i: int|
            0 <= i < transfers_spec(amount, denom, fee, taker_address, owner_address).len()
                ==> #[trigger] transfers_spec(amount, denom, fee, taker_address, owner_address)[i].amount
                > 0,
{
    lemma_fee_split_conservation(amount, fee);
    let ts = transfers_spec(amount, denom, fee, taker_address, owner_address);
    let taker = taker_amount_spec(amount, fee);
    let owner = owner_amount_spec(amount, fee);
    let t1 = (TransferV { to_address: taker_address, denom: denom, amount: taker as u128 });
    let t2 = (TransferV { to_address: owner_address, denom: denom, amount: owner as u128 });
    assert(sum_amounts(Seq::<TransferV>::empty()) == 0);
    if taker > 0 && owner > 0 {
        assert(ts =~= seq![t1, t2]);
        assert(ts.drop_first() =~= seq![t2]);
        assert(ts.drop_first().drop_first() =~= Seq::<TransferV>::empty());
        assert(sum_amounts(ts.drop_first()) == owner);
        assert(sum_amounts(ts) == taker + owner);
    } else if taker > 0 {
        assert(ts =~= seq![t1]);
        assert(ts.drop_first() =~= Seq::<TransferV>::empty());
        assert(sum_amounts(ts) == taker);
    } else if owner > 0 {
        assert(ts =~= seq![t2]);
        assert(ts.drop_first() =~= Seq::<TransferV>::empty());
        assert(sum_amounts(ts) == owner);
    } else {
        assert(ts =~= Seq::<TransferV>::empty());
    }
}

/// Fee-split conservation for a successful mint: the outcome's transfers
/// move exactly the payment counted towards the phase's price.
pub proof fn lemma_mint_transfers_conserve(
    s: LaunchpadV,
    now: u64,
    sender: Seq<char>,
    payment: CoinV,
    id: Seq<char>,
    receiver: Option<Seq<char>>,
    merkle_proof: Option<Seq<Seq<char>>>,
)
    requires
        s.config.taker_fee <= 100,
    ensures
        (match mint_spec(s, now, sender, payment, id, receiver, merkle_proof) {
            Ok(p) => sum_amounts(p.1.transfers) == (if classify_spec(now, s.launches[id])
                == Phase::Whitelist {
                payment_available(payment, s.launches[id].whitelist_price.denom)
            } else {
                payment_available(payment, s.launches[id].public_price.denom)
            }),
            Err(_) => true,
        }),
{
    if s.launches.contains_key(id) {
        let l = s.launches[id];
        lemma_transfers_conserve(
            payment_available(payment, l.whitelist_price.denom),
            l.whitelist_price.denom,
            s.config.taker_fee,
            s.config.taker_address,
            l.owner_address,
        );
        lemma_transfers_conserve(
            payment_available(payment, l.public_price.denom),
            l.public_price.denom,
            s.config.taker_fee,
            s.config.taker_address,
            l.owner_address,
        );
    }
}

} // verus!
