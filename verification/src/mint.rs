//! The mint operation: the launchpad's central state machine.
//!
//! A mint request is validated against the launch's supply cap, the active
//! phase, whitelist membership, the payment, and the per-address quota —
//! in that order, all before any state changes. On success the launch's
//! token counter advances by one, the phase's quota counter (if capped)
//! advances by one, and the caller receives the token identifier, the
//! metadata URI, the royalty pass-through data, and the fund-transfer
//! instructions splitting the payment between the platform and the
//! collection owner.

use vstd::prelude::*;

use crate::assoc::{
    lemma_assoc_map_absent, lemma_assoc_map_index, lemma_assoc_map_update,
    lemma_assoc_set_absent, lemma_assoc_set_contains_at,
};
use crate::error::ContractError;
use crate::fees::{owner_amount_spec, split_fee, taker_amount_spec};
use crate::merkle::{verify_merkle_proof, verify_spec};
use crate::phase::{classify, classify_spec, Phase};
use crate::quota::{check_and_increment_spec, quota_key_of, QuotaKeyV};
use crate::state::{
    duplicate_opt_string, find_launch_index, find_whitelist_index, launch_key, launch_val, Coin,
    CoinV, LaunchEntry, LaunchV, Launchpad, LaunchpadV, whitelist_key, whitelist_key_of,
    WhitelistKeyV,
};
use crate::text::{build_token_uri, dec_str, token_uri_spec, u64_to_string};

verus! {

/// One fund-transfer instruction: `amount` of `denom` owed to `to_address`.
#[derive(Debug)]
pub struct Transfer {
    pub to_address: String,
    pub denom: String,
    pub amount: u128,
}

pub ghost struct TransferV {
    pub to_address: Seq<char>,
    pub denom: Seq<char>,
    pub amount: u128,
}

impl View for Transfer {
    type V = TransferV;

    open spec fn view(&self) -> TransferV {
        TransferV { to_address: self.to_address@, denom: self.denom@, amount: self.amount }
    }
}

impl DeepView for Transfer {
    type V = TransferV;

    open spec fn deep_view(&self) -> TransferV {
        self.view()
    }
}

/// Everything a successful mint produces. The mint instruction itself
/// (token identifier, receiver, URI, royalty data) is handed to the
/// token-issuing collaborator by the caller; the transfers are handed to
/// the fund-transfer collaborator.
#[derive(Debug)]
pub struct MintOutcome {
    pub token_id: String,
    pub token_uri: String,
    pub receiver: String,
    pub royalty_percentage: Option<u64>,
    pub royalty_payment_address: Option<String>,
    pub transfers: Vec<Transfer>,
}

pub ghost struct MintOutcomeV {
    pub token_id: Seq<char>,
    pub token_uri: Seq<char>,
    pub receiver: Seq<char>,
    pub royalty_percentage: Option<u64>,
    pub royalty_payment_address: Option<Seq<char>>,
    pub transfers: Seq<TransferV>,
}

impl View for MintOutcome {
    type V = MintOutcomeV;

    open spec fn view(&self) -> MintOutcomeV {
        MintOutcomeV {
            token_id: self.token_id@,
            token_uri: self.token_uri@,
            receiver: self.receiver@,
            royalty_percentage: self.royalty_percentage,
            royalty_payment_address: self.royalty_payment_address.deep_view(),
            transfers: self.transfers.deep_view(),
        }
    }
}

impl DeepView for MintOutcome {
    type V = MintOutcomeV;

    open spec fn deep_view(&self) -> MintOutcomeV {
        self.view()
    }
}

/// How much of the payment counts towards a price in `denom`: the full
/// amount when the denominations agree, nothing otherwise.
pub open spec fn payment_available(payment: CoinV, denom: Seq<char>) -> u128 {
    if payment.denom == denom {
        payment.amount
    } else {
        0
    }
}

/// Whitelist membership of `sender` under launch `l` (keyed by `id`).
/// With a committed Merkle root, membership is by proof: a missing proof
/// or a failing one is non-membership. Without a root, membership is by
/// direct lookup in the launch's explicit whitelist set.
pub open spec fn whitelisted_spec(
    l: LaunchV,
    whitelist: Set<WhitelistKeyV>,
    id: Seq<char>,
    sender: Seq<char>,
    merkle_proof: Option<Seq<Seq<char>>>,
) -> bool {
    match l.whitelist_merkle_root {
        Some(root) => (match merkle_proof {
            Some(p) => verify_spec(sender, root, p),
            None => false,
        }),
        None => whitelist.contains(whitelist_key_of(id, sender)),
    }
}

/// The transfer instructions for a paid amount: the taker's share to the
/// taker address, the rest to the collection owner, zero amounts
/// suppressed.
pub open spec fn transfers_spec(
    amount: u128,
    denom: Seq<char>,
    fee: u64,
    taker_address: Seq<char>,
    owner_address: Seq<char>,
) -> Seq<TransferV> {
    let taker = taker_amount_spec(amount, fee);
    let owner = owner_amount_spec(amount, fee);
    let head = if taker > 0 {
        seq![TransferV { to_address: taker_address, denom: denom, amount: taker as u128 }]
    } else {
        Seq::<TransferV>::empty()
    };
    let tail = if owner > 0 {
        seq![TransferV { to_address: owner_address, denom: denom, amount: owner as u128 }]
    } else {
        Seq::<TransferV>::empty()
    };
    head + tail
}

/// The state and outcome of a mint whose checks all passed: the token
/// counter advances, the quota map becomes `q2`, and the outcome carries
/// the new token, the URI, the royalty pass-through and the fund split of
/// the available payment `avail`.
pub open spec fn mint_success(
    s: LaunchpadV,
    id: Seq<char>,
    l: LaunchV,
    recv: Seq<char>,
    avail: u128,
    denom: Seq<char>,
    q2: Map<QuotaKeyV, u64>,
) -> (LaunchpadV, MintOutcomeV) {
    let token_id = (l.last_token_id + 1) as u64;
    let l2 = LaunchV { last_token_id: token_id, ..l };
    let s2 = LaunchpadV { launches: s.launches.insert(id, l2), quotas: q2, ..s };
    let out = MintOutcomeV {
        token_id: dec_str(token_id as nat),
        token_uri: token_uri_spec(l, token_id),
        receiver: recv,
        royalty_percentage: l.royalty_percentage,
        royalty_payment_address: l.royalty_payment_address,
        transfers: transfers_spec(
            avail,
            denom,
            s.config.taker_fee,
            s.config.taker_address,
            l.owner_address,
        ),
    };
    (s2, out)
}

/// What a mint request does, checks in order: the launch must exist
/// (`NotFound`); its supply must not be exhausted (`SoldOut`); the
/// receiver defaults to the sender; the phase is classified from `now` —
/// outside both windows the mint is `Closed`; in the whitelist phase the
/// sender must be a member (`NotWhitelisted`) and in either open phase
/// the payment, counted only in the price's denomination, must reach the
/// phase's price (`InsufficientFunds`) — overpayment is accepted, and the
/// fee split applies to the amount actually paid; the receiver's quota
/// for the phase must not be exhausted (`MintQuotaExhausted`). Only then does the
/// state change, as `mint_success` says.
pub open spec fn mint_spec(
    s: LaunchpadV,
    now: u64,
    sender: Seq<char>,
    payment: CoinV,
    id: Seq<char>,
    receiver: Option<Seq<char>>,
    merkle_proof: Option<Seq<Seq<char>>>,
) -> Result<(LaunchpadV, MintOutcomeV), ContractError> {
    if !s.launches.contains_key(id) {
        Err(ContractError::NotFound)
    } else {
        let l = s.launches[id];
        if l.last_token_id >= l.max_supply {
            Err(ContractError::SoldOut)
        } else {
            let recv = (match receiver {
                Some(rx) => rx,
                None => sender,
            });
            match classify_spec(now, l) {
                Phase::Closed => Err(ContractError::Closed),
                Phase::Whitelist => {
                    if !whitelisted_spec(l, s.whitelist, id, sender, merkle_proof) {
                        Err(ContractError::NotWhitelisted)
                    } else {
                        let avail = payment_available(payment, l.whitelist_price.denom);
                        if avail < l.whitelist_price.amount {
                            Err(ContractError::InsufficientFunds)
                        } else {
                            match check_and_increment_spec(
                                s.quotas,
                                quota_key_of(id, Phase::Whitelist, recv),
                                l.whitelist_max_buy,
                            ) {
                                Err(e) => Err(e),
                                Ok(q2) => Ok(
                                    mint_success(
                                        s,
                                        id,
                                        l,
                                        recv,
                                        avail,
                                        l.whitelist_price.denom,
                                        q2,
                                    ),
                                ),
                            }
                        }
                    }
                },
                Phase::Public => {
                    let avail = payment_available(payment, l.public_price.denom);
                    if avail < l.public_price.amount {
                        Err(ContractError::InsufficientFunds)
                    } else {
                        match check_and_increment_spec(
                            s.quotas,
                            quota_key_of(id, Phase::Public, recv),
                            l.public_max_buy,
                        ) {
                            Err(e) => Err(e),
                            Ok(q2) => Ok(
                                mint_success(s, id, l, recv, avail, l.public_price.denom, q2),
                            ),
                        }
                    }
                },
            }
        }
    }
}

impl Launchpad {
    /// Process one mint request. See `mint_spec` for the exact behaviour;
    /// on any error the state is unchanged.
    pub fn mint(
        &mut self,
        now: u64,
        sender: &String,
        payment: &Coin,
        contract_address: &String,
        receiver_address: Option<String>,
        merkle_proof: Option<Vec<String>>,
    ) -> (r: Result<MintOutcome, ContractError>)
        requires
            old(self).wf(),
        ensures
            final(self).wf(),
            (match mint_spec(
                old(self)@,
                now,
                sender@,
                payment@,
                contract_address@,
                receiver_address.deep_view(),
                merkle_proof.deep_view(),
            ) {
                Ok(p) => (match r {
                    Ok(o) => o@ == p.1 && final(self)@ == p.0,
                    Err(_) => false,
                }),
                Err(e) => r == Err::<MintOutcome, ContractError>(e) && final(self)@ == old(self)@,
            }),
    {
        let i = match find_launch_index(&self.launches, contract_address) {
            Some(i) => i,
            None => {
                proof {
                    lemma_assoc_map_absent(
                        self.launches@,
                        launch_key(),
                        launch_val(),
                        contract_address@,
                    );
                }
                return Err(ContractError::NotFound);
            },
        };
        proof {
            lemma_assoc_map_index(self.launches@, launch_key(), launch_val(), i as int);
        }
        let ghost l_v = self.launches@[i as int].launch@;
        if self.launches[i].launch.last_token_id >= self.launches[i].launch.max_supply {
            return Err(ContractError::SoldOut);
        }
        let receiver: String = match receiver_address {
            Some(rx) => rx,
            None => sender.clone(),
        };
        let phase = classify(now, &self.launches[i].launch);
        let avail: u128;
        let cap: Option<u16>;
        let price_denom: String;
        match phase {
            Phase::Closed => {
                return Err(ContractError::Closed);
            },
            Phase::Whitelist => {
                let whitelisted: bool = match &self.launches[i].launch.whitelist_merkle_root {
                    Some(root) => (match &merkle_proof {
                        Some(p) => verify_merkle_proof(sender, root, p),
                        None => false,
                    }),
                    None => {
                        match find_whitelist_index(&self.whitelist, contract_address, sender) {
                            Some(j) => {
                                proof {
                                    lemma_assoc_set_contains_at(
                                        self.whitelist@,
                                        whitelist_key(),
                                        j as int,
                                    );
                                }
                                true
                            },
                            None => {
                                proof {
                                    lemma_assoc_set_absent(
                                        self.whitelist@,
                                        whitelist_key(),
                                        whitelist_key_of(contract_address@, sender@),
                                    );
                                }
                                false
                            },
                        }
                    },
                };
                if !whitelisted {
                    return Err(ContractError::NotWhitelisted);
                }
                avail = if payment.denom == self.launches[i].launch.whitelist_price.denom {
                    payment.amount
                } else {
                    0
                };
                if avail < self.launches[i].launch.whitelist_price.amount {
                    return Err(ContractError::InsufficientFunds);
                }
                cap = self.launches[i].launch.whitelist_max_buy;
                price_denom = self.launches[i].launch.whitelist_price.denom.clone();
            },
            Phase::Public => {
                avail = if payment.denom == self.launches[i].launch.public_price.denom {
                    payment.amount
                } else {
                    0
                };
                if avail < self.launches[i].launch.public_price.amount {
                    return Err(ContractError::InsufficientFunds);
                }
                cap = self.launches[i].launch.public_max_buy;
                price_denom = self.launches[i].launch.public_price.denom.clone();
            },
        }
        match self.quotas.check_and_increment(contract_address, phase, &receiver, cap) {
            Err(e) => {
                return Err(e);
            },
            Ok(()) => {},
        }
        let token_id_num = self.launches[i].launch.last_token_id + 1;
        let mut new_launch = self.launches[i].launch.duplicate();
        new_launch.last_token_id = token_id_num;
        let entry2 = LaunchEntry {
            contract_address: self.launches[i].contract_address.clone(),
            launch: new_launch,
        };
        proof {
            lemma_assoc_map_update(self.launches@, launch_key(), launch_val(), i as int, entry2);
        }
        self.launches[i] = entry2;
        let token_id = u64_to_string(token_id_num);
        let token_uri = build_token_uri(&self.launches[i].launch, token_id_num);
        proof {
            assert(token_uri_spec(self.launches@[i as int].launch@, token_id_num) == token_uri_spec(
                l_v,
                token_id_num,
            ));
        }
        let (taker_amt, owner_amt) = split_fee(avail, self.config.taker_fee);
        let mut transfers: Vec<Transfer> = Vec::new();
        if taker_amt > 0 {
            transfers.push(
                Transfer {
                    to_address: self.config.taker_address.clone(),
                    denom: price_denom.clone(),
                    amount: taker_amt,
                },
            );
        }
        if owner_amt > 0 {
            transfers.push(
                Transfer {
                    to_address: self.launches[i].launch.owner_address.clone(),
                    denom: price_denom,
                    amount: owner_amt,
                },
            );
        }
        proof {
            if phase == Phase::Whitelist {
                assert(transfers.deep_view() =~= transfers_spec(
                    avail,
                    l_v.whitelist_price.denom,
                    self.config.taker_fee,
                    self.config.taker_address@,
                    l_v.owner_address,
                ));
            } else {
                assert(transfers.deep_view() =~= transfers_spec(
                    avail,
                    l_v.public_price.denom,
                    self.config.taker_fee,
                    self.config.taker_address@,
                    l_v.owner_address,
                ));
            }
        }
        let outcome = MintOutcome {
            token_id: token_id,
            token_uri: token_uri,
            receiver: receiver,
            royalty_percentage: self.launches[i].launch.royalty_percentage,
            royalty_payment_address: duplicate_opt_string(
                &self.launches[i].launch.royalty_payment_address,
            ),
            transfers: transfers,
        };
        Ok(outcome)
    }
}

} // verus!
