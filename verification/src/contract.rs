//! The launchpad's entry points: instantiation, the mutating request
//! dispatcher, and the read-only queries.

use vstd::prelude::*;

use crate::assoc::{
    lemma_assoc_map_absent, lemma_assoc_map_index, lemma_assoc_set_absent,
    lemma_assoc_set_contains_at,
};
use crate::error::ContractError;
use crate::merkle::{verify_merkle_proof, verify_spec};
use crate::mint::{mint_spec, MintOutcome, MintOutcomeV};
use crate::msg::{
    ExecuteMsg, InstantiateMsg, InstantiateMsgV, LaunchStatus, QueryAnswer, QueryAnswerV, QueryMsg,
    WhitelistStatus,
};
use crate::phase::{classify, classify_spec, Phase};
use crate::quota::QuotaLedger;
use crate::registry::{
    add_launch_spec, add_whitelist_entries_spec, change_taker_fee_spec, modify_launch_spec,
    remove_launch_spec, remove_whitelist_entries_spec,
};
use crate::state::{
    find_launch_index, find_whitelist_index, launch_key, launch_val, Coin, CoinV, Config, ConfigV,
    Launch, LaunchV, Launchpad, LaunchpadV, whitelist_key, whitelist_key_of, WhitelistKeyV,
};
use vstd::string::StringExecFns;

verus! {

/// The state a fresh launchpad starts in: the given settings, the sender
/// as registry owner, and every ledger empty.
pub open spec fn instantiate_spec(sender: Seq<char>, m: InstantiateMsgV) -> LaunchpadV {
    LaunchpadV {
        config: ConfigV {
            registry_owner: sender,
            taker_fee: m.taker_fee,
            taker_address: m.taker_address,
            native_denom: m.native_denom,
        },
        launches: Map::empty(),
        quotas: Map::empty(),
        whitelist: Set::empty(),
    }
}

/// Create a launchpad. The taker fee must be a percentage: a larger fee
/// would let a later payment split owe the owner a negative amount.
pub fn instantiate(sender: &String, msg: InstantiateMsg) -> (s: Launchpad)
    requires
        msg.taker_fee <= 100,
    ensures
        s.wf(),
        s@ == instantiate_spec(sender@, msg@),
{
    let s = Launchpad {
        config: Config {
            registry_owner: sender.clone(),
            taker_fee: msg.taker_fee,
            taker_address: msg.taker_address,
            native_denom: msg.native_denom,
        },
        launches: Vec::new(),
        quotas: QuotaLedger::new(),
        whitelist: Vec::new(),
    };
    proof {
        assert(s@.launches =~= Map::<Seq<char>, LaunchV>::empty());
        assert(s@.whitelist =~= Set::<WhitelistKeyV>::empty());
    }
    s
}

/// What one mutating request does to the state, and what it answers:
/// every request maps to its operation's transition; only `Mint` carries
/// an outcome back.
pub open spec fn execute_spec(
    s: LaunchpadV,
    now: u64,
    sender: Seq<char>,
    payment: CoinV,
    msg: ExecuteMsg,
) -> Result<(LaunchpadV, Option<MintOutcomeV>), ContractError> {
    match msg {
        ExecuteMsg::ChangeTakerFee { taker_fee } => (match change_taker_fee_spec(
            s,
            sender,
            taker_fee,
        ) {
            Ok(s2) => Ok((s2, None)),
            Err(e) => Err(e),
        }),
        ExecuteMsg::Mint { contract_address, receiver_address, proof: pf } => (match mint_spec(
            s,
            now,
            sender,
            payment,
            contract_address@,
            receiver_address.deep_view(),
            pf.deep_view(),
        ) {
            Ok(p) => Ok((p.0, Some(p.1))),
            Err(e) => Err(e),
        }),
        ExecuteMsg::AddLaunch(params) => (match add_launch_spec(s, sender, params@) {
            Ok(s2) => Ok((s2, None)),
            Err(e) => Err(e),
        }),
        ExecuteMsg::RemoveLaunch { contract_address } => (match remove_launch_spec(
            s,
            sender,
            contract_address@,
        ) {
            Ok(s2) => Ok((s2, None)),
            Err(e) => Err(e),
        }),
        ExecuteMsg::ModifyLaunch(update) => (match modify_launch_spec(s, sender, update@) {
            Ok(s2) => Ok((s2, None)),
            Err(e) => Err(e),
        }),
        ExecuteMsg::AddWhitelistEntries { contract_address, addresses } => (match add_whitelist_entries_spec(
            s,
            sender,
            contract_address@,
            addresses.deep_view(),
        ) {
            Ok(s2) => Ok((s2, None)),
            Err(e) => Err(e),
        }),
        ExecuteMsg::RemoveWhitelistEntries { contract_address, addresses } => (match remove_whitelist_entries_spec(
            s,
            sender,
            contract_address@,
            addresses.deep_view(),
        ) {
            Ok(s2) => Ok((s2, None)),
            Err(e) => Err(e),
        }),
    }
}

/// The record of a launch, or `NotFound`.
pub open spec fn get_launch_spec(s: LaunchpadV, id: Seq<char>) -> Result<LaunchV, ContractError> {
    if s.launches.contains_key(id) {
        Ok(s.launches[id])
    } else {
        Err(ContractError::NotFound)
    }
}

/// The name of a phase, as the status queries report it.
pub open spec fn phase_status_str(p: Phase) -> Seq<char> {
    match p {
        Phase::Whitelist => "whitelist"@,
        Phase::Public => "public"@,
        Phase::Closed => "closed"@,
    }
}

/// The status of a launch at `now`, or `NotFound`.
pub open spec fn get_launch_status_spec(s: LaunchpadV, now: u64, id: Seq<char>) -> Result<
    Seq<char>,
    ContractError,
> {
    if s.launches.contains_key(id) {
        Ok(phase_status_str(classify_spec(now, s.launches[id])))
    } else {
        Err(ContractError::NotFound)
    }
}

/// Whether `account` is a whitelist member of launch `id`: by Merkle proof
/// against the committed root when the launch has one, by direct lookup in
/// the explicit whitelist set otherwise; `NotFound` for an unknown launch.
pub open spec fn get_whitelist_status_spec(
    s: LaunchpadV,
    id: Seq<char>,
    account: Seq<char>,
    pf: Seq<Seq<char>>,
) -> Result<bool, ContractError> {
    if s.launches.contains_key(id) {
        Ok(
            match s.launches[id].whitelist_merkle_root {
                Some(root) => verify_spec(account, root, pf),
                None => s.whitelist.contains(whitelist_key_of(id, account)),
            },
        )
    } else {
        Err(ContractError::NotFound)
    }
}

/// What one read-only request answers.
pub open spec fn query_spec(s: LaunchpadV, now: u64, msg: QueryMsg) -> Result<
    QueryAnswerV,
    ContractError,
> {
    match msg {
        QueryMsg::GetLaunch { contract_address } => (match get_launch_spec(s, contract_address@) {
            Ok(l) => Ok(QueryAnswerV::Launch(l)),
            Err(e) => Err(e),
        }),
        QueryMsg::GetLaunchStatus { contract_address } => (match get_launch_status_spec(
            s,
            now,
            contract_address@,
        ) {
            Ok(st) => Ok(QueryAnswerV::LaunchStatus(st)),
            Err(e) => Err(e),
        }),
        QueryMsg::GetWhitelistStatus { contract_address, account_address, proof: pf } => (match get_whitelist_status_spec(
            s,
            contract_address@,
            account_address@,
            pf.deep_view(),
        ) {
            Ok(b) => Ok(QueryAnswerV::WhitelistStatus(b)),
            Err(e) => Err(e),
        }),
    }
}

impl Launchpad {
    /// Dispatch one mutating request. See `execute_spec`; on any error the
    /// state is unchanged. A `ChangeTakerFee` request must carry a
    /// percentage, as at instantiation. Only a `Mint` request reads
    /// `payment`.
    pub fn execute(&mut self, now: u64, sender: &String, payment: &Coin, msg: ExecuteMsg) -> (r:
        Result<Option<MintOutcome>, ContractError>)
        requires
            old(self).wf(),
            (msg matches ExecuteMsg::ChangeTakerFee { taker_fee } ==> taker_fee <= 100),
        ensures
            final(self).wf(),
            (match execute_spec(old(self)@, now, sender@, payment@, msg) {
                Ok(p) => (match r {
                    Ok(o) => o.deep_view() == p.1 && final(self)@ == p.0,
                    Err(_) => false,
                }),
                Err(e) => r == Err::<Option<MintOutcome>, ContractError>(e) && final(self)@ == old(
                    self,
                )@,
            }),
    {
        match msg {
            ExecuteMsg::ChangeTakerFee { taker_fee } => {
                match self.change_taker_fee(sender, taker_fee) {
                    Ok(()) => Ok(None),
                    Err(e) => Err(e),
                }
            },
            ExecuteMsg::Mint { contract_address, receiver_address, proof: pf } => {
                match self.mint(now, sender, payment, &contract_address, receiver_address, pf) {
                    Ok(o) => Ok(Some(o)),
                    Err(e) => Err(e),
                }
            },
            ExecuteMsg::AddLaunch(params) => {
                match self.add_launch(sender, params) {
                    Ok(()) => Ok(None),
                    Err(e) => Err(e),
                }
            },
            ExecuteMsg::RemoveLaunch { contract_address } => {
                match self.remove_launch(sender, &contract_address) {
                    Ok(()) => Ok(None),
                    Err(e) => Err(e),
                }
            },
            ExecuteMsg::ModifyLaunch(update) => {
                match self.modify_launch(sender, update) {
                    Ok(()) => Ok(None),
                    Err(e) => Err(e),
                }
            },
            ExecuteMsg::AddWhitelistEntries { contract_address, addresses } => {
                match self.add_whitelist_entries(sender, &contract_address, &addresses) {
                    Ok(()) => Ok(None),
                    Err(e) => Err(e),
                }
            },
            ExecuteMsg::RemoveWhitelistEntries { contract_address, addresses } => {
                match self.remove_whitelist_entries(sender, &contract_address, &addresses) {
                    Ok(()) => Ok(None),
                    Err(e) => Err(e),
                }
            },
        }
    }

    /// Read one launch record.
    pub fn get_launch(&self, contract_address: &String) -> (r: Result<Launch, ContractError>)
        requires
            self.wf(),
        ensures
            (match get_launch_spec(self@, contract_address@) {
                Ok(lv) => (match r {
                    Ok(l) => l@ == lv,
                    Err(_) => false,
                }),
                Err(e) => r == Err::<Launch, ContractError>(e),
            }),
    {
        match find_launch_index(&self.launches, contract_address) {
            Some(i) => {
                proof {
                    lemma_assoc_map_index(self.launches@, launch_key(), launch_val(), i as int);
                }
                Ok(self.launches[i].launch.duplicate())
            },
            None => {
                proof {
                    lemma_assoc_map_absent(
                        self.launches@,
                        launch_key(),
                        launch_val(),
                        contract_address@,
                    );
                }
                Err(ContractError::NotFound)
            },
        }
    }

    /// Report which phase a launch is in at `now`.
    pub fn get_launch_status(&self, now: u64, contract_address: &String) -> (r: Result<
        LaunchStatus,
        ContractError,
    >)
        requires
            self.wf(),
        ensures
            (match get_launch_status_spec(self@, now, contract_address@) {
                Ok(st) => (match r {
                    Ok(ls) => ls.status@ == st,
                    Err(_) => false,
                }),
                Err(e) => r == Err::<LaunchStatus, ContractError>(e),
            }),
    {
        match find_launch_index(&self.launches, contract_address) {
            Some(i) => {
                proof {
                    lemma_assoc_map_index(self.launches@, launch_key(), launch_val(), i as int);
                }
                let status = match classify(now, &self.launches[i].launch) {
                    Phase::Whitelist => String::from_str("whitelist"),
                    Phase::Public => String::from_str("public"),
                    Phase::Closed => String::from_str("closed"),
                };
                Ok(LaunchStatus { status: status })
            },
            None => {
                proof {
                    lemma_assoc_map_absent(
                        self.launches@,
                        launch_key(),
                        launch_val(),
                        contract_address@,
                    );
                }
                Err(ContractError::NotFound)
            },
        }
    }

    /// Report whether an address is a whitelist member of a launch.
    pub fn get_whitelist_status(
        &self,
        contract_address: &String,
        account_address: &String,
        merkle_proof: &Vec<String>,
    ) -> (r: Result<WhitelistStatus, ContractError>)
        requires
            self.wf(),
        ensures
            (match get_whitelist_status_spec(
                self@,
                contract_address@,
                account_address@,
                merkle_proof.deep_view(),
            ) {
                Ok(b) => (match r {
                    Ok(ws) => ws.is_whitelist == b,
                    Err(_) => false,
                }),
                Err(e) => r == Err::<WhitelistStatus, ContractError>(e),
            }),
    {
        match find_launch_index(&self.launches, contract_address) {
            Some(i) => {
                proof {
                    lemma_assoc_map_index(self.launches@, launch_key(), launch_val(), i as int);
                }
                let member = match &self.launches[i].launch.whitelist_merkle_root {
                    Some(root) => verify_merkle_proof(account_address, root, merkle_proof),
                    None => {
                        match find_whitelist_index(
                            &self.whitelist,
                            contract_address,
                            account_address,
                        ) {
                            Some(j) => {
                                proof {
                                    lemma_assoc_set_contains_at(
                                        self.whitelist@,
                                        whitelist_key(),
                                        j as int,
                                    );
                                }
                                true
                            },
                            None => {
                                proof {
                                    lemma_assoc_set_absent(
                                        self.whitelist@,
                                        whitelist_key(),
                                        whitelist_key_of(contract_address@, account_address@),
                                    );
                                }
                                false
                            },
                        }
                    },
                };
                Ok(WhitelistStatus { is_whitelist: member })
            },
            None => {
                proof {
                    lemma_assoc_map_absent(
                        self.launches@,
                        launch_key(),
                        launch_val(),
                        contract_address@,
                    );
                }
                Err(ContractError::NotFound)
            },
        }
    }

    /// Dispatch one read-only request. See `query_spec`.
    pub fn query(&self, now: u64, msg: QueryMsg) -> (r: Result<QueryAnswer, ContractError>)
        requires
            self.wf(),
        ensures
            (match query_spec(self@, now, msg) {
                Ok(a) => (match r {
                    Ok(qa) => qa@ == a,
                    Err(_) => false,
                }),
                Err(e) => r == Err::<QueryAnswer, ContractError>(e),
            }),
    {
        match msg {
            QueryMsg::GetLaunch { contract_address } => {
                match self.get_launch(&contract_address) {
                    Ok(l) => Ok(QueryAnswer::Launch(l)),
                    Err(e) => Err(e),
                }
            },
            QueryMsg::GetLaunchStatus { contract_address } => {
                match self.get_launch_status(now, &contract_address) {
                    Ok(st) => Ok(QueryAnswer::LaunchStatus(st)),
                    Err(e) => Err(e),
                }
            },
            QueryMsg::GetWhitelistStatus { contract_address, account_address, proof: pf } => {
                match self.get_whitelist_status(&contract_address, &account_address, &pf) {
                    Ok(ws) => Ok(QueryAnswer::WhitelistStatus(ws)),
                    Err(e) => Err(e),
                }
            },
        }
    }
}

} // verus!
