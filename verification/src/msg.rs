//! The request and response surface of the launchpad, as plain values.

use vstd::prelude::*;

use crate::registry::{LaunchParams, LaunchUpdate};
use crate::state::{Launch, LaunchV};

verus! {

/// The settings the launchpad is instantiated with; the instantiating
/// sender becomes the registry owner.
pub struct InstantiateMsg {
    pub taker_fee: u64,
    pub native_denom: String,
    pub taker_address: String,
}

pub ghost struct InstantiateMsgV {
    pub taker_fee: u64,
    pub native_denom: Seq<char>,
    pub taker_address: Seq<char>,
}

impl View for InstantiateMsg {
    type V = InstantiateMsgV;

    open spec fn view(&self) -> InstantiateMsgV {
        InstantiateMsgV {
            taker_fee: self.taker_fee,
            native_denom: self.native_denom@,
            taker_address: self.taker_address@,
        }
    }
}

/// One mutating request.
pub enum ExecuteMsg {
    ChangeTakerFee { taker_fee: u64 },
    Mint {
        contract_address: String,
        receiver_address: Option<String>,
        proof: Option<Vec<String>>,
    },
    AddLaunch(LaunchParams),
    RemoveLaunch { contract_address: String },
    ModifyLaunch(LaunchUpdate),
    AddWhitelistEntries { contract_address: String, addresses: Vec<String> },
    RemoveWhitelistEntries { contract_address: String, addresses: Vec<String> },
}

/// One read-only request.
pub enum QueryMsg {
    GetLaunch { contract_address: String },
    GetLaunchStatus { contract_address: String },
    GetWhitelistStatus {
        contract_address: String,
        account_address: String,
        proof: Vec<String>,
    },
}

/// The active phase of a launch, by name: `"whitelist"`, `"public"` or
/// `"closed"`.
pub struct LaunchStatus {
    pub status: String,
}

/// Whether an address is currently a member of a launch's whitelist.
pub struct WhitelistStatus {
    pub is_whitelist: bool,
}

/// A migration request; migration itself carries no state and is handled
/// by the surrounding plumbing.
pub enum MigrateMsg {
    Migrate {},
}

/// The answer to one read-only request.
pub enum QueryAnswer {
    Launch(Launch),
    LaunchStatus(LaunchStatus),
    WhitelistStatus(WhitelistStatus),
}

pub ghost enum QueryAnswerV {
    Launch(LaunchV),
    LaunchStatus(Seq<char>),
    WhitelistStatus(bool),
}

impl View for QueryAnswer {
    type V = QueryAnswerV;

    open spec fn view(&self) -> QueryAnswerV {
        match self {
            QueryAnswer::Launch(l) => QueryAnswerV::Launch(l@),
            QueryAnswer::LaunchStatus(st) => QueryAnswerV::LaunchStatus(st.status@),
            QueryAnswer::WhitelistStatus(ws) => QueryAnswerV::WhitelistStatus(ws.is_whitelist),
        }
    }
}

} // verus!
