//! The launchpad's data model: coins, launch records, configuration, and
//! the whole-system state with its mathematical view.

use vstd::prelude::*;

use crate::assoc::{assoc_map, assoc_set, keys_unique};
use crate::quota::QuotaKeyV;
use crate::quota::QuotaLedger;

verus! {

/// An amount of a single currency, in minor units.
pub struct Coin {
    pub denom: String,
    pub amount: u128,
}

pub ghost struct CoinV {
    pub denom: Seq<char>,
    pub amount: u128,
}

impl View for Coin {
    type V = CoinV;

    open spec fn view(&self) -> CoinV {
        CoinV { denom: self.denom@, amount: self.amount }
    }
}

impl Coin {
    /// A field-for-field copy denoting the same coin.
    pub fn duplicate(&self) -> (r: Coin)
        ensures
            r@ == self@,
    {
        Coin { denom: self.denom.clone(), amount: self.amount }
    }
}

/// One configured sale event for one NFT collection.
pub struct Launch {
    pub owner_address: String,
    pub max_supply: u64,
    pub base_uri: String,
    pub is_base_uri_static: bool,
    pub media_extension: Option<String>,
    pub whitelist_price: Coin,
    pub whitelist_max_buy: Option<u16>,
    pub whitelist_started_at: u64,
    pub whitelist_ended_at: u64,
    pub public_price: Coin,
    pub public_max_buy: Option<u16>,
    pub public_started_at: u64,
    pub public_ended_at: u64,
    pub last_token_id: u64,
    pub royalty_percentage: Option<u64>,
    pub royalty_payment_address: Option<String>,
    pub whitelist_merkle_root: Option<String>,
}

pub ghost struct LaunchV {
    pub owner_address: Seq<char>,
    pub max_supply: u64,
    pub base_uri: Seq<char>,
    pub is_base_uri_static: bool,
    pub media_extension: Option<Seq<char>>,
    pub whitelist_price: CoinV,
    pub whitelist_max_buy: Option<u16>,
    pub whitelist_started_at: u64,
    pub whitelist_ended_at: u64,
    pub public_price: CoinV,
    pub public_max_buy: Option<u16>,
    pub public_started_at: u64,
    pub public_ended_at: u64,
    pub last_token_id: u64,
    pub royalty_percentage: Option<u64>,
    pub royalty_payment_address: Option<Seq<char>>,
    pub whitelist_merkle_root: Option<Seq<char>>,
}

impl View for Launch {
    type V = LaunchV;

    open spec fn view(&self) -> LaunchV {
        LaunchV {
            owner_address: self.owner_address@,
            max_supply: self.max_supply,
            base_uri: self.base_uri@,
            is_base_uri_static: self.is_base_uri_static,
            media_extension: self.media_extension.deep_view(),
            whitelist_price: self.whitelist_price@,
            whitelist_max_buy: self.whitelist_max_buy,
            whitelist_started_at: self.whitelist_started_at,
            whitelist_ended_at: self.whitelist_ended_at,
            public_price: self.public_price@,
            public_max_buy: self.public_max_buy,
            public_started_at: self.public_started_at,
            public_ended_at: self.public_ended_at,
            last_token_id: self.last_token_id,
            royalty_percentage: self.royalty_percentage,
            royalty_payment_address: self.royalty_payment_address.deep_view(),
            whitelist_merkle_root: self.whitelist_merkle_root.deep_view(),
        }
    }
}

/// A field-for-field copy of an optional string, denoting the same value.
pub fn duplicate_opt_string(o: &Option<String>) -> (r: Option<String>)
    ensures
        r.deep_view() == o.deep_view(),
{
    match o {
        Some(s) => Some(s.clone()),
        None => None,
    }
}

impl Launch {
    /// A field-for-field copy denoting the same launch record.
    pub fn duplicate(&self) -> (r: Launch)
        ensures
            r@ == self@,
    {
        Launch {
            owner_address: self.owner_address.clone(),
            max_supply: self.max_supply,
            base_uri: self.base_uri.clone(),
            is_base_uri_static: self.is_base_uri_static,
            media_extension: duplicate_opt_string(&self.media_extension),
            whitelist_price: self.whitelist_price.duplicate(),
            whitelist_max_buy: self.whitelist_max_buy,
            whitelist_started_at: self.whitelist_started_at,
            whitelist_ended_at: self.whitelist_ended_at,
            public_price: self.public_price.duplicate(),
            public_max_buy: self.public_max_buy,
            public_started_at: self.public_started_at,
            public_ended_at: self.public_ended_at,
            last_token_id: self.last_token_id,
            royalty_percentage: self.royalty_percentage,
            royalty_payment_address: duplicate_opt_string(&self.royalty_payment_address),
            whitelist_merkle_root: duplicate_opt_string(&self.whitelist_merkle_root),
        }
    }
}

/// Process-wide settings, fixed at instantiation except for the taker fee.
pub struct Config {
    /// The registry owner: the principal entitled to registry-wide
    /// operations (adding and removing launches, changing the taker fee).
    pub registry_owner: String,
    /// Percentage of each payment routed to the platform, at most 100.
    pub taker_fee: u64,
    /// Recipient of the platform's share.
    pub taker_address: String,
    /// The single currency the launchpad accepts.
    pub native_denom: String,
}

pub ghost struct ConfigV {
    pub registry_owner: Seq<char>,
    pub taker_fee: u64,
    pub taker_address: Seq<char>,
    pub native_denom: Seq<char>,
}

impl View for Config {
    type V = ConfigV;

    open spec fn view(&self) -> ConfigV {
        ConfigV {
            registry_owner: self.registry_owner@,
            taker_fee: self.taker_fee,
            taker_address: self.taker_address@,
            native_denom: self.native_denom@,
        }
    }
}

/// One registry record: a launch keyed by its collection contract address.
pub struct LaunchEntry {
    pub contract_address: String,
    pub launch: Launch,
}

/// One explicit whitelist membership: an address admitted to the whitelist
/// phase of one launch.
pub struct WhitelistEntry {
    pub contract_address: String,
    pub address: String,
}

pub ghost struct WhitelistKeyV {
    pub contract_address: Seq<char>,
    pub address: Seq<char>,
}

pub open spec fn launch_key() -> spec_fn(LaunchEntry) -> Seq<char> {
    |e: LaunchEntry| e.contract_address@
}

pub open spec fn launch_val() -> spec_fn(LaunchEntry) -> LaunchV {
    |e: LaunchEntry| e.launch@
}

pub open spec fn whitelist_key_of(contract_address: Seq<char>, address: Seq<char>) -> WhitelistKeyV {
    WhitelistKeyV { contract_address: contract_address, address: address }
}

pub open spec fn whitelist_key() -> spec_fn(WhitelistEntry) -> WhitelistKeyV {
    |e: WhitelistEntry| WhitelistKeyV { contract_address: e.contract_address@, address: e.address@ }
}

/// The whole launchpad: configuration, launch registry, quota ledger, and
/// the explicit whitelist ledger.
pub struct Launchpad {
    pub config: Config,
    pub launches: Vec<LaunchEntry>,
    pub quotas: QuotaLedger,
    pub whitelist: Vec<WhitelistEntry>,
}

/// The mathematical model of the launchpad state.
pub ghost struct LaunchpadV {
    pub config: ConfigV,
    pub launches: Map<Seq<char>, LaunchV>,
    pub quotas: Map<QuotaKeyV, u64>,
    pub whitelist: Set<WhitelistKeyV>,
}

impl View for Launchpad {
    type V = LaunchpadV;

    open spec fn view(&self) -> LaunchpadV {
        LaunchpadV {
            config: self.config@,
            launches: assoc_map(self.launches@, launch_key(), launch_val()),
            quotas: self.quotas@,
            whitelist: assoc_set(self.whitelist@, whitelist_key()),
        }
    }
}

impl Launchpad {
    /// Well-formedness: every ledger keys its entries uniquely, and the
    /// taker fee is a percentage. Constructors establish it and every
    /// operation preserves it.
    pub open spec fn wf(&self) -> bool {
        &&& keys_unique(self.launches@, launch_key())
        &&& self.quotas.wf()
        &&& keys_unique(self.whitelist@, whitelist_key())
        &&& self.config.taker_fee <= 100
    }
}

/// Locate a launch record by its collection contract address.
pub fn find_launch_index(entries: &Vec<LaunchEntry>, contract_address: &String) -> (r: Option<
    usize,
>)
    ensures
        match r {
            Some(i) => i < entries@.len() && entries@[i as int].contract_address@
                == contract_address@,
            None => forall|j: int|
                0 <= j < entries@.len() ==> entries@[j].contract_address@ != contract_address@,
        },
{
    let n = entries.len();
    let mut i: usize = 0;
    while i < n
        invariant
            n == entries@.len(),
            i <= n,
            forall|j: int| 0 <= j < i ==> entries@[j].contract_address@ != contract_address@,
        decreases n - i,
    {
        if entries[i].contract_address == *contract_address {
            return Some(i);
        }
        i = i + 1;
    }
    None
}

/// Locate an explicit whitelist entry for `(contract_address, address)`.
pub fn find_whitelist_index(
    entries: &Vec<WhitelistEntry>,
    contract_address: &String,
    address: &String,
) -> (r: Option<usize>)
    ensures
        match r {
            Some(i) => i < entries@.len() && whitelist_key()(entries@[i as int]) == (WhitelistKeyV {
                contract_address: contract_address@,
                address: address@,
            }),
            None => forall|j: int|
                0 <= j < entries@.len() ==> whitelist_key()(entries@[j]) != (WhitelistKeyV {
                    contract_address: contract_address@,
                    address: address@,
                }),
        },
{
    let n = entries.len();
    let mut i: usize = 0;
    while i < n
        invariant
            n == entries@.len(),
            i <= n,
            forall|j: int|
                0 <= j < i ==> whitelist_key()(entries@[j]) != (WhitelistKeyV {
                    contract_address: contract_address@,
                    address: address@,
                }),
        decreases n - i,
    {
        if entries[i].contract_address == *contract_address && entries[i].address == *address {
            return Some(i);
        }
        i = i + 1;
    }
    None
}

} // verus!
