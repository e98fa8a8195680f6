//! The launch registry: creation, field-by-field modification, removal,
//! taker-fee changes, and the explicit whitelist ledger.

use vstd::prelude::*;

use crate::assoc::{
    assoc_map, assoc_set, keys_unique, lemma_assoc_map_absent, lemma_assoc_map_index,
    lemma_assoc_map_push, lemma_assoc_map_remove, lemma_assoc_map_update, lemma_assoc_set_absent,
    lemma_assoc_set_contains_at, lemma_assoc_set_push, lemma_assoc_set_remove,
    lemma_keys_unique_remove, lemma_take_step,
};
use crate::error::ContractError;
use crate::state::{
    duplicate_opt_string, find_launch_index, find_whitelist_index, launch_key, launch_val, Coin,
    CoinV, Config, ConfigV, Launch, LaunchEntry, LaunchV, Launchpad, LaunchpadV, WhitelistEntry,
    whitelist_key, whitelist_key_of, WhitelistKeyV,
};

verus! {

/// Everything a new launch is created with.
pub struct LaunchParams {
    pub owner_address: String,
    pub contract_address: String,
    pub max_supply: u64,
    pub base_uri: String,
    pub is_base_uri_static: bool,
    pub media_extension: Option<String>,
    pub whitelist_price: Coin,
    pub whitelist_max_buy: Option<u16>,
    pub whitelist_started_at: u64,
    pub whitelist_ended_at: u64,
    pub public_price: Coin,
    pub public_max_buy: Option<u16>,
    pub public_started_at: u64,
    pub public_ended_at: u64,
    pub royalty_percentage: Option<u64>,
    pub royalty_payment_address: Option<String>,
    pub whitelist_merkle_root: Option<String>,
}

pub ghost struct LaunchParamsV {
    pub owner_address: Seq<char>,
    pub contract_address: Seq<char>,
    pub max_supply: u64,
    pub base_uri: Seq<char>,
    pub is_base_uri_static: bool,
    pub media_extension: Option<Seq<char>>,
    pub whitelist_price: CoinV,
    pub whitelist_max_buy: Option<u16>,
    pub whitelist_started_at: u64,
    pub whitelist_ended_at: u64,
    pub public_price: CoinV,
    pub public_max_buy: Option<u16>,
    pub public_started_at: u64,
    pub public_ended_at: u64,
    pub royalty_percentage: Option<u64>,
    pub royalty_payment_address: Option<Seq<char>>,
    pub whitelist_merkle_root: Option<Seq<char>>,
}

impl View for LaunchParams {
    type V = LaunchParamsV;

    open spec fn view(&self) -> LaunchParamsV {
        LaunchParamsV {
            owner_address: self.owner_address@,
            contract_address: self.contract_address@,
            max_supply: self.max_supply,
            base_uri: self.base_uri@,
            is_base_uri_static: self.is_base_uri_static,
            media_extension: self.media_extension.deep_view(),
            whitelist_price: self.whitelist_price@,
            whitelist_max_buy: self.whitelist_max_buy,
            whitelist_started_at: self.whitelist_started_at,
            whitelist_ended_at: self.whitelist_ended_at,
            public_price: self.public_price@,
            public_max_buy: self.public_max_buy,
            public_started_at: self.public_started_at,
            public_ended_at: self.public_ended_at,
            royalty_percentage: self.royalty_percentage,
            royalty_payment_address: self.royalty_payment_address.deep_view(),
            whitelist_merkle_root: self.whitelist_merkle_root.deep_view(),
        }
    }
}

/// The launch record a fresh creation yields: the parameters with the
/// token counter at zero.
pub open spec fn launch_of_params(p: LaunchParamsV) -> LaunchV {
    LaunchV {
        owner_address: p.owner_address,
        max_supply: p.max_supply,
        base_uri: p.base_uri,
        is_base_uri_static: p.is_base_uri_static,
        media_extension: p.media_extension,
        whitelist_price: p.whitelist_price,
        whitelist_max_buy: p.whitelist_max_buy,
        whitelist_started_at: p.whitelist_started_at,
        whitelist_ended_at: p.whitelist_ended_at,
        public_price: p.public_price,
        public_max_buy: p.public_max_buy,
        public_started_at: p.public_started_at,
        public_ended_at: p.public_ended_at,
        last_token_id: 0,
        royalty_percentage: p.royalty_percentage,
        royalty_payment_address: p.royalty_payment_address,
        whitelist_merkle_root: p.whitelist_merkle_root,
    }
}

/// What adding a launch does: only the registry owner may create; a
/// collection is created at most once; both prices must be in the native
/// denomination; the new record starts with no tokens issued.
pub open spec fn add_launch_spec(s: LaunchpadV, sender: Seq<char>, p: LaunchParamsV) -> Result<
    LaunchpadV,
    ContractError,
> {
    if sender != s.config.registry_owner {
        Err(ContractError::Unauthorized)
    } else if s.launches.contains_key(p.contract_address) {
        Err(ContractError::LaunchAlreadyExist)
    } else if p.whitelist_price.denom != s.config.native_denom {
        Err(ContractError::DenomNotSupported)
    } else if p.public_price.denom != s.config.native_denom {
        Err(ContractError::DenomNotSupported)
    } else {
        Ok(
            LaunchpadV {
                launches: s.launches.insert(p.contract_address, launch_of_params(p)),
                ..s
            },
        )
    }
}

/// A partial update of one launch: provided fields replace the stored
/// ones, absent fields keep their prior values. The owner, the token
/// counter and the royalty settings are never touched.
pub struct LaunchUpdate {
    pub contract_address: String,
    pub max_supply: Option<u64>,
    pub base_uri: Option<String>,
    pub is_base_uri_static: Option<bool>,
    pub media_extension: Option<String>,
    pub whitelist_price: Option<Coin>,
    pub whitelist_max_buy: Option<u16>,
    pub whitelist_started_at: Option<u64>,
    pub whitelist_ended_at: Option<u64>,
    pub public_price: Option<Coin>,
    pub public_max_buy: Option<u16>,
    pub public_started_at: Option<u64>,
    pub public_ended_at: Option<u64>,
    pub whitelist_merkle_root: Option<String>,
}

pub ghost struct LaunchUpdateV {
    pub contract_address: Seq<char>,
    pub max_supply: Option<u64>,
    pub base_uri: Option<Seq<char>>,
    pub is_base_uri_static: Option<bool>,
    pub media_extension: Option<Seq<char>>,
    pub whitelist_price: Option<CoinV>,
    pub whitelist_max_buy: Option<u16>,
    pub whitelist_started_at: Option<u64>,
    pub whitelist_ended_at: Option<u64>,
    pub public_price: Option<CoinV>,
    pub public_max_buy: Option<u16>,
    pub public_started_at: Option<u64>,
    pub public_ended_at: Option<u64>,
    pub whitelist_merkle_root: Option<Seq<char>>,
}

impl View for LaunchUpdate {
    type V = LaunchUpdateV;

    open spec fn view(&self) -> LaunchUpdateV {
        LaunchUpdateV {
            contract_address: self.contract_address@,
            max_supply: self.max_supply,
            base_uri: self.base_uri.deep_view(),
            is_base_uri_static: self.is_base_uri_static,
            media_extension: self.media_extension.deep_view(),
            whitelist_price: (match self.whitelist_price {
                Some(c) => Some(c@),
                None => None,
            }),
            whitelist_max_buy: self.whitelist_max_buy,
            whitelist_started_at: self.whitelist_started_at,
            whitelist_ended_at: self.whitelist_ended_at,
            public_price: (match self.public_price {
                Some(c) => Some(c@),
                None => None,
            }),
            public_max_buy: self.public_max_buy,
            public_started_at: self.public_started_at,
            public_ended_at: self.public_ended_at,
            whitelist_merkle_root: self.whitelist_merkle_root.deep_view(),
        }
    }
}

/// The field-by-field merge of an update onto a stored launch.
pub open spec fn merged_launch(l: LaunchV, u: LaunchUpdateV) -> LaunchV {
    LaunchV {
        owner_address: l.owner_address,
        max_supply: (match u.max_supply {
            Some(x) => x,
            None => l.max_supply,
        }),
        base_uri: (match u.base_uri {
            Some(x) => x,
            None => l.base_uri,
        }),
        is_base_uri_static: (match u.is_base_uri_static {
            Some(x) => x,
            None => l.is_base_uri_static,
        }),
        media_extension: (match u.media_extension {
            Some(x) => Some(x),
            None => l.media_extension,
        }),
        whitelist_price: (match u.whitelist_price {
            Some(x) => x,
            None => l.whitelist_price,
        }),
        whitelist_max_buy: (match u.whitelist_max_buy {
            Some(x) => Some(x),
            None => l.whitelist_max_buy,
        }),
        whitelist_started_at: (match u.whitelist_started_at {
            Some(x) => x,
            None => l.whitelist_started_at,
        }),
        whitelist_ended_at: (match u.whitelist_ended_at {
            Some(x) => x,
            None => l.whitelist_ended_at,
        }),
        public_price: (match u.public_price {
            Some(x) => x,
            None => l.public_price,
        }),
        public_max_buy: (match u.public_max_buy {
            Some(x) => Some(x),
            None => l.public_max_buy,
        }),
        public_started_at: (match u.public_started_at {
            Some(x) => x,
            None => l.public_started_at,
        }),
        public_ended_at: (match u.public_ended_at {
            Some(x) => x,
            None => l.public_ended_at,
        }),
        last_token_id: l.last_token_id,
        royalty_percentage: l.royalty_percentage,
        royalty_payment_address: l.royalty_payment_address,
        whitelist_merkle_root: (match u.whitelist_merkle_root {
            Some(x) => Some(x),
            None => l.whitelist_merkle_root,
        }),
    }
}

/// What modifying a launch does: the record must exist; the caller must be
/// the registry owner or the launch's own owner; any provided price must
/// be in the native denomination; then the update merges field by field.
pub open spec fn modify_launch_spec(s: LaunchpadV, sender: Seq<char>, u: LaunchUpdateV) -> Result<
    LaunchpadV,
    ContractError,
> {
    if !s.launches.contains_key(u.contract_address) {
        Err(ContractError::NotFound)
    } else if sender != s.config.registry_owner && sender
        != s.launches[u.contract_address].owner_address {
        Err(ContractError::Unauthorized)
    } else if (match u.whitelist_price {
        Some(c) => c.denom != s.config.native_denom,
        None => false,
    }) {
        Err(ContractError::DenomNotSupported)
    } else if (match u.public_price {
        Some(c) => c.denom != s.config.native_denom,
        None => false,
    }) {
        Err(ContractError::DenomNotSupported)
    } else {
        Ok(
            LaunchpadV {
                launches: s.launches.insert(
                    u.contract_address,
                    merged_launch(s.launches[u.contract_address], u),
                ),
                ..s
            },
        )
    }
}

/// What removing a launch does: only the registry owner may remove; the
/// record, if present, disappears. Quota counters are not cascaded: their
/// keys are namespaced per launch and simply become unreachable.
pub open spec fn remove_launch_spec(s: LaunchpadV, sender: Seq<char>, id: Seq<char>) -> Result<
    LaunchpadV,
    ContractError,
> {
    if sender != s.config.registry_owner {
        Err(ContractError::Unauthorized)
    } else {
        Ok(LaunchpadV { launches: s.launches.remove(id), ..s })
    }
}

/// What changing the taker fee does: a registry-owner-only overwrite.
pub open spec fn change_taker_fee_spec(s: LaunchpadV, sender: Seq<char>, taker_fee: u64) -> Result<
    LaunchpadV,
    ContractError,
> {
    if sender != s.config.registry_owner {
        Err(ContractError::Unauthorized)
    } else {
        Ok(LaunchpadV { config: ConfigV { taker_fee: taker_fee, ..s.config }, ..s })
    }
}

/// The whitelist keys of one launch for a batch of addresses.
pub open spec fn wl_keys(id: Seq<char>, addrs: Seq<Seq<char>>) -> Set<WhitelistKeyV> {
    Set::new(|k: WhitelistKeyV| k.contract_address == id && addrs.contains(k.address))
}

/// What adding explicit whitelist entries does: the launch must exist and
/// the caller must be the registry owner or the launch owner; then every
/// listed address becomes a member of the launch's whitelist set.
pub open spec fn add_whitelist_entries_spec(
    s: LaunchpadV,
    sender: Seq<char>,
    id: Seq<char>,
    addrs: Seq<Seq<char>>,
) -> Result<LaunchpadV, ContractError> {
    if !s.launches.contains_key(id) {
        Err(ContractError::NotFound)
    } else if sender != s.config.registry_owner && sender != s.launches[id].owner_address {
        Err(ContractError::Unauthorized)
    } else {
        Ok(LaunchpadV { whitelist: s.whitelist.union(wl_keys(id, addrs)), ..s })
    }
}

/// What removing explicit whitelist entries does: under the same
/// authorization, every listed address leaves the launch's whitelist set.
pub open spec fn remove_whitelist_entries_spec(
    s: LaunchpadV,
    sender: Seq<char>,
    id: Seq<char>,
    addrs: Seq<Seq<char>>,
) -> Result<LaunchpadV, ContractError> {
    if !s.launches.contains_key(id) {
        Err(ContractError::NotFound)
    } else if sender != s.config.registry_owner && sender != s.launches[id].owner_address {
        Err(ContractError::Unauthorized)
    } else {
        Ok(LaunchpadV { whitelist: s.whitelist.difference(wl_keys(id, addrs)), ..s })
    }
}

impl Launchpad {
    /// Create a launch. See `add_launch_spec` for the exact behaviour.
    pub fn add_launch(&mut self, sender: &String, params: LaunchParams) -> (r: Result<
        (),
        ContractError,
    >)
        requires
            old(self).wf(),
        ensures
            final(self).wf(),
            (match add_launch_spec(old(self)@, sender@, params@) {
                Ok(s2) => r is Ok && final(self)@ == s2,
                Err(e) => r == Err::<(), ContractError>(e) && final(self)@ == old(self)@,
            }),
    {
        if !(*sender == self.config.registry_owner) {
            return Err(ContractError::Unauthorized);
        }
        match find_launch_index(&self.launches, &params.contract_address) {
            Some(i) => {
                proof {
                    lemma_assoc_map_index(self.launches@, launch_key(), launch_val(), i as int);
                }
                Err(ContractError::LaunchAlreadyExist)
            },
            None => {
                proof {
                    lemma_assoc_map_absent(
                        self.launches@,
                        launch_key(),
                        launch_val(),
                        params.contract_address@,
                    );
                }
                if !(params.whitelist_price.denom == self.config.native_denom) {
                    return Err(ContractError::DenomNotSupported);
                }
                if !(params.public_price.denom == self.config.native_denom) {
                    return Err(ContractError::DenomNotSupported);
                }
                let entry = LaunchEntry {
                    contract_address: params.contract_address,
                    launch: Launch {
                        owner_address: params.owner_address,
                        max_supply: params.max_supply,
                        base_uri: params.base_uri,
                        is_base_uri_static: params.is_base_uri_static,
                        media_extension: params.media_extension,
                        whitelist_price: params.whitelist_price,
                        whitelist_max_buy: params.whitelist_max_buy,
                        whitelist_started_at: params.whitelist_started_at,
                        whitelist_ended_at: params.whitelist_ended_at,
                        public_price: params.public_price,
                        public_max_buy: params.public_max_buy,
                        public_started_at: params.public_started_at,
                        public_ended_at: params.public_ended_at,
                        last_token_id: 0,
                        royalty_percentage: params.royalty_percentage,
                        royalty_payment_address: params.royalty_payment_address,
                        whitelist_merkle_root: params.whitelist_merkle_root,
                    },
                };
                proof {
                    lemma_assoc_map_push(self.launches@, launch_key(), launch_val(), entry);
                }
                self.launches.push(entry);
                Ok(())
            },
        }
    }

    /// Modify a launch. See `modify_launch_spec` for the exact behaviour.
    pub fn modify_launch(&mut self, sender: &String, update: LaunchUpdate) -> (r: Result<
        (),
        ContractError,
    >)
        requires
            old(self).wf(),
        ensures
            final(self).wf(),
            (match modify_launch_spec(old(self)@, sender@, update@) {
                Ok(s2) => r is Ok && final(self)@ == s2,
                Err(e) => r == Err::<(), ContractError>(e) && final(self)@ == old(self)@,
            }),
    {
        let i = match find_launch_index(&self.launches, &update.contract_address) {
            Some(i) => i,
            None => {
                proof {
                    lemma_assoc_map_absent(
                        self.launches@,
                        launch_key(),
                        launch_val(),
                        update.contract_address@,
                    );
                }
                return Err(ContractError::NotFound);
            },
        };
        proof {
            lemma_assoc_map_index(self.launches@, launch_key(), launch_val(), i as int);
        }
        if !(*sender == self.config.registry_owner) && !(*sender
            == self.launches[i].launch.owner_address) {
            return Err(ContractError::Unauthorized);
        }
        match &update.whitelist_price {
            Some(c) => {
                if !(c.denom == self.config.native_denom) {
                    return Err(ContractError::DenomNotSupported);
                }
            },
            None => {},
        }
        match &update.public_price {
            Some(c) => {
                if !(c.denom == self.config.native_denom) {
                    return Err(ContractError::DenomNotSupported);
                }
            },
            None => {},
        }
        let prior = self.launches[i].launch.duplicate();
        let merged = Launch {
            owner_address: prior.owner_address,
            max_supply: (match update.max_supply {
                Some(x) => x,
                None => prior.max_supply,
            }),
            base_uri: (match update.base_uri {
                Some(x) => x,
                None => prior.base_uri,
            }),
            is_base_uri_static: (match update.is_base_uri_static {
                Some(x) => x,
                None => prior.is_base_uri_static,
            }),
            media_extension: (match update.media_extension {
                Some(x) => Some(x),
                None => prior.media_extension,
            }),
            whitelist_price: (match update.whitelist_price {
                Some(x) => x,
                None => prior.whitelist_price,
            }),
            whitelist_max_buy: (match update.whitelist_max_buy {
                Some(x) => Some(x),
                None => prior.whitelist_max_buy,
            }),
            whitelist_started_at: (match update.whitelist_started_at {
                Some(x) => x,
                None => prior.whitelist_started_at,
            }),
            whitelist_ended_at: (match update.whitelist_ended_at {
                Some(x) => x,
                None => prior.whitelist_ended_at,
            }),
            public_price: (match update.public_price {
                Some(x) => x,
                None => prior.public_price,
            }),
            public_max_buy: (match update.public_max_buy {
                Some(x) => Some(x),
                None => prior.public_max_buy,
            }),
            public_started_at: (match update.public_started_at {
                Some(x) => x,
                None => prior.public_started_at,
            }),
            public_ended_at: (match update.public_ended_at {
                Some(x) => x,
                None => prior.public_ended_at,
            }),
            last_token_id: prior.last_token_id,
            royalty_percentage: prior.royalty_percentage,
            royalty_payment_address: prior.royalty_payment_address,
            whitelist_merkle_root: (match update.whitelist_merkle_root {
                Some(x) => Some(x),
                None => prior.whitelist_merkle_root,
            }),
        };
        let entry = LaunchEntry {
            contract_address: self.launches[i].contract_address.clone(),
            launch: merged,
        };
        proof {
            lemma_assoc_map_update(self.launches@, launch_key(), launch_val(), i as int, entry);
        }
        self.launches[i] = entry;
        Ok(())
    }

    /// Remove a launch. See `remove_launch_spec` for the exact behaviour.
    pub fn remove_launch(&mut self, sender: &String, contract_address: &String) -> (r: Result<
        (),
        ContractError,
    >)
        requires
            old(self).wf(),
        ensures
            final(self).wf(),
            (match remove_launch_spec(old(self)@, sender@, contract_address@) {
                Ok(s2) => r is Ok && final(self)@ == s2,
                Err(e) => r == Err::<(), ContractError>(e) && final(self)@ == old(self)@,
            }),
    {
        if !(*sender == self.config.registry_owner) {
            return Err(ContractError::Unauthorized);
        }
        match find_launch_index(&self.launches, contract_address) {
            Some(i) => {
                proof {
                    lemma_assoc_map_remove(self.launches@, launch_key(), launch_val(), i as int);
                }
                self.launches.remove(i);
            },
            None => {
                proof {
                    lemma_assoc_map_absent(
                        self.launches@,
                        launch_key(),
                        launch_val(),
                        contract_address@,
                    );
                    assert(assoc_map(self.launches@, launch_key(), launch_val()).remove(
                        contract_address@,
                    ) =~= assoc_map(self.launches@, launch_key(), launch_val()));
                }
            },
        }
        Ok(())
    }

    /// Add explicit whitelist members to one launch. See
    /// `add_whitelist_entries_spec` for the exact behaviour.
    pub fn add_whitelist_entries(
        &mut self,
        sender: &String,
        contract_address: &String,
        addresses: &Vec<String>,
    ) -> (r: Result<(), ContractError>)
        requires
            old(self).wf(),
        ensures
            final(self).wf(),
            (match add_whitelist_entries_spec(
                old(self)@,
                sender@,
                contract_address@,
                addresses.deep_view(),
            ) {
                Ok(s2) => r is Ok && final(self)@ == s2,
                Err(e) => r == Err::<(), ContractError>(e) && final(self)@ == old(self)@,
            }),
    {
        let ghost id_v = contract_address@;
        let ghost dv = addresses.deep_view();
        let i = match find_launch_index(&self.launches, contract_address) {
            Some(i) => i,
            None => {
                proof {
                    lemma_assoc_map_absent(self.launches@, launch_key(), launch_val(), id_v);
                }
                return Err(ContractError::NotFound);
            },
        };
        proof {
            lemma_assoc_map_index(self.launches@, launch_key(), launch_val(), i as int);
        }
        if !(*sender == self.config.registry_owner) && !(*sender
            == self.launches[i].launch.owner_address) {
            return Err(ContractError::Unauthorized);
        }
        let ghost s0 = *self;
        let ghost base = assoc_set(s0.whitelist@, whitelist_key());
        let n = addresses.len();
        proof {
            assert(wl_keys(id_v, dv.take(0)) =~= Set::<WhitelistKeyV>::empty());
            assert(assoc_set(self.whitelist@, whitelist_key()) =~= base.union(
                wl_keys(id_v, dv.take(0)),
            ));
        }
        let mut idx: usize = 0;
        while idx < n
            invariant
                n == addresses@.len(),
                dv == addresses.deep_view(),
                idx <= n,
                id_v == contract_address@,
                base == assoc_set(s0.whitelist@, whitelist_key()),
                self.config == s0.config,
                self.launches == s0.launches,
                self.quotas == s0.quotas,
                keys_unique(self.whitelist@, whitelist_key()),
                assoc_set(self.whitelist@, whitelist_key()) == base.union(
                    wl_keys(id_v, dv.take(idx as int)),
                ),
            decreases n - idx,
        {
            let ghost k = whitelist_key_of(id_v, dv[idx as int]);
            proof {
                assert(dv[idx as int] == addresses@[idx as int]@);
                lemma_take_step(dv, idx as int);
                assert(wl_keys(id_v, dv.take(idx as int + 1)) =~= wl_keys(
                    id_v,
                    dv.take(idx as int),
                ).insert(k));
            }
            let addr_i = &addresses[idx];
            proof {
                assert(addr_i@ == dv[idx as int]);
                assert(k == whitelist_key_of(contract_address@, addr_i@));
            }
            match find_whitelist_index(&self.whitelist, contract_address, addr_i) {
                Some(j) => {
                    proof {
                        lemma_assoc_set_contains_at(self.whitelist@, whitelist_key(), j as int);
                        assert(whitelist_key()(self.whitelist@[j as int]) == (WhitelistKeyV {
                            contract_address: contract_address@,
                            address: addr_i@,
                        }));
                        assert(whitelist_key()(self.whitelist@[j as int]) == k);
                        assert(assoc_set(self.whitelist@, whitelist_key()).contains(k));
                        assert(assoc_set(self.whitelist@, whitelist_key()) =~= base.union(
                            wl_keys(id_v, dv.take(idx as int + 1)),
                        ));
                    }
                },
                None => {
                    let e = WhitelistEntry {
                        contract_address: contract_address.clone(),
                        address: addresses[idx].clone(),
                    };
                    proof {
                        lemma_assoc_set_push(self.whitelist@, whitelist_key(), e);
                        assert(assoc_set(self.whitelist@, whitelist_key()).insert(k) =~= base.union(
                            wl_keys(id_v, dv.take(idx as int + 1)),
                        ));
                    }
                    self.whitelist.push(e);
                },
            }
            idx = idx + 1;
        }
        proof {
            assert(dv.take(n as int) =~= dv);
        }
        Ok(())
    }

    /// Remove explicit whitelist members from one launch. See
    /// `remove_whitelist_entries_spec` for the exact behaviour.
    pub fn remove_whitelist_entries(
        &mut self,
        sender: &String,
        contract_address: &String,
        addresses: &Vec<String>,
    ) -> (r: Result<(), ContractError>)
        requires
            old(self).wf(),
        ensures
            final(self).wf(),
            (match remove_whitelist_entries_spec(
                old(self)@,
                sender@,
                contract_address@,
                addresses.deep_view(),
            ) {
                Ok(s2) => r is Ok && final(self)@ == s2,
                Err(e) => r == Err::<(), ContractError>(e) && final(self)@ == old(self)@,
            }),
    {
        let ghost id_v = contract_address@;
        let ghost dv = addresses.deep_view();
        let i = match find_launch_index(&self.launches, contract_address) {
            Some(i) => i,
            None => {
                proof {
                    lemma_assoc_map_absent(self.launches@, launch_key(), launch_val(), id_v);
                }
                return Err(ContractError::NotFound);
            },
        };
        proof {
            lemma_assoc_map_index(self.launches@, launch_key(), launch_val(), i as int);
        }
        if !(*sender == self.config.registry_owner) && !(*sender
            == self.launches[i].launch.owner_address) {
            return Err(ContractError::Unauthorized);
        }
        let ghost s0 = *self;
        let ghost base = assoc_set(s0.whitelist@, whitelist_key());
        let n = addresses.len();
        proof {
            assert(wl_keys(id_v, dv.take(0)) =~= Set::<WhitelistKeyV>::empty());
            assert(assoc_set(self.whitelist@, whitelist_key()) =~= base.difference(
                wl_keys(id_v, dv.take(0)),
            ));
        }
        let mut idx: usize = 0;
        while idx < n
            invariant
                n == addresses@.len(),
                dv == addresses.deep_view(),
                idx <= n,
                id_v == contract_address@,
                base == assoc_set(s0.whitelist@, whitelist_key()),
                self.config == s0.config,
                self.launches == s0.launches,
                self.quotas == s0.quotas,
                keys_unique(self.whitelist@, whitelist_key()),
                assoc_set(self.whitelist@, whitelist_key()) == base.difference(
                    wl_keys(id_v, dv.take(idx as int)),
                ),
            decreases n - idx,
        {
            let ghost k = whitelist_key_of(id_v, dv[idx as int]);
            proof {
                assert(dv[idx as int] == addresses@[idx as int]@);
                lemma_take_step(dv, idx as int);
                assert(wl_keys(id_v, dv.take(idx as int + 1)) =~= wl_keys(
                    id_v,
                    dv.take(idx as int),
                ).insert(k));
            }
            match find_whitelist_index(&self.whitelist, contract_address, &addresses[idx]) {
                Some(j) => {
                    proof {
                        assert(whitelist_key()(self.whitelist@[j as int]) == k);
                        lemma_assoc_set_remove(self.whitelist@, whitelist_key(), j as int);
                        lemma_keys_unique_remove(self.whitelist@, whitelist_key(), j as int);
                        assert(assoc_set(self.whitelist@, whitelist_key()).remove(k) =~= base
                            .difference(wl_keys(id_v, dv.take(idx as int + 1))));
                    }
                    self.whitelist.remove(j);
                },
                None => {
                    proof {
                        assert(forall|x: int|
                            0 <= x < self.whitelist@.len() ==> whitelist_key()(
                                self.whitelist@[x],
                            ) != k);
                        lemma_assoc_set_absent(self.whitelist@, whitelist_key(), k);
                        assert(!assoc_set(self.whitelist@, whitelist_key()).contains(k));
                        assert(assoc_set(self.whitelist@, whitelist_key()) =~= base.difference(
                            wl_keys(id_v, dv.take(idx as int + 1)),
                        ));
                    }
                },
            }
            idx = idx + 1;
        }
        proof {
            assert(dv.take(n as int) =~= dv);
        }
        Ok(())
    }

    /// Change the taker fee. See `change_taker_fee_spec`; the new fee must
    /// be a percentage, else later payment splits would turn the owner's
    /// share negative.
    pub fn change_taker_fee(&mut self, sender: &String, taker_fee: u64) -> (r: Result<
        (),
        ContractError,
    >)
        requires
            old(self).wf(),
            taker_fee <= 100,
        ensures
            final(self).wf(),
            (match change_taker_fee_spec(old(self)@, sender@, taker_fee) {
                Ok(s2) => r is Ok && final(self)@ == s2,
                Err(e) => r == Err::<(), ContractError>(e) && final(self)@ == old(self)@,
            }),
    {
        if !(*sender == self.config.registry_owner) {
            return Err(ContractError::Unauthorized);
        }
        self.config.taker_fee = taker_fee;
        Ok(())
    }
}

} // verus!
