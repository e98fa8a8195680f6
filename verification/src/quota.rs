//! Per-(launch, phase, address) purchase counters with a configured cap.

use vstd::prelude::*;

use crate::assoc::{
    assoc_map, keys_unique, lemma_assoc_map_absent, lemma_assoc_map_index, lemma_assoc_map_push,
    lemma_assoc_map_update,
};
use crate::error::ContractError;
use crate::phase::Phase;

verus! {

/// One purchase counter: how many tokens `address` has minted in `phase`
/// of the launch keyed by `contract_address`.
pub struct QuotaEntry {
    pub contract_address: String,
    pub phase: Phase,
    pub address: String,
    pub count: u64,
}

pub ghost struct QuotaKeyV {
    pub contract_address: Seq<char>,
    pub phase: Phase,
    pub address: Seq<char>,
}

pub open spec fn quota_key() -> spec_fn(QuotaEntry) -> QuotaKeyV {
    |e: QuotaEntry|
        QuotaKeyV { contract_address: e.contract_address@, phase: e.phase, address: e.address@ }
}

pub open spec fn quota_val() -> spec_fn(QuotaEntry) -> u64 {
    |e: QuotaEntry| e.count
}

pub open spec fn quota_key_of(contract_address: Seq<char>, phase: Phase, address: Seq<char>) -> QuotaKeyV {
    QuotaKeyV { contract_address: contract_address, phase: phase, address: address }
}

/// The ledger of purchase counters. Its model is a finite map from
/// (launch, phase, address) keys to counters; an absent key counts as zero.
pub struct QuotaLedger {
    pub entries: Vec<QuotaEntry>,
}

impl View for QuotaLedger {
    type V = Map<QuotaKeyV, u64>;

    open spec fn view(&self) -> Map<QuotaKeyV, u64> {
        assoc_map(self.entries@, quota_key(), quota_val())
    }
}

/// The counter recorded for `k`; an absent entry is zero.
pub open spec fn quota_count(m: Map<QuotaKeyV, u64>, k: QuotaKeyV) -> u64 {
    if m.contains_key(k) {
        m[k]
    } else {
        0
    }
}

/// What check-and-increment does to the model: with no cap it succeeds
/// without recording; with cap `n` it fails once the counter has reached
/// `n`, and otherwise increments it by exactly one.
pub open spec fn check_and_increment_spec(
    m: Map<QuotaKeyV, u64>,
    k: QuotaKeyV,
    cap: Option<u16>,
) -> Result<Map<QuotaKeyV, u64>, ContractError> {
    match cap {
        None => Ok(m),
        Some(n) => if quota_count(m, k) >= n as u64 {
            Err(ContractError::MintQuotaExhausted)
        } else {
            Ok(m.insert(k, (quota_count(m, k) + 1) as u64))
        },
    }
}

impl QuotaLedger {
    pub open spec fn wf(&self) -> bool {
        keys_unique(self.entries@, quota_key())
    }

    /// An empty ledger.
    pub fn new() -> (r: QuotaLedger)
        ensures
            r.wf(),
            r@ == Map::<QuotaKeyV, u64>::empty(),
    {
        QuotaLedger { entries: Vec::new() }
    }

    fn find_index(&self, contract_address: &String, phase: Phase, address: &String) -> (r: Option<
        usize,
    >)
        ensures
            match r {
                Some(i) => i < self.entries@.len() && quota_key()(self.entries@[i as int])
                    == quota_key_of(contract_address@, phase, address@),
                None => forall|j: int|
                    0 <= j < self.entries@.len() ==> quota_key()(self.entries@[j]) != quota_key_of(
                        contract_address@,
                        phase,
                        address@,
                    ),
            },
    {
        let n = self.entries.len();
        let mut i: usize = 0;
        while i < n
            invariant
                n == self.entries@.len(),
                i <= n,
                forall|j: int|
                    0 <= j < i ==> quota_key()(self.entries@[j]) != quota_key_of(
                        contract_address@,
                        phase,
                        address@,
                    ),
            decreases n - i,
        {
            if self.entries[i].contract_address == *contract_address && self.entries[i].phase
                == phase && self.entries[i].address == *address {
                return Some(i);
            }
            i = i + 1;
        }
        None
    }

    /// Read the counter for one key, defaulting to zero.
    pub fn count_of(&self, contract_address: &String, phase: Phase, address: &String) -> (r: u64)
        requires
            self.wf(),
        ensures
            r == quota_count(self@, quota_key_of(contract_address@, phase, address@)),
    {
        match self.find_index(contract_address, phase, address) {
            Some(i) => {
                proof {
                    lemma_assoc_map_index(self.entries@, quota_key(), quota_val(), i as int);
                }
                self.entries[i].count
            },
            None => {
                proof {
                    lemma_assoc_map_absent(
                        self.entries@,
                        quota_key(),
                        quota_val(),
                        quota_key_of(contract_address@, phase, address@),
                    );
                }
                0
            },
        }
    }

    /// Check the per-address cap and count one successful mint.
    ///
    /// With `cap == None` the phase is unlimited: the call succeeds and
    /// records nothing. With `cap == Some(n)` the call fails with
    /// `MintQuotaExhausted` once the counter has reached `n`, mutating
    /// nothing; otherwise it increments the counter by exactly one.
    pub fn check_and_increment(
        &mut self,
        contract_address: &String,
        phase: Phase,
        address: &String,
        cap: Option<u16>,
    ) -> (r: Result<(), ContractError>)
        requires
            old(self).wf(),
        ensures
            final(self).wf(),
            (match check_and_increment_spec(
                old(self)@,
                quota_key_of(contract_address@, phase, address@),
                cap,
            ) {
                Ok(m2) => r is Ok && final(self)@ == m2,
                Err(e) => r == Err::<(), ContractError>(e) && final(self)@ == old(self)@,
            }),
    {
        let ghost k = quota_key_of(contract_address@, phase, address@);
        match cap {
            None => Ok(()),
            Some(n) => {
                match self.find_index(contract_address, phase, address) {
                    Some(i) => {
                        proof {
                            lemma_assoc_map_index(self.entries@, quota_key(), quota_val(), i as int);
                        }
                        let c = self.entries[i].count;
                        if c >= n as u64 {
                            Err(ContractError::MintQuotaExhausted)
                        } else {
                            let e2 = QuotaEntry {
                                contract_address: self.entries[i].contract_address.clone(),
                                phase: self.entries[i].phase,
                                address: self.entries[i].address.clone(),
                                count: c + 1,
                            };
                            proof {
                                lemma_assoc_map_update(
                                    self.entries@,
                                    quota_key(),
                                    quota_val(),
                                    i as int,
                                    e2,
                                );
                            }
                            self.entries[i] = e2;
                            Ok(())
                        }
                    },
                    None => {
                        proof {
                            lemma_assoc_map_absent(self.entries@, quota_key(), quota_val(), k);
                        }
                        if n == 0 {
                            return Err(ContractError::MintQuotaExhausted);
                        }
                        let e = QuotaEntry {
                            contract_address: contract_address.clone(),
                            phase: phase,
                            address: address.clone(),
                            count: 1,
                        };
                        proof {
                            lemma_assoc_map_push(self.entries@, quota_key(), quota_val(), e);
                        }
                        self.entries.push(e);
                        Ok(())
                    },
                }
            },
        }
    }
}

} // verus!
