//! The contract's durable state: settings, the pending-operation ledger and
//! the reward bonds; its construction, configuration and queries.
use vstd::prelude::*;
use crate::ledger::{restorable, PendingLedger};
use crate::types::{BondedRewardsDetails, Config, ContractVersion, ProxyError, SubMessageDetails};

verus! {

/// The contract's durable state.
pub struct ProxyState {
    pub config: Config,
    pub contract_version: ContractVersion,
    pub pending: PendingLedger,
    /// Reward bonds in the order they accrued.
    pub bonds: Vec<BondedRewardsDetails>,
}

impl ProxyState {
    pub open spec fn wf(&self) -> bool {
        self.config.wf() && self.pending@.wf()
    }
}

/// Everything but the ledger is as it was.
pub open spec fn same_but_ledger(a: ProxyState, b: ProxyState) -> bool {
    &&& a.config == b.config
    &&& a.contract_version == b.contract_version
    &&& a.bonds == b.bonds
}

/// The settings after a configuration: a given non-empty pool address
/// replaces the old one (an empty one counts as none given, so a configured
/// pool address never becomes empty), and the swap opening date is replaced.
pub open spec fn configured(c: Config, pool_pair_address: Option<String>, swap_opening_date: u64) -> Config {
    Config {
        pool_pair_address: match pool_pair_address {
            Some(p) => if p@.len() > 0 {
                p
            } else {
                c.pool_pair_address
            },
            None => c.pool_pair_address,
        },
        swap_opening_date,
        ..c
    }
}

/// A state with the given settings and version, no id issued, nothing
/// pending and no bond; refused when a discount rate exceeds 10000 basis points.
pub fn instantiate(config: Config, contract_version: ContractVersion) -> (r: Result<ProxyState, ProxyError>)
    ensures
        match r {
            Ok(s) => {
                &&& config.wf()
                &&& s.wf()
                &&& s.config == config
                &&& s.contract_version == contract_version
                &&& s.pending@.last_id is None
                &&& s.pending@.records == Map::<u64, SubMessageDetails>::empty()
                &&& s.bonds@.len() == 0
            },
            Err(e) => !config.wf() && e == ProxyError::InvalidDiscountRate,
        },
{
    if config.pair_discount_rate > crate::types::MAX_BPS || config.native_discount_rate > crate::types::MAX_BPS {
        return Err(ProxyError::InvalidDiscountRate);
    }
    Ok(ProxyState { config, contract_version, pending: PendingLedger::new(), bonds: Vec::new() })
}

/// A state rebuilt from its stored parts; refused when a discount rate
/// exceeds 10000 basis points or the stored continuations cannot make up a
/// ledger whose last id is `last_id`.
pub fn restore_state(
    config: Config,
    contract_version: ContractVersion,
    last_id: Option<u64>,
    records: Vec<SubMessageDetails>,
    bonds: Vec<BondedRewardsDetails>,
) -> (r: Result<ProxyState, ProxyError>)
    ensures
        match r {
            Ok(s) => {
                &&& config.wf()
                &&& restorable(last_id, records@)
                &&& s.wf()
                &&& s.config == config
                &&& s.contract_version == contract_version
                &&& s.pending@.last_id == last_id
                &&& forall|i: int| 0 <= i < records@.len()
                    ==> #[trigger] s.pending@.lookup(records@[i].sub_req_id) == Some(records@[i])
                &&& forall|id: u64| #[trigger] s.pending@.records.contains_key(id)
                    ==> exists|i: int| 0 <= i < records@.len() && records@[i].sub_req_id == id
                &&& s.bonds == bonds
            },
            Err(e) => {
                &&& !config.wf() ==> e == ProxyError::InvalidDiscountRate
                &&& config.wf() ==> e == ProxyError::InvalidLedger && !restorable(last_id, records@)
            },
        },
{
    if config.pair_discount_rate > crate::types::MAX_BPS || config.native_discount_rate > crate::types::MAX_BPS {
        return Err(ProxyError::InvalidDiscountRate);
    }
    match PendingLedger::restore(last_id, records) {
        Some(pending) => Ok(ProxyState { config, contract_version, pending, bonds }),
        None => Err(ProxyError::InvalidLedger),
    }
}

/// Records the contract's name and version.
pub fn set_contract_version(state: &mut ProxyState, name: String, version: String)
    ensures
        final(state).contract_version == (ContractVersion { contract: name, version }),
        final(state).config == old(state).config,
        final(state).pending == old(state).pending,
        final(state).bonds == old(state).bonds,
{
    state.contract_version = ContractVersion { contract: name, version };
}

/// Replaces the pool address, if a non-empty one is given, and the swap
/// opening date.
pub fn configure_proxy(state: &mut ProxyState, pool_pair_address: Option<String>, swap_opening_date: u64)
    ensures
        final(state).config == configured(old(state).config, pool_pair_address, swap_opening_date),
        final(state).contract_version == old(state).contract_version,
        final(state).pending == old(state).pending,
        final(state).bonds == old(state).bonds,
{
    if let Some(pool) = pool_pair_address {
        if !pool.as_str().is_empty() {
            state.config.pool_pair_address = pool;
        }
    }
    state.config.swap_opening_date = swap_opening_date;
}

/// Replaces the swap opening date.
pub fn set_swap_opening_date(state: &mut ProxyState, swap_opening_date: u64)
    ensures
        final(state).config == (Config { swap_opening_date, ..old(state).config }),
        final(state).contract_version == old(state).contract_version,
        final(state).pending == old(state).pending,
        final(state).bonds == old(state).bonds,
{
    state.config.swap_opening_date = swap_opening_date;
}

/// The settings.
pub fn query_configuration(state: &ProxyState) -> (r: &Config)
    ensures
        *r == state.config,
{
    &state.config
}

/// The swap opening date, in nanoseconds since the epoch.
pub fn query_swap_opening_date(state: &ProxyState) -> (r: u64)
    ensures
        r == state.config.swap_opening_date,
{
    state.config.swap_opening_date
}

/// The bonds of `user`, in the order they accrued.
pub open spec fn bonds_of(bonds: Seq<BondedRewardsDetails>, user: Seq<char>) -> Seq<BondedRewardsDetails>
    decreases bonds.len(),
{
    if bonds.len() == 0 {
        Seq::empty()
    } else {
        let earlier = bonds_of(bonds.drop_last(), user);
        if bonds.last().user_address@ == user {
            earlier.push(bonds.last())
        } else {
            earlier
        }
    }
}

fn copy_bond(b: &BondedRewardsDetails) -> (r: BondedRewardsDetails)
    ensures
        r == *b,
{
    BondedRewardsDetails {
        user_address: b.user_address.clone(),
        bonded_reward_amount_accrued: b.bonded_reward_amount_accrued,
        bonding_period_in_days: b.bonding_period_in_days,
        bonding_start_timestamp: b.bonding_start_timestamp,
    }
}

/// The reward bonds of `user`, in the order they accrued.
pub fn query_bonding_details(state: &ProxyState, user: &String) -> (r: Vec<BondedRewardsDetails>)
    ensures
        r@ == bonds_of(state.bonds@, user@),
{
    let mut r: Vec<BondedRewardsDetails> = Vec::new();
    let mut i: usize = 0;
    while i < state.bonds.len()
        invariant
            i <= state.bonds@.len(),
            r@ == bonds_of(state.bonds@.subrange(0, i as int), user@),
        decreases state.bonds@.len() - i,
    {
        assert(state.bonds@.subrange(0, i as int + 1).drop_last() =~= state.bonds@.subrange(0, i as int));
        if state.bonds[i].user_address == *user {
            r.push(copy_bond(&state.bonds[i]));
        }
        i += 1;
    }
    assert(state.bonds@.subrange(0, i as int) =~= state.bonds@);
    r
}

/// Configuring twice: a non-empty second pool address replaces the first,
/// the second opening date stands, and every other setting is as before.
pub proof fn configure_twice_last_wins(
    c: Config,
    first_pool: String,
    first_date: u64,
    second_pool: String,
    second_date: u64,
)
    requires
        second_pool@.len() > 0,
    ensures
        configured(configured(c, Some(first_pool), first_date), Some(second_pool), second_date) == (Config {
            pool_pair_address: second_pool,
            swap_opening_date: second_date,
            ..c
        }),
{
}

} // verus!
