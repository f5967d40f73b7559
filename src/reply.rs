//! The outcome dispatcher: resumes the continuation of a correlation id when
//! the outcome of its outbound call arrives.
use vstd::prelude::*;
use crate::engine::{chained, incr_allow_for_provide_liquidity, terminal, treasury_step};
use crate::state::{same_but_ledger, ProxyState};
use crate::types::{
    token_leg, Asset, Outbound, ProxyError, SubCall, SubMessageDetails, SubMessageNextAction,
};

verus! {

/// What the reply handler asks for next.
#[derive(Clone, Debug, PartialEq, Eq)]
pub enum ReplyStep {
    /// No follow-up: the inner call's attributes and data are passed on.
    PassThrough,
    /// The next call of the chain was issued.
    Dispatched(SubCall),
    /// The treasury transfer comes next; it needs the pool's reserves
    /// (`transfer_custom_assets_from_funds_owner_to_proxy`).
    AwaitingPoolReserves(SubMessageDetails),
    /// The pool deposit comes next; it needs the transfer levy on each attached
    /// fund (`forward_provide_liquidity_to_astro`).
    AwaitingTaxes(SubMessageDetails),
}

/// What the reply handler does for a successful outcome when the
/// continuation `d` was pending: the continuation is removed first, then the
/// chain goes on by the continuation's next action, whatever the kind of
/// call it waited for.
pub open spec fn resumed(before: ProxyState, after: ProxyState, r: Result<ReplyStep, ProxyError>, id: u64, d: SubMessageDetails) -> bool {
    let m = before.pending@.without(id);
    match d.next_action {
        SubMessageNextAction::ProvideLiquidity => {
            r == Ok::<ReplyStep, ProxyError>(ReplyStep::AwaitingTaxes(d)) && after.pending@ == m
        },
        SubMessageNextAction::TransferCustomAssetsFromFundsOwner => {
            r == Ok::<ReplyStep, ProxyError>(ReplyStep::AwaitingPoolReserves(d)) && after.pending@ == m
        },
        SubMessageNextAction::IncreaseAllowance => {
            let call = Outbound::IncreaseAllowance {
                token: before.config.custom_token_address,
                spender: before.config.pool_pair_address,
                amount: token_leg(d.sub_message_payload.assets),
            };
            let step = match r {
                Ok(ReplyStep::Dispatched(c)) => Some(Ok::<SubCall, ProxyError>(c)),
                Err(e) => Some(Err::<SubCall, ProxyError>(e)),
                _ => None,
            };
            match step {
                Some(s) => chained(
                    m,
                    after.pending@,
                    s,
                    call,
                    SubMessageNextAction::ProvideLiquidity,
                    d.sub_message_payload,
                    d.funds,
                    d.user_address,
                    d.is_fury_provided,
                ),
                None => false,
            }
        },
    }
}

/// The effect of `reply`: a failure fails at once with the inner error,
/// before any lookup, and changes nothing; a success with no continuation
/// pending on `id` passes through and changes nothing; otherwise the
/// continuation is removed and its chain resumes (see `resumed`).
pub open spec fn replied(
    before: ProxyState,
    after: ProxyState,
    id: u64,
    outcome: Result<(), String>,
    r: Result<ReplyStep, ProxyError>,
) -> bool {
    &&& same_but_ledger(after, before)
    &&& match outcome {
        Err(msg) => r == Err::<ReplyStep, ProxyError>(ProxyError::InnerCallFailed(msg))
            && after.pending == before.pending,
        Ok(_) => match before.pending@.lookup(id) {
            None => r == Ok::<ReplyStep, ProxyError>(ReplyStep::PassThrough) && after.pending == before.pending,
            Some(d) => resumed(before, after, r, id, d),
        },
    }
}

/// The outcome dispatcher, called once per outcome of an outbound call.
pub fn reply(state: &mut ProxyState, id: u64, outcome: Result<(), String>) -> (r: Result<ReplyStep, ProxyError>)
    requires
        old(state).wf(),
    ensures
        final(state).wf(),
        replied(*old(state), *final(state), id, outcome, r),
{
    match outcome {
        Err(msg) => Err(ProxyError::InnerCallFailed(msg)),
        Ok(()) => resume(state, id),
    }
}

/// The success path of `reply`.
fn resume(state: &mut ProxyState, id: u64) -> (r: Result<ReplyStep, ProxyError>)
    requires
        old(state).wf(),
    ensures
        final(state).wf(),
        same_but_ledger(*final(state), *old(state)),
        match old(state).pending@.lookup(id) {
            None => r == Ok::<ReplyStep, ProxyError>(ReplyStep::PassThrough)
                && final(state).pending == old(state).pending,
            Some(d) => resumed(*old(state), *final(state), r, id, d),
        },
{
    if !state.pending.is_pending(id) {
        return Ok(ReplyStep::PassThrough);
    }
    match state.pending.take_continuation(id) {
        None => Ok(ReplyStep::PassThrough),
        Some(d) => {
            match d.next_action {
                SubMessageNextAction::ProvideLiquidity => Ok(ReplyStep::AwaitingTaxes(d)),
                SubMessageNextAction::TransferCustomAssetsFromFundsOwner => Ok(ReplyStep::AwaitingPoolReserves(d)),
                SubMessageNextAction::IncreaseAllowance => {
                    let SubMessageDetails { sub_message_payload, funds, user_address, is_fury_provided, .. } = d;
                    match incr_allow_for_provide_liquidity(state, sub_message_payload, funds, user_address, is_fury_provided) {
                        Ok(c) => Ok(ReplyStep::Dispatched(c)),
                        Err(e) => Err(e),
                    }
                },
            }
        },
    }
}

/// Replaying a successful outcome is a no-op: once a successful outcome for
/// `id` has been handled, handling it again passes through and changes nothing.
pub proof fn replayed_outcome_is_noop(
    s0: ProxyState,
    s1: ProxyState,
    s2: ProxyState,
    id: u64,
    r1: Result<ReplyStep, ProxyError>,
    r2: Result<ReplyStep, ProxyError>,
)
    requires
        s0.wf(),
        replied(s0, s1, id, Ok(()), r1),
        replied(s1, s2, id, Ok(()), r2),
    ensures
        r2 == Ok::<ReplyStep, ProxyError>(ReplyStep::PassThrough),
        s2 == s1,
{
    let m0 = s0.pending@;
    if m0.records.contains_key(id) {
        let m = m0.without(id);
        assert(m.issued(id));
        assert(s1.pending@.lookup(id) is None);
    }
}

/// Ids stay fresh when the allowance step follows a successful outcome: the
/// call `reply` issues gets an id greater than every id issued before,
/// `id` included, and becomes the last id issued.
pub proof fn allowance_step_id_is_fresh(s0: ProxyState, s1: ProxyState, id: u64, c: SubCall)
    requires
        s0.wf(),
        replied(s0, s1, id, Ok(()), Ok(ReplyStep::Dispatched(c))),
    ensures
        forall|earlier: u64| s0.pending@.issued(earlier) ==> earlier < c.id,
        id < c.id,
        s1.pending@.last_id == Some(c.id),
        !s1.pending@.records.contains_key(id),
{
    assert(s0.pending@.records.contains_key(id));
    assert(s0.pending@.issued(id));
}

/// Ids stay fresh when the treasury transfer follows a successful outcome:
/// the transfer issued for the record that `reply` handed back gets an id
/// greater than every id issued before, `id` included.
pub proof fn treasury_step_id_is_fresh(
    s0: ProxyState,
    s1: ProxyState,
    s2: ProxyState,
    id: u64,
    d: SubMessageDetails,
    c: SubCall,
    contract_address: String,
    now: u64,
    pool: [Asset; 2],
)
    requires
        s0.wf(),
        replied(s0, s1, id, Ok(()), Ok(ReplyStep::AwaitingPoolReserves(d))),
        treasury_step(
            s1,
            s2,
            Ok(c),
            contract_address,
            now,
            pool,
            d.sub_message_payload,
            d.funds,
            d.user_address,
            d.is_fury_provided,
        ),
    ensures
        forall|earlier: u64| s0.pending@.issued(earlier) ==> earlier < c.id,
        id < c.id,
        s2.pending@.last_id == Some(c.id),
        !s2.pending@.records.contains_key(id),
{
    assert(s0.pending@.records.contains_key(id));
    assert(s0.pending@.issued(id));
}

/// Ids stay fresh when the pool deposit follows a successful outcome: the
/// deposit issued for the record that `reply` handed back gets an id greater
/// than every id issued before, `id` included.
pub proof fn deposit_step_id_is_fresh(
    s0: ProxyState,
    s1: ProxyState,
    s2: ProxyState,
    id: u64,
    d: SubMessageDetails,
    c: SubCall,
)
    requires
        s0.wf(),
        replied(s0, s1, id, Ok(()), Ok(ReplyStep::AwaitingTaxes(d))),
        terminal(s1.pending@, s2.pending@, Ok(c)),
    ensures
        forall|earlier: u64| s0.pending@.issued(earlier) ==> earlier < c.id,
        id < c.id,
        s2.pending@.last_id == Some(c.id),
        !s2.pending@.records.contains_key(id),
{
    assert(s0.pending@.records.contains_key(id));
    assert(s0.pending@.issued(id));
}

} // verus!
