//! The orchestration engine: the entry operations and chain steps that issue
//! outbound calls and record the continuations their outcomes resume.
use vstd::prelude::*;
use crate::ledger::{LedgerModel, PendingLedger};
use crate::reward::{discounted_reward, spec_reward};
use crate::state::{same_but_ledger, ProxyState};
use crate::types::{
    token_leg, token_leg_amount, Asset, AssetInfo, BondedRewardsDetails, Coin, Config, Outbound,
    ProvideRequest, ProxyCw20HookMsg, ProxyError, SubCall, SubMessageDetails, SubMessageNextAction,
    SubMessageType,
};

verus! {

/// Denomination of the native asset that native-only deposits bring.
pub const NATIVE_DENOM: &'static str = "uusd";

/// The continuation recorded for a step of a deposit chain.
pub open spec fn continuation(
    id: u64,
    next_action: SubMessageNextAction,
    payload: ProvideRequest,
    funds: Vec<Coin>,
    user_address: String,
    is_fury_provided: bool,
) -> SubMessageDetails {
    SubMessageDetails {
        sub_req_id: id,
        request_type: SubMessageType::ProvideLiquiditySubMsg,
        next_action,
        sub_message_payload: payload,
        funds,
        user_address,
        is_fury_provided,
    }
}

/// The ledger `after` and the result `r` of issuing `call` with a
/// continuation: on success the next id tags the call and carries the
/// continuation; when no id is left the ledger is unchanged.
pub open spec fn chained(
    before: LedgerModel,
    after: LedgerModel,
    r: Result<SubCall, ProxyError>,
    call: Outbound,
    next_action: SubMessageNextAction,
    payload: ProvideRequest,
    funds: Vec<Coin>,
    user_address: String,
    is_fury_provided: bool,
) -> bool {
    match r {
        Ok(c) => {
            &&& before.next_id() == Some(c.id)
            &&& c.call == call
            &&& after == before.allocated().with(
                c.id,
                continuation(c.id, next_action, payload, funds, user_address, is_fury_provided),
            )
        },
        Err(e) => {
            &&& e == ProxyError::IdsExhausted
            &&& before.next_id() is None
            &&& after == before
        },
    }
}

/// The ledger `after` and the result `r` of issuing a call that needs no
/// continuation: on success the next id tags it.
pub open spec fn terminal(before: LedgerModel, after: LedgerModel, r: Result<SubCall, ProxyError>) -> bool {
    match r {
        Ok(c) => before.next_id() == Some(c.id) && after == before.allocated(),
        Err(e) => e == ProxyError::IdsExhausted && before.next_id() is None && after == before,
    }
}

/// The discount rate of a deposit path.
pub open spec fn path_discount(c: Config, is_fury_provided: bool) -> u16 {
    if is_fury_provided { c.pair_discount_rate } else { c.native_discount_rate }
}

/// The funds owner that supplies the reward tokens of a deposit path.
pub open spec fn path_funds_owner(c: Config, is_fury_provided: bool) -> String {
    if is_fury_provided { c.pair_fury_provider } else { c.native_fury_provider }
}

/// The bonding period of a deposit path.
pub open spec fn path_bonding_period(c: Config, is_fury_provided: bool) -> u64 {
    if is_fury_provided { c.pair_bonding_period_in_days } else { c.native_bonding_period_in_days }
}

/// A bond starts at the swap opening date, or now if that has passed.
pub open spec fn bonding_start(c: Config, now: u64) -> u64 {
    if c.swap_opening_date < now { now } else { c.swap_opening_date }
}

/// The funds handed to the pool: each attached fund less its levy.
pub open spec fn after_tax(funds: Seq<Coin>, taxes: Seq<u128>) -> Seq<Coin> {
    Seq::new(funds.len(), |i: int| Coin { denom: funds[i].denom, amount: (funds[i].amount - taxes[i]) as u128 })
}

/// Who receives the pool shares of a plain liquidity provision: the
/// authorized provider keeps its own; everyone else's go to the default holder.
pub open spec fn lp_receiver(c: Config, sender: String) -> String {
    if sender@ == c.authorized_liquidity_provider@ {
        c.authorized_liquidity_provider
    } else {
        c.default_lp_tokens_holder
    }
}

/// Issues `call` under the next id and records its continuation.
fn chain_call(
    pending: &mut PendingLedger,
    call: Outbound,
    next_action: SubMessageNextAction,
    payload: ProvideRequest,
    funds: Vec<Coin>,
    user_address: String,
    is_fury_provided: bool,
) -> (r: Result<SubCall, ProxyError>)
    requires
        old(pending)@.wf(),
    ensures
        final(pending)@.wf(),
        chained(old(pending)@, final(pending)@, r, call, next_action, payload, funds, user_address, is_fury_provided),
{
    match pending.allocate_next_id() {
        Some(id) => {
            let record = SubMessageDetails {
                sub_req_id: id,
                request_type: SubMessageType::ProvideLiquiditySubMsg,
                next_action,
                sub_message_payload: payload,
                funds,
                user_address,
                is_fury_provided,
            };
            pending.record_continuation(id, record);
            Ok(SubCall { id, call })
        },
        None => Err(ProxyError::IdsExhausted),
    }
}

/// Issues `call` under the next id, with no continuation.
fn terminal_call(pending: &mut PendingLedger, call: Outbound) -> (r: Result<SubCall, ProxyError>)
    requires
        old(pending)@.wf(),
    ensures
        final(pending)@.wf(),
        terminal(old(pending)@, final(pending)@, r),
        r matches Ok(c) ==> c.call == call,
{
    match pending.allocate_next_id() {
        Some(id) => Ok(SubCall { id, call }),
        None => Err(ProxyError::IdsExhausted),
    }
}

/// The first step of a deposit chain: the deposit the pool finally gets, and
/// the parts of the state it leaves alone.
pub open spec fn treasury_step(
    before: ProxyState,
    after: ProxyState,
    r: Result<SubCall, ProxyError>,
    contract_address: String,
    now: u64,
    pool: [Asset; 2],
    request: ProvideRequest,
    funds: Vec<Coin>,
    user_address: String,
    is_fury_provided: bool,
) -> bool {
    let c = before.config;
    let total = spec_reward(request.assets, pool, is_fury_provided, path_discount(c, is_fury_provided));
    let call = Outbound::TransferFrom {
        token: c.custom_token_address,
        owner: path_funds_owner(c, is_fury_provided),
        recipient: contract_address,
        amount: total,
    };
    let bond = BondedRewardsDetails {
        user_address,
        bonded_reward_amount_accrued: total,
        bonding_period_in_days: path_bonding_period(c, is_fury_provided),
        bonding_start_timestamp: bonding_start(c, now),
    };
    &&& after.config == before.config
    &&& after.contract_version == before.contract_version
    &&& chained(
        before.pending@,
        after.pending@,
        r,
        call,
        SubMessageNextAction::IncreaseAllowance,
        request,
        funds,
        user_address,
        is_fury_provided,
    )
    &&& after.bonds@ == if r is Ok {
        before.bonds@.push(bond)
    } else {
        before.bonds@
    }
}

/// A native-only deposit of `amount`: the native asset first, then the
/// reward token with nothing supplied; pool shares go to the default holder.
pub open spec fn native_request(
    rq: ProvideRequest,
    c: Config,
    amount: u128,
    slippage_tolerance: Option<u128>,
    auto_stake: Option<bool>,
) -> bool {
    &&& rq.assets@[0].info matches AssetInfo::NativeToken { denom } && denom@ == NATIVE_DENOM@
    &&& rq.assets@[0].amount == amount
    &&& rq.assets@[1] == (Asset { info: AssetInfo::Token { contract_addr: c.custom_token_address }, amount: 0 })
    &&& rq.slippage_tolerance == slippage_tolerance
    &&& rq.auto_stake == auto_stake
    &&& rq.receiver == Some(c.default_lp_tokens_holder)
}

/// Self-funded deposit: pulls the reward-token leg from the sender into this
/// contract, and records that `next_action` follows once it has arrived.
pub fn provide_liquidity(
    state: &mut ProxyState,
    sender: String,
    contract_address: String,
    funds: Vec<Coin>,
    request: ProvideRequest,
    next_action: SubMessageNextAction,
) -> (r: Result<SubCall, ProxyError>)
    requires
        old(state).wf(),
    ensures
        final(state).wf(),
        same_but_ledger(*final(state), *old(state)),
        chained(
            old(state).pending@,
            final(state).pending@,
            r,
            (Outbound::TransferFrom {
                token: old(state).config.custom_token_address,
                owner: sender,
                recipient: contract_address,
                amount: token_leg(request.assets),
            }),
            next_action,
            request,
            funds,
            sender,
            true,
        ),
{
    let amount = token_leg_amount(&request.assets);
    let call = Outbound::TransferFrom {
        token: state.config.custom_token_address.clone(),
        owner: sender.clone(),
        recipient: contract_address,
        amount,
    };
    chain_call(&mut state.pending, call, next_action, request, funds, sender, true)
}

/// The receiver of the pool shares of a plain liquidity provision.
pub fn liquidity_receiver(config: &Config, sender: &String) -> (r: String)
    ensures
        r == lp_receiver(*config, *sender),
{
    if *sender == config.authorized_liquidity_provider {
        config.authorized_liquidity_provider.clone()
    } else {
        config.default_lp_tokens_holder.clone()
    }
}

/// A liquidity provision with both legs from the sender; the allowance step
/// follows the transfer.
pub fn execute_provide_liquidity(
    state: &mut ProxyState,
    sender: String,
    contract_address: String,
    funds: Vec<Coin>,
    assets: [Asset; 2],
    slippage_tolerance: Option<u128>,
    auto_stake: Option<bool>,
) -> (r: Result<SubCall, ProxyError>)
    requires
        old(state).wf(),
    ensures
        final(state).wf(),
        same_but_ledger(*final(state), *old(state)),
        chained(
            old(state).pending@,
            final(state).pending@,
            r,
            (Outbound::TransferFrom {
                token: old(state).config.custom_token_address,
                owner: sender,
                recipient: contract_address,
                amount: token_leg(assets),
            }),
            SubMessageNextAction::IncreaseAllowance,
            (ProvideRequest {
                assets,
                slippage_tolerance,
                auto_stake,
                receiver: Some(lp_receiver(old(state).config, sender)),
            }),
            funds,
            sender,
            true,
        ),
{
    let receiver = liquidity_receiver(&state.config, &sender);
    let request = ProvideRequest { assets, slippage_tolerance, auto_stake, receiver: Some(receiver) };
    provide_liquidity(state, sender, contract_address, funds, request, SubMessageNextAction::IncreaseAllowance)
}

/// A pair deposit for a reward: both legs from the sender, then the reward
/// bond and the treasury transfer; pool shares go to the default holder.
pub fn execute_provide_pair_for_reward(
    state: &mut ProxyState,
    sender: String,
    contract_address: String,
    funds: Vec<Coin>,
    assets: [Asset; 2],
    slippage_tolerance: Option<u128>,
    auto_stake: Option<bool>,
) -> (r: Result<SubCall, ProxyError>)
    requires
        old(state).wf(),
    ensures
        final(state).wf(),
        same_but_ledger(*final(state), *old(state)),
        chained(
            old(state).pending@,
            final(state).pending@,
            r,
            (Outbound::TransferFrom {
                token: old(state).config.custom_token_address,
                owner: sender,
                recipient: contract_address,
                amount: token_leg(assets),
            }),
            SubMessageNextAction::TransferCustomAssetsFromFundsOwner,
            (ProvideRequest {
                assets,
                slippage_tolerance,
                auto_stake,
                receiver: Some(old(state).config.default_lp_tokens_holder),
            }),
            funds,
            sender,
            true,
        ),
{
    let receiver = state.config.default_lp_tokens_holder.clone();
    let request = ProvideRequest { assets, slippage_tolerance, auto_stake, receiver: Some(receiver) };
    provide_liquidity(
        state,
        sender,
        contract_address,
        funds,
        request,
        SubMessageNextAction::TransferCustomAssetsFromFundsOwner,
    )
}

/// Treasury-funded step: computes the discounted reward of the deposit from
/// the pool's reserves, records a reward bond for the depositor, and pulls
/// that many reward tokens from the path's funds owner into this contract;
/// the allowance step follows. When no id is left nothing changes.
pub fn transfer_custom_assets_from_funds_owner_to_proxy(
    state: &mut ProxyState,
    contract_address: String,
    now: u64,
    pool: &[Asset; 2],
    request: ProvideRequest,
    funds: Vec<Coin>,
    user_address: String,
    is_fury_provided: bool,
) -> (r: Result<SubCall, ProxyError>)
    requires
        old(state).wf(),
    ensures
        final(state).wf(),
        treasury_step(
            *old(state),
            *final(state),
            r,
            contract_address,
            now,
            *pool,
            request,
            funds,
            user_address,
            is_fury_provided,
        ),
{
    if !state.pending.can_allocate() {
        return Err(ProxyError::IdsExhausted);
    }
    let (discount, funds_owner, bonding_period) = if is_fury_provided {
        (state.config.pair_discount_rate, state.config.pair_fury_provider.clone(), state.config.pair_bonding_period_in_days)
    } else {
        (state.config.native_discount_rate, state.config.native_fury_provider.clone(), state.config.native_bonding_period_in_days)
    };
    let total = discounted_reward(&request.assets, pool, is_fury_provided, discount);
    let start = if state.config.swap_opening_date < now { now } else { state.config.swap_opening_date };
    state.bonds.push(
        BondedRewardsDetails {
            user_address: user_address.clone(),
            bonded_reward_amount_accrued: total,
            bonding_period_in_days: bonding_period,
            bonding_start_timestamp: start,
        },
    );
    let call = Outbound::TransferFrom {
        token: state.config.custom_token_address.clone(),
        owner: funds_owner,
        recipient: contract_address,
        amount: total,
    };
    chain_call(
        &mut state.pending,
        call,
        SubMessageNextAction::IncreaseAllowance,
        request,
        funds,
        user_address,
        is_fury_provided,
    )
}

/// A native-only deposit for a reward: the treasury step with the sender as
/// depositor.
pub fn provide_native_liquidity(
    state: &mut ProxyState,
    sender: String,
    contract_address: String,
    now: u64,
    pool: &[Asset; 2],
    request: ProvideRequest,
    funds: Vec<Coin>,
) -> (r: Result<SubCall, ProxyError>)
    requires
        old(state).wf(),
    ensures
        final(state).wf(),
        treasury_step(*old(state), *final(state), r, contract_address, now, *pool, request, funds, sender, false),
{
    transfer_custom_assets_from_funds_owner_to_proxy(state, contract_address, now, pool, request, funds, sender, false)
}

/// The two legs of a native-only deposit of `amount`.
pub fn native_deposit_assets(custom_token_address: &String, amount: u128) -> (r: [Asset; 2])
    ensures
        r@[0].info matches AssetInfo::NativeToken { denom } && denom@ == NATIVE_DENOM@,
        r@[0].amount == amount,
        r@[1] == (Asset { info: AssetInfo::Token { contract_addr: *custom_token_address }, amount: 0 }),
{
    [
        Asset { info: AssetInfo::NativeToken { denom: NATIVE_DENOM.to_owned() }, amount },
        Asset { info: AssetInfo::Token { contract_addr: custom_token_address.clone() }, amount: 0 },
    ]
}

/// A native-only deposit of `amount` for a reward; pool shares go to the
/// default holder.
pub fn execute_provide_native_for_reward(
    state: &mut ProxyState,
    sender: String,
    contract_address: String,
    now: u64,
    pool: &[Asset; 2],
    funds: Vec<Coin>,
    amount: u128,
    slippage_tolerance: Option<u128>,
    auto_stake: Option<bool>,
) -> (r: Result<SubCall, ProxyError>)
    requires
        old(state).wf(),
    ensures
        final(state).wf(),
        exists|rq: ProvideRequest|
            native_request(rq, old(state).config, amount, slippage_tolerance, auto_stake)
            && #[trigger] treasury_step(*old(state), *final(state), r, contract_address, now, *pool, rq, funds, sender, false),
{
    let assets = native_deposit_assets(&state.config.custom_token_address, amount);
    let receiver = state.config.default_lp_tokens_holder.clone();
    let request = ProvideRequest { assets, slippage_tolerance, auto_stake, receiver: Some(receiver) };
    let ghost rq = request;
    let r = provide_native_liquidity(state, sender, contract_address, now, pool, request, funds);
    assert(native_request(rq, old(state).config, amount, slippage_tolerance, auto_stake));
    r
}

/// Allowance step: lets the pool spend the reward-token leg of the deposit;
/// the pool deposit follows.
pub fn incr_allow_for_provide_liquidity(
    state: &mut ProxyState,
    request: ProvideRequest,
    funds: Vec<Coin>,
    user_address: String,
    is_fury_provided: bool,
) -> (r: Result<SubCall, ProxyError>)
    requires
        old(state).wf(),
    ensures
        final(state).wf(),
        same_but_ledger(*final(state), *old(state)),
        chained(
            old(state).pending@,
            final(state).pending@,
            r,
            (Outbound::IncreaseAllowance {
                token: old(state).config.custom_token_address,
                spender: old(state).config.pool_pair_address,
                amount: token_leg(request.assets),
            }),
            SubMessageNextAction::ProvideLiquidity,
            request,
            funds,
            user_address,
            is_fury_provided,
        ),
{
    let amount = token_leg_amount(&request.assets);
    let call = Outbound::IncreaseAllowance {
        token: state.config.custom_token_address.clone(),
        spender: state.config.pool_pair_address.clone(),
        amount,
    };
    chain_call(
        &mut state.pending,
        call,
        SubMessageNextAction::ProvideLiquidity,
        request,
        funds,
        user_address,
        is_fury_provided,
    )
}

/// Pool deposit step, the last of the chain: sends the deposit to the pool
/// with each attached fund less its transfer levy.
pub fn forward_provide_liquidity_to_astro(
    state: &mut ProxyState,
    request: ProvideRequest,
    funds: Vec<Coin>,
    taxes: Vec<u128>,
) -> (r: Result<SubCall, ProxyError>)
    requires
        old(state).wf(),
        taxes@.len() == funds@.len(),
        forall|i: int| 0 <= i < funds@.len() ==> taxes@[i] <= #[trigger] funds@[i].amount,
    ensures
        final(state).wf(),
        same_but_ledger(*final(state), *old(state)),
        terminal(old(state).pending@, final(state).pending@, r),
        match r {
            Ok(c) => match c.call {
                Outbound::ProvideLiquidity { pool, request: rq, funds: f } => {
                    &&& pool == old(state).config.pool_pair_address
                    &&& rq == request
                    &&& f@ == after_tax(funds@, taxes@)
                },
                _ => false,
            },
            Err(_) => true,
        },
{
    let mut funds_to_pass: Vec<Coin> = Vec::new();
    let mut i: usize = 0;
    while i < funds.len()
        invariant
            i <= funds@.len(),
            taxes@.len() == funds@.len(),
            forall|j: int| 0 <= j < funds@.len() ==> taxes@[j] <= #[trigger] funds@[j].amount,
            funds_to_pass@ == after_tax(funds@, taxes@).subrange(0, i as int),
        decreases funds@.len() - i,
    {
        let coin = Coin { denom: funds[i].denom.clone(), amount: funds[i].amount - taxes[i] };
        funds_to_pass.push(coin);
        i += 1;
        assert(funds_to_pass@ =~= after_tax(funds@, taxes@).subrange(0, i as int));
    }
    assert(funds_to_pass@ =~= after_tax(funds@, taxes@));
    let call = Outbound::ProvideLiquidity { pool: state.config.pool_pair_address.clone(), request, funds: funds_to_pass };
    terminal_call(&mut state.pending, call)
}

/// Relays reward tokens received for a swap: sends them on to the pool with
/// the swap message they came with.
pub fn forward_swap_to_astro(
    state: &mut ProxyState,
    funds: Vec<Coin>,
    amount: u128,
    msg: Vec<u8>,
) -> (r: Result<SubCall, ProxyError>)
    requires
        old(state).wf(),
    ensures
        final(state).wf(),
        same_but_ledger(*final(state), *old(state)),
        terminal(old(state).pending@, final(state).pending@, r),
        r matches Ok(c) ==> c.call == (Outbound::Send {
            token: old(state).config.custom_token_address,
            contract: old(state).config.pool_pair_address,
            amount,
            msg,
            funds,
        }),
{
    let call = Outbound::Send {
        token: state.config.custom_token_address.clone(),
        contract: state.config.pool_pair_address.clone(),
        amount,
        msg,
        funds,
    };
    terminal_call(&mut state.pending, call)
}

/// Withdrawing liquidity is not offered: always refused.
pub fn withdraw_liquidity(sender: String, amount: u128) -> (r: Result<SubCall, ProxyError>)
    ensures
        r == Err::<SubCall, ProxyError>(ProxyError::WithdrawUnsupported),
{
    Err(ProxyError::WithdrawUnsupported)
}

/// Handles a reward-token transfer by its message: a swap is relayed to the
/// pool; a withdrawal is refused.
pub fn process_received_message(
    state: &mut ProxyState,
    hook: ProxyCw20HookMsg,
    sender: String,
    amount: u128,
    msg: Vec<u8>,
    funds: Vec<Coin>,
) -> (r: Result<SubCall, ProxyError>)
    requires
        old(state).wf(),
    ensures
        final(state).wf(),
        same_but_ledger(*final(state), *old(state)),
        match hook {
            ProxyCw20HookMsg::Swap { .. } => {
                &&& terminal(old(state).pending@, final(state).pending@, r)
                &&& r matches Ok(c) ==> c.call == (Outbound::Send {
                    token: old(state).config.custom_token_address,
                    contract: old(state).config.pool_pair_address,
                    amount,
                    msg,
                    funds,
                })
            },
            ProxyCw20HookMsg::WithdrawLiquidity => {
                &&& r == Err::<SubCall, ProxyError>(ProxyError::WithdrawUnsupported)
                &&& final(state).pending == old(state).pending
            },
        },
{
    match hook {
        ProxyCw20HookMsg::Swap { .. } => forward_swap_to_astro(state, funds, amount, msg),
        ProxyCw20HookMsg::WithdrawLiquidity => withdraw_liquidity(sender, amount),
    }
}

/// The funds attached to a swap: the offered amount when it is native.
pub open spec fn swap_funds(offer_asset: Asset, funds: Seq<Coin>) -> bool {
    match offer_asset.info {
        AssetInfo::NativeToken { denom } => funds == seq![Coin { denom, amount: offer_asset.amount }],
        AssetInfo::Token { .. } => funds.len() == 0,
    }
}

/// Relays a swap to the pool; refused before the swap opening date.
pub fn swap(
    state: &mut ProxyState,
    now: u64,
    offer_asset: Asset,
    belief_price: Option<u128>,
    max_spread: Option<u128>,
    to: Option<String>,
) -> (r: Result<SubCall, ProxyError>)
    requires
        old(state).wf(),
    ensures
        final(state).wf(),
        same_but_ledger(*final(state), *old(state)),
        old(state).config.swap_opening_date > now ==> {
            &&& r == Err::<SubCall, ProxyError>(ProxyError::SwapNotOpen)
            &&& final(state).pending == old(state).pending
        },
        old(state).config.swap_opening_date <= now ==> {
            &&& terminal(old(state).pending@, final(state).pending@, r)
            &&& match r {
                Ok(c) => match c.call {
                    Outbound::Swap { pool, offer_asset: o, belief_price: b, max_spread: m, to: t, funds: f } => {
                        &&& pool == old(state).config.pool_pair_address
                        &&& o == offer_asset
                        &&& b == belief_price
                        &&& m == max_spread
                        &&& t == to
                        &&& swap_funds(offer_asset, f@)
                    },
                    _ => false,
                },
                Err(_) => true,
            }
        },
{
    if state.config.swap_opening_date > now {
        return Err(ProxyError::SwapNotOpen);
    }
    let mut funds_to_send: Vec<Coin> = Vec::new();
    if let AssetInfo::NativeToken { denom } = &offer_asset.info {
        funds_to_send.push(Coin { denom: denom.clone(), amount: offer_asset.amount });
    }
    assert(swap_funds(offer_asset, funds_to_send@)) by {
        if offer_asset.info is NativeToken {
            assert(funds_to_send@ =~= seq![Coin { denom: offer_asset.info->denom, amount: offer_asset.amount }]);
        }
    }
    let call = Outbound::Swap {
        pool: state.config.pool_pair_address.clone(),
        offer_asset,
        belief_price,
        max_spread,
        to,
        funds: funds_to_send,
    };
    terminal_call(&mut state.pending, call)
}

/// A swap request from a caller: only a native offer is taken here (a
/// reward-token offer comes as a token transfer).
pub fn execute_swap(
    state: &mut ProxyState,
    now: u64,
    offer_asset: Asset,
    belief_price: Option<u128>,
    max_spread: Option<u128>,
    to: Option<String>,
) -> (r: Result<SubCall, ProxyError>)
    requires
        old(state).wf(),
    ensures
        final(state).wf(),
        same_but_ledger(*final(state), *old(state)),
        !offer_asset.info.is_native() ==> {
            &&& r == Err::<SubCall, ProxyError>(ProxyError::Unauthorized)
            &&& final(state).pending == old(state).pending
        },
        offer_asset.info.is_native() && old(state).config.swap_opening_date > now ==> {
            &&& r == Err::<SubCall, ProxyError>(ProxyError::SwapNotOpen)
            &&& final(state).pending == old(state).pending
        },
        offer_asset.info.is_native() && old(state).config.swap_opening_date <= now ==> {
            &&& terminal(old(state).pending@, final(state).pending@, r)
            &&& match r {
                Ok(c) => match c.call {
                    Outbound::Swap { pool, offer_asset: o, belief_price: b, max_spread: m, to: t, funds: f } => {
                        &&& pool == old(state).config.pool_pair_address
                        &&& o == offer_asset
                        &&& b == belief_price
                        &&& m == max_spread
                        &&& t == to
                        &&& swap_funds(offer_asset, f@)
                    },
                    _ => false,
                },
                Err(_) => true,
            }
        },
{
    if !offer_asset.is_native_token() {
        return Err(ProxyError::Unauthorized);
    }
    swap(state, now, offer_asset, belief_price, max_spread, to)
}

/// Ids of a deposit chain are fresh: the id a deposit step issues is greater
/// than every id issued before it, no continuation was pending on it, and it
/// becomes the last id issued.
pub proof fn deposit_ids_strictly_increase(
    before: LedgerModel,
    after: LedgerModel,
    c: SubCall,
    call: Outbound,
    next_action: SubMessageNextAction,
    payload: ProvideRequest,
    funds: Vec<Coin>,
    user_address: String,
    is_fury_provided: bool,
)
    requires
        before.wf(),
        chained(before, after, Ok(c), call, next_action, payload, funds, user_address, is_fury_provided),
    ensures
        forall|earlier: u64| before.issued(earlier) ==> earlier < c.id,
        !before.records.contains_key(c.id),
        after.last_id == Some(c.id),
        after.wf(),
{
}

} // verus!
