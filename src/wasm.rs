//! Outbound calls as the host executes them: the target contract, the JSON
//! message and the attached funds.
use vstd::prelude::*;
use astroport::asset::{Asset as PairAsset, AssetInfo as PairAssetInfo};
use astroport::pair::ExecuteMsg as PairExecuteMsg;
use cosmwasm_std::{to_binary, Addr, Binary, Decimal, StdError, Uint128};
use cw20::Cw20ExecuteMsg;
use crate::types::{Asset, AssetInfo, Coin, Outbound, ProvideRequest};

verus! {

#[verifier::external_type_specification]
#[verifier::external_body]
pub struct ExStdError(StdError);

/// Fixed-point fractions carry 18 decimals.
pub const DECIMAL_ONE: u128 = 1_000_000_000_000_000_000;

/// The JSON of a cw20 `transfer_from` message.
pub uninterp spec fn transfer_from_json(owner: Seq<char>, recipient: Seq<char>, amount: u128) -> Seq<u8>;

/// The JSON of a cw20 `increase_allowance` message with no expiry.
pub uninterp spec fn increase_allowance_json(spender: Seq<char>, amount: u128) -> Seq<u8>;

/// The JSON of a cw20 `send` message.
pub uninterp spec fn send_json(contract: Seq<char>, amount: u128, msg: Seq<u8>) -> Seq<u8>;

/// The JSON of a pool `provide_liquidity` message; each asset as
/// `(is native, denomination or token address, amount)`, fractions in atomics.
pub uninterp spec fn provide_liquidity_json(
    assets: Seq<(bool, Seq<char>, u128)>,
    slippage_tolerance: Option<u128>,
    auto_stake: Option<bool>,
    receiver: Option<Seq<char>>,
) -> Seq<u8>;

/// The JSON of a pool `swap` message; the asset and fractions as above.
pub uninterp spec fn swap_json(
    offer_asset: (bool, Seq<char>, u128),
    belief_price: Option<u128>,
    max_spread: Option<u128>,
    to: Option<Seq<char>>,
) -> Seq<u8>;

pub open spec fn asset_view(a: Asset) -> (bool, Seq<char>, u128) {
    match a.info {
        AssetInfo::NativeToken { denom } => (true, denom@, a.amount),
        AssetInfo::Token { contract_addr } => (false, contract_addr@, a.amount),
    }
}

pub open spec fn string_option_view(s: Option<String>) -> Option<Seq<char>> {
    match s {
        Some(s) => Some(s@),
        None => None,
    }
}

/// Relies on cosmwasm_std::to_binary on cw20's `Cw20ExecuteMsg::TransferFrom`:
/// the JSON depends on the fields alone, and the serializer has no error
/// path for these fields.
#[verifier::external_body]
fn encode_transfer_from(owner: &String, recipient: &String, amount: u128) -> (r: Result<Vec<u8>, StdError>)
    ensures
        r is Ok,
        r matches Ok(b) ==> b@ == transfer_from_json(owner@, recipient@, amount),
{
    let amount = Uint128::new(amount);
    to_binary(&Cw20ExecuteMsg::TransferFrom { owner: owner.clone(), recipient: recipient.clone(), amount }).map(|b| b.0)
}

/// Relies on cosmwasm_std::to_binary on cw20's
/// `Cw20ExecuteMsg::IncreaseAllowance`: the JSON depends on the fields alone,
/// and the serializer has no error path for these fields.
#[verifier::external_body]
fn encode_increase_allowance(spender: &String, amount: u128) -> (r: Result<Vec<u8>, StdError>)
    ensures
        r is Ok,
        r matches Ok(b) ==> b@ == increase_allowance_json(spender@, amount),
{
    let amount = Uint128::new(amount);
    to_binary(&Cw20ExecuteMsg::IncreaseAllowance { spender: spender.clone(), amount, expires: None }).map(|b| b.0)
}

/// Relies on cosmwasm_std::to_binary on cw20's `Cw20ExecuteMsg::Send`: the
/// JSON depends on the fields alone, and the serializer has no error path for
/// these fields.
#[verifier::external_body]
fn encode_send(contract: &String, amount: u128, msg: &Vec<u8>) -> (r: Result<Vec<u8>, StdError>)
    ensures
        r is Ok,
        r matches Ok(b) ==> b@ == send_json(contract@, amount, msg@),
{
    let (amount, msg) = (Uint128::new(amount), Binary(msg.clone()));
    to_binary(&Cw20ExecuteMsg::Send { contract: contract.clone(), amount, msg }).map(|b| b.0)
}

/// Relies on cosmwasm_std::to_binary on astroport's pair
/// `ExecuteMsg::ProvideLiquidity`: the JSON depends on the fields alone, and
/// the serializer has no error path for these fields.
#[verifier::external_body]
fn encode_provide_liquidity(request: &ProvideRequest) -> (r: Result<Vec<u8>, StdError>)
    ensures
        r is Ok,
        r matches Ok(b) ==> b@ == provide_liquidity_json(
            seq![asset_view(request.assets@[0]), asset_view(request.assets@[1])],
            request.slippage_tolerance,
            request.auto_stake,
            string_option_view(request.receiver),
        ),
{
    let pair = |a: &Asset| PairAsset {
        info: match &a.info {
            AssetInfo::NativeToken { denom } => PairAssetInfo::NativeToken { denom: denom.clone() },
            AssetInfo::Token { contract_addr } => PairAssetInfo::Token { contract_addr: Addr::unchecked(contract_addr) },
        },
        amount: Uint128::new(a.amount),
    };
    let assets = [pair(&request.assets[0]), pair(&request.assets[1])];
    let slippage_tolerance = request.slippage_tolerance.map(|s| Decimal::from_ratio(s, DECIMAL_ONE));
    let (auto_stake, receiver) = (request.auto_stake, request.receiver.clone());
    to_binary(&PairExecuteMsg::ProvideLiquidity { assets, slippage_tolerance, auto_stake, receiver }).map(|b| b.0)
}

/// Relies on cosmwasm_std::to_binary on astroport's pair `ExecuteMsg::Swap`:
/// the JSON depends on the fields alone, and the serializer has no error
/// path for these fields.
#[verifier::external_body]
fn encode_swap(
    offer_asset: &Asset,
    belief_price: Option<u128>,
    max_spread: Option<u128>,
    to: &Option<String>,
) -> (r: Result<Vec<u8>, StdError>)
    ensures
        r is Ok,
        r matches Ok(b) ==> b@ == swap_json(asset_view(*offer_asset), belief_price, max_spread, string_option_view(*to)),
{
    let pair = |a: &Asset| PairAsset {
        info: match &a.info {
            AssetInfo::NativeToken { denom } => PairAssetInfo::NativeToken { denom: denom.clone() },
            AssetInfo::Token { contract_addr } => PairAssetInfo::Token { contract_addr: Addr::unchecked(contract_addr) },
        },
        amount: Uint128::new(a.amount),
    };
    let belief_price = belief_price.map(|p| Decimal::from_ratio(p, DECIMAL_ONE));
    let max_spread = max_spread.map(|s| Decimal::from_ratio(s, DECIMAL_ONE));
    let (offer_asset, to) = (pair(offer_asset), to.clone());
    to_binary(&PairExecuteMsg::Swap { offer_asset, belief_price, max_spread, to }).map(|b| b.0)
}

/// An outbound call as the host executes it.
#[derive(Clone, Debug, PartialEq, Eq)]
pub struct WasmExecute {
    pub contract_addr: String,
    /// The JSON message.
    pub msg: Vec<u8>,
    pub funds: Vec<Coin>,
}

/// The contract that an outbound call goes to: the token contract, or the pool.
pub open spec fn call_target(call: Outbound) -> String {
    match call {
        Outbound::TransferFrom { token, .. } => token,
        Outbound::IncreaseAllowance { token, .. } => token,
        Outbound::Send { token, .. } => token,
        Outbound::ProvideLiquidity { pool, .. } => pool,
        Outbound::Swap { pool, .. } => pool,
    }
}

/// The JSON message of an outbound call.
pub open spec fn call_json(call: Outbound) -> Seq<u8> {
    match call {
        Outbound::TransferFrom { owner, recipient, amount, .. } => transfer_from_json(owner@, recipient@, amount),
        Outbound::IncreaseAllowance { spender, amount, .. } => increase_allowance_json(spender@, amount),
        Outbound::Send { contract, amount, msg, .. } => send_json(contract@, amount, msg@),
        Outbound::ProvideLiquidity { request, .. } => provide_liquidity_json(
            seq![asset_view(request.assets@[0]), asset_view(request.assets@[1])],
            request.slippage_tolerance,
            request.auto_stake,
            string_option_view(request.receiver),
        ),
        Outbound::Swap { offer_asset, belief_price, max_spread, to, .. } => swap_json(
            asset_view(offer_asset),
            belief_price,
            max_spread,
            string_option_view(to),
        ),
    }
}

/// The funds attached to an outbound call: none for the token contract's
/// transfer and allowance.
pub open spec fn call_funds(call: Outbound) -> Seq<Coin> {
    match call {
        Outbound::TransferFrom { .. } => Seq::empty(),
        Outbound::IncreaseAllowance { .. } => Seq::empty(),
        Outbound::Send { funds, .. } => funds@,
        Outbound::ProvideLiquidity { funds, .. } => funds@,
        Outbound::Swap { funds, .. } => funds@,
    }
}

fn encoded(r: Result<Vec<u8>, StdError>) -> (b: Vec<u8>)
    requires
        r is Ok,
    ensures
        r == Ok::<Vec<u8>, StdError>(b),
{
    match r {
        Ok(b) => b,
        Err(_) => Vec::new(),
    }
}

/// The outbound call as the host executes it: its target contract, its JSON
/// message and its funds.
pub fn encode_call(call: Outbound) -> (w: WasmExecute)
    ensures
        w.contract_addr == call_target(call),
        w.msg@ == call_json(call),
        w.funds@ == call_funds(call),
{
    match call {
        Outbound::TransferFrom { token, owner, recipient, amount } => {
            let msg = encoded(encode_transfer_from(&owner, &recipient, amount));
            WasmExecute { contract_addr: token, msg, funds: Vec::new() }
        },
        Outbound::IncreaseAllowance { token, spender, amount } => {
            let msg = encoded(encode_increase_allowance(&spender, amount));
            WasmExecute { contract_addr: token, msg, funds: Vec::new() }
        },
        Outbound::Send { token, contract, amount, msg, funds } => {
            let msg = encoded(encode_send(&contract, amount, &msg));
            WasmExecute { contract_addr: token, msg, funds }
        },
        Outbound::ProvideLiquidity { pool, request, funds } => {
            let msg = encoded(encode_provide_liquidity(&request));
            WasmExecute { contract_addr: pool, msg, funds }
        },
        Outbound::Swap { pool, offer_asset, belief_price, max_spread, to, funds } => {
            let msg = encoded(encode_swap(&offer_asset, belief_price, max_spread, &to));
            WasmExecute { contract_addr: pool, msg, funds }
        },
    }
}

} // verus!
