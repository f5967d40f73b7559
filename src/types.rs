use vstd::prelude::*;

verus! {

/// Which asset a pool leg or a deposit leg holds.
#[derive(Clone, Debug, PartialEq, Eq)]
pub enum AssetInfo {
    /// A native coin of the chain, by denomination.
    NativeToken { denom: String },
    /// A token contract, by address.
    Token { contract_addr: String },
}

impl AssetInfo {
    pub open spec fn is_native(&self) -> bool {
        self is NativeToken
    }

    pub fn is_native_token(&self) -> (r: bool)
        ensures
            r == self.is_native(),
    {
        match self {
            AssetInfo::NativeToken { .. } => true,
            AssetInfo::Token { .. } => false,
        }
    }
}

/// An amount of one asset.
#[derive(Clone, Debug, PartialEq, Eq)]
pub struct Asset {
    pub info: AssetInfo,
    pub amount: u128,
}

impl Asset {
    pub fn is_native_token(&self) -> (r: bool)
        ensures
            r == self.info.is_native(),
    {
        self.info.is_native_token()
    }
}

/// Native funds attached to a call.
#[derive(Clone, Debug, PartialEq, Eq)]
pub struct Coin {
    pub denom: String,
    pub amount: u128,
}

/// The deferred pool deposit: what is finally sent to the pool.
#[derive(Clone, Debug, PartialEq, Eq)]
pub struct ProvideRequest {
    pub assets: [Asset; 2],
    /// Slippage tolerance as a fixed-point fraction with 18 decimals.
    pub slippage_tolerance: Option<u128>,
    pub auto_stake: Option<bool>,
    pub receiver: Option<String>,
}

/// The amount of the reward-token leg of a deposit: the first non-native leg,
/// or zero when both legs are native.
pub open spec fn token_leg(assets: [Asset; 2]) -> u128 {
    if !assets@[0].info.is_native() {
        assets@[0].amount
    } else if !assets@[1].info.is_native() {
        assets@[1].amount
    } else {
        0
    }
}

pub fn token_leg_amount(assets: &[Asset; 2]) -> (r: u128)
    ensures
        r == token_leg(*assets),
{
    if !assets[0].is_native_token() {
        assets[0].amount
    } else if !assets[1].is_native_token() {
        assets[1].amount
    } else {
        0
    }
}

/// The contract's settings.
#[derive(Clone, Debug, PartialEq, Eq)]
pub struct Config {
    /// Address of the reward token contract.
    pub custom_token_address: String,
    /// Discount for pair deposits, in basis points.
    pub pair_discount_rate: u16,
    pub pair_bonding_period_in_days: u64,
    /// Funds owner that supplies reward tokens for pair deposits.
    pub pair_fury_provider: String,
    /// Discount for native-only deposits, in basis points.
    pub native_discount_rate: u16,
    pub native_bonding_period_in_days: u64,
    /// Funds owner that supplies reward tokens for native-only deposits.
    pub native_fury_provider: String,
    /// This address may provide liquidity and keeps its own pool shares.
    pub authorized_liquidity_provider: String,
    /// Receives the pool shares of every other depositor.
    pub default_lp_tokens_holder: String,
    /// Nanoseconds since the epoch after which swaps are allowed.
    pub swap_opening_date: u64,
    pub pool_pair_address: String,
}

/// The largest discount, in basis points: all of the value.
pub const MAX_BPS: u16 = 10000;

impl Config {
    /// Both discount rates lie in `[0, 10000]` basis points.
    pub open spec fn wf(&self) -> bool {
        self.pair_discount_rate <= MAX_BPS && self.native_discount_rate <= MAX_BPS
    }
}

/// Name and version of the deployed contract.
#[derive(Clone, Debug, PartialEq, Eq)]
pub struct ContractVersion {
    pub contract: String,
    pub version: String,
}

/// The kind of outbound call that a continuation waits for.
#[derive(PartialEq, Eq, Structural, Clone, Copy, Debug)]
pub enum SubMessageType {
    TransferFromSubMsg,
    IncreaseAlowanceSubMsg,
    ProvideLiquiditySubMsg,
}

/// What to do once the awaited outbound call has succeeded.
#[derive(PartialEq, Eq, Structural, Clone, Copy, Debug)]
pub enum SubMessageNextAction {
    IncreaseAllowance,
    ProvideLiquidity,
    TransferCustomAssetsFromFundsOwner,
}

/// A continuation: the pending work attached to one correlation id.
#[derive(Clone, Debug, PartialEq, Eq)]
pub struct SubMessageDetails {
    pub sub_req_id: u64,
    pub request_type: SubMessageType,
    pub next_action: SubMessageNextAction,
    pub sub_message_payload: ProvideRequest,
    pub funds: Vec<Coin>,
    pub user_address: String,
    /// Whether the depositor supplied the reward-token leg too (pair path).
    pub is_fury_provided: bool,
}

/// A reward bond: reward tokens owed to a depositor after a bonding period.
#[derive(Clone, Debug, PartialEq, Eq)]
pub struct BondedRewardsDetails {
    pub user_address: String,
    pub bonded_reward_amount_accrued: u128,
    pub bonding_period_in_days: u64,
    /// Nanoseconds since the epoch.
    pub bonding_start_timestamp: u64,
}

/// The message carried by an incoming reward-token transfer.
#[derive(Clone, Debug, PartialEq, Eq)]
pub enum ProxyCw20HookMsg {
    /// Sell the transferred reward tokens in the pool.
    Swap { belief_price: Option<u128>, max_spread: Option<u128>, to: Option<String> },
    /// Withdraw liquidity against the transferred pool shares.
    WithdrawLiquidity,
}

/// An outbound call to the token contract or to the pool.
#[derive(Clone, Debug, PartialEq, Eq)]
pub enum Outbound {
    /// Token contract: move `amount` from `owner` to `recipient` under an allowance.
    TransferFrom { token: String, owner: String, recipient: String, amount: u128 },
    /// Token contract: let `spender` move `amount` more of this contract's tokens.
    IncreaseAllowance { token: String, spender: String, amount: u128 },
    /// Token contract: send `amount` to `contract` with the message `msg`.
    Send { token: String, contract: String, amount: u128, msg: Vec<u8>, funds: Vec<Coin> },
    /// Pool: deposit both legs.
    ProvideLiquidity { pool: String, request: ProvideRequest, funds: Vec<Coin> },
    /// Pool: swap `offer_asset` for the other asset.
    Swap {
        pool: String,
        offer_asset: Asset,
        belief_price: Option<u128>,
        max_spread: Option<u128>,
        to: Option<String>,
        funds: Vec<Coin>,
    },
}

/// An outbound call tagged with its correlation id; its outcome is always
/// reported back.
#[derive(Clone, Debug, PartialEq, Eq)]
pub struct SubCall {
    pub id: u64,
    pub call: Outbound,
}

#[derive(Clone, Debug, PartialEq, Eq)]
pub enum ProxyError {
    /// The caller may not do this.
    Unauthorized,
    /// A swap came before the swap opening date.
    SwapNotOpen,
    /// No correlation id is left to issue.
    IdsExhausted,
    /// A discount rate above 10000 basis points.
    InvalidDiscountRate,
    /// Stored continuations that cannot make up a ledger.
    InvalidLedger,
    /// Withdrawing liquidity is not offered.
    WithdrawUnsupported,
    /// An outbound call failed; its error text.
    InnerCallFailed(String),
}

} // verus!
