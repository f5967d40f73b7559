//! Discounted reward computation on fixed-point integer amounts. Every
//! overflow and every division by zero yields zero rather than an error.
use vstd::prelude::*;
use crate::types::{Asset, MAX_BPS};

verus! {

/// Reward-token value of `native_amount` at the pool's spot ratio:
/// `native_amount * reserve_reward / reserve_native`, truncated; zero when the
/// product overflows 128 bits or the native reserve is empty.
pub open spec fn spec_equivalent(native_amount: u128, reserve_native: u128, reserve_reward: u128) -> u128 {
    if native_amount * reserve_reward > u128::MAX || reserve_native == 0 {
        0
    } else {
        ((native_amount * reserve_reward) / (reserve_native as int)) as u128
    }
}

/// The value before the discount. Pair path: the equivalent capped at the
/// reward tokens actually supplied, then doubled (zero on overflow).
/// Native-only path: the equivalent itself.
pub open spec fn spec_pre_discount(equivalent: u128, reward_amount: u128, pair: bool) -> u128 {
    if pair {
        let capped = if equivalent > reward_amount { reward_amount } else { equivalent };
        if 2 * capped > u128::MAX {
            0
        } else {
            (2 * capped) as u128
        }
    } else {
        equivalent
    }
}

/// `pre * 10000 / (10000 - discount_bps)`, truncated; zero when the product
/// overflows 128 bits or the discount is the whole value.
pub open spec fn spec_discounted(pre: u128, discount_bps: u16) -> u128 {
    let rate = MAX_BPS - discount_bps;
    if pre * 10000 > u128::MAX || rate <= 0 {
        0
    } else {
        ((pre * 10000) / rate) as u128
    }
}

/// The `(reward-token, native)` amounts that a deposit contributes. On the
/// pair path the non-native leg is the reward token and the other leg the
/// native asset; on the native-only path the reward-token amount is zero.
pub open spec fn spec_contributed(assets: [Asset; 2], pair: bool) -> (u128, u128) {
    let a = assets@[0];
    let b = assets@[1];
    if !a.info.is_native() {
        (if pair { a.amount } else { 0 }, b.amount)
    } else if !b.info.is_native() {
        (if pair { b.amount } else { 0 }, a.amount)
    } else {
        (0, 0)
    }
}

/// The pool's `(native, reward-token)` reserves: the first leg is the native
/// one if it is native, else the second.
pub open spec fn spec_reserves(pool: [Asset; 2]) -> (u128, u128) {
    if pool@[0].info.is_native() {
        (pool@[0].amount, pool@[1].amount)
    } else {
        (pool@[1].amount, pool@[0].amount)
    }
}

/// The discounted reward owed for a deposit, given the pool's reserves.
pub open spec fn spec_reward(assets: [Asset; 2], pool: [Asset; 2], pair: bool, discount_bps: u16) -> u128 {
    let (reward_amount, native_amount) = spec_contributed(assets, pair);
    let (reserve_native, reserve_reward) = spec_reserves(pool);
    let equivalent = spec_equivalent(native_amount, reserve_native, reserve_reward);
    spec_discounted(spec_pre_discount(equivalent, reward_amount, pair), discount_bps)
}

/// Reward-token value of a native amount at the pool's spot ratio.
pub fn native_equivalent(native_amount: u128, reserve_native: u128, reserve_reward: u128) -> (r: u128)
    ensures
        r == spec_equivalent(native_amount, reserve_native, reserve_reward),
{
    match native_amount.checked_mul(reserve_reward) {
        Some(product) => match product.checked_div(reserve_native) {
            Some(q) => q,
            None => 0,
        },
        None => 0,
    }
}

/// The value before the discount, on the pair path or the native-only path.
pub fn pre_discount_value(equivalent: u128, reward_amount: u128, pair: bool) -> (r: u128)
    ensures
        r == spec_pre_discount(equivalent, reward_amount, pair),
{
    if pair {
        let capped = if equivalent > reward_amount { reward_amount } else { equivalent };
        match capped.checked_mul(2) {
            Some(doubled) => doubled,
            None => 0,
        }
    } else {
        equivalent
    }
}

/// Inflates `pre` to make up for the discount: `pre * 10000 / (10000 - bps)`.
pub fn discounted_total(pre: u128, discount_bps: u16) -> (r: u128)
    requires
        discount_bps <= MAX_BPS,
    ensures
        r == spec_discounted(pre, discount_bps),
{
    let rate: u16 = MAX_BPS - discount_bps;
    match pre.checked_mul(10000) {
        Some(product) => match product.checked_div(rate as u128) {
            Some(q) => q,
            None => 0,
        },
        None => 0,
    }
}

/// The `(reward-token, native)` amounts that a deposit contributes.
pub fn contributed_amounts(assets: &[Asset; 2], pair: bool) -> (r: (u128, u128))
    ensures
        r == spec_contributed(*assets, pair),
{
    if !assets[0].is_native_token() {
        (if pair { assets[0].amount } else { 0 }, assets[1].amount)
    } else if !assets[1].is_native_token() {
        (if pair { assets[1].amount } else { 0 }, assets[0].amount)
    } else {
        (0, 0)
    }
}

/// The pool's `(native, reward-token)` reserves.
pub fn pool_reserves(pool: &[Asset; 2]) -> (r: (u128, u128))
    ensures
        r == spec_reserves(*pool),
{
    if pool[0].is_native_token() {
        (pool[0].amount, pool[1].amount)
    } else {
        (pool[1].amount, pool[0].amount)
    }
}

/// The discounted reward owed for a deposit, given the pool's reserves.
pub fn discounted_reward(assets: &[Asset; 2], pool: &[Asset; 2], pair: bool, discount_bps: u16) -> (r: u128)
    requires
        discount_bps <= MAX_BPS,
    ensures
        r == spec_reward(*assets, *pool, pair, discount_bps),
{
    let (reward_amount, native_amount) = contributed_amounts(assets, pair);
    let (reserve_native, reserve_reward) = pool_reserves(pool);
    let equivalent = native_equivalent(native_amount, reserve_native, reserve_reward);
    discounted_total(pre_discount_value(equivalent, reward_amount, pair), discount_bps)
}

/// With nothing native contributed the reward is zero, whatever the path,
/// the pool and the discount.
pub proof fn zero_native_gives_zero_reward(reserve_native: u128, reserve_reward: u128, reward_amount: u128, pair: bool, discount_bps: u16)
    ensures
        spec_discounted(
            spec_pre_discount(spec_equivalent(0, reserve_native, reserve_reward), reward_amount, pair),
            discount_bps,
        ) == 0,
{
    assert(0 * reserve_reward == 0) by (nonlinear_arith);
}

/// On the pair path the value before the discount never exceeds twice the
/// reward tokens supplied; on the native-only path it is the equivalent, not
/// doubled.
pub proof fn pre_discount_bounds(equivalent: u128, reward_amount: u128)
    ensures
        spec_pre_discount(equivalent, reward_amount, true) <= 2 * reward_amount,
        spec_pre_discount(equivalent, reward_amount, false) == equivalent,
{
}

/// With no discount the reward is the value before the discount, exactly,
/// wherever `pre * 10000` fits in 128 bits.
pub proof fn no_discount_keeps_value(pre: u128)
    requires
        pre * 10000 <= u128::MAX,
    ensures
        spec_discounted(pre, 0) == pre,
{
    assert((pre * 10000) / 10000 == pre) by (nonlinear_arith);
}

} // verus!
