use proxy::engine::{
    execute_provide_liquidity, execute_provide_native_for_reward, execute_provide_pair_for_reward,
    execute_swap, forward_provide_liquidity_to_astro, forward_swap_to_astro,
    incr_allow_for_provide_liquidity, liquidity_receiver, process_received_message,
    transfer_custom_assets_from_funds_owner_to_proxy, withdraw_liquidity,
};
use proxy::reply::{reply, ReplyStep};
use proxy::state::{
    configure_proxy, instantiate, query_bonding_details, query_configuration, query_swap_opening_date,
    restore_state, set_contract_version, set_swap_opening_date, ProxyState,
};
use proxy::types::{
    Asset, AssetInfo, BondedRewardsDetails, Coin, Config, ContractVersion, Outbound,
    ProvideRequest, ProxyCw20HookMsg, ProxyError, SubCall, SubMessageDetails, SubMessageNextAction,
    SubMessageType,
};

fn config() -> Config {
    Config {
        custom_token_address: "fury_token".to_string(),
        pair_discount_rate: 500,
        pair_bonding_period_in_days: 7,
        pair_fury_provider: "pair_treasury".to_string(),
        native_discount_rate: 1000,
        native_bonding_period_in_days: 14,
        native_fury_provider: "native_treasury".to_string(),
        authorized_liquidity_provider: "authorized".to_string(),
        default_lp_tokens_holder: "lp_holder".to_string(),
        swap_opening_date: 1_000,
        pool_pair_address: "pool".to_string(),
    }
}

fn version() -> ContractVersion {
    ContractVersion { contract: "astroport-proxy".to_string(), version: "0.1.0".to_string() }
}

fn state() -> ProxyState {
    match instantiate(config(), version()) {
        Ok(s) => s,
        Err(e) => panic!("instantiate failed: {:?}", e),
    }
}

fn native(amount: u128) -> Asset {
    Asset { info: AssetInfo::NativeToken { denom: "uusd".to_string() }, amount }
}

fn token(amount: u128) -> Asset {
    Asset { info: AssetInfo::Token { contract_addr: "fury_token".to_string() }, amount }
}

fn uusd(amount: u128) -> Coin {
    Coin { denom: "uusd".to_string(), amount }
}

fn pool() -> [Asset; 2] {
    [native(1000), token(2000)]
}

fn start_pair_deposit(s: &mut ProxyState) -> SubCall {
    execute_provide_pair_for_reward(
        s,
        "alice".to_string(),
        "proxy".to_string(),
        vec![uusd(100)],
        [native(100), token(250)],
        None,
        Some(false),
    )
    .unwrap()
}

fn pair_request() -> ProvideRequest {
    ProvideRequest {
        assets: [native(100), token(250)],
        slippage_tolerance: None,
        auto_stake: Some(false),
        receiver: Some("lp_holder".to_string()),
    }
}

#[test]
fn pair_deposit_chain_runs_to_the_pool() {
    let mut s = state();
    let first = start_pair_deposit(&mut s);
    assert_eq!(
        first,
        SubCall {
            id: 1,
            call: Outbound::TransferFrom {
                token: "fury_token".to_string(),
                owner: "alice".to_string(),
                recipient: "proxy".to_string(),
                amount: 250,
            },
        }
    );

    let d = match reply(&mut s, 1, Ok(())).unwrap() {
        ReplyStep::AwaitingPoolReserves(d) => d,
        other => panic!("unexpected step {:?}", other),
    };
    assert_eq!(d.next_action, SubMessageNextAction::TransferCustomAssetsFromFundsOwner);
    assert_eq!(d.sub_message_payload, pair_request());
    assert!(!s.pending.is_pending(1));

    let second = transfer_custom_assets_from_funds_owner_to_proxy(
        &mut s,
        "proxy".to_string(),
        2_000,
        &pool(),
        d.sub_message_payload,
        d.funds,
        d.user_address,
        d.is_fury_provided,
    )
    .unwrap();
    assert_eq!(
        second,
        SubCall {
            id: 2,
            call: Outbound::TransferFrom {
                token: "fury_token".to_string(),
                owner: "pair_treasury".to_string(),
                recipient: "proxy".to_string(),
                amount: 421,
            },
        }
    );
    assert_eq!(
        query_bonding_details(&s, &"alice".to_string()),
        vec![BondedRewardsDetails {
            user_address: "alice".to_string(),
            bonded_reward_amount_accrued: 421,
            bonding_period_in_days: 7,
            bonding_start_timestamp: 2_000,
        }]
    );

    let third = match reply(&mut s, 2, Ok(())).unwrap() {
        ReplyStep::Dispatched(c) => c,
        other => panic!("unexpected step {:?}", other),
    };
    assert_eq!(
        third,
        SubCall {
            id: 3,
            call: Outbound::IncreaseAllowance {
                token: "fury_token".to_string(),
                spender: "pool".to_string(),
                amount: 250,
            },
        }
    );

    let d = match reply(&mut s, 3, Ok(())).unwrap() {
        ReplyStep::AwaitingTaxes(d) => d,
        other => panic!("unexpected step {:?}", other),
    };
    assert_eq!(d.next_action, SubMessageNextAction::ProvideLiquidity);
    let fourth = forward_provide_liquidity_to_astro(&mut s, d.sub_message_payload, d.funds, vec![1]).unwrap();
    assert_eq!(
        fourth,
        SubCall {
            id: 4,
            call: Outbound::ProvideLiquidity {
                pool: "pool".to_string(),
                request: pair_request(),
                funds: vec![uusd(99)],
            },
        }
    );
    assert_eq!(reply(&mut s, 4, Ok(())).unwrap(), ReplyStep::PassThrough);
    assert_eq!(s.pending.last_id(), Some(4));
}

#[test]
fn ids_strictly_increase_over_deposits() {
    let mut s = state();
    let a = start_pair_deposit(&mut s);
    let b = start_pair_deposit(&mut s);
    let c = start_pair_deposit(&mut s);
    assert!(a.id < b.id && b.id < c.id);
    assert_eq!((a.id, b.id, c.id), (1, 2, 3));
}

#[test]
fn failure_outcome_fails_before_lookup() {
    let mut s = state();
    start_pair_deposit(&mut s);
    let d = match reply(&mut s, 1, Ok(())).unwrap() {
        ReplyStep::AwaitingPoolReserves(d) => d,
        other => panic!("unexpected step {:?}", other),
    };
    transfer_custom_assets_from_funds_owner_to_proxy(
        &mut s,
        "proxy".to_string(),
        2_000,
        &pool(),
        d.sub_message_payload,
        d.funds,
        d.user_address,
        d.is_fury_provided,
    )
    .unwrap();
    let pending = s.pending.pending_record(2).unwrap();
    assert_eq!(pending.next_action, SubMessageNextAction::IncreaseAllowance);
    assert_eq!(
        reply(&mut s, 2, Err("insufficient allowance".to_string())),
        Err(ProxyError::InnerCallFailed("insufficient allowance".to_string()))
    );
    assert!(s.pending.is_pending(2));
    assert_eq!(s.pending.last_id(), Some(2));
}

#[test]
fn replayed_outcome_passes_through() {
    let mut s = state();
    start_pair_deposit(&mut s);
    assert!(matches!(reply(&mut s, 1, Ok(())), Ok(ReplyStep::AwaitingPoolReserves(_))));
    assert_eq!(reply(&mut s, 1, Ok(())), Ok(ReplyStep::PassThrough));
    assert_eq!(reply(&mut s, 1, Ok(())), Ok(ReplyStep::PassThrough));
    assert_eq!(s.pending.last_id(), Some(1));
}

#[test]
fn outcome_for_unknown_id_passes_through() {
    let mut s = state();
    assert_eq!(reply(&mut s, 77, Ok(())), Ok(ReplyStep::PassThrough));
    assert_eq!(s.pending.last_id(), None);
}

#[test]
fn configure_twice_keeps_last_pool() {
    let mut s = state();
    configure_proxy(&mut s, Some("pool_one".to_string()), 5_000);
    configure_proxy(&mut s, Some("pool_two".to_string()), 6_000);
    let expected = Config {
        pool_pair_address: "pool_two".to_string(),
        swap_opening_date: 6_000,
        ..config()
    };
    assert_eq!(*query_configuration(&s), expected);
    configure_proxy(&mut s, None, 7_000);
    assert_eq!(query_configuration(&s).pool_pair_address, "pool_two");
    assert_eq!(query_swap_opening_date(&s), 7_000);
}

#[test]
fn set_swap_opening_date_changes_only_the_date() {
    let mut s = state();
    set_swap_opening_date(&mut s, 42);
    assert_eq!(*query_configuration(&s), Config { swap_opening_date: 42, ..config() });
}

#[test]
fn contract_version_is_recorded() {
    let mut s = state();
    set_contract_version(&mut s, "astroport-proxy".to_string(), "0.2.0".to_string());
    assert_eq!(s.contract_version.version, "0.2.0");
    assert_eq!(s.contract_version.contract, "astroport-proxy");
}

#[test]
fn invalid_discount_rate_is_refused() {
    let c = Config { pair_discount_rate: 10_001, ..config() };
    assert!(matches!(instantiate(c, version()), Err(ProxyError::InvalidDiscountRate)));
    let c = Config { native_discount_rate: 10_000, ..config() };
    assert!(instantiate(c, version()).is_ok());
}

#[test]
fn authorized_provider_keeps_its_shares() {
    let c = config();
    assert_eq!(liquidity_receiver(&c, &"authorized".to_string()), "authorized");
    assert_eq!(liquidity_receiver(&c, &"bob".to_string()), "lp_holder");
    let mut s = state();
    let call = execute_provide_liquidity(
        &mut s,
        "authorized".to_string(),
        "proxy".to_string(),
        vec![uusd(10)],
        [token(30), native(10)],
        None,
        None,
    )
    .unwrap();
    assert_eq!(
        call.call,
        Outbound::TransferFrom {
            token: "fury_token".to_string(),
            owner: "authorized".to_string(),
            recipient: "proxy".to_string(),
            amount: 30,
        }
    );
    let d = s.pending.pending_record(call.id).unwrap();
    assert_eq!(d.next_action, SubMessageNextAction::IncreaseAllowance);
    assert_eq!(d.sub_message_payload.receiver, Some("authorized".to_string()));
    let next = match reply(&mut s, call.id, Ok(())).unwrap() {
        ReplyStep::Dispatched(c) => c,
        other => panic!("unexpected step {:?}", other),
    };
    assert_eq!(
        next.call,
        Outbound::IncreaseAllowance { token: "fury_token".to_string(), spender: "pool".to_string(), amount: 30 }
    );
}

#[test]
fn native_deposit_bonds_with_native_terms() {
    let mut s = state();
    let call = execute_provide_native_for_reward(
        &mut s,
        "carol".to_string(),
        "proxy".to_string(),
        500,
        &[token(2000), native(1000)],
        vec![uusd(100)],
        100,
        None,
        None,
    )
    .unwrap();
    // 100 * 2000 / 1000 = 200, not doubled; 200 * 10000 / 9000 = 222
    assert_eq!(
        call,
        SubCall {
            id: 1,
            call: Outbound::TransferFrom {
                token: "fury_token".to_string(),
                owner: "native_treasury".to_string(),
                recipient: "proxy".to_string(),
                amount: 222,
            },
        }
    );
    let bonds = query_bonding_details(&s, &"carol".to_string());
    assert_eq!(bonds.len(), 1);
    assert_eq!(bonds[0].bonded_reward_amount_accrued, 222);
    assert_eq!(bonds[0].bonding_period_in_days, 14);
    assert_eq!(bonds[0].bonding_start_timestamp, 1_000);
    let d = s.pending.pending_record(1).unwrap();
    assert_eq!(d.sub_message_payload.assets, [native(100), token(0)]);
    assert!(!d.is_fury_provided);
    assert!(query_bonding_details(&s, &"alice".to_string()).is_empty());
}

#[test]
fn allowance_step_uses_token_leg() {
    let mut s = state();
    let call = incr_allow_for_provide_liquidity(&mut s, pair_request(), vec![], "alice".to_string(), true).unwrap();
    assert_eq!(
        call.call,
        Outbound::IncreaseAllowance { token: "fury_token".to_string(), spender: "pool".to_string(), amount: 250 }
    );
    assert_eq!(
        s.pending.pending_record(call.id).unwrap().next_action,
        SubMessageNextAction::ProvideLiquidity
    );
}

#[test]
fn swap_before_opening_is_refused() {
    let mut s = state();
    assert_eq!(execute_swap(&mut s, 999, native(5), None, None, None), Err(ProxyError::SwapNotOpen));
    assert_eq!(s.pending.last_id(), None);
}

#[test]
fn token_offer_swap_is_unauthorized() {
    let mut s = state();
    assert_eq!(execute_swap(&mut s, 5_000, token(5), None, None, None), Err(ProxyError::Unauthorized));
}

#[test]
fn native_swap_is_relayed_with_funds() {
    let mut s = state();
    let call = execute_swap(&mut s, 1_000, native(5), None, None, Some("dave".to_string())).unwrap();
    assert_eq!(
        call,
        SubCall {
            id: 1,
            call: Outbound::Swap {
                pool: "pool".to_string(),
                offer_asset: native(5),
                belief_price: None,
                max_spread: None,
                to: Some("dave".to_string()),
                funds: vec![uusd(5)],
            },
        }
    );
}

#[test]
fn received_swap_is_sent_to_the_pool() {
    let mut s = state();
    let hook = ProxyCw20HookMsg::Swap { belief_price: None, max_spread: None, to: None };
    let call = process_received_message(&mut s, hook, "erin".to_string(), 70, vec![1, 2, 3], vec![]).unwrap();
    assert_eq!(
        call.call,
        Outbound::Send {
            token: "fury_token".to_string(),
            contract: "pool".to_string(),
            amount: 70,
            msg: vec![1, 2, 3],
            funds: vec![],
        }
    );
    let again = forward_swap_to_astro(&mut s, vec![], 8, vec![]).unwrap();
    assert_eq!(again.id, 2);
}

#[test]
fn withdrawal_is_refused() {
    let mut s = state();
    let hook = ProxyCw20HookMsg::WithdrawLiquidity;
    assert_eq!(
        process_received_message(&mut s, hook, "erin".to_string(), 70, vec![], vec![]),
        Err(ProxyError::WithdrawUnsupported)
    );
    assert_eq!(withdraw_liquidity("erin".to_string(), 1), Err(ProxyError::WithdrawUnsupported));
    assert_eq!(s.pending.last_id(), None);
}

#[test]
fn exhausted_ids_change_nothing() {
    let mut s = match restore_state(config(), version(), Some(u64::MAX), vec![], vec![]) {
        Ok(s) => s,
        Err(e) => panic!("restore failed: {:?}", e),
    };
    let r = execute_provide_native_for_reward(
        &mut s,
        "carol".to_string(),
        "proxy".to_string(),
        500,
        &pool(),
        vec![uusd(100)],
        100,
        None,
        None,
    );
    assert_eq!(r, Err(ProxyError::IdsExhausted));
    assert!(s.bonds.is_empty());
    assert_eq!(s.pending.last_id(), Some(u64::MAX));
}

#[test]
fn restore_refuses_bad_ledgers() {
    let mut s = state();
    start_pair_deposit(&mut s);
    let d = match reply(&mut s, 1, Ok(())).unwrap() {
        ReplyStep::AwaitingPoolReserves(d) => d,
        other => panic!("unexpected step {:?}", other),
    };
    let ok = restore_state(config(), version(), Some(1), vec![d.clone()], vec![]);
    assert!(ok.is_ok());
    let restored = ok.ok().unwrap();
    assert_eq!(restored.pending.pending_record(1), Some(&d));
    assert!(matches!(
        restore_state(config(), version(), None, vec![d.clone()], vec![]),
        Err(ProxyError::InvalidLedger)
    ));
    assert!(matches!(
        restore_state(config(), version(), Some(5), vec![d.clone(), d.clone()], vec![]),
        Err(ProxyError::InvalidLedger)
    ));
    let bad = Config { native_discount_rate: 20_000, ..config() };
    assert!(matches!(restore_state(bad, version(), None, vec![], vec![]), Err(ProxyError::InvalidDiscountRate)));
}

#[test]
fn any_kind_of_pending_call_resumes_by_next_action() {
    let record = SubMessageDetails {
        sub_req_id: 3,
        request_type: SubMessageType::TransferFromSubMsg,
        next_action: SubMessageNextAction::IncreaseAllowance,
        sub_message_payload: pair_request(),
        funds: vec![uusd(100)],
        user_address: "alice".to_string(),
        is_fury_provided: true,
    };
    let mut s = match restore_state(config(), version(), Some(5), vec![record], vec![]) {
        Ok(s) => s,
        Err(e) => panic!("restore failed: {:?}", e),
    };
    let next = match reply(&mut s, 3, Ok(())).unwrap() {
        ReplyStep::Dispatched(c) => c,
        other => panic!("unexpected step {:?}", other),
    };
    assert_eq!(
        next,
        SubCall {
            id: 6,
            call: Outbound::IncreaseAllowance {
                token: "fury_token".to_string(),
                spender: "pool".to_string(),
                amount: 250,
            },
        }
    );
    assert!(!s.pending.is_pending(3));
    let d = s.pending.pending_record(6).unwrap();
    assert_eq!(d.next_action, SubMessageNextAction::ProvideLiquidity);
    assert_eq!(d.request_type, SubMessageType::ProvideLiquiditySubMsg);
}

#[test]
fn empty_pool_address_keeps_the_configured_one() {
    let mut s = state();
    configure_proxy(&mut s, Some(String::new()), 9_000);
    assert_eq!(query_configuration(&s).pool_pair_address, "pool");
    assert_eq!(query_swap_opening_date(&s), 9_000);
}
