use proxy::ledger::PendingLedger;
use proxy::types::{
    Asset, AssetInfo, ProvideRequest, SubMessageDetails, SubMessageNextAction, SubMessageType,
};

fn record(id: u64) -> SubMessageDetails {
    SubMessageDetails {
        sub_req_id: id,
        request_type: SubMessageType::ProvideLiquiditySubMsg,
        next_action: SubMessageNextAction::IncreaseAllowance,
        sub_message_payload: ProvideRequest {
            assets: [
                Asset { info: AssetInfo::NativeToken { denom: "uusd".to_string() }, amount: 1 },
                Asset { info: AssetInfo::Token { contract_addr: "fury".to_string() }, amount: 2 },
            ],
            slippage_tolerance: None,
            auto_stake: None,
            receiver: None,
        },
        funds: vec![],
        user_address: "alice".to_string(),
        is_fury_provided: true,
    }
}

#[test]
fn ids_start_at_one_and_increase() {
    let mut ledger = PendingLedger::new();
    assert_eq!(ledger.last_id(), None);
    assert_eq!(ledger.allocate_next_id(), Some(1));
    assert_eq!(ledger.allocate_next_id(), Some(2));
    assert_eq!(ledger.allocate_next_id(), Some(3));
    assert_eq!(ledger.last_id(), Some(3));
}

#[test]
fn take_continuation_returns_record_once() {
    let mut ledger = PendingLedger::new();
    let id = ledger.allocate_next_id().unwrap();
    ledger.record_continuation(id, record(id));
    assert!(ledger.is_pending(id));
    assert_eq!(ledger.take_continuation(id), Some(record(id)));
    assert!(!ledger.is_pending(id));
    assert_eq!(ledger.take_continuation(id), None);
}

#[test]
fn take_of_unknown_id_is_none() {
    let mut ledger = PendingLedger::new();
    assert_eq!(ledger.take_continuation(42), None);
    assert!(ledger.can_allocate());
}
