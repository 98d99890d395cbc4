use ton_gateway::models::CreateReceiveTransaction;
use ton_gateway::models::CreateReceiveTokenTransaction;
use ton_gateway::models::PreparedMessage;
use ton_gateway::models::PreparedTokenMessage;
use ton_gateway::models::ServiceError;
use ton_gateway::models::ServiceId;
use ton_gateway::models::TokenWalletVersionDb;
use ton_gateway::models::TokenWhitelistFromDb;
use ton_gateway::models::TonEventStatus;
use ton_gateway::models::TonTokenTransactionStatus;
use ton_gateway::models::TonTransactionDirection;
use ton_gateway::models::TonTransactionStatus;
use ton_gateway::models::UpdateSendTransaction;
use ton_gateway::service::TonServiceImpl;
use ton_gateway::storage::Storage;

const SID: ServiceId = ServiceId { value: 1 };

fn hex(seed: &str) -> String {
    seed.repeat(64)
}

fn svc() -> TonServiceImpl {
    TonServiceImpl::new(Storage::new())
}

fn prepared(mh: &str) -> PreparedMessage {
    PreparedMessage {
        message_hash: hex(mh),
        account_workchain_id: 0,
        account_hex: hex("a"),
        value: 10,
        expire_at: 130,
    }
}

#[test]
fn send_persists_with_both_axes_new() {
    let mut s = svc();
    let (tx, ev) = s.create_send_transaction(SID, &prepared("1")).unwrap();
    assert!(tx.status == TonTransactionStatus::New);
    assert!(tx.direction == TonTransactionDirection::Send);
    assert!(ev.event_status == TonEventStatus::New);
    assert_eq!(ev.transaction_id, tx.id);
    assert_eq!(ev.message_hash, tx.message_hash);
}

#[test]
fn send_duplicate_key_is_rejected() {
    let mut s = svc();
    s.create_send_transaction(SID, &prepared("1")).unwrap();
    let dup = s.create_send_transaction(SID, &prepared("1"));
    assert!(matches!(dup, Err(ServiceError::Duplicate)));
    // a different tenant may reuse the same (hash, account)
    let other = ServiceId { value: 2 };
    assert!(s.create_send_transaction(other, &prepared("1")).is_ok());
}

#[test]
fn send_failure_is_recorded_but_event_still_deliverable() {
    // A broadcast failure updates the ledger axis to Error; the event keeps
    // event_status New, so downstream consumers still learn of the failure.
    let mut s = svc();
    let (tx, _ev) = s.create_send_transaction(SID, &prepared("1")).unwrap();
    let upd = UpdateSendTransaction::error("node unreachable".to_string());
    let (tx2, ev2) = s
        .update_send_transaction(SID, &tx.message_hash, 0, &hex("a"), &upd)
        .unwrap();
    assert!(tx2.status == TonTransactionStatus::Error);
    assert_eq!(tx2.error.as_deref(), Some("node unreachable"));
    assert!(ev2.transaction_status == TonTransactionStatus::Error);
    assert!(ev2.event_status == TonEventStatus::New);
}

#[test]
fn webhook_failure_searchable_then_marked() {
    // Round trip: a send succeeds at the ledger layer but the webhook
    // fails. The event must stay retrievable with event_status Error, and
    // mark_event transitions it to Notified without altering the
    // transaction's ledger status.
    let mut s = svc();
    s.register_callback(SID, "https://callee.example/hook".to_string()).unwrap();
    let (tx, ev) = s.create_send_transaction(SID, &prepared("1")).unwrap();
    assert!(s.callback_url(SID).is_some());
    // the webhook attempt failed: record it
    let failed = s
        .apply_callback_result(SID, &ev.message_hash, 0, &hex("a"), false)
        .unwrap();
    assert!(failed.event_status == TonEventStatus::Error);
    let errored = s.search_events(SID, TonEventStatus::Error);
    assert_eq!(errored.len(), 1);
    assert_eq!(errored[0].id, ev.id);
    // the external sweep retries out of band, then marks the event
    let marked = s.mark_event(SID, ev.id).unwrap();
    assert!(marked.event_status == TonEventStatus::Notified);
    assert!(s.search_events(SID, TonEventStatus::Error).is_empty());
    // the ledger axis never moved
    let back = s.get_transaction_by_mh(SID, &tx.message_hash).unwrap();
    assert!(back.status == TonTransactionStatus::New);
}

#[test]
fn receive_without_webhook_stays_new() {
    // Scenario: an event arrives for an account whose tenant has no
    // configured webhook. The record persists with event_status New and no
    // delivery attempt is owed.
    let mut s = svc();
    s.create_address(SID, 0, hex("a"), 0).unwrap();
    let input = CreateReceiveTransaction {
        message_hash: hex("1"),
        transaction_hash: Some(hex("2")),
        account_workchain_id: 0,
        account_hex: hex("a"),
        value: 3,
        direction: TonTransactionDirection::Receive,
        status: TonTransactionStatus::Confirmed,
        error: None,
        aborted: false,
    };
    let (_tx, ev) = s.create_receive_transaction(&input).unwrap();
    let ev = ev.expect("a fresh record produces an event");
    assert!(ev.event_status == TonEventStatus::New);
    assert!(s.callback_url(SID).is_none());
    assert_eq!(s.search_events(SID, TonEventStatus::New).len(), 1);
    assert!(s.search_events(SID, TonEventStatus::Error).is_empty());
}

#[test]
fn receive_duplicate_notification_is_idempotent() {
    // Delivering the same raw transaction twice yields one persisted
    // record and no second event, hence no second webhook delivery.
    let mut s = svc();
    s.create_address(SID, 0, hex("a"), 0).unwrap();
    let input = CreateReceiveTransaction {
        message_hash: hex("1"),
        transaction_hash: None,
        account_workchain_id: 0,
        account_hex: hex("a"),
        value: 3,
        direction: TonTransactionDirection::Receive,
        status: TonTransactionStatus::Confirmed,
        error: None,
        aborted: false,
    };
    let (tx1, ev1) = s.create_receive_transaction(&input).unwrap();
    assert!(ev1.is_some());
    let (tx2, ev2) = s.create_receive_transaction(&input).unwrap();
    assert!(ev2.is_none(), "no second event, so no second notification");
    assert_eq!(tx1.id, tx2.id);
    assert_eq!(s.storage.transactions.len(), 1);
    assert_eq!(s.storage.transaction_events.len(), 1);
}

#[test]
fn receive_for_unknown_account_is_rejected() {
    let mut s = svc();
    let input = CreateReceiveTransaction {
        message_hash: hex("1"),
        transaction_hash: None,
        account_workchain_id: 0,
        account_hex: hex("a"),
        value: 3,
        direction: TonTransactionDirection::Receive,
        status: TonTransactionStatus::Confirmed,
        error: None,
        aborted: false,
    };
    assert!(matches!(s.create_receive_transaction(&input), Err(ServiceError::NotFound)));
}

#[test]
fn token_send_update_and_replay() {
    let mut s = svc();
    let payload = PreparedTokenMessage {
        message_hash: hex("1"),
        account_workchain_id: 0,
        account_hex: hex("a"),
        value: 7,
        root_address: hex("f"),
        expire_at: 130,
    };
    let (ttx, tev) = s.create_send_token_transaction(SID, &payload).unwrap();
    assert!(ttx.status == TonTokenTransactionStatus::New);
    assert!(tev.event_status == TonEventStatus::New);
    let dup = s.create_send_token_transaction(SID, &payload);
    assert!(matches!(dup, Err(ServiceError::Duplicate)));
    let failed = s
        .apply_token_callback_result(SID, &tev.message_hash, 0, &hex("a"), &hex("f"), false)
        .unwrap();
    assert!(failed.event_status == TonEventStatus::Error);
    let errored = s.search_token_events(SID, TonEventStatus::Error);
    assert_eq!(errored.len(), 1);
    let marked = s.mark_token_event(SID, tev.id).unwrap();
    assert!(marked.event_status == TonEventStatus::Notified);
    assert!(s.search_token_events(SID, TonEventStatus::Error).is_empty());
    let back = s.get_tokens_transaction_by_mh(SID, &ttx.message_hash).unwrap();
    assert!(back.status == TonTokenTransactionStatus::New);
}

#[test]
fn token_receive_resolves_owner_and_deduplicates() {
    let mut s = svc();
    s.register_token_balance(SID, 0, hex("a"), hex("f"), 0).unwrap();
    let input = CreateReceiveTokenTransaction {
        message_hash: hex("1"),
        account_workchain_id: 0,
        account_hex: hex("a"),
        value: 9,
        root_address: hex("f"),
        status: TonTokenTransactionStatus::Confirmed,
    };
    let (t1, e1) = s.create_receive_token_transaction(&input).unwrap();
    assert!(e1.is_some());
    assert_eq!(t1.service_id, SID);
    let (t2, e2) = s.create_receive_token_transaction(&input).unwrap();
    assert!(e2.is_none());
    assert_eq!(t1.id, t2.id);
    assert_eq!(s.storage.token_transactions.len(), 1);
}

#[test]
fn address_registration_and_lookup() {
    let mut s = svc();
    let rec = s.create_address(SID, 0, hex("a"), 44).unwrap();
    assert_eq!(rec.balance, 44);
    assert!(matches!(s.create_address(SID, 0, hex("a"), 0), Err(ServiceError::Duplicate)));
    assert!(s.get_address_balance(SID, 0, &hex("a")).is_ok());
    let other = ServiceId { value: 9 };
    assert!(matches!(s.get_address_balance(other, 0, &hex("a")), Err(ServiceError::NotFound)));
    assert!(matches!(s.get_address_balance(SID, 0, &hex("b")), Err(ServiceError::NotFound)));
}

#[test]
fn token_balances_filtered_per_tenant_account() {
    let mut s = svc();
    s.register_token_balance(SID, 0, hex("a"), hex("f"), 5).unwrap();
    s.register_token_balance(SID, 0, hex("a"), hex("e"), 6).unwrap();
    s.register_token_balance(SID, 0, hex("b"), hex("f"), 7).unwrap();
    let list = s.get_token_address_balance(SID, 0, &hex("a"));
    assert_eq!(list.len(), 2);
    assert!(list.iter().all(|b| b.account_hex == hex("a")));
}

#[test]
fn whitelist_lookup() {
    let mut s = svc();
    assert!(!s.is_token_whitelisted(&hex("f")));
    s.whitelist_token(TokenWhitelistFromDb {
        name: "WUSD".to_string(),
        address: hex("f"),
        version: TokenWalletVersionDb::Tip3,
    });
    assert!(s.is_token_whitelisted(&hex("f")));
    assert!(!s.is_token_whitelisted(&hex("e")));
}

#[test]
fn transaction_lookup_by_hashes() {
    let mut s = svc();
    s.create_address(SID, 0, hex("a"), 0).unwrap();
    let input = CreateReceiveTransaction {
        message_hash: hex("1"),
        transaction_hash: Some(hex("2")),
        account_workchain_id: 0,
        account_hex: hex("a"),
        value: 3,
        direction: TonTransactionDirection::Receive,
        status: TonTransactionStatus::Confirmed,
        error: None,
        aborted: false,
    };
    s.create_receive_transaction(&input).unwrap();
    assert!(s.get_transaction_by_mh(SID, &hex("1")).is_ok());
    assert!(matches!(s.get_transaction_by_mh(SID, &hex("9")), Err(ServiceError::NotFound)));
    let by_h = s.get_transaction_by_h(SID, &hex("2")).unwrap();
    assert_eq!(by_h.message_hash, hex("1"));
    assert!(matches!(s.get_transaction_by_h(SID, &hex("3")), Err(ServiceError::NotFound)));
}

#[test]
fn callback_success_marks_notified() {
    let mut s = svc();
    s.register_callback(SID, "https://callee.example/hook".to_string()).unwrap();
    let (_tx, ev) = s.create_send_transaction(SID, &prepared("1")).unwrap();
    let ok = s
        .apply_callback_result(SID, &ev.message_hash, 0, &hex("a"), true)
        .unwrap();
    assert!(ok.event_status == TonEventStatus::Notified);
    assert!(s.search_events(SID, TonEventStatus::Error).is_empty());
    assert_eq!(s.search_events(SID, TonEventStatus::Notified).len(), 1);
}
