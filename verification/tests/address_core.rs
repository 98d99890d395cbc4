use ton_gateway::address::parse_account_address;
use ton_gateway::models::AccountAddress;
use ton_gateway::models::Address;
use ton_gateway::models::CaughtTonTransaction;
use ton_gateway::models::MessageStatus;
use ton_gateway::models::TonTransactionDirection;
use ton_gateway::models::TonTransactionStatus;
use ton_gateway::router::ObserverKind;
use ton_gateway::router::RawTransactionData;
use ton_gateway::router::TransferInfo;
use ton_gateway::service::TonServiceImpl;
use ton_gateway::storage::Storage;
use ton_gateway::ton_core::TonCore;
use ton_gateway::ton_core::TonCoreConfig;
use ton_gateway::ton_core::TonCoreError;
use ton_gateway::ton_core::classify_transaction;

fn hex(seed: &str) -> String {
    seed.repeat(64)
}

fn acct(wc: i32, seed: &str) -> AccountAddress {
    AccountAddress { workchain_id: wc, hex: hex(seed) }
}

fn config() -> TonCoreConfig {
    TonCoreConfig {
        port: 30303,
        rocks_db_path: "db".to_string(),
        file_db_path: "files".to_string(),
        keys_path: "keys".to_string(),
    }
}

fn raw_tx(account: AccountAddress, lt: u64, mh: &str) -> RawTransactionData {
    RawTransactionData {
        account,
        logical_time: lt,
        now: 100,
        in_message_hash: mh.to_string(),
        transfer: Some(TransferInfo { value: 5, direction: TonTransactionDirection::Receive }),
        token_transfer: None,
        notification: None,
    }
}

#[test]
fn parse_canonical_address() {
    let s = format!("0:{}", hex("a"));
    let parsed = parse_account_address(&s).expect("canonical form parses");
    assert_eq!(parsed.workchain_id, 0);
    assert_eq!(parsed.hex, hex("a"));
    let neg = format!("-1:{}", hex("b"));
    let parsed = parse_account_address(&neg).expect("masterchain form parses");
    assert_eq!(parsed.workchain_id, -1);
}

#[test]
fn parse_rejects_malformed_addresses() {
    assert!(parse_account_address("").is_none());
    assert!(parse_account_address("nonsense").is_none());
    assert!(parse_account_address(&hex("a")).is_none(), "no colon");
    assert!(parse_account_address(&format!("0:{}", "a".repeat(63))).is_none(), "short hash");
    assert!(parse_account_address(&format!("0:{}", "a".repeat(65))).is_none(), "long hash");
    assert!(parse_account_address(&format!("0:{}", "g".repeat(64))).is_none(), "not hex");
    assert!(parse_account_address(&format!("x:{}", hex("a"))).is_none(), "not a workchain");
    assert!(parse_account_address(&format!("-:{}", hex("a"))).is_none(), "sign alone");
    assert!(
        parse_account_address(&format!("3000000000:{}", hex("a"))).is_none(),
        "workchain out of 32-bit range"
    );
}

#[test]
fn check_address_accepts_either_form() {
    let s = TonServiceImpl::new(Storage::new());
    let canonical = Address(format!("0:{}", hex("a")));
    assert!(s.check_address(&canonical, false));
    // an opaque packed form: only the external codec's verdict decides
    let packed = Address("EQAAexamplepacked".to_string());
    assert!(!s.check_address(&packed, false));
    assert!(s.check_address(&packed, true));
}

#[test]
fn core_fails_closed_before_start() {
    let mut core = TonCore::new(config());
    let r = core.send_ton_message(&acct(0, "a"), &hex("1"), 130);
    assert!(matches!(r, Err(TonCoreError::NotStarted)));
    assert!(matches!(core.sweep_expired_messages(200), Err(TonCoreError::NotStarted)));
    assert!(matches!(
        core.take_events(ObserverKind::NativeTransfer),
        Err(TonCoreError::NotStarted)
    ));
    // subscriptions are a silent no-op while not running
    core.add_ton_account_subscription(&vec![acct(0, "a")]);
    core.start();
    let r = core.send_ton_message(&acct(0, "a"), &hex("1"), 130);
    assert!(r.is_ok());
}

#[test]
fn core_send_confirm_and_classify() {
    // Scenario: a submitted message's matching transaction is observed two
    // ticks later; the completion handle resolves Confirmed at that point.
    let mut core = TonCore::new(config());
    core.start();
    core.add_ton_account_subscription(&vec![acct(0, "a")]);
    let handle = core.send_ton_message(&acct(0, "a"), &hex("1"), 130).unwrap();
    let dup = core.send_ton_message(&acct(0, "a"), &hex("1"), 140);
    assert!(matches!(dup, Err(TonCoreError::DuplicateEntry)));
    let tx = raw_tx(acct(0, "a"), 12, &hex("1"));
    let resolved = core.handle_ledger_transaction(&tx).unwrap();
    let r = resolved.expect("pending entry matches");
    assert_eq!(r.handle, handle);
    assert!(r.status == MessageStatus::Confirmed);
    assert!(matches!(
        classify_transaction(&tx, true),
        CaughtTonTransaction::UpdateSent(u)
            if u.input.status == TonTransactionStatus::Confirmed && u.message_hash == hex("1")
    ));
    // the same transaction also reached the watching observer
    let events = core.take_events(ObserverKind::NativeTransfer).unwrap();
    assert_eq!(events.len(), 1);
    // once resolved, a later transaction with the same hash is unsolicited
    let tx2 = raw_tx(acct(0, "a"), 13, &hex("1"));
    let resolved2 = core.handle_ledger_transaction(&tx2).unwrap();
    assert!(resolved2.is_none());
    assert!(matches!(classify_transaction(&tx2, false), CaughtTonTransaction::Create(_)));
}

#[test]
fn core_sweep_expires_pending_send() {
    let mut core = TonCore::new(config());
    core.start();
    let handle = core.send_ton_message(&acct(0, "a"), &hex("1"), 130).unwrap();
    let early = core.sweep_expired_messages(129).unwrap();
    assert!(early.is_empty());
    let due = core.sweep_expired_messages(130).unwrap();
    assert_eq!(due.len(), 1);
    assert_eq!(due[0].handle, handle);
    assert!(due[0].status == MessageStatus::Expired);
}

#[test]
fn id_extractor_carries_tenant() {
    let id = ton_gateway::models::IdExtractor(ton_gateway::models::ServiceId { value: 3 });
    assert_eq!(id.0.value, 3);
}
