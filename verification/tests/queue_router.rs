use ton_gateway::models::AccountAddress;
use ton_gateway::models::MessageStatus;
use ton_gateway::models::TonTransactionDirection;
use ton_gateway::queue::PendingMessageError;
use ton_gateway::queue::PendingMessagesQueue;
use ton_gateway::router::EventPayload;
use ton_gateway::router::ObserverKind;
use ton_gateway::router::RawTransactionData;
use ton_gateway::router::TransactionRouter;
use ton_gateway::router::TransferInfo;
use ton_gateway::router::NotificationInfo;
use ton_gateway::router::extract;

fn acct(wc: i32, seed: &str) -> AccountAddress {
    AccountAddress { workchain_id: wc, hex: seed.repeat(64) }
}

fn raw_tx(account: AccountAddress, lt: u64, mh: &str) -> RawTransactionData {
    RawTransactionData {
        account,
        logical_time: lt,
        now: 100,
        in_message_hash: mh.to_string(),
        transfer: Some(TransferInfo { value: 5, direction: TonTransactionDirection::Receive }),
        token_transfer: None,
        notification: Some(NotificationInfo { payload_hash: "n".repeat(64) }),
    }
}

#[test]
fn queue_confirms_before_deadline() {
    // Scenario: a matching transaction is observed well before the deadline,
    // so the handle resolves Confirmed then, not at the deadline.
    let mut q = PendingMessagesQueue::new();
    let a = acct(0, "a");
    let h = q.add_message(acct(0, "a"), "m".repeat(64), 130).unwrap();
    let resolved = q.resolve(&a, &"m".repeat(64), MessageStatus::Confirmed);
    let r = resolved.expect("entry must resolve");
    assert_eq!(r.handle, h);
    assert!(r.status == MessageStatus::Confirmed);
    // the deadline sweep afterwards finds nothing left to expire
    let expired = q.sweep_expired(130);
    assert!(expired.is_empty());
}

#[test]
fn queue_expires_only_at_deadline() {
    // Scenario: no matching transaction arrives; the entry resolves Expired
    // exactly when the deadline is reached, never before.
    let mut q = PendingMessagesQueue::new();
    let h = q.add_message(acct(0, "a"), "m".repeat(64), 130).unwrap();
    let early = q.sweep_expired(129);
    assert!(early.is_empty());
    assert!(q.has_entry(&acct(0, "a"), &"m".repeat(64)));
    let due = q.sweep_expired(130);
    assert_eq!(due.len(), 1);
    assert_eq!(due[0].handle, h);
    assert!(due[0].status == MessageStatus::Expired);
    assert!(!q.has_entry(&acct(0, "a"), &"m".repeat(64)));
}

#[test]
fn queue_duplicate_entry_until_resolution() {
    // While a pair is unresolved a second registration fails with
    // DuplicateEntry; after resolution the same pair is free again.
    let mut q = PendingMessagesQueue::new();
    let a = acct(0, "a");
    let first = q.add_message(acct(0, "a"), "m".repeat(64), 200).unwrap();
    let dup = q.add_message(acct(0, "a"), "m".repeat(64), 300);
    assert!(matches!(dup, Err(PendingMessageError::DuplicateEntry)));
    // a different hash on the same account is a different pair
    assert!(q.add_message(acct(0, "a"), "x".repeat(64), 200).is_ok());
    q.resolve(&a, &"m".repeat(64), MessageStatus::Confirmed);
    let again = q.add_message(acct(0, "a"), "m".repeat(64), 400).unwrap();
    assert!(again != first, "handles are never reused");
}

#[test]
fn queue_resolution_happens_once() {
    // Resolving an absent or already resolved pair is a no-op, so a handle
    // is fulfilled at most once.
    let mut q = PendingMessagesQueue::new();
    let a = acct(-1, "b");
    assert!(q.resolve(&a, &"m".repeat(64), MessageStatus::Confirmed).is_none());
    q.add_message(acct(-1, "b"), "m".repeat(64), 500).unwrap();
    assert!(q.resolve(&a, &"m".repeat(64), MessageStatus::Confirmed).is_some());
    assert!(q.resolve(&a, &"m".repeat(64), MessageStatus::Confirmed).is_none());
}

#[test]
fn queue_sweep_keeps_younger_entries() {
    let mut q = PendingMessagesQueue::new();
    q.add_message(acct(0, "a"), "m".repeat(64), 110).unwrap();
    q.add_message(acct(0, "b"), "m".repeat(64), 150).unwrap();
    let fired = q.sweep_expired(120);
    assert_eq!(fired.len(), 1);
    assert!(!q.has_entry(&acct(0, "a"), &"m".repeat(64)));
    assert!(q.has_entry(&acct(0, "b"), &"m".repeat(64)));
}

#[test]
fn extract_matches_observer_shape() {
    let tx = raw_tx(acct(0, "a"), 7, &"m".repeat(64));
    assert!(matches!(
        extract(ObserverKind::NativeTransfer, &tx),
        Some(e) if matches!(e.payload, EventPayload::TransferCreate { .. })
    ));
    // no token payload on this transaction, so the token observer discards it
    assert!(extract(ObserverKind::TokenTransfer, &tx).is_none());
    assert!(matches!(
        extract(ObserverKind::WalletNotification, &tx),
        Some(e) if matches!(e.payload, EventPayload::WalletNotification { .. })
    ));
}

#[test]
fn router_two_observers_both_see_both_transactions() {
    // Scenario: two transactions for one account arrive back-to-back; the
    // native-transfer and wallet-notification observers each see both,
    // independently, neither consuming the stream for the other.
    let mut r = TransactionRouter::new();
    let watch = vec![acct(0, "a")];
    r.add_account_subscription(ObserverKind::NativeTransfer, &watch);
    r.add_account_subscription(ObserverKind::WalletNotification, &watch);
    r.handle_transaction(&raw_tx(acct(0, "a"), 10, &"1".repeat(64)));
    r.handle_transaction(&raw_tx(acct(0, "a"), 11, &"2".repeat(64)));
    let native = r.take_events(ObserverKind::NativeTransfer);
    let notif = r.take_events(ObserverKind::WalletNotification);
    assert_eq!(native.len(), 2);
    assert_eq!(notif.len(), 2);
    assert_eq!(native[0].logical_time, 10);
    assert_eq!(native[1].logical_time, 11);
    assert_eq!(notif[0].logical_time, 10);
    assert_eq!(notif[1].logical_time, 11);
}

#[test]
fn router_keeps_per_account_ledger_order() {
    // Events for one account reach an observer in non-decreasing ledger
    // order; another account's stream is independent.
    let mut r = TransactionRouter::new();
    let watch = vec![acct(0, "a"), acct(0, "c")];
    r.add_account_subscription(ObserverKind::NativeTransfer, &watch);
    r.handle_transaction(&raw_tx(acct(0, "a"), 5, &"1".repeat(64)));
    r.handle_transaction(&raw_tx(acct(0, "c"), 2, &"2".repeat(64)));
    r.handle_transaction(&raw_tx(acct(0, "a"), 6, &"3".repeat(64)));
    let events = r.take_events(ObserverKind::NativeTransfer);
    assert_eq!(events.len(), 3);
    let a_lts: Vec<u64> = events
        .iter()
        .filter(|e| e.account.hex == "a".repeat(64))
        .map(|e| e.logical_time)
        .collect();
    assert_eq!(a_lts, vec![5, 6]);
}

#[test]
fn router_ignores_unwatched_accounts() {
    let mut r = TransactionRouter::new();
    r.add_account_subscription(ObserverKind::NativeTransfer, &vec![acct(0, "a")]);
    r.handle_transaction(&raw_tx(acct(0, "b"), 1, &"1".repeat(64)));
    assert!(r.take_events(ObserverKind::NativeTransfer).is_empty());
}

#[test]
fn router_subscription_is_idempotent_union() {
    let mut r = TransactionRouter::new();
    r.add_account_subscription(ObserverKind::NativeTransfer, &vec![acct(0, "a")]);
    r.add_account_subscription(ObserverKind::NativeTransfer, &vec![acct(0, "a"), acct(0, "b")]);
    assert_eq!(r.ton_transaction.watched.len(), 2);
    // other observers are untouched
    assert_eq!(r.token_transaction.watched.len(), 0);
}
