//! Account subscription registry and transaction router: keeps the working
//! set of watched accounts per typed observer and fans every observed ledger
//! transaction out to all observers whose set contains its account.
//!
//! Each observer owns an unbounded output channel (a vector the consumer
//! drains). Delivery never consumes a transaction: every observer extracts
//! from the same raw data independently, so one transaction can feed several
//! pipelines at once. Transactions arrive from the ledger node in ledger
//! order per account; the per-account watermark records that frontier, and
//! every channel keeps per-account events in non-decreasing logical time.

use vstd::prelude::*;
use vstd::pervasive::VecAdditionalExecFns;

use crate::models::AccountAddress;
use crate::models::TonTransactionDirection;

verus! {

/// Parsed content of one raw ledger transaction, as handed over by the node.
pub struct RawTransactionData {
    pub account: AccountAddress,
    pub logical_time: u64,
    pub now: u32,
    pub in_message_hash: String,
    pub transfer: Option<TransferInfo>,
    pub token_transfer: Option<TokenTransferInfo>,
    pub notification: Option<NotificationInfo>,
}

/// Native value transfer carried by a transaction.
pub struct TransferInfo {
    pub value: u128,
    pub direction: TonTransactionDirection,
}

/// Token transfer carried by a transaction, scoped to a token root.
pub struct TokenTransferInfo {
    pub value: u128,
    pub root_address: String,
}

/// Wallet notification carried by a transaction.
pub struct NotificationInfo {
    pub payload_hash: String,
}

/// Business-meaningful event extracted from a raw transaction.
pub struct DomainEvent {
    pub account: AccountAddress,
    pub logical_time: u64,
    pub payload: EventPayload,
}

/// The event shapes produced by the typed observers.
pub enum EventPayload {
    TransferCreate { message_hash: String, value: u128, direction: TonTransactionDirection },
    TokenTransfer { message_hash: String, value: u128, root_address: String },
    WalletNotification { message_hash: String, payload_hash: String },
}

/// The event shape a registered observer extracts.
#[derive(Clone, Copy, Debug, PartialEq, Eq, Structural)]
pub enum ObserverKind {
    NativeTransfer,
    TokenTransfer,
    WalletNotification,
}

/// What an observer of the given kind reads out of a raw transaction:
/// nothing when the transaction does not carry its event shape.
pub open spec fn extract_spec(kind: ObserverKind, tx: RawTransactionData) -> Option<DomainEvent> {
    match kind {
        ObserverKind::NativeTransfer => match tx.transfer {
            Option::Some(t) => Option::Some(
                DomainEvent {
                    account: tx.account,
                    logical_time: tx.logical_time,
                    payload: EventPayload::TransferCreate {
                        message_hash: tx.in_message_hash,
                        value: t.value,
                        direction: t.direction,
                    },
                },
            ),
            Option::None => Option::None,
        },
        ObserverKind::TokenTransfer => match tx.token_transfer {
            Option::Some(t) => Option::Some(
                DomainEvent {
                    account: tx.account,
                    logical_time: tx.logical_time,
                    payload: EventPayload::TokenTransfer {
                        message_hash: tx.in_message_hash,
                        value: t.value,
                        root_address: t.root_address,
                    },
                },
            ),
            Option::None => Option::None,
        },
        ObserverKind::WalletNotification => match tx.notification {
            Option::Some(n) => Option::Some(
                DomainEvent {
                    account: tx.account,
                    logical_time: tx.logical_time,
                    payload: EventPayload::WalletNotification {
                        message_hash: tx.in_message_hash,
                        payload_hash: n.payload_hash,
                    },
                },
            ),
            Option::None => Option::None,
        },
    }
}

/// Pure extraction, the single reusable mechanism behind every observer.
pub fn extract(kind: ObserverKind, tx: &RawTransactionData) -> (r: Option<DomainEvent>)
    ensures
        r == extract_spec(kind, *tx),
{
    match kind {
        ObserverKind::NativeTransfer => match &tx.transfer {
            Option::Some(t) => Option::Some(
                DomainEvent {
                    account: tx.account.duplicate(),
                    logical_time: tx.logical_time,
                    payload: EventPayload::TransferCreate {
                        message_hash: tx.in_message_hash.clone(),
                        value: t.value,
                        direction: t.direction,
                    },
                },
            ),
            Option::None => Option::None,
        },
        ObserverKind::TokenTransfer => match &tx.token_transfer {
            Option::Some(t) => Option::Some(
                DomainEvent {
                    account: tx.account.duplicate(),
                    logical_time: tx.logical_time,
                    payload: EventPayload::TokenTransfer {
                        message_hash: tx.in_message_hash.clone(),
                        value: t.value,
                        root_address: t.root_address.clone(),
                    },
                },
            ),
            Option::None => Option::None,
        },
        ObserverKind::WalletNotification => match &tx.notification {
            Option::Some(n) => Option::Some(
                DomainEvent {
                    account: tx.account.duplicate(),
                    logical_time: tx.logical_time,
                    payload: EventPayload::WalletNotification {
                        message_hash: tx.in_message_hash.clone(),
                        payload_hash: n.payload_hash.clone(),
                    },
                },
            ),
            Option::None => Option::None,
        },
    }
}

/// An account is in the sequence, compared by key.
pub open spec fn acc_in(s: Seq<AccountAddress>, wc: int, hex: Seq<char>) -> bool {
    exists|i: int|
        0 <= i < s.len() && (#[trigger] s[i]).workchain_id == wc && s[i].hex@ == hex
}

/// No two accounts of the sequence share a key.
pub open spec fn accounts_distinct(s: Seq<AccountAddress>) -> bool {
    forall|i: int, j: int|
        #![trigger s[i], s[j]]
        0 <= i < j < s.len() ==> !(s[i].workchain_id == s[j].workchain_id && s[i].hex@
            == s[j].hex@)
}

/// Highest logical time delivered so far for one account.
pub struct AccountWatermark {
    pub account: AccountAddress,
    pub last_lt: u64,
}

/// The watermark entry is keyed by the given account.
pub open spec fn wm_match(w: AccountWatermark, wc: int, hex: Seq<char>) -> bool {
    w.account.workchain_id == wc && w.account.hex@ == hex
}

/// Some watermark for the event's account dominates its logical time.
pub open spec fn wm_ok(wms: Seq<AccountWatermark>, e: DomainEvent) -> bool {
    exists|i: int|
        0 <= i < wms.len() && wm_match(#[trigger] wms[i], e.account.workchain_id as int, e.account.hex@)
            && e.logical_time <= wms[i].last_lt
}

/// Per-account events appear in non-decreasing ledger order.
pub open spec fn events_ordered(s: Seq<DomainEvent>) -> bool {
    forall|i: int, j: int|
        #![trigger s[i], s[j]]
        0 <= i < j < s.len() && s[i].account.workchain_id == s[j].account.workchain_id
            && s[i].account.hex@ == s[j].account.hex@ ==> s[i].logical_time <= s[j].logical_time
}

/// One typed observer: its event shape, its watched account set and its
/// unbounded output channel.
pub struct ObserverChannel {
    pub kind: ObserverKind,
    pub watched: Vec<AccountAddress>,
    pub events: Vec<DomainEvent>,
}

/// The channel's events are ordered per account and dominated by the
/// watermarks; the watched set holds no duplicate keys.
pub open spec fn channel_wf(ch: ObserverChannel, wms: Seq<AccountWatermark>) -> bool {
    accounts_distinct(ch.watched@) && events_ordered(ch.events@) && forall|k: int|
        0 <= k < ch.events@.len() ==> wm_ok(wms, #[trigger] ch.events@[k])
}

/// Whether the watched set of the channel contains the account.
fn contains_account(watched: &Vec<AccountAddress>, account: &AccountAddress) -> (r: bool)
    ensures
        r == acc_in(watched@, account.workchain_id as int, account.hex@),
{
    let mut i: usize = 0;
    while i < watched.len()
        invariant
            i <= watched@.len(),
            forall|k: int|
                0 <= k < i ==> !((#[trigger] watched@[k]).workchain_id == account.workchain_id
                    && watched@[k].hex@ == account.hex@),
        decreases watched@.len() - i,
    {
        let w = &watched[i];
        if w.workchain_id == account.workchain_id && w.hex == account.hex {
            return true;
        }
        i = i + 1;
    }
    false
}

/// Idempotent union of the accounts into the channel's watched set.
fn add_watched(ch: &mut ObserverChannel, accounts: &Vec<AccountAddress>)
    requires
        accounts_distinct(old(ch).watched@),
    ensures
        accounts_distinct(final(ch).watched@),
        final(ch).kind == old(ch).kind,
        final(ch).events@ == old(ch).events@,
        forall|wc: int, hex: Seq<char>|
            #![trigger acc_in(final(ch).watched@, wc, hex)]
            acc_in(final(ch).watched@, wc, hex) <==> (acc_in(old(ch).watched@, wc, hex) || acc_in(
                accounts@,
                wc,
                hex,
            )),
{
    let mut i: usize = 0;
    while i < accounts.len()
        invariant
            i <= accounts@.len(),
            accounts_distinct(ch.watched@),
            ch.kind == old(ch).kind,
            ch.events@ == old(ch).events@,
            forall|wc: int, hex: Seq<char>|
                #![trigger acc_in(ch.watched@, wc, hex)]
                acc_in(ch.watched@, wc, hex) <==> (acc_in(old(ch).watched@, wc, hex) || acc_in(
                    accounts@.subrange(0, i as int),
                    wc,
                    hex,
                )),
        decreases accounts@.len() - i,
    {
        let a = &accounts[i];
        let ghost pre = ch.watched@;
        let present = contains_account(&ch.watched, a);
        if !present {
            ch.watched.push(a.duplicate());
            proof {
                let s = ch.watched@;
                let n = s.len() - 1;
                assert(s[n] == accounts@[i as int]);
                assert forall|x: int, y: int|
                    #![trigger s[x], s[y]]
                    0 <= x < y < s.len() implies !(s[x].workchain_id == s[y].workchain_id
                    && s[x].hex@ == s[y].hex@) by {
                    if y < n {
                        assert(s[x] == pre[x]);
                        assert(s[y] == pre[y]);
                    } else {
                        assert(s[x] == pre[x]);
                        assert(!acc_in(pre, a.workchain_id as int, a.hex@));
                    }
                }
            }
        }
        proof {
            let s = ch.watched@;
            let aw = accounts@[i as int];
            let sub1 = accounts@.subrange(0, i + 1);
            let sub0 = accounts@.subrange(0, i as int);
            assert(sub1[i as int] == aw);
            assert forall|wc: int, hex: Seq<char>|
                #![trigger acc_in(s, wc, hex)]
                acc_in(s, wc, hex) <==> (acc_in(old(ch).watched@, wc, hex) || acc_in(
                sub1,
                wc,
                hex,
            )) by {
                let key_is_a = aw.workchain_id == wc && aw.hex@ == hex;
                // acc_in(sub1) <==> acc_in(sub0) || key_is_a
                if acc_in(sub1, wc, hex) {
                    let k = choose|k: int|
                        0 <= k < sub1.len() && (#[trigger] sub1[k]).workchain_id == wc
                            && sub1[k].hex@ == hex;
                    if k < i {
                        assert(sub0[k] == sub1[k]);
                        assert(acc_in(sub0, wc, hex));
                    }
                }
                if acc_in(sub0, wc, hex) {
                    let k = choose|k: int|
                        0 <= k < sub0.len() && (#[trigger] sub0[k]).workchain_id == wc
                            && sub0[k].hex@ == hex;
                    assert(sub1[k] == sub0[k]);
                    assert(acc_in(sub1, wc, hex));
                }
                if key_is_a {
                    assert(acc_in(sub1, wc, hex));
                }
                // acc_in(s) <==> acc_in(pre) || (!present && key_is_a)
                if !present {
                    let n = s.len() - 1;
                    assert(s == pre.push(aw));
                    if acc_in(s, wc, hex) {
                        let k = choose|k: int|
                            0 <= k < s.len() && (#[trigger] s[k]).workchain_id == wc && s[k].hex@
                                == hex;
                        if k < n {
                            assert(pre[k] == s[k]);
                            assert(acc_in(pre, wc, hex));
                        } else {
                            assert(s[n] == aw);
                        }
                    }
                    if acc_in(pre, wc, hex) {
                        let k = choose|k: int|
                            0 <= k < pre.len() && (#[trigger] pre[k]).workchain_id == wc
                                && pre[k].hex@ == hex;
                        assert(s[k] == pre[k]);
                        assert(acc_in(s, wc, hex));
                    }
                    if key_is_a {
                        assert(s[n].workchain_id == wc && s[n].hex@ == hex);
                        assert(acc_in(s, wc, hex));
                    }
                } else {
                    assert(s == pre);
                    assert(acc_in(pre, aw.workchain_id as int, aw.hex@));
                    if key_is_a {
                        assert(acc_in(pre, wc, hex));
                    }
                }
            }
        }
        i = i + 1;
    }
    proof {
        assert(accounts@.subrange(0, accounts@.len() as int) =~= accounts@);
    }
}

/// Raises (or creates) the watermark of the account to the given logical
/// time; every other entry is untouched.
fn bump_watermark(wms: &mut Vec<AccountWatermark>, account: &AccountAddress, lt: u64)
    requires
        forall|i: int|
            0 <= i < old(wms)@.len() && wm_match(
                #[trigger] old(wms)@[i],
                account.workchain_id as int,
                account.hex@,
            ) ==> old(wms)@[i].last_lt <= lt,
    ensures
        (exists|i: int|
            0 <= i < old(wms)@.len() && wm_match(
                #[trigger] old(wms)@[i],
                account.workchain_id as int,
                account.hex@,
            ) && final(wms)@ == old(wms)@.update(
                i,
                (AccountWatermark { account: *account, last_lt: lt }),
            )) || (!acc_in_wm(old(wms)@, account.workchain_id as int, account.hex@) && final(wms)@
            == old(wms)@.push((AccountWatermark { account: *account, last_lt: lt }))),
{
    let mut i: usize = 0;
    while i < wms.len()
        invariant
            i <= wms@.len(),
            wms@ == old(wms)@,
            forall|k: int|
                0 <= k < i ==> !wm_match(
                    #[trigger] wms@[k],
                    account.workchain_id as int,
                    account.hex@,
                ),
        decreases wms@.len() - i,
    {
        let matches = {
            let w = &wms[i];
            w.account.workchain_id == account.workchain_id && w.account.hex == account.hex
        };
        if matches {
            let ghost prev = wms@[i as int];
            let fresh = AccountWatermark { account: account.duplicate(), last_lt: lt };
            wms.set(i, fresh);
            proof {
                assert(prev.account.workchain_id == account.workchain_id && prev.account.hex@
                    == account.hex@);
                assert(fresh.account == *account);
            }
            return ;
        }
        i = i + 1;
    }
    wms.push(AccountWatermark { account: account.duplicate(), last_lt: lt });
}

/// A watermark entry for the key exists.
pub open spec fn acc_in_wm(s: Seq<AccountWatermark>, wc: int, hex: Seq<char>) -> bool {
    exists|i: int| 0 <= i < s.len() && wm_match(#[trigger] s[i], wc, hex)
}

/// Appends the observer's extraction of the transaction to its channel when
/// the account is watched; otherwise the channel is untouched.
fn deliver_to_channel(
    ch: &mut ObserverChannel,
    tx: &RawTransactionData,
    Ghost(wms): Ghost<Seq<AccountWatermark>>,
)
    requires
        channel_wf(*old(ch), wms),
        forall|k: int|
            0 <= k < old(ch).events@.len() && (#[trigger] old(ch).events@[k]).account.workchain_id
                == tx.account.workchain_id && old(ch).events@[k].account.hex@ == tx.account.hex@
                ==> old(ch).events@[k].logical_time <= tx.logical_time,
        exists|i: int|
            0 <= i < wms.len() && wm_match(
                #[trigger] wms[i],
                tx.account.workchain_id as int,
                tx.account.hex@,
            ) && tx.logical_time <= wms[i].last_lt,
    ensures
        channel_wf(*final(ch), wms),
        final(ch).kind == old(ch).kind,
        final(ch).watched@ == old(ch).watched@,
        (acc_in(old(ch).watched@, tx.account.workchain_id as int, tx.account.hex@) && extract_spec(
            old(ch).kind,
            *tx,
        ) is Some) ==> final(ch).events@ == old(ch).events@.push(
            extract_spec(old(ch).kind, *tx)->0,
        ),
        !(acc_in(old(ch).watched@, tx.account.workchain_id as int, tx.account.hex@) && extract_spec(
            old(ch).kind,
            *tx,
        ) is Some) ==> final(ch).events@ == old(ch).events@,
{
    if contains_account(&ch.watched, &tx.account) {
        if let Option::Some(event) = extract(ch.kind, tx) {
            let ghost pre = ch.events@;
            ch.events.push(event);
            proof {
                let s = ch.events@;
                let n = s.len() - 1;
                assert(s[n] == extract_spec(ch.kind, *tx)->0);
                assert(s[n].account == tx.account && s[n].logical_time == tx.logical_time);
                assert forall|x: int, y: int|
                    #![trigger s[x], s[y]]
                    0 <= x < y < s.len() && s[x].account.workchain_id == s[y].account.workchain_id
                    && s[x].account.hex@ == s[y].account.hex@ implies s[x].logical_time
                    <= s[y].logical_time by {
                    if y < n {
                        assert(s[x] == pre[x]);
                        assert(s[y] == pre[y]);
                    } else {
                        assert(s[x] == pre[x]);
                    }
                }
                assert forall|k: int| 0 <= k < s.len() implies wm_ok(
                    wms,
                    #[trigger] s[k],
                ) by {
                    if k < n {
                        assert(s[k] == pre[k]);
                    }
                }
            }
        }
    }
}

/// Fans observed transactions out to the three typed observers and tracks
/// the per-account delivery frontier.
pub struct TransactionRouter {
    pub ton_transaction: ObserverChannel,
    pub token_transaction: ObserverChannel,
    pub wallet_notification: ObserverChannel,
    pub watermarks: Vec<AccountWatermark>,
}

impl TransactionRouter {
    /// Shape and ordering invariant of the whole router.
    pub open spec fn wf(&self) -> bool {
        self.ton_transaction.kind == ObserverKind::NativeTransfer && self.token_transaction.kind
            == ObserverKind::TokenTransfer && self.wallet_notification.kind
            == ObserverKind::WalletNotification && channel_wf(self.ton_transaction, self.watermarks@)
            && channel_wf(self.token_transaction, self.watermarks@) && channel_wf(
            self.wallet_notification,
            self.watermarks@,
        )
    }

    /// The channel holding events of the given kind.
    pub open spec fn channel_of(&self, kind: ObserverKind) -> ObserverChannel {
        match kind {
            ObserverKind::NativeTransfer => self.ton_transaction,
            ObserverKind::TokenTransfer => self.token_transaction,
            ObserverKind::WalletNotification => self.wallet_notification,
        }
    }

    pub fn new() -> (r: Self)
        ensures
            r.wf(),
            r.ton_transaction.events@.len() == 0,
            r.token_transaction.events@.len() == 0,
            r.wallet_notification.events@.len() == 0,
            r.ton_transaction.watched@.len() == 0,
            r.token_transaction.watched@.len() == 0,
            r.wallet_notification.watched@.len() == 0,
            r.watermarks@.len() == 0,
    {
        TransactionRouter {
            ton_transaction: ObserverChannel {
                kind: ObserverKind::NativeTransfer,
                watched: Vec::new(),
                events: Vec::new(),
            },
            token_transaction: ObserverChannel {
                kind: ObserverKind::TokenTransfer,
                watched: Vec::new(),
                events: Vec::new(),
            },
            wallet_notification: ObserverChannel {
                kind: ObserverKind::WalletNotification,
                watched: Vec::new(),
                events: Vec::new(),
            },
            watermarks: Vec::new(),
        }
    }

    /// Idempotent union of accounts into the watched set of one observer;
    /// safe to repeat, and never touches the other observers or any channel.
    pub fn add_account_subscription(&mut self, kind: ObserverKind, accounts: &Vec<AccountAddress>)
        requires
            old(self).wf(),
        ensures
            final(self).wf(),
            final(self).watermarks@ == old(self).watermarks@,
            forall|k: ObserverKind|
                (#[trigger] final(self).channel_of(k)).events@ == old(self).channel_of(k).events@,
            forall|k: ObserverKind|
                k != kind ==> (#[trigger] final(self).channel_of(k)).watched@ == old(self).channel_of(k).watched@,
            forall|wc: int, hex: Seq<char>|
                #![trigger acc_in(final(self).channel_of(kind).watched@, wc, hex)]
                acc_in(final(self).channel_of(kind).watched@, wc, hex) <==> (acc_in(
                    old(self).channel_of(kind).watched@,
                    wc,
                    hex,
                ) || acc_in(accounts@, wc, hex)),
    {
        match kind {
            ObserverKind::NativeTransfer => add_watched(&mut self.ton_transaction, accounts),
            ObserverKind::TokenTransfer => add_watched(&mut self.token_transaction, accounts),
            ObserverKind::WalletNotification => add_watched(
                &mut self.wallet_notification,
                accounts,
            ),
        }
    }

    /// Routes one observed transaction: every observer watching the account
    /// receives its own extraction, independently of the others, appended in
    /// ledger order. Requires the node's per-account ordering guarantee:
    /// the transaction's logical time is at least the account's watermark.
    pub fn handle_transaction(&mut self, tx: &RawTransactionData)
        requires
            old(self).wf(),
            forall|i: int|
                0 <= i < old(self).watermarks@.len() && wm_match(
                    #[trigger] old(self).watermarks@[i],
                    tx.account.workchain_id as int,
                    tx.account.hex@,
                ) ==> old(self).watermarks@[i].last_lt <= tx.logical_time,
        ensures
            final(self).wf(),
            forall|k: ObserverKind|
                (#[trigger] final(self).channel_of(k)).watched@ == old(self).channel_of(
                    k,
                ).watched@,
            forall|k: ObserverKind|
                (acc_in(
                    old(self).channel_of(k).watched@,
                    tx.account.workchain_id as int,
                    tx.account.hex@,
                ) && extract_spec(k, *tx) is Some) ==> (#[trigger] final(self).channel_of(
                    k,
                )).events@ == old(self).channel_of(k).events@.push(extract_spec(k, *tx)->0),
            forall|k: ObserverKind|
                !(acc_in(
                    old(self).channel_of(k).watched@,
                    tx.account.workchain_id as int,
                    tx.account.hex@,
                ) && extract_spec(k, *tx) is Some) ==> (#[trigger] final(self).channel_of(
                    k,
                )).events@ == old(self).channel_of(k).events@,
    {
        let ghost wc = tx.account.workchain_id as int;
        let ghost hex = tx.account.hex@;
        let ghost wms_old = self.watermarks@;
        bump_watermark(&mut self.watermarks, &tx.account, tx.logical_time);
        let ghost wms = self.watermarks@;
        proof {
            lemma_bump_preserves(wms_old, wms, *tx, old(self).ton_transaction);
            lemma_bump_preserves(wms_old, wms, *tx, old(self).token_transaction);
            lemma_bump_preserves(wms_old, wms, *tx, old(self).wallet_notification);
        }
        deliver_to_channel(&mut self.ton_transaction, tx, Ghost(wms));
        deliver_to_channel(&mut self.token_transaction, tx, Ghost(wms));
        deliver_to_channel(&mut self.wallet_notification, tx, Ghost(wms));
    }

    /// Drains one observer's channel, handing the events to the consumer in
    /// delivery order; the channel is empty afterwards.
    pub fn take_events(&mut self, kind: ObserverKind) -> (r: Vec<DomainEvent>)
        requires
            old(self).wf(),
        ensures
            final(self).wf(),
            r@ == old(self).channel_of(kind).events@,
            final(self).channel_of(kind).events@.len() == 0,
            final(self).watermarks@ == old(self).watermarks@,
            forall|k: ObserverKind|
                (#[trigger] final(self).channel_of(k)).watched@ == old(self).channel_of(
                    k,
                ).watched@,
            forall|k: ObserverKind|
                k != kind ==> (#[trigger] final(self).channel_of(k)).events@ == old(self).channel_of(k).events@,
    {
        let mut out: Vec<DomainEvent> = Vec::new();
        match kind {
            ObserverKind::NativeTransfer => core::mem::swap(
                &mut out,
                &mut self.ton_transaction.events,
            ),
            ObserverKind::TokenTransfer => core::mem::swap(
                &mut out,
                &mut self.token_transaction.events,
            ),
            ObserverKind::WalletNotification => core::mem::swap(
                &mut out,
                &mut self.wallet_notification.events,
            ),
        }
        out
    }
}

/// After the watermark of the transaction's account is raised to its logical
/// time, a channel well-formed under the old watermarks stays well-formed,
/// its same-account events do not exceed the new logical time, and the new
/// watermark dominates the transaction itself.
proof fn lemma_bump_preserves(
    wms_old: Seq<AccountWatermark>,
    wms: Seq<AccountWatermark>,
    tx: RawTransactionData,
    ch: ObserverChannel,
)
    requires
        channel_wf(ch, wms_old),
        forall|i: int|
            0 <= i < wms_old.len() && wm_match(
                #[trigger] wms_old[i],
                tx.account.workchain_id as int,
                tx.account.hex@,
            ) ==> wms_old[i].last_lt <= tx.logical_time,
        (exists|i: int|
            0 <= i < wms_old.len() && wm_match(
                #[trigger] wms_old[i],
                tx.account.workchain_id as int,
                tx.account.hex@,
            ) && wms == wms_old.update(
                i,
                (AccountWatermark { account: tx.account, last_lt: tx.logical_time }),
            )) || (!acc_in_wm(wms_old, tx.account.workchain_id as int, tx.account.hex@) && wms
            == wms_old.push(
            (AccountWatermark { account: tx.account, last_lt: tx.logical_time }),
        )),
    ensures
        channel_wf(ch, wms),
        forall|k: int|
            0 <= k < ch.events@.len() && (#[trigger] ch.events@[k]).account.workchain_id
                == tx.account.workchain_id && ch.events@[k].account.hex@ == tx.account.hex@
                ==> ch.events@[k].logical_time <= tx.logical_time,
        exists|i: int|
            0 <= i < wms.len() && wm_match(
                #[trigger] wms[i],
                tx.account.workchain_id as int,
                tx.account.hex@,
            ) && tx.logical_time <= wms[i].last_lt,
{
    let wc = tx.account.workchain_id as int;
    let hex = tx.account.hex@;
    if exists|i: int|
        0 <= i < wms_old.len() && wm_match(#[trigger] wms_old[i], wc, hex) && wms
            == wms_old.update(
            i,
            (AccountWatermark { account: tx.account, last_lt: tx.logical_time }),
        ) {
        let idx = choose|i: int|
            0 <= i < wms_old.len() && wm_match(#[trigger] wms_old[i], wc, hex) && wms
                == wms_old.update(
                i,
                (AccountWatermark { account: tx.account, last_lt: tx.logical_time }),
            );
        assert(wm_match(wms[idx], wc, hex) && tx.logical_time <= wms[idx].last_lt);
        assert forall|k: int| 0 <= k < ch.events@.len() implies wm_ok(
            wms,
            #[trigger] ch.events@[k],
        ) by {
            let e = ch.events@[k];
            assert(wm_ok(wms_old, e));
            let w = choose|i: int|
                0 <= i < wms_old.len() && wm_match(
                    #[trigger] wms_old[i],
                    e.account.workchain_id as int,
                    e.account.hex@,
                ) && e.logical_time <= wms_old[i].last_lt;
            if w == idx {
                assert(wms[idx].account == tx.account);
                assert(wm_match(wms_old[idx], wc, hex));
                assert(wms_old[idx].last_lt <= tx.logical_time);
                assert(wm_match(wms[idx], e.account.workchain_id as int, e.account.hex@)
                    && e.logical_time <= wms[idx].last_lt);
            } else {
                assert(wms[w] == wms_old[w]);
            }
        }
        assert forall|k: int|
            0 <= k < ch.events@.len() && (#[trigger] ch.events@[k]).account.workchain_id
                == tx.account.workchain_id && ch.events@[k].account.hex@
                == tx.account.hex@ implies ch.events@[k].logical_time <= tx.logical_time by {
            let e = ch.events@[k];
            assert(wm_ok(wms_old, e));
            let w = choose|i: int|
                0 <= i < wms_old.len() && wm_match(
                    #[trigger] wms_old[i],
                    e.account.workchain_id as int,
                    e.account.hex@,
                ) && e.logical_time <= wms_old[i].last_lt;
            assert(wm_match(wms_old[w], wc, hex));
            assert(wms_old[w].last_lt <= tx.logical_time);
        }
    } else {
        let n = wms.len() - 1;
        assert(wms == wms_old.push((AccountWatermark { account: tx.account, last_lt: tx.logical_time })));
        assert(wm_match(wms[n], wc, hex) && tx.logical_time <= wms[n].last_lt);
        assert forall|k: int| 0 <= k < ch.events@.len() implies wm_ok(
            wms,
            #[trigger] ch.events@[k],
        ) by {
            let e = ch.events@[k];
            assert(wm_ok(wms_old, e));
            let w = choose|i: int|
                0 <= i < wms_old.len() && wm_match(
                    #[trigger] wms_old[i],
                    e.account.workchain_id as int,
                    e.account.hex@,
                ) && e.logical_time <= wms_old[i].last_lt;
            assert(wms[w] == wms_old[w]);
        }
        assert forall|k: int|
            0 <= k < ch.events@.len() && (#[trigger] ch.events@[k]).account.workchain_id
                == tx.account.workchain_id && ch.events@[k].account.hex@
                == tx.account.hex@ implies ch.events@[k].logical_time <= tx.logical_time by {
            let e = ch.events@[k];
            assert(wm_ok(wms_old, e));
            let w = choose|i: int|
                0 <= i < wms_old.len() && wm_match(
                    #[trigger] wms_old[i],
                    e.account.workchain_id as int,
                    e.account.hex@,
                ) && e.logical_time <= wms_old[i].last_lt;
            assert(wm_match(wms_old[w], wc, hex));
            assert(acc_in_wm(wms_old, wc, hex));
        }
    }
}

/// Events for one account arrive at every registered observer in
/// non-decreasing ledger order; no ordering is promised across accounts.
pub proof fn lemma_per_account_order(r: TransactionRouter, kind: ObserverKind)
    requires
        r.wf(),
    ensures
        events_ordered(r.channel_of(kind).events@),
{
}

} // verus!
