//! Composition root of the ledger-facing side: a two-phase lifecycle around
//! the pending message queue and the transaction router.
//!
//! A core is built in a configured state holding only static configuration;
//! `start` brings up the live queue and router. Operations on a core that is
//! not running fail closed: subscriptions are a silent no-op and ledger
//! operations return `NotStarted`. The
//! network itself — node sync, broadcast, contract-state reads — is driven
//! by the caller between these calls.

use vstd::prelude::*;

use crate::models::AccountAddress;
use crate::models::CaughtTonTransaction;
use crate::models::CreateReceiveTransaction;
use crate::models::MessageStatus;
use crate::models::TonTransactionDirection;
use crate::models::TonTransactionStatus;
use crate::models::UpdateSendTransaction;
use crate::models::UpdateSentTransaction;
use crate::queue::PendingMessageError;
use crate::queue::PendingMessagesQueue;
use crate::queue::ResolvedEntry;
use crate::queue::has_pending;
use crate::router::ObserverKind;
use crate::router::RawTransactionData;
use crate::router::TransactionRouter;
use crate::router::acc_in;
use crate::router::extract_spec;
use crate::router::wm_match;

verus! {

/// Static configuration of the ledger node runtime.
pub struct TonCoreConfig {
    pub port: u16,
    pub rocks_db_path: String,
    pub file_db_path: String,
    pub keys_path: String,
}

/// Lifecycle of the core: configured but idle, or running with live state.
pub enum CoreState {
    Configured { config: TonCoreConfig },
    Running { config: TonCoreConfig, queue: PendingMessagesQueue, router: TransactionRouter },
}

/// Failures of core operations.
#[derive(Clone, Copy, Debug, PartialEq, Eq, Structural)]
pub enum TonCoreError {
    /// The core has not been started yet.
    NotStarted,
    /// An unresolved pending entry already exists for the pair.
    DuplicateEntry,
}

/// The ledger-facing composition root.
pub struct TonCore {
    pub state: CoreState,
}

/// The inbound record an unsolicited transaction turns into.
pub open spec fn receive_of(tx: RawTransactionData) -> CreateReceiveTransaction {
    CreateReceiveTransaction {
        message_hash: tx.in_message_hash,
        transaction_hash: Option::None,
        account_workchain_id: tx.account.workchain_id,
        account_hex: tx.account.hex,
        value: match tx.transfer {
            Option::Some(t) => t.value,
            Option::None => 0,
        },
        direction: match tx.transfer {
            Option::Some(t) => t.direction,
            Option::None => TonTransactionDirection::Receive,
        },
        status: TonTransactionStatus::Confirmed,
        error: Option::None,
        aborted: false,
    }
}

/// The status update a confirmation of our own message turns into.
pub open spec fn update_sent_of(tx: RawTransactionData) -> UpdateSentTransaction {
    UpdateSentTransaction {
        message_hash: tx.in_message_hash,
        account_workchain_id: tx.account.workchain_id,
        account_hex: tx.account.hex,
        input: UpdateSendTransaction {
            transaction_hash: Option::None,
            status: TonTransactionStatus::Confirmed,
            error: Option::None,
        },
    }
}

/// Decides what an observed transaction means for the orchestration layer:
/// the confirmation of a message this process sent, exactly when a pending
/// entry matched, and a normal unsolicited inbound event otherwise.
pub fn classify_transaction(tx: &RawTransactionData, was_pending: bool) -> (r: CaughtTonTransaction)
    ensures
        was_pending ==> r == CaughtTonTransaction::UpdateSent(update_sent_of(*tx)),
        !was_pending ==> r == CaughtTonTransaction::Create(receive_of(*tx)),
{
    if was_pending {
        CaughtTonTransaction::UpdateSent(
            UpdateSentTransaction {
                message_hash: tx.in_message_hash.clone(),
                account_workchain_id: tx.account.workchain_id,
                account_hex: tx.account.hex.clone(),
                input: UpdateSendTransaction {
                    transaction_hash: Option::None,
                    status: TonTransactionStatus::Confirmed,
                    error: Option::None,
                },
            },
        )
    } else {
        let (value, direction) = match &tx.transfer {
            Option::Some(t) => (t.value, t.direction),
            Option::None => (0u128, TonTransactionDirection::Receive),
        };
        CaughtTonTransaction::Create(
            CreateReceiveTransaction {
                message_hash: tx.in_message_hash.clone(),
                transaction_hash: Option::None,
                account_workchain_id: tx.account.workchain_id,
                account_hex: tx.account.hex.clone(),
                value,
                direction,
                status: TonTransactionStatus::Confirmed,
                error: Option::None,
                aborted: false,
            },
        )
    }
}

impl TonCore {
    /// The live parts are well-formed whenever the core runs.
    pub open spec fn wf(&self) -> bool {
        match self.state {
            CoreState::Configured { .. } => true,
            CoreState::Running { queue, router, .. } => queue.wf() && router.wf(),
        }
    }

    pub open spec fn is_running(&self) -> bool {
        self.state is Running
    }

    pub open spec fn config_of(&self) -> TonCoreConfig {
        match self.state {
            CoreState::Configured { config } => config,
            CoreState::Running { config, .. } => config,
        }
    }

    pub open spec fn queue_of(&self) -> PendingMessagesQueue {
        match self.state {
            CoreState::Running { queue, .. } => queue,
            CoreState::Configured { .. } => arbitrary(),
        }
    }

    pub open spec fn router_of(&self) -> TransactionRouter {
        match self.state {
            CoreState::Running { router, .. } => router,
            CoreState::Configured { .. } => arbitrary(),
        }
    }

    /// A configured, not yet running core.
    pub fn new(config: TonCoreConfig) -> (r: Self)
        ensures
            r.wf(),
            !r.is_running(),
            r.config_of() == config,
    {
        TonCore { state: CoreState::Configured { config } }
    }

    /// Brings the live state up. Starting an already running core changes
    /// nothing; starting a configured one installs an empty queue and
    /// router under the same configuration.
    pub fn start(&mut self)
        requires
            old(self).wf(),
        ensures
            final(self).wf(),
            final(self).is_running(),
            final(self).config_of() == old(self).config_of(),
            !old(self).is_running() ==> final(self).queue_of().entries@.len() == 0 && final(self).queue_of().next_handle == 0 && final(self).router_of().ton_transaction.events@.len()
                == 0 && final(self).router_of().token_transaction.events@.len() == 0 && final(self).router_of().wallet_notification.events@.len() == 0,
            old(self).is_running() ==> *final(self) == *old(self),
    {
        let mut tmp = CoreState::Configured {
            config: TonCoreConfig {
                port: 0,
                rocks_db_path: String::new(),
                file_db_path: String::new(),
                keys_path: String::new(),
            },
        };
        core::mem::swap(&mut tmp, &mut self.state);
        match tmp {
            CoreState::Configured { config } => {
                self.state = CoreState::Running {
                    config,
                    queue: PendingMessagesQueue::new(),
                    router: TransactionRouter::new(),
                };
            },
            CoreState::Running { config, queue, router } => {
                self.state = CoreState::Running { config, queue, router };
            },
        }
    }

    /// Registers interest in accounts for the native transfer observer; a
    /// no-op while the core is not running.
    pub fn add_ton_account_subscription(&mut self, accounts: &Vec<AccountAddress>)
        requires
            old(self).wf(),
        ensures
            final(self).wf(),
            final(self).is_running() == old(self).is_running(),
            final(self).config_of() == old(self).config_of(),
            !old(self).is_running() ==> *final(self) == *old(self),
            old(self).is_running() ==> final(self).queue_of() == old(self).queue_of() && forall|
                wc: int,
                hex: Seq<char>,
            |
                #![trigger acc_in(final(self).router_of().channel_of(ObserverKind::NativeTransfer).watched@, wc, hex)]
                acc_in(
                    final(self).router_of().channel_of(ObserverKind::NativeTransfer).watched@,
                    wc,
                    hex,
                ) <==> (acc_in(
                    old(self).router_of().channel_of(ObserverKind::NativeTransfer).watched@,
                    wc,
                    hex,
                ) || acc_in(accounts@, wc, hex)),
            old(self).is_running() ==> forall|k: ObserverKind|
                (#[trigger] final(self).router_of().channel_of(k)).events@ == old(self).router_of().channel_of(k).events@,
    {
        match &mut self.state {
            CoreState::Running { router, .. } => {
                router.add_account_subscription(ObserverKind::NativeTransfer, accounts);
            },
            CoreState::Configured { .. } => {},
        }
    }

    /// Registers interest in accounts for the token transfer observer; a
    /// no-op while the core is not running.
    pub fn add_token_account_subscription(&mut self, accounts: &Vec<AccountAddress>)
        requires
            old(self).wf(),
        ensures
            final(self).wf(),
            final(self).is_running() == old(self).is_running(),
            final(self).config_of() == old(self).config_of(),
            !old(self).is_running() ==> *final(self) == *old(self),
            old(self).is_running() ==> final(self).queue_of() == old(self).queue_of() && forall|
                wc: int,
                hex: Seq<char>,
            |
                #![trigger acc_in(final(self).router_of().channel_of(ObserverKind::TokenTransfer).watched@, wc, hex)]
                acc_in(
                    final(self).router_of().channel_of(ObserverKind::TokenTransfer).watched@,
                    wc,
                    hex,
                ) <==> (acc_in(
                    old(self).router_of().channel_of(ObserverKind::TokenTransfer).watched@,
                    wc,
                    hex,
                ) || acc_in(accounts@, wc, hex)),
            old(self).is_running() ==> forall|k: ObserverKind|
                (#[trigger] final(self).router_of().channel_of(k)).events@ == old(self).router_of().channel_of(k).events@,
    {
        match &mut self.state {
            CoreState::Running { router, .. } => {
                router.add_account_subscription(ObserverKind::TokenTransfer, accounts);
            },
            CoreState::Configured { .. } => {},
        }
    }

    /// Registers interest in accounts for the wallet notification observer;
    /// a no-op while the core is not running.
    pub fn add_wallet_notification_subscription(&mut self, accounts: &Vec<AccountAddress>)
        requires
            old(self).wf(),
        ensures
            final(self).wf(),
            final(self).is_running() == old(self).is_running(),
            final(self).config_of() == old(self).config_of(),
            !old(self).is_running() ==> *final(self) == *old(self),
            old(self).is_running() ==> final(self).queue_of() == old(self).queue_of() && forall|
                wc: int,
                hex: Seq<char>,
            |
                #![trigger acc_in(final(self).router_of().channel_of(ObserverKind::WalletNotification).watched@, wc, hex)]
                acc_in(
                    final(self).router_of().channel_of(ObserverKind::WalletNotification).watched@,
                    wc,
                    hex,
                ) <==> (acc_in(
                    old(self).router_of().channel_of(ObserverKind::WalletNotification).watched@,
                    wc,
                    hex,
                ) || acc_in(accounts@, wc, hex)),
            old(self).is_running() ==> forall|k: ObserverKind|
                (#[trigger] final(self).router_of().channel_of(k)).events@ == old(self).router_of().channel_of(k).events@,
    {
        match &mut self.state {
            CoreState::Running { router, .. } => {
                router.add_account_subscription(ObserverKind::WalletNotification, accounts);
            },
            CoreState::Configured { .. } => {},
        }
    }

    /// Registers an outbound message in the pending queue and hands back the
    /// completion handle the caller awaits; the serialized payload itself is
    /// broadcast by the caller after this returns. Fails closed when the
    /// core is not running, and with `DuplicateEntry` when the same
    /// (account, hash) pair is still unresolved.
    pub fn send_ton_message(
        &mut self,
        account: &AccountAddress,
        message_hash: &String,
        expire_at: u32,
    ) -> (r: Result<u64, TonCoreError>)
        requires
            old(self).wf(),
            old(self).is_running() ==> old(self).queue_of().next_handle < u64::MAX,
        ensures
            final(self).wf(),
            final(self).is_running() == old(self).is_running(),
            final(self).config_of() == old(self).config_of(),
            !old(self).is_running() ==> r == Err::<u64, TonCoreError>(TonCoreError::NotStarted)
                && *final(self) == *old(self),
            old(self).is_running() ==> final(self).router_of() == old(self).router_of(),
            old(self).is_running() ==> (r is Err <==> has_pending(
                old(self).queue_of().entries@,
                account.workchain_id as int,
                account.hex@,
                message_hash@,
            )),
            old(self).is_running() && r is Err ==> r == Err::<u64, TonCoreError>(
                TonCoreError::DuplicateEntry,
            ) && final(self).queue_of().entries@ == old(self).queue_of().entries@ && final(self).queue_of().next_handle == old(self).queue_of().next_handle,
            old(self).is_running() && r is Ok ==> r == Ok::<u64, TonCoreError>(
                old(self).queue_of().next_handle,
            ) && final(self).queue_of().next_handle == old(self).queue_of().next_handle + 1
                && final(self).queue_of().entries@ == old(self).queue_of().entries@.push(
                (crate::queue::PendingMessage {
                    account: *account,
                    message_hash: *message_hash,
                    expire_at,
                    handle: old(self).queue_of().next_handle,
                }),
            ),
    {
        match &mut self.state {
            CoreState::Running { queue, .. } => {
                match queue.add_message(account.duplicate(), message_hash.clone(), expire_at) {
                    Ok(handle) => Ok(handle),
                    Err(PendingMessageError::DuplicateEntry) => Err(TonCoreError::DuplicateEntry),
                }
            },
            CoreState::Configured { .. } => Err(TonCoreError::NotStarted),
        }
    }

    /// Takes one transaction observed on the ledger: resolves a matching
    /// pending send as `Confirmed` (a no-op when none matches — such a
    /// transaction is a normal unsolicited inbound event), and fans the
    /// transaction out to every watching observer.
    pub fn handle_ledger_transaction(&mut self, tx: &RawTransactionData) -> (r: Result<
        Option<ResolvedEntry>,
        TonCoreError,
    >)
        requires
            old(self).wf(),
            old(self).is_running() ==> forall|i: int|
                0 <= i < old(self).router_of().watermarks@.len() && wm_match(
                    #[trigger] old(self).router_of().watermarks@[i],
                    tx.account.workchain_id as int,
                    tx.account.hex@,
                ) ==> old(self).router_of().watermarks@[i].last_lt <= tx.logical_time,
        ensures
            final(self).wf(),
            final(self).is_running() == old(self).is_running(),
            final(self).config_of() == old(self).config_of(),
            !old(self).is_running() ==> r == Err::<Option<ResolvedEntry>, TonCoreError>(
                TonCoreError::NotStarted,
            ) && *final(self) == *old(self),
            old(self).is_running() ==> r is Ok && (r->Ok_0 is Some <==> has_pending(
                old(self).queue_of().entries@,
                tx.account.workchain_id as int,
                tx.account.hex@,
                tx.in_message_hash@,
            )) && !has_pending(
                final(self).queue_of().entries@,
                tx.account.workchain_id as int,
                tx.account.hex@,
                tx.in_message_hash@,
            ) && (r->Ok_0 is Some ==> r->Ok_0->0.status == MessageStatus::Confirmed),
            old(self).is_running() ==> forall|k: ObserverKind|
                (acc_in(
                    old(self).router_of().channel_of(k).watched@,
                    tx.account.workchain_id as int,
                    tx.account.hex@,
                ) && extract_spec(k, *tx) is Some) ==> (#[trigger] final(self).router_of().channel_of(
                    k,
                )).events@ == old(self).router_of().channel_of(k).events@.push(
                    extract_spec(k, *tx)->0,
                ),
            old(self).is_running() ==> forall|k: ObserverKind|
                !(acc_in(
                    old(self).router_of().channel_of(k).watched@,
                    tx.account.workchain_id as int,
                    tx.account.hex@,
                ) && extract_spec(k, *tx) is Some) ==> (#[trigger] final(self).router_of().channel_of(
                    k,
                )).events@ == old(self).router_of().channel_of(k).events@,
    {
        match &mut self.state {
            CoreState::Running { queue, router, .. } => {
                let resolved = queue.resolve(
                    &tx.account,
                    &tx.in_message_hash,
                    MessageStatus::Confirmed,
                );
                router.handle_transaction(tx);
                Ok(resolved)
            },
            CoreState::Configured { .. } => Err(TonCoreError::NotStarted),
        }
    }

    /// Resolves as `Expired` every pending send whose deadline has passed;
    /// the independent sweep behind every caller-supplied timeout.
    pub fn sweep_expired_messages(&mut self, now: u32) -> (r: Result<
        Vec<ResolvedEntry>,
        TonCoreError,
    >)
        requires
            old(self).wf(),
        ensures
            final(self).wf(),
            final(self).is_running() == old(self).is_running(),
            final(self).config_of() == old(self).config_of(),
            !old(self).is_running() ==> r == Err::<Vec<ResolvedEntry>, TonCoreError>(
                TonCoreError::NotStarted,
            ) && *final(self) == *old(self),
            old(self).is_running() ==> final(self).router_of() == old(self).router_of() && r is Ok
                && final(self).queue_of().entries@ == old(self).queue_of().entries@.filter(
                |e: crate::queue::PendingMessage| e.expire_at > now,
            ) && r->Ok_0@ == old(self).queue_of().entries@.filter(
                |e: crate::queue::PendingMessage| e.expire_at <= now,
            ).map_values(
                |e: crate::queue::PendingMessage| (ResolvedEntry {
                    handle: e.handle,
                    status: MessageStatus::Expired,
                }),
            ),
    {
        match &mut self.state {
            CoreState::Running { queue, .. } => Ok(queue.sweep_expired(now)),
            CoreState::Configured { .. } => Err(TonCoreError::NotStarted),
        }
    }

    /// Drains the channel of one observer for the orchestration consumer.
    pub fn take_events(&mut self, kind: ObserverKind) -> (r: Result<
        Vec<crate::router::DomainEvent>,
        TonCoreError,
    >)
        requires
            old(self).wf(),
        ensures
            final(self).wf(),
            final(self).is_running() == old(self).is_running(),
            final(self).config_of() == old(self).config_of(),
            !old(self).is_running() ==> r == Err::<Vec<crate::router::DomainEvent>, TonCoreError>(
                TonCoreError::NotStarted,
            ) && *final(self) == *old(self),
            old(self).is_running() ==> final(self).queue_of() == old(self).queue_of() && r is Ok
                && r->Ok_0@ == old(self).router_of().channel_of(kind).events@ && final(self).router_of().channel_of(kind).events@.len() == 0,
    {
        match &mut self.state {
            CoreState::Running { router, .. } => Ok(router.take_events(kind)),
            CoreState::Configured { .. } => Err(TonCoreError::NotStarted),
        }
    }
}

} // verus!
