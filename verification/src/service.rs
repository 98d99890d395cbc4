//! Orchestration layer: turns domain events and API commands into persisted
//! records and advances each record's two lifecycle axes — ledger
//! confirmation (`status`) and webhook delivery (`event_status`).
//!
//! The outside work around these operations (broadcasting to the ledger,
//! posting the webhook) happens between calls; each operation takes the
//! outcome of that work as a plain value and is verified for every outcome.
//! A notification failure is recorded on `event_status` only: it never
//! changes `status`, and a record left in the `Error` event state stays
//! discoverable through `search_events` until `mark_event` is called.

use vstd::prelude::*;

use crate::models::PreparedMessage;
use crate::models::ServiceId;
use crate::models::ServiceError;
use crate::models::CreateReceiveTransaction;
use crate::models::TonEventStatus;
use crate::models::TonTransactionDirection;
use crate::models::TonTransactionStatus;
use crate::models::TransactionDb;
use crate::models::TransactionEventDb;
use crate::models::UpdateSendTransaction;
use crate::models::duplicate_opt;
use crate::storage::Storage;
use crate::storage::aux_tables_unchanged;
use crate::storage::native_tables_unchanged;
use crate::storage::token_tables_unchanged;
use crate::storage::storage_unchanged;
use crate::storage::addr_match;
use crate::storage::addr_service_sid;
use crate::storage::cb_match;
use crate::storage::ev_match;
use crate::storage::has_addr;
use crate::storage::has_cb;
use crate::storage::has_ev;
use crate::storage::has_tx;
use crate::storage::lemma_evs_update_keeps;
use crate::storage::lemma_txs_update_keeps;
use crate::storage::tx_match;
use crate::models::AddressDb;
use crate::models::ApiServiceCallbackDb;

use vstd::pervasive::VecAdditionalExecFns;

use crate::models::CreateReceiveTokenTransaction;
use crate::models::PreparedTokenMessage;
use crate::models::TokenBalanceFromDb;
use crate::models::TokenTransactionEventDb;
use crate::models::TokenTransactionEventDbV;
use crate::models::TokenTransactionFromDb;
use crate::models::TonTokenTransactionStatus;
use crate::models::TransactionEventDbV;
use crate::models::UpdateSendTokenTransaction;
use crate::storage::bal_match;
use crate::storage::bal_service_sid;
use crate::storage::has_bal;
use crate::storage::has_tev;
use crate::storage::has_ttx;
use crate::storage::lemma_tevs_update_keeps;
use crate::storage::lemma_ttxs_update_keeps;
use crate::storage::tev_match;
use crate::storage::ttx_match;

verus! {

/// Finds the transaction with the given (service, message hash, account) key.
fn find_tx(
    v: &Vec<TransactionDb>,
    service_id: ServiceId,
    mh: &String,
    wc: i32,
    hex: &String,
) -> (r: Option<usize>)
    ensures
        match r {
            Option::Some(i) => i < v@.len() && tx_match(
                v@[i as int],
                service_id.value as int,
                mh@,
                wc as int,
                hex@,
            ),
            Option::None => !has_tx(v@, service_id.value as int, mh@, wc as int, hex@),
        },
{
    let mut i: usize = 0;
    while i < v.len()
        invariant
            i <= v@.len(),
            forall|k: int|
                0 <= k < i ==> !tx_match(
                    #[trigger] v@[k],
                    service_id.value as int,
                    mh@,
                    wc as int,
                    hex@,
                ),
        decreases v@.len() - i,
    {
        let t = &v[i];
        if t.service_id.value == service_id.value && t.message_hash == *mh
            && t.account_workchain_id == wc && t.account_hex == *hex {
            return Option::Some(i);
        }
        i = i + 1;
    }
    Option::None
}

/// Finds the event with the given (service, message hash, account) key.
fn find_ev(
    v: &Vec<TransactionEventDb>,
    service_id: ServiceId,
    mh: &String,
    wc: i32,
    hex: &String,
) -> (r: Option<usize>)
    ensures
        match r {
            Option::Some(i) => i < v@.len() && ev_match(
                v@[i as int],
                service_id.value as int,
                mh@,
                wc as int,
                hex@,
            ),
            Option::None => !has_ev(v@, service_id.value as int, mh@, wc as int, hex@),
        },
{
    let mut i: usize = 0;
    while i < v.len()
        invariant
            i <= v@.len(),
            forall|k: int|
                0 <= k < i ==> !ev_match(
                    #[trigger] v@[k],
                    service_id.value as int,
                    mh@,
                    wc as int,
                    hex@,
                ),
        decreases v@.len() - i,
    {
        let e = &v[i];
        if e.service_id.value == service_id.value && e.message_hash == *mh
            && e.account_workchain_id == wc && e.account_hex == *hex {
            return Option::Some(i);
        }
        i = i + 1;
    }
    Option::None
}

/// Finds the address row with the given (workchain, hex) key.
fn find_addr(v: &Vec<AddressDb>, wc: i32, hex: &String) -> (r: Option<usize>)
    ensures
        match r {
            Option::Some(i) => i < v@.len() && addr_match(v@[i as int], wc as int, hex@),
            Option::None => !has_addr(v@, wc as int, hex@),
        },
{
    let mut i: usize = 0;
    while i < v.len()
        invariant
            i <= v@.len(),
            forall|k: int| 0 <= k < i ==> !addr_match(#[trigger] v@[k], wc as int, hex@),
        decreases v@.len() - i,
    {
        let a = &v[i];
        if a.workchain_id == wc && a.hex == *hex {
            return Option::Some(i);
        }
        i = i + 1;
    }
    Option::None
}

/// Finds the webhook endpoint of the tenant.
fn find_cb(v: &Vec<ApiServiceCallbackDb>, service_id: ServiceId) -> (r: Option<usize>)
    ensures
        match r {
            Option::Some(i) => i < v@.len() && cb_match(v@[i as int], service_id.value as int),
            Option::None => !has_cb(v@, service_id.value as int),
        },
{
    let mut i: usize = 0;
    while i < v.len()
        invariant
            i <= v@.len(),
            forall|k: int| 0 <= k < i ==> !cb_match(#[trigger] v@[k], service_id.value as int),
        decreases v@.len() - i,
    {
        let c = &v[i];
        if c.service_id.value == service_id.value {
            return Option::Some(i);
        }
        i = i + 1;
    }
    Option::None
}

/// The orchestration service over the persistent store model.
pub struct TonServiceImpl {
    pub storage: Storage,
}

impl TonServiceImpl {
    /// All schema constraints of the store hold.
    pub open spec fn wf(&self) -> bool {
        self.storage.wf()
    }

    pub fn new(storage: Storage) -> (r: Self)
        requires
            storage.wf(),
        ensures
            r.wf(),
            r.storage == storage,
    {
        TonServiceImpl { storage }
    }

    /// The webhook endpoint configured for the tenant, if any: `None` means
    /// no delivery is attempted at all for this tenant's records.
    pub fn callback_url(&self, service_id: ServiceId) -> (r: Option<String>)
        ensures
            r is Some <==> has_cb(self.storage.callbacks@, service_id.value as int),
            r is Some ==> exists|i: int|
                0 <= i < self.storage.callbacks@.len() && cb_match(
                    #[trigger] self.storage.callbacks@[i],
                    service_id.value as int,
                ) && r->0@ == self.storage.callbacks@[i].callback@,
    {
        match find_cb(&self.storage.callbacks, service_id) {
            Option::Some(i) => Option::Some(self.storage.callbacks[i].callback.clone()),
            Option::None => Option::None,
        }
    }

    /// Persists a fresh outbound transaction with both axes `New`, from a
    /// ledger-prepared payload. Fails, leaving the store untouched, exactly
    /// when the (service, message hash, account) key is already taken.
    pub fn create_send_transaction(&mut self, service_id: ServiceId, payload: &PreparedMessage) -> (r:
        Result<(TransactionDb, TransactionEventDb), ServiceError>)
        requires
            old(self).wf(),
            old(self).storage.next_id <= u64::MAX - 2,
        ensures
            final(self).wf(),
            r is Err <==> has_tx(
                old(self).storage.transactions@,
                service_id.value as int,
                payload.message_hash@,
                payload.account_workchain_id as int,
                payload.account_hex@,
            ),
            r is Err ==> r == Err::<(TransactionDb, TransactionEventDb), ServiceError>(
                ServiceError::Duplicate,
            ) && storage_unchanged(final(self).storage, old(self).storage),
            r is Ok ==> final(self).storage.transactions@ == old(self).storage.transactions@.push(
                (TransactionDb {
                    id: old(self).storage.next_id,
                    service_id,
                    message_hash: payload.message_hash,
                    transaction_hash: Option::None,
                    account_workchain_id: payload.account_workchain_id,
                    account_hex: payload.account_hex,
                    value: payload.value,
                    direction: TonTransactionDirection::Send,
                    status: TonTransactionStatus::New,
                    error: Option::None,
                    aborted: false,
                }),
            ) && final(self).storage.transaction_events@ == old(self).storage.transaction_events@.push(
                (TransactionEventDb {
                    id: (old(self).storage.next_id + 1) as u64,
                    service_id,
                    transaction_id: old(self).storage.next_id,
                    message_hash: payload.message_hash,
                    account_workchain_id: payload.account_workchain_id,
                    account_hex: payload.account_hex,
                    transaction_direction: TonTransactionDirection::Send,
                    transaction_status: TonTransactionStatus::New,
                    event_status: TonEventStatus::New,
                }),
            ) && final(self).storage.next_id == old(self).storage.next_id + 2
                && aux_tables_unchanged(final(self).storage, old(self).storage)
                && token_tables_unchanged(final(self).storage, old(self).storage)
                && r->Ok_0.0@ == final(self).storage.transactions@.last()@ && r->Ok_0.1@ == final(self).storage.transaction_events@.last()@,
    {
        let ghost sid = service_id.value as int;
        let ghost mh = payload.message_hash@;
        let ghost wc = payload.account_workchain_id as int;
        let ghost hex = payload.account_hex@;
        if find_tx(
            &self.storage.transactions,
            service_id,
            &payload.message_hash,
            payload.account_workchain_id,
            &payload.account_hex,
        ).is_some() {
            return Err(ServiceError::Duplicate);
        }
        let tx_id = self.storage.next_id;
        let ev_id = tx_id + 1;
        let tx = TransactionDb {
            id: tx_id,
            service_id,
            message_hash: payload.message_hash.clone(),
            transaction_hash: Option::None,
            account_workchain_id: payload.account_workchain_id,
            account_hex: payload.account_hex.clone(),
            value: payload.value,
            direction: TonTransactionDirection::Send,
            status: TonTransactionStatus::New,
            error: Option::None,
            aborted: false,
        };
        let ev = TransactionEventDb {
            id: ev_id,
            service_id,
            transaction_id: tx_id,
            message_hash: payload.message_hash.clone(),
            account_workchain_id: payload.account_workchain_id,
            account_hex: payload.account_hex.clone(),
            transaction_direction: TonTransactionDirection::Send,
            transaction_status: TonTransactionStatus::New,
            event_status: TonEventStatus::New,
        };
        let tx_ret = tx.duplicate();
        let ev_ret = ev.duplicate();
        self.storage.transactions.push(tx);
        self.storage.transaction_events.push(ev);
        self.storage.next_id = self.storage.next_id + 2;
        proof {
            let s = self.storage.transactions@;
            let n = s.len() - 1;
            assert forall|a: int, b: int|
                #![trigger s[a], s[b]]
                0 <= a < b < s.len() implies s[a].id != s[b].id && !tx_match(
                s[a],
                s[b].service_id.value as int,
                s[b].message_hash@,
                s[b].account_workchain_id as int,
                s[b].account_hex@,
            ) by {
                if b < n {
                    assert(s[a] == old(self).storage.transactions@[a]);
                    assert(s[b] == old(self).storage.transactions@[b]);
                } else {
                    assert(s[a] == old(self).storage.transactions@[a]);
                    assert(!tx_match(old(self).storage.transactions@[a], sid, mh, wc, hex));
                    assert(old(self).storage.transactions@[a].id < old(self).storage.next_id);
                }
            }
            let se = self.storage.transaction_events@;
            let ne = se.len() - 1;
            assert forall|a: int, b: int|
                #![trigger se[a], se[b]]
                0 <= a < b < se.len() implies se[a].id != se[b].id by {
                if b < ne {
                    assert(se[a] == old(self).storage.transaction_events@[a]);
                    assert(se[b] == old(self).storage.transaction_events@[b]);
                } else {
                    assert(se[a] == old(self).storage.transaction_events@[a]);
                    assert(old(self).storage.transaction_events@[a].id < old(self).storage.next_id);
                }
            }
        }
        Ok((tx_ret, ev_ret))
    }

    /// Records the outcome of a failed or corrected broadcast on the
    /// transaction and its event, by key; the webhook axis is untouched.
    pub fn update_send_transaction(
        &mut self,
        service_id: ServiceId,
        message_hash: &String,
        account_workchain_id: i32,
        account_hex: &String,
        input: &UpdateSendTransaction,
    ) -> (r: Result<(TransactionDb, TransactionEventDb), ServiceError>)
        requires
            old(self).wf(),
        ensures
            final(self).wf(),
            r is Ok <==> has_tx(
                old(self).storage.transactions@,
                service_id.value as int,
                message_hash@,
                account_workchain_id as int,
                account_hex@,
            ) && has_ev(
                old(self).storage.transaction_events@,
                service_id.value as int,
                message_hash@,
                account_workchain_id as int,
                account_hex@,
            ),
            r is Err ==> r == Err::<(TransactionDb, TransactionEventDb), ServiceError>(
                ServiceError::NotFound,
            ) && storage_unchanged(final(self).storage, old(self).storage),
            r is Ok ==> exists|i: int, j: int|
                0 <= i < old(self).storage.transactions@.len() && 0 <= j < old(self).storage.transaction_events@.len() && tx_match(
                    #[trigger] old(self).storage.transactions@[i],
                    service_id.value as int,
                    message_hash@,
                    account_workchain_id as int,
                    account_hex@,
                ) && ev_match(
                    #[trigger] old(self).storage.transaction_events@[j],
                    service_id.value as int,
                    message_hash@,
                    account_workchain_id as int,
                    account_hex@,
                ) && final(self).storage.transactions@ == old(self).storage.transactions@.update(
                    i,
                    (TransactionDb {
                        transaction_hash: input.transaction_hash,
                        status: input.status,
                        error: input.error,
                        ..old(self).storage.transactions@[i]
                    }),
                ) && final(self).storage.transaction_events@ == old(self).storage.transaction_events@.update(
                    j,
                    (TransactionEventDb {
                        transaction_status: input.status,
                        ..old(self).storage.transaction_events@[j]
                    }),
                ) && r->Ok_0.0@ == final(self).storage.transactions@[i]@ && r->Ok_0.1@ == final(self).storage.transaction_events@[j]@,
            r is Ok ==> aux_tables_unchanged(final(self).storage, old(self).storage)
                && token_tables_unchanged(final(self).storage, old(self).storage) && final(self).storage.next_id == old(self).storage.next_id,
    {
        let ti = match find_tx(
            &self.storage.transactions,
            service_id,
            message_hash,
            account_workchain_id,
            account_hex,
        ) {
            Option::Some(i) => i,
            Option::None => {
                return Err(ServiceError::NotFound);
            },
        };
        let ei = match find_ev(
            &self.storage.transaction_events,
            service_id,
            message_hash,
            account_workchain_id,
            account_hex,
        ) {
            Option::Some(i) => i,
            Option::None => {
                return Err(ServiceError::NotFound);
            },
        };
        let updated_tx = {
            let t = &self.storage.transactions[ti];
            TransactionDb {
                id: t.id,
                service_id: t.service_id,
                message_hash: t.message_hash.clone(),
                transaction_hash: duplicate_opt(&input.transaction_hash),
                account_workchain_id: t.account_workchain_id,
                account_hex: t.account_hex.clone(),
                value: t.value,
                direction: t.direction,
                status: input.status,
                error: duplicate_opt(&input.error),
                aborted: t.aborted,
            }
        };
        let updated_ev = {
            let e = &self.storage.transaction_events[ei];
            TransactionEventDb {
                id: e.id,
                service_id: e.service_id,
                transaction_id: e.transaction_id,
                message_hash: e.message_hash.clone(),
                account_workchain_id: e.account_workchain_id,
                account_hex: e.account_hex.clone(),
                transaction_direction: e.transaction_direction,
                transaction_status: input.status,
                event_status: e.event_status,
            }
        };
        let tx_ret = updated_tx.duplicate();
        let ev_ret = updated_ev.duplicate();
        proof {
            lemma_txs_update_keeps(
                self.storage.transactions@,
                ti as int,
                updated_tx,
                self.storage.next_id,
            );
            lemma_evs_update_keeps(
                self.storage.transaction_events@,
                ei as int,
                updated_ev,
                self.storage.next_id,
            );
        }
        self.storage.transactions.set(ti, updated_tx);
        self.storage.transaction_events.set(ei, updated_ev);
        Ok((tx_ret, ev_ret))
    }

    /// Persists an inbound transaction observed on the ledger, resolving the
    /// account to its owning tenant through the address table. Repeating the
    /// same notification is idempotent: when the key already exists the store
    /// is untouched, the existing record is returned and no new event — so
    /// no new webhook delivery — is produced.
    pub fn create_receive_transaction(&mut self, input: &CreateReceiveTransaction) -> (r: Result<
        (TransactionDb, Option<TransactionEventDb>),
        ServiceError,
    >)
        requires
            old(self).wf(),
            old(self).storage.next_id <= u64::MAX - 2,
        ensures
            final(self).wf(),
            r is Err <==> !has_addr(
                old(self).storage.addresses@,
                input.account_workchain_id as int,
                input.account_hex@,
            ),
            r is Err ==> r == Err::<(TransactionDb, Option<TransactionEventDb>), ServiceError>(
                ServiceError::NotFound,
            ) && storage_unchanged(final(self).storage, old(self).storage),
            r is Ok && r->Ok_0.1 is None ==> storage_unchanged(final(self).storage, old(self).storage)
                && has_tx(
                old(self).storage.transactions@,
                addr_service_sid(
                    old(self).storage.addresses@,
                    input.account_workchain_id as int,
                    input.account_hex@,
                ).value as int,
                input.message_hash@,
                input.account_workchain_id as int,
                input.account_hex@,
            ) && exists|i: int|
                0 <= i < old(self).storage.transactions@.len() && tx_match(
                    #[trigger] old(self).storage.transactions@[i],
                    addr_service_sid(
                        old(self).storage.addresses@,
                        input.account_workchain_id as int,
                        input.account_hex@,
                    ).value as int,
                    input.message_hash@,
                    input.account_workchain_id as int,
                    input.account_hex@,
                ) && r->Ok_0.0@ == old(self).storage.transactions@[i]@,
            r is Ok && r->Ok_0.1 is Some ==> !has_tx(
                old(self).storage.transactions@,
                addr_service_sid(
                    old(self).storage.addresses@,
                    input.account_workchain_id as int,
                    input.account_hex@,
                ).value as int,
                input.message_hash@,
                input.account_workchain_id as int,
                input.account_hex@,
            ) && final(self).storage.transactions@ == old(self).storage.transactions@.push(
                (TransactionDb {
                    id: old(self).storage.next_id,
                    service_id: addr_service_sid(
                        old(self).storage.addresses@,
                        input.account_workchain_id as int,
                        input.account_hex@,
                    ),
                    message_hash: input.message_hash,
                    transaction_hash: input.transaction_hash,
                    account_workchain_id: input.account_workchain_id,
                    account_hex: input.account_hex,
                    value: input.value,
                    direction: input.direction,
                    status: input.status,
                    error: input.error,
                    aborted: input.aborted,
                }),
            ) && final(self).storage.transaction_events@ == old(self).storage.transaction_events@.push(
                (TransactionEventDb {
                    id: (old(self).storage.next_id + 1) as u64,
                    service_id: addr_service_sid(
                        old(self).storage.addresses@,
                        input.account_workchain_id as int,
                        input.account_hex@,
                    ),
                    transaction_id: old(self).storage.next_id,
                    message_hash: input.message_hash,
                    account_workchain_id: input.account_workchain_id,
                    account_hex: input.account_hex,
                    transaction_direction: input.direction,
                    transaction_status: input.status,
                    event_status: TonEventStatus::New,
                }),
            ) && final(self).storage.next_id == old(self).storage.next_id + 2
                && aux_tables_unchanged(final(self).storage, old(self).storage)
                && token_tables_unchanged(final(self).storage, old(self).storage)
                && r->Ok_0.0@ == final(self).storage.transactions@.last()@ && r->Ok_0.1->0@
                == final(self).storage.transaction_events@.last()@,
    {
        let ghost wc = input.account_workchain_id as int;
        let ghost hex = input.account_hex@;
        let ai = match find_addr(
            &self.storage.addresses,
            input.account_workchain_id,
            &input.account_hex,
        ) {
            Option::Some(i) => i,
            Option::None => {
                return Err(ServiceError::NotFound);
            },
        };
        let service_id = self.storage.addresses[ai].service_id;
        proof {
            let s = self.storage.addresses@;
            let ci = choose|i: int| 0 <= i < s.len() && addr_match(#[trigger] s[i], wc, hex);
            if ci != ai as int {
                let lo = if ci < ai as int { ci } else { ai as int };
                let hi = if ci < ai as int { ai as int } else { ci };
                assert(!addr_match(s[lo], s[hi].workchain_id as int, s[hi].hex@));
            }
            assert(addr_service_sid(s, wc, hex) == service_id);
        }
        let ghost sid = service_id.value as int;
        let ghost mh = input.message_hash@;
        if let Option::Some(i) = find_tx(
            &self.storage.transactions,
            service_id,
            &input.message_hash,
            input.account_workchain_id,
            &input.account_hex,
        ) {
            let existing = self.storage.transactions[i].duplicate();
            return Ok((existing, Option::None));
        }
        let tx_id = self.storage.next_id;
        let ev_id = tx_id + 1;
        let tx = TransactionDb {
            id: tx_id,
            service_id,
            message_hash: input.message_hash.clone(),
            transaction_hash: duplicate_opt(&input.transaction_hash),
            account_workchain_id: input.account_workchain_id,
            account_hex: input.account_hex.clone(),
            value: input.value,
            direction: input.direction,
            status: input.status,
            error: duplicate_opt(&input.error),
            aborted: input.aborted,
        };
        let ev = TransactionEventDb {
            id: ev_id,
            service_id,
            transaction_id: tx_id,
            message_hash: input.message_hash.clone(),
            account_workchain_id: input.account_workchain_id,
            account_hex: input.account_hex.clone(),
            transaction_direction: input.direction,
            transaction_status: input.status,
            event_status: TonEventStatus::New,
        };
        let tx_ret = tx.duplicate();
        let ev_ret = ev.duplicate();
        self.storage.transactions.push(tx);
        self.storage.transaction_events.push(ev);
        self.storage.next_id = self.storage.next_id + 2;
        proof {
            let s = self.storage.transactions@;
            let n = s.len() - 1;
            assert forall|a: int, b: int|
                #![trigger s[a], s[b]]
                0 <= a < b < s.len() implies s[a].id != s[b].id && !tx_match(
                s[a],
                s[b].service_id.value as int,
                s[b].message_hash@,
                s[b].account_workchain_id as int,
                s[b].account_hex@,
            ) by {
                if b < n {
                    assert(s[a] == old(self).storage.transactions@[a]);
                    assert(s[b] == old(self).storage.transactions@[b]);
                } else {
                    assert(s[a] == old(self).storage.transactions@[a]);
                    assert(!tx_match(old(self).storage.transactions@[a], sid, mh, wc, hex));
                    assert(old(self).storage.transactions@[a].id < old(self).storage.next_id);
                }
            }
            let se = self.storage.transaction_events@;
            let ne = se.len() - 1;
            assert forall|a: int, b: int|
                #![trigger se[a], se[b]]
                0 <= a < b < se.len() implies se[a].id != se[b].id by {
                if b < ne {
                    assert(se[a] == old(self).storage.transaction_events@[a]);
                    assert(se[b] == old(self).storage.transaction_events@[b]);
                } else {
                    assert(se[a] == old(self).storage.transaction_events@[a]);
                    assert(old(self).storage.transaction_events@[a].id < old(self).storage.next_id);
                }
            }
        }
        Ok((tx_ret, Option::Some(ev_ret)))
    }

    /// Sets the webhook-delivery axis of the event with the given key, as
    /// decided by a callback attempt: `Notified` only after a successful
    /// delivery, `Error` on any failure. The ledger axis and the transaction
    /// table are untouched, and the axis never returns to `New`.
    pub fn update_event_status_of_transaction_event(
        &mut self,
        service_id: ServiceId,
        message_hash: &String,
        account_workchain_id: i32,
        account_hex: &String,
        event_status: TonEventStatus,
    ) -> (r: Result<TransactionEventDb, ServiceError>)
        requires
            old(self).wf(),
            event_status != TonEventStatus::New,
        ensures
            final(self).wf(),
            r is Ok <==> has_ev(
                old(self).storage.transaction_events@,
                service_id.value as int,
                message_hash@,
                account_workchain_id as int,
                account_hex@,
            ),
            r is Err ==> r == Err::<TransactionEventDb, ServiceError>(ServiceError::NotFound)
                && storage_unchanged(final(self).storage, old(self).storage),
            r is Ok ==> exists|j: int|
                0 <= j < old(self).storage.transaction_events@.len() && ev_match(
                    #[trigger] old(self).storage.transaction_events@[j],
                    service_id.value as int,
                    message_hash@,
                    account_workchain_id as int,
                    account_hex@,
                ) && final(self).storage.transaction_events@ == old(self).storage.transaction_events@.update(
                    j,
                    (TransactionEventDb {
                        event_status: event_status,
                        ..old(self).storage.transaction_events@[j]
                    }),
                ) && r->Ok_0@ == final(self).storage.transaction_events@[j]@,
            r is Ok ==> final(self).storage.transactions@ == old(self).storage.transactions@
                && aux_tables_unchanged(final(self).storage, old(self).storage)
                && token_tables_unchanged(final(self).storage, old(self).storage) && final(self).storage.next_id == old(self).storage.next_id,
    {
        let ei = match find_ev(
            &self.storage.transaction_events,
            service_id,
            message_hash,
            account_workchain_id,
            account_hex,
        ) {
            Option::Some(i) => i,
            Option::None => {
                return Err(ServiceError::NotFound);
            },
        };
        let updated_ev = {
            let e = &self.storage.transaction_events[ei];
            TransactionEventDb {
                id: e.id,
                service_id: e.service_id,
                transaction_id: e.transaction_id,
                message_hash: e.message_hash.clone(),
                account_workchain_id: e.account_workchain_id,
                account_hex: e.account_hex.clone(),
                transaction_direction: e.transaction_direction,
                transaction_status: e.transaction_status,
                event_status,
            }
        };
        let ev_ret = updated_ev.duplicate();
        proof {
            lemma_evs_update_keeps(
                self.storage.transaction_events@,
                ei as int,
                updated_ev,
                self.storage.next_id,
            );
        }
        self.storage.transaction_events.set(ei, updated_ev);
        Ok(ev_ret)
    }

    /// Records the outcome of one webhook delivery attempt on the event
    /// with the given key: `Notified` exactly on success, `Error` on any
    /// failure — through this path an event never returns to `New`.
    pub fn apply_callback_result(
        &mut self,
        service_id: ServiceId,
        message_hash: &String,
        account_workchain_id: i32,
        account_hex: &String,
        success: bool,
    ) -> (r: Result<TransactionEventDb, ServiceError>)
        requires
            old(self).wf(),
        ensures
            final(self).wf(),
            r is Ok <==> has_ev(
                old(self).storage.transaction_events@,
                service_id.value as int,
                message_hash@,
                account_workchain_id as int,
                account_hex@,
            ),
            r is Err ==> r == Err::<TransactionEventDb, ServiceError>(ServiceError::NotFound)
                && storage_unchanged(final(self).storage, old(self).storage),
            r is Ok ==> exists|j: int|
                0 <= j < old(self).storage.transaction_events@.len() && ev_match(
                    #[trigger] old(self).storage.transaction_events@[j],
                    service_id.value as int,
                    message_hash@,
                    account_workchain_id as int,
                    account_hex@,
                ) && final(self).storage.transaction_events@ == old(self).storage.transaction_events@.update(
                    j,
                    (TransactionEventDb {
                        event_status: if success {
                            TonEventStatus::Notified
                        } else {
                            TonEventStatus::Error
                        },
                        ..old(self).storage.transaction_events@[j]
                    }),
                ) && r->Ok_0@ == final(self).storage.transaction_events@[j]@,
            r is Ok ==> final(self).storage.transactions@ == old(self).storage.transactions@
                && aux_tables_unchanged(final(self).storage, old(self).storage)
                && token_tables_unchanged(final(self).storage, old(self).storage) && final(self).storage.next_id == old(self).storage.next_id,
    {
        let status = if success {
            TonEventStatus::Notified
        } else {
            TonEventStatus::Error
        };
        self.update_event_status_of_transaction_event(
            service_id,
            message_hash,
            account_workchain_id,
            account_hex,
            status,
        )
    }

    /// The token twin of `apply_callback_result`.
    pub fn apply_token_callback_result(
        &mut self,
        service_id: ServiceId,
        message_hash: &String,
        account_workchain_id: i32,
        account_hex: &String,
        root_address: &String,
        success: bool,
    ) -> (r: Result<TokenTransactionEventDb, ServiceError>)
        requires
            old(self).wf(),
        ensures
            final(self).wf(),
            r is Ok <==> has_tev(
                old(self).storage.token_transaction_events@,
                service_id.value as int,
                message_hash@,
                account_workchain_id as int,
                account_hex@,
                root_address@,
            ),
            r is Err ==> r == Err::<TokenTransactionEventDb, ServiceError>(ServiceError::NotFound)
                && storage_unchanged(final(self).storage, old(self).storage),
            r is Ok ==> exists|j: int|
                0 <= j < old(self).storage.token_transaction_events@.len() && tev_match(
                    #[trigger] old(self).storage.token_transaction_events@[j],
                    service_id.value as int,
                    message_hash@,
                    account_workchain_id as int,
                    account_hex@,
                    root_address@,
                ) && final(self).storage.token_transaction_events@ == old(self).storage.token_transaction_events@.update(
                    j,
                    (TokenTransactionEventDb {
                        event_status: if success {
                            TonEventStatus::Notified
                        } else {
                            TonEventStatus::Error
                        },
                        ..old(self).storage.token_transaction_events@[j]
                    }),
                ) && r->Ok_0@ == final(self).storage.token_transaction_events@[j]@,
            r is Ok ==> final(self).storage.token_transactions@ == old(self).storage.token_transactions@ && aux_tables_unchanged(
                final(self).storage,
                old(self).storage,
            ) && native_tables_unchanged(final(self).storage, old(self).storage) && final(self).storage.next_id == old(self).storage.next_id,
    {
        let status = if success {
            TonEventStatus::Notified
        } else {
            TonEventStatus::Error
        };
        self.update_event_status_of_token_transaction_event(
            service_id,
            message_hash,
            account_workchain_id,
            account_hex,
            root_address,
            status,
        )
    }

    /// Marks one event, addressed by id, as successfully delivered after an
    /// out-of-band retry: only its webhook axis changes, nothing else in the
    /// store does.
    pub fn mark_event(&mut self, service_id: ServiceId, id: u64) -> (r: Result<
        TransactionEventDb,
        ServiceError,
    >)
        requires
            old(self).wf(),
        ensures
            final(self).wf(),
            r is Ok <==> exists|j: int|
                0 <= j < old(self).storage.transaction_events@.len() && (#[trigger] old(self).storage.transaction_events@[j]).id == id && old(self).storage.transaction_events@[j].service_id.value == service_id.value,
            r is Err ==> r == Err::<TransactionEventDb, ServiceError>(ServiceError::NotFound)
                && storage_unchanged(final(self).storage, old(self).storage),
            r is Ok ==> exists|j: int|
                0 <= j < old(self).storage.transaction_events@.len() && (#[trigger] old(self).storage.transaction_events@[j]).id == id && old(self).storage.transaction_events@[j].service_id.value == service_id.value && final(self).storage.transaction_events@ == old(self).storage.transaction_events@.update(
                    j,
                    (TransactionEventDb {
                        event_status: TonEventStatus::Notified,
                        ..old(self).storage.transaction_events@[j]
                    }),
                ) && r->Ok_0@ == final(self).storage.transaction_events@[j]@,
            r is Ok ==> final(self).storage.transactions@ == old(self).storage.transactions@
                && aux_tables_unchanged(final(self).storage, old(self).storage)
                && token_tables_unchanged(final(self).storage, old(self).storage) && final(self).storage.next_id == old(self).storage.next_id,
    {
        let mut i: usize = 0;
        let n = self.storage.transaction_events.len();
        while i < n
            invariant
                old(self).wf(),
                n == self.storage.transaction_events@.len(),
                i <= n,
                *self == *old(self),
                forall|k: int|
                    0 <= k < i ==> !((#[trigger] self.storage.transaction_events@[k]).id == id
                        && self.storage.transaction_events@[k].service_id.value
                        == service_id.value),
            decreases n - i,
        {
            let matched = {
                let e = &self.storage.transaction_events[i];
                e.id == id && e.service_id.value == service_id.value
            };
            if matched {
                let updated_ev = {
                    let e = &self.storage.transaction_events[i];
                    TransactionEventDb {
                        id: e.id,
                        service_id: e.service_id,
                        transaction_id: e.transaction_id,
                        message_hash: e.message_hash.clone(),
                        account_workchain_id: e.account_workchain_id,
                        account_hex: e.account_hex.clone(),
                        transaction_direction: e.transaction_direction,
                        transaction_status: e.transaction_status,
                        event_status: TonEventStatus::Notified,
                    }
                };
                let ev_ret = updated_ev.duplicate();
                proof {
                    lemma_evs_update_keeps(
                        self.storage.transaction_events@,
                        i as int,
                        updated_ev,
                        self.storage.next_id,
                    );
                }
                self.storage.transaction_events.set(i, updated_ev);
                return Ok(ev_ret);
            }
            i = i + 1;
        }
        Err(ServiceError::NotFound)
    }

    /// The first transaction of the tenant carrying the message hash.
    pub fn get_transaction_by_mh(&self, service_id: ServiceId, message_hash: &String) -> (r: Result<
        TransactionDb,
        ServiceError,
    >)
        ensures
            r is Ok <==> exists|i: int|
                0 <= i < self.storage.transactions@.len() && (#[trigger] self.storage.transactions@[i]).service_id.value
                    == service_id.value && self.storage.transactions@[i].message_hash@
                    == message_hash@,
            r is Ok ==> exists|i: int|
                0 <= i < self.storage.transactions@.len() && (#[trigger] self.storage.transactions@[i]).service_id.value
                    == service_id.value && self.storage.transactions@[i].message_hash@
                    == message_hash@ && r->Ok_0@ == self.storage.transactions@[i]@,
            r is Err ==> r == Err::<TransactionDb, ServiceError>(ServiceError::NotFound),
    {
        let mut i: usize = 0;
        let n = self.storage.transactions.len();
        while i < n
            invariant
                n == self.storage.transactions@.len(),
                i <= n,
                forall|k: int|
                    0 <= k < i ==> !((#[trigger] self.storage.transactions@[k]).service_id.value
                        == service_id.value && self.storage.transactions@[k].message_hash@
                        == message_hash@),
            decreases n - i,
        {
            let t = &self.storage.transactions[i];
            if t.service_id.value == service_id.value && t.message_hash == *message_hash {
                return Ok(t.duplicate());
            }
            i = i + 1;
        }
        Err(ServiceError::NotFound)
    }

    /// The first transaction of the tenant carrying the transaction hash.
    pub fn get_transaction_by_h(&self, service_id: ServiceId, transaction_hash: &String) -> (r:
        Result<TransactionDb, ServiceError>)
        ensures
            r is Ok <==> exists|i: int|
                0 <= i < self.storage.transactions@.len() && (#[trigger] self.storage.transactions@[i]).service_id.value
                    == service_id.value && crate::models::opt_view(
                    self.storage.transactions@[i].transaction_hash,
                ) == Option::Some(transaction_hash@),
            r is Ok ==> exists|i: int|
                0 <= i < self.storage.transactions@.len() && (#[trigger] self.storage.transactions@[i]).service_id.value
                    == service_id.value && crate::models::opt_view(
                    self.storage.transactions@[i].transaction_hash,
                ) == Option::Some(transaction_hash@) && r->Ok_0@ == self.storage.transactions@[i]@,
            r is Err ==> r == Err::<TransactionDb, ServiceError>(ServiceError::NotFound),
    {
        let mut i: usize = 0;
        let n = self.storage.transactions.len();
        while i < n
            invariant
                n == self.storage.transactions@.len(),
                i <= n,
                forall|k: int|
                    0 <= k < i ==> !((#[trigger] self.storage.transactions@[k]).service_id.value
                        == service_id.value && crate::models::opt_view(
                        self.storage.transactions@[k].transaction_hash,
                    ) == Option::Some(transaction_hash@)),
            decreases n - i,
        {
            let t = &self.storage.transactions[i];
            let matched = match &t.transaction_hash {
                Option::Some(h) => t.service_id.value == service_id.value && *h
                    == *transaction_hash,
                Option::None => false,
            };
            if matched {
                return Ok(t.duplicate());
            }
            i = i + 1;
        }
        Err(ServiceError::NotFound)
    }

    /// All events of the tenant in the given webhook-delivery state, in
    /// store order: the replay entry point for an external retry sweep.
    pub fn search_events(&self, service_id: ServiceId, event_status: TonEventStatus) -> (r: Vec<
        TransactionEventDb,
    >)
        ensures
            r@.map_values(|e: TransactionEventDb| e@) == self.storage.transaction_events@.map_values(
                |e: TransactionEventDb| e@,
            ).filter(
                (|v: TransactionEventDbV|
                    v.service_id == service_id.value as int && v.event_status == event_status),
            ),
    {
        let ghost vf = |e: TransactionEventDb| e@;
        let ghost pred = |v: TransactionEventDbV|
            v.service_id == service_id.value as int && v.event_status == event_status;
        let ghost src = self.storage.transaction_events@;
        let mut out: Vec<TransactionEventDb> = Vec::new();
        proof {
            reveal_with_fuel(Seq::filter, 3);
            assert(src.subrange(0, 0int) =~= Seq::<TransactionEventDb>::empty());
            assert(Seq::<TransactionEventDb>::empty().map_values(vf) =~= Seq::<
                TransactionEventDbV,
            >::empty());
            assert(out@.map_values(vf) =~= src.subrange(0, 0int).map_values(vf).filter(pred));
        }
        let mut i: usize = 0;
        let n = self.storage.transaction_events.len();
        while i < n
            invariant
                i <= n,
                n == src.len(),
                src == self.storage.transaction_events@,
                vf == (|e: TransactionEventDb| e@),
                pred == (|v: TransactionEventDbV|
                    v.service_id == service_id.value as int && v.event_status == event_status),
                out@.map_values(vf) == src.subrange(0, i as int).map_values(vf).filter(pred),
            decreases n - i,
        {
            let ghost pre = out@;
            let e = &self.storage.transaction_events[i];
            let matched = e.service_id.value == service_id.value && e.event_status == event_status;
            if matched {
                out.push(e.duplicate());
            }
            proof {
                reveal_with_fuel(Seq::filter, 3);
                let x = src[i as int];
                let sub0 = src.subrange(0, i as int);
                let sub1 = src.subrange(0, i + 1);
                assert(sub1 =~= sub0 + seq![x]);
                assert(sub1.map_values(vf) =~= sub0.map_values(vf) + seq![vf(x)]);
                Seq::<TransactionEventDbV>::filter_distributes_over_add(
                    sub0.map_values(vf),
                    seq![vf(x)],
                    pred,
                );
                assert(seq![vf(x)].drop_last() =~= Seq::<TransactionEventDbV>::empty());
                if matched {
                    assert(pred(vf(x)));
                    assert(seq![vf(x)].filter(pred) =~= seq![vf(x)]);
                    assert(out@.map_values(vf) =~= pre.map_values(vf).push(vf(x)));
                } else {
                    assert(!pred(vf(x)));
                    assert(seq![vf(x)].filter(pred) =~= Seq::<TransactionEventDbV>::empty());
                }
                assert(out@.map_values(vf) =~= sub1.map_values(vf).filter(pred));
            }
            i = i + 1;
        }
        proof {
            assert(src.subrange(0, n as int) =~= src);
        }
        out
    }

    /// All token events of the tenant in the given webhook-delivery state.
    pub fn search_token_events(&self, service_id: ServiceId, event_status: TonEventStatus) -> (r:
        Vec<TokenTransactionEventDb>)
        ensures
            r@.map_values(|e: TokenTransactionEventDb| e@)
                == self.storage.token_transaction_events@.map_values(
                |e: TokenTransactionEventDb| e@,
            ).filter(
                (|v: TokenTransactionEventDbV|
                    v.service_id == service_id.value as int && v.event_status == event_status),
            ),
    {
        let ghost vf = |e: TokenTransactionEventDb| e@;
        let ghost pred = |v: TokenTransactionEventDbV|
            v.service_id == service_id.value as int && v.event_status == event_status;
        let ghost src = self.storage.token_transaction_events@;
        let mut out: Vec<TokenTransactionEventDb> = Vec::new();
        proof {
            reveal_with_fuel(Seq::filter, 3);
            assert(src.subrange(0, 0int) =~= Seq::<TokenTransactionEventDb>::empty());
            assert(Seq::<TokenTransactionEventDb>::empty().map_values(vf) =~= Seq::<
                TokenTransactionEventDbV,
            >::empty());
            assert(out@.map_values(vf) =~= src.subrange(0, 0int).map_values(vf).filter(pred));
        }
        let mut i: usize = 0;
        let n = self.storage.token_transaction_events.len();
        while i < n
            invariant
                i <= n,
                n == src.len(),
                src == self.storage.token_transaction_events@,
                vf == (|e: TokenTransactionEventDb| e@),
                pred == (|v: TokenTransactionEventDbV|
                    v.service_id == service_id.value as int && v.event_status == event_status),
                out@.map_values(vf) == src.subrange(0, i as int).map_values(vf).filter(pred),
            decreases n - i,
        {
            let ghost pre = out@;
            let e = &self.storage.token_transaction_events[i];
            let matched = e.service_id.value == service_id.value && e.event_status == event_status;
            if matched {
                out.push(e.duplicate());
            }
            proof {
                reveal_with_fuel(Seq::filter, 3);
                let x = src[i as int];
                let sub0 = src.subrange(0, i as int);
                let sub1 = src.subrange(0, i + 1);
                assert(sub1 =~= sub0 + seq![x]);
                assert(sub1.map_values(vf) =~= sub0.map_values(vf) + seq![vf(x)]);
                Seq::<TokenTransactionEventDbV>::filter_distributes_over_add(
                    sub0.map_values(vf),
                    seq![vf(x)],
                    pred,
                );
                assert(seq![vf(x)].drop_last() =~= Seq::<TokenTransactionEventDbV>::empty());
                if matched {
                    assert(pred(vf(x)));
                    assert(seq![vf(x)].filter(pred) =~= seq![vf(x)]);
                    assert(out@.map_values(vf) =~= pre.map_values(vf).push(vf(x)));
                } else {
                    assert(!pred(vf(x)));
                    assert(seq![vf(x)].filter(pred) =~= Seq::<TokenTransactionEventDbV>::empty());
                }
                assert(out@.map_values(vf) =~= sub1.map_values(vf).filter(pred));
            }
            i = i + 1;
        }
        proof {
            assert(src.subrange(0, n as int) =~= src);
        }
        out
    }

    /// All token balance rows of the tenant for one account, in store order.
    pub fn get_token_address_balance(
        &self,
        service_id: ServiceId,
        account_workchain_id: i32,
        account_hex: &String,
    ) -> (r: Vec<TokenBalanceFromDb>)
        ensures
            r@.map_values(|b: TokenBalanceFromDb| b@) == self.storage.token_balances@.map_values(
                |b: TokenBalanceFromDb| b@,
            ).filter(
                (|v: crate::models::TokenBalanceFromDbV|
                    v.service_id == service_id.value as int && v.account_workchain_id
                        == account_workchain_id as int && v.account_hex == account_hex@),
            ),
    {
        let ghost vf = |b: TokenBalanceFromDb| b@;
        let ghost pred = |v: crate::models::TokenBalanceFromDbV|
            v.service_id == service_id.value as int && v.account_workchain_id
                == account_workchain_id as int && v.account_hex == account_hex@;
        let ghost src = self.storage.token_balances@;
        let mut out: Vec<TokenBalanceFromDb> = Vec::new();
        proof {
            reveal_with_fuel(Seq::filter, 3);
            assert(src.subrange(0, 0int) =~= Seq::<TokenBalanceFromDb>::empty());
            assert(Seq::<TokenBalanceFromDb>::empty().map_values(vf) =~= Seq::<
                crate::models::TokenBalanceFromDbV,
            >::empty());
            assert(out@.map_values(vf) =~= src.subrange(0, 0int).map_values(vf).filter(pred));
        }
        let mut i: usize = 0;
        let n = self.storage.token_balances.len();
        while i < n
            invariant
                i <= n,
                n == src.len(),
                src == self.storage.token_balances@,
                vf == (|b: TokenBalanceFromDb| b@),
                pred == (|v: crate::models::TokenBalanceFromDbV|
                    v.service_id == service_id.value as int && v.account_workchain_id
                        == account_workchain_id as int && v.account_hex == account_hex@),
                out@.map_values(vf) == src.subrange(0, i as int).map_values(vf).filter(pred),
            decreases n - i,
        {
            let ghost pre = out@;
            let b = &self.storage.token_balances[i];
            let matched = b.service_id.value == service_id.value && b.account_workchain_id
                == account_workchain_id && b.account_hex == *account_hex;
            if matched {
                out.push(b.duplicate());
            }
            proof {
                reveal_with_fuel(Seq::filter, 3);
                let x = src[i as int];
                let sub0 = src.subrange(0, i as int);
                let sub1 = src.subrange(0, i + 1);
                assert(sub1 =~= sub0 + seq![x]);
                assert(sub1.map_values(vf) =~= sub0.map_values(vf) + seq![vf(x)]);
                Seq::<crate::models::TokenBalanceFromDbV>::filter_distributes_over_add(
                    sub0.map_values(vf),
                    seq![vf(x)],
                    pred,
                );
                assert(seq![vf(x)].drop_last() =~= Seq::<
                    crate::models::TokenBalanceFromDbV,
                >::empty());
                if matched {
                    assert(pred(vf(x)));
                    assert(seq![vf(x)].filter(pred) =~= seq![vf(x)]);
                    assert(out@.map_values(vf) =~= pre.map_values(vf).push(vf(x)));
                } else {
                    assert(!pred(vf(x)));
                    assert(seq![vf(x)].filter(pred) =~= Seq::<
                        crate::models::TokenBalanceFromDbV,
                    >::empty());
                }
                assert(out@.map_values(vf) =~= sub1.map_values(vf).filter(pred));
            }
            i = i + 1;
        }
        proof {
            assert(src.subrange(0, n as int) =~= src);
        }
        out
    }
}

/// Finds the token transaction with the given full key.
fn find_ttx(
    v: &Vec<TokenTransactionFromDb>,
    service_id: ServiceId,
    mh: &String,
    wc: i32,
    hex: &String,
    root: &String,
) -> (r: Option<usize>)
    ensures
        match r {
            Option::Some(i) => i < v@.len() && ttx_match(
                v@[i as int],
                service_id.value as int,
                mh@,
                wc as int,
                hex@,
                root@,
            ),
            Option::None => !has_ttx(v@, service_id.value as int, mh@, wc as int, hex@, root@),
        },
{
    let mut i: usize = 0;
    while i < v.len()
        invariant
            i <= v@.len(),
            forall|k: int|
                0 <= k < i ==> !ttx_match(
                    #[trigger] v@[k],
                    service_id.value as int,
                    mh@,
                    wc as int,
                    hex@,
                    root@,
                ),
        decreases v@.len() - i,
    {
        let t = &v[i];
        if t.service_id.value == service_id.value && t.message_hash == *mh
            && t.account_workchain_id == wc && t.account_hex == *hex && t.root_address == *root {
            return Option::Some(i);
        }
        i = i + 1;
    }
    Option::None
}

/// Finds the token event with the given full key.
fn find_tev(
    v: &Vec<TokenTransactionEventDb>,
    service_id: ServiceId,
    mh: &String,
    wc: i32,
    hex: &String,
    root: &String,
) -> (r: Option<usize>)
    ensures
        match r {
            Option::Some(i) => i < v@.len() && tev_match(
                v@[i as int],
                service_id.value as int,
                mh@,
                wc as int,
                hex@,
                root@,
            ),
            Option::None => !has_tev(v@, service_id.value as int, mh@, wc as int, hex@, root@),
        },
{
    let mut i: usize = 0;
    while i < v.len()
        invariant
            i <= v@.len(),
            forall|k: int|
                0 <= k < i ==> !tev_match(
                    #[trigger] v@[k],
                    service_id.value as int,
                    mh@,
                    wc as int,
                    hex@,
                    root@,
                ),
        decreases v@.len() - i,
    {
        let e = &v[i];
        if e.service_id.value == service_id.value && e.message_hash == *mh
            && e.account_workchain_id == wc && e.account_hex == *hex && e.root_address == *root {
            return Option::Some(i);
        }
        i = i + 1;
    }
    Option::None
}

/// Finds the token balance row with the given (account, root) key.
fn find_bal(v: &Vec<TokenBalanceFromDb>, wc: i32, hex: &String, root: &String) -> (r: Option<usize>)
    ensures
        match r {
            Option::Some(i) => i < v@.len() && bal_match(v@[i as int], wc as int, hex@, root@),
            Option::None => !has_bal(v@, wc as int, hex@, root@),
        },
{
    let mut i: usize = 0;
    while i < v.len()
        invariant
            i <= v@.len(),
            forall|k: int| 0 <= k < i ==> !bal_match(#[trigger] v@[k], wc as int, hex@, root@),
        decreases v@.len() - i,
    {
        let b = &v[i];
        if b.account_workchain_id == wc && b.account_hex == *hex && b.root_address == *root {
            return Option::Some(i);
        }
        i = i + 1;
    }
    Option::None
}

impl TonServiceImpl {
    /// Persists a fresh outbound token transaction with both axes `New`.
    /// Fails, leaving the store untouched, exactly when the full key is
    /// already taken.
    pub fn create_send_token_transaction(
        &mut self,
        service_id: ServiceId,
        payload: &PreparedTokenMessage,
    ) -> (r: Result<(TokenTransactionFromDb, TokenTransactionEventDb), ServiceError>)
        requires
            old(self).wf(),
            old(self).storage.next_id <= u64::MAX - 2,
        ensures
            final(self).wf(),
            r is Err <==> has_ttx(
                old(self).storage.token_transactions@,
                service_id.value as int,
                payload.message_hash@,
                payload.account_workchain_id as int,
                payload.account_hex@,
                payload.root_address@,
            ),
            r is Err ==> r == Err::<(TokenTransactionFromDb, TokenTransactionEventDb), ServiceError>(
                ServiceError::Duplicate,
            ) && storage_unchanged(final(self).storage, old(self).storage),
            r is Ok ==> final(self).storage.token_transactions@ == old(self).storage.token_transactions@.push(
                (TokenTransactionFromDb {
                    id: old(self).storage.next_id,
                    service_id,
                    message_hash: payload.message_hash,
                    account_workchain_id: payload.account_workchain_id,
                    account_hex: payload.account_hex,
                    value: payload.value,
                    root_address: payload.root_address,
                    direction: TonTransactionDirection::Send,
                    status: TonTokenTransactionStatus::New,
                    error: Option::None,
                }),
            ) && final(self).storage.token_transaction_events@ == old(self).storage.token_transaction_events@.push(
                (TokenTransactionEventDb {
                    id: (old(self).storage.next_id + 1) as u64,
                    service_id,
                    token_transaction_id: old(self).storage.next_id,
                    message_hash: payload.message_hash,
                    account_workchain_id: payload.account_workchain_id,
                    account_hex: payload.account_hex,
                    value: payload.value,
                    root_address: payload.root_address,
                    transaction_direction: TonTransactionDirection::Send,
                    transaction_status: TonTokenTransactionStatus::New,
                    event_status: TonEventStatus::New,
                }),
            ) && final(self).storage.next_id == old(self).storage.next_id + 2
                && aux_tables_unchanged(final(self).storage, old(self).storage)
                && native_tables_unchanged(final(self).storage, old(self).storage) && r->Ok_0.0@
                == final(self).storage.token_transactions@.last()@ && r->Ok_0.1@ == final(self).storage.token_transaction_events@.last()@,
    {
        let ghost sid = service_id.value as int;
        let ghost mh = payload.message_hash@;
        let ghost wc = payload.account_workchain_id as int;
        let ghost hex = payload.account_hex@;
        let ghost root = payload.root_address@;
        if find_ttx(
            &self.storage.token_transactions,
            service_id,
            &payload.message_hash,
            payload.account_workchain_id,
            &payload.account_hex,
            &payload.root_address,
        ).is_some() {
            return Err(ServiceError::Duplicate);
        }
        let tx_id = self.storage.next_id;
        let ev_id = tx_id + 1;
        let tx = TokenTransactionFromDb {
            id: tx_id,
            service_id,
            message_hash: payload.message_hash.clone(),
            account_workchain_id: payload.account_workchain_id,
            account_hex: payload.account_hex.clone(),
            value: payload.value,
            root_address: payload.root_address.clone(),
            direction: TonTransactionDirection::Send,
            status: TonTokenTransactionStatus::New,
            error: Option::None,
        };
        let ev = TokenTransactionEventDb {
            id: ev_id,
            service_id,
            token_transaction_id: tx_id,
            message_hash: payload.message_hash.clone(),
            account_workchain_id: payload.account_workchain_id,
            account_hex: payload.account_hex.clone(),
            value: payload.value,
            root_address: payload.root_address.clone(),
            transaction_direction: TonTransactionDirection::Send,
            transaction_status: TonTokenTransactionStatus::New,
            event_status: TonEventStatus::New,
        };
        let tx_ret = tx.duplicate();
        let ev_ret = ev.duplicate();
        self.storage.token_transactions.push(tx);
        self.storage.token_transaction_events.push(ev);
        self.storage.next_id = self.storage.next_id + 2;
        proof {
            let s = self.storage.token_transactions@;
            let n = s.len() - 1;
            assert forall|a: int, b: int|
                #![trigger s[a], s[b]]
                0 <= a < b < s.len() implies s[a].id != s[b].id && !ttx_match(
                s[a],
                s[b].service_id.value as int,
                s[b].message_hash@,
                s[b].account_workchain_id as int,
                s[b].account_hex@,
                s[b].root_address@,
            ) by {
                if b < n {
                    assert(s[a] == old(self).storage.token_transactions@[a]);
                    assert(s[b] == old(self).storage.token_transactions@[b]);
                } else {
                    assert(s[a] == old(self).storage.token_transactions@[a]);
                    assert(!ttx_match(
                        old(self).storage.token_transactions@[a],
                        sid,
                        mh,
                        wc,
                        hex,
                        root,
                    ));
                    assert(old(self).storage.token_transactions@[a].id < old(self).storage.next_id);
                }
            }
            let se = self.storage.token_transaction_events@;
            let ne = se.len() - 1;
            assert forall|a: int, b: int|
                #![trigger se[a], se[b]]
                0 <= a < b < se.len() implies se[a].id != se[b].id by {
                if b < ne {
                    assert(se[a] == old(self).storage.token_transaction_events@[a]);
                    assert(se[b] == old(self).storage.token_transaction_events@[b]);
                } else {
                    assert(se[a] == old(self).storage.token_transaction_events@[a]);
                    assert(old(self).storage.token_transaction_events@[a].id < old(self).storage.next_id);
                }
            }
        }
        Ok((tx_ret, ev_ret))
    }

    /// Records the outcome of a failed or corrected token broadcast on the
    /// token transaction and its event, by key; the webhook axis is
    /// untouched.
    pub fn update_send_token_transaction(
        &mut self,
        service_id: ServiceId,
        message_hash: &String,
        account_workchain_id: i32,
        account_hex: &String,
        root_address: &String,
        input: &UpdateSendTokenTransaction,
    ) -> (r: Result<(TokenTransactionFromDb, TokenTransactionEventDb), ServiceError>)
        requires
            old(self).wf(),
        ensures
            final(self).wf(),
            r is Ok <==> has_ttx(
                old(self).storage.token_transactions@,
                service_id.value as int,
                message_hash@,
                account_workchain_id as int,
                account_hex@,
                root_address@,
            ) && has_tev(
                old(self).storage.token_transaction_events@,
                service_id.value as int,
                message_hash@,
                account_workchain_id as int,
                account_hex@,
                root_address@,
            ),
            r is Err ==> r == Err::<(TokenTransactionFromDb, TokenTransactionEventDb), ServiceError>(
                ServiceError::NotFound,
            ) && storage_unchanged(final(self).storage, old(self).storage),
            r is Ok ==> exists|i: int, j: int|
                0 <= i < old(self).storage.token_transactions@.len() && 0 <= j < old(self).storage.token_transaction_events@.len() && ttx_match(
                    #[trigger] old(self).storage.token_transactions@[i],
                    service_id.value as int,
                    message_hash@,
                    account_workchain_id as int,
                    account_hex@,
                    root_address@,
                ) && tev_match(
                    #[trigger] old(self).storage.token_transaction_events@[j],
                    service_id.value as int,
                    message_hash@,
                    account_workchain_id as int,
                    account_hex@,
                    root_address@,
                ) && final(self).storage.token_transactions@ == old(self).storage.token_transactions@.update(
                    i,
                    (TokenTransactionFromDb {
                        status: input.status,
                        error: input.error,
                        ..old(self).storage.token_transactions@[i]
                    }),
                ) && final(self).storage.token_transaction_events@ == old(self).storage.token_transaction_events@.update(
                    j,
                    (TokenTransactionEventDb {
                        transaction_status: input.status,
                        ..old(self).storage.token_transaction_events@[j]
                    }),
                ) && r->Ok_0.0@ == final(self).storage.token_transactions@[i]@ && r->Ok_0.1@
                    == final(self).storage.token_transaction_events@[j]@,
            r is Ok ==> aux_tables_unchanged(final(self).storage, old(self).storage)
                && native_tables_unchanged(final(self).storage, old(self).storage) && final(self).storage.next_id == old(self).storage.next_id,
    {
        let ti = match find_ttx(
            &self.storage.token_transactions,
            service_id,
            message_hash,
            account_workchain_id,
            account_hex,
            root_address,
        ) {
            Option::Some(i) => i,
            Option::None => {
                return Err(ServiceError::NotFound);
            },
        };
        let ei = match find_tev(
            &self.storage.token_transaction_events,
            service_id,
            message_hash,
            account_workchain_id,
            account_hex,
            root_address,
        ) {
            Option::Some(i) => i,
            Option::None => {
                return Err(ServiceError::NotFound);
            },
        };
        let updated_tx = {
            let t = &self.storage.token_transactions[ti];
            TokenTransactionFromDb {
                id: t.id,
                service_id: t.service_id,
                message_hash: t.message_hash.clone(),
                account_workchain_id: t.account_workchain_id,
                account_hex: t.account_hex.clone(),
                value: t.value,
                root_address: t.root_address.clone(),
                direction: t.direction,
                status: input.status,
                error: duplicate_opt(&input.error),
            }
        };
        let updated_ev = {
            let e = &self.storage.token_transaction_events[ei];
            TokenTransactionEventDb {
                id: e.id,
                service_id: e.service_id,
                token_transaction_id: e.token_transaction_id,
                message_hash: e.message_hash.clone(),
                account_workchain_id: e.account_workchain_id,
                account_hex: e.account_hex.clone(),
                value: e.value,
                root_address: e.root_address.clone(),
                transaction_direction: e.transaction_direction,
                transaction_status: input.status,
                event_status: e.event_status,
            }
        };
        let tx_ret = updated_tx.duplicate();
        let ev_ret = updated_ev.duplicate();
        proof {
            lemma_ttxs_update_keeps(
                self.storage.token_transactions@,
                ti as int,
                updated_tx,
                self.storage.next_id,
            );
            lemma_tevs_update_keeps(
                self.storage.token_transaction_events@,
                ei as int,
                updated_ev,
                self.storage.next_id,
            );
        }
        self.storage.token_transactions.set(ti, updated_tx);
        self.storage.token_transaction_events.set(ei, updated_ev);
        Ok((tx_ret, ev_ret))
    }

    /// Persists an inbound token transaction, resolving the token account to
    /// its owning tenant through the token balance table. Idempotent like
    /// `create_receive_transaction`: a repeated key leaves the store
    /// untouched and produces no new event.
    pub fn create_receive_token_transaction(&mut self, input: &CreateReceiveTokenTransaction) -> (r:
        Result<(TokenTransactionFromDb, Option<TokenTransactionEventDb>), ServiceError>)
        requires
            old(self).wf(),
            old(self).storage.next_id <= u64::MAX - 2,
        ensures
            final(self).wf(),
            r is Err <==> !has_bal(
                old(self).storage.token_balances@,
                input.account_workchain_id as int,
                input.account_hex@,
                input.root_address@,
            ),
            r is Err ==> r == Err::<
                (TokenTransactionFromDb, Option<TokenTransactionEventDb>),
                ServiceError,
            >(ServiceError::NotFound) && storage_unchanged(final(self).storage, old(self).storage),
            r is Ok && r->Ok_0.1 is None ==> storage_unchanged(final(self).storage, old(self).storage)
                && exists|i: int|
                0 <= i < old(self).storage.token_transactions@.len() && ttx_match(
                    #[trigger] old(self).storage.token_transactions@[i],
                    bal_service_sid(
                        old(self).storage.token_balances@,
                        input.account_workchain_id as int,
                        input.account_hex@,
                        input.root_address@,
                    ).value as int,
                    input.message_hash@,
                    input.account_workchain_id as int,
                    input.account_hex@,
                    input.root_address@,
                ) && r->Ok_0.0@ == old(self).storage.token_transactions@[i]@,
            r is Ok && r->Ok_0.1 is Some ==> !has_ttx(
                old(self).storage.token_transactions@,
                bal_service_sid(
                    old(self).storage.token_balances@,
                    input.account_workchain_id as int,
                    input.account_hex@,
                    input.root_address@,
                ).value as int,
                input.message_hash@,
                input.account_workchain_id as int,
                input.account_hex@,
                input.root_address@,
            ) && final(self).storage.token_transactions@ == old(self).storage.token_transactions@.push(
                (TokenTransactionFromDb {
                    id: old(self).storage.next_id,
                    service_id: bal_service_sid(
                        old(self).storage.token_balances@,
                        input.account_workchain_id as int,
                        input.account_hex@,
                        input.root_address@,
                    ),
                    message_hash: input.message_hash,
                    account_workchain_id: input.account_workchain_id,
                    account_hex: input.account_hex,
                    value: input.value,
                    root_address: input.root_address,
                    direction: TonTransactionDirection::Receive,
                    status: input.status,
                    error: Option::None,
                }),
            ) && final(self).storage.token_transaction_events@ == old(self).storage.token_transaction_events@.push(
                (TokenTransactionEventDb {
                    id: (old(self).storage.next_id + 1) as u64,
                    service_id: bal_service_sid(
                        old(self).storage.token_balances@,
                        input.account_workchain_id as int,
                        input.account_hex@,
                        input.root_address@,
                    ),
                    token_transaction_id: old(self).storage.next_id,
                    message_hash: input.message_hash,
                    account_workchain_id: input.account_workchain_id,
                    account_hex: input.account_hex,
                    value: input.value,
                    root_address: input.root_address,
                    transaction_direction: TonTransactionDirection::Receive,
                    transaction_status: input.status,
                    event_status: TonEventStatus::New,
                }),
            ) && final(self).storage.next_id == old(self).storage.next_id + 2
                && aux_tables_unchanged(final(self).storage, old(self).storage)
                && native_tables_unchanged(final(self).storage, old(self).storage) && r->Ok_0.0@
                == final(self).storage.token_transactions@.last()@ && r->Ok_0.1->0@ == final(self).storage.token_transaction_events@.last()@,
    {
        let ghost wc = input.account_workchain_id as int;
        let ghost hex = input.account_hex@;
        let ghost root = input.root_address@;
        let bi = match find_bal(
            &self.storage.token_balances,
            input.account_workchain_id,
            &input.account_hex,
            &input.root_address,
        ) {
            Option::Some(i) => i,
            Option::None => {
                return Err(ServiceError::NotFound);
            },
        };
        let service_id = self.storage.token_balances[bi].service_id;
        proof {
            let s = self.storage.token_balances@;
            let ci = choose|i: int| 0 <= i < s.len() && bal_match(#[trigger] s[i], wc, hex, root);
            if ci != bi as int {
                let lo = if ci < bi as int { ci } else { bi as int };
                let hi = if ci < bi as int { bi as int } else { ci };
                assert(!bal_match(
                    s[lo],
                    s[hi].account_workchain_id as int,
                    s[hi].account_hex@,
                    s[hi].root_address@,
                ));
            }
            assert(bal_service_sid(s, wc, hex, root) == service_id);
        }
        let ghost sid = service_id.value as int;
        let ghost mh = input.message_hash@;
        if let Option::Some(i) = find_ttx(
            &self.storage.token_transactions,
            service_id,
            &input.message_hash,
            input.account_workchain_id,
            &input.account_hex,
            &input.root_address,
        ) {
            let existing = self.storage.token_transactions[i].duplicate();
            return Ok((existing, Option::None));
        }
        let tx_id = self.storage.next_id;
        let ev_id = tx_id + 1;
        let tx = TokenTransactionFromDb {
            id: tx_id,
            service_id,
            message_hash: input.message_hash.clone(),
            account_workchain_id: input.account_workchain_id,
            account_hex: input.account_hex.clone(),
            value: input.value,
            root_address: input.root_address.clone(),
            direction: TonTransactionDirection::Receive,
            status: input.status,
            error: Option::None,
        };
        let ev = TokenTransactionEventDb {
            id: ev_id,
            service_id,
            token_transaction_id: tx_id,
            message_hash: input.message_hash.clone(),
            account_workchain_id: input.account_workchain_id,
            account_hex: input.account_hex.clone(),
            value: input.value,
            root_address: input.root_address.clone(),
            transaction_direction: TonTransactionDirection::Receive,
            transaction_status: input.status,
            event_status: TonEventStatus::New,
        };
        let tx_ret = tx.duplicate();
        let ev_ret = ev.duplicate();
        self.storage.token_transactions.push(tx);
        self.storage.token_transaction_events.push(ev);
        self.storage.next_id = self.storage.next_id + 2;
        proof {
            let s = self.storage.token_transactions@;
            let n = s.len() - 1;
            assert forall|a: int, b: int|
                #![trigger s[a], s[b]]
                0 <= a < b < s.len() implies s[a].id != s[b].id && !ttx_match(
                s[a],
                s[b].service_id.value as int,
                s[b].message_hash@,
                s[b].account_workchain_id as int,
                s[b].account_hex@,
                s[b].root_address@,
            ) by {
                if b < n {
                    assert(s[a] == old(self).storage.token_transactions@[a]);
                    assert(s[b] == old(self).storage.token_transactions@[b]);
                } else {
                    assert(s[a] == old(self).storage.token_transactions@[a]);
                    assert(!ttx_match(
                        old(self).storage.token_transactions@[a],
                        sid,
                        mh,
                        wc,
                        hex,
                        root,
                    ));
                    assert(old(self).storage.token_transactions@[a].id < old(self).storage.next_id);
                }
            }
            let se = self.storage.token_transaction_events@;
            let ne = se.len() - 1;
            assert forall|a: int, b: int|
                #![trigger se[a], se[b]]
                0 <= a < b < se.len() implies se[a].id != se[b].id by {
                if b < ne {
                    assert(se[a] == old(self).storage.token_transaction_events@[a]);
                    assert(se[b] == old(self).storage.token_transaction_events@[b]);
                } else {
                    assert(se[a] == old(self).storage.token_transaction_events@[a]);
                    assert(old(self).storage.token_transaction_events@[a].id < old(self).storage.next_id);
                }
            }
        }
        Ok((tx_ret, Option::Some(ev_ret)))
    }

    /// Sets the webhook-delivery axis of the token event with the given key;
    /// never back to `New`, and nothing else in the store changes.
    pub fn update_event_status_of_token_transaction_event(
        &mut self,
        service_id: ServiceId,
        message_hash: &String,
        account_workchain_id: i32,
        account_hex: &String,
        root_address: &String,
        event_status: TonEventStatus,
    ) -> (r: Result<TokenTransactionEventDb, ServiceError>)
        requires
            old(self).wf(),
            event_status != TonEventStatus::New,
        ensures
            final(self).wf(),
            r is Ok <==> has_tev(
                old(self).storage.token_transaction_events@,
                service_id.value as int,
                message_hash@,
                account_workchain_id as int,
                account_hex@,
                root_address@,
            ),
            r is Err ==> r == Err::<TokenTransactionEventDb, ServiceError>(ServiceError::NotFound)
                && storage_unchanged(final(self).storage, old(self).storage),
            r is Ok ==> exists|j: int|
                0 <= j < old(self).storage.token_transaction_events@.len() && tev_match(
                    #[trigger] old(self).storage.token_transaction_events@[j],
                    service_id.value as int,
                    message_hash@,
                    account_workchain_id as int,
                    account_hex@,
                    root_address@,
                ) && final(self).storage.token_transaction_events@ == old(self).storage.token_transaction_events@.update(
                    j,
                    (TokenTransactionEventDb {
                        event_status: event_status,
                        ..old(self).storage.token_transaction_events@[j]
                    }),
                ) && r->Ok_0@ == final(self).storage.token_transaction_events@[j]@,
            r is Ok ==> final(self).storage.token_transactions@ == old(self).storage.token_transactions@ && aux_tables_unchanged(
                final(self).storage,
                old(self).storage,
            ) && native_tables_unchanged(final(self).storage, old(self).storage) && final(self).storage.next_id == old(self).storage.next_id,
    {
        let ei = match find_tev(
            &self.storage.token_transaction_events,
            service_id,
            message_hash,
            account_workchain_id,
            account_hex,
            root_address,
        ) {
            Option::Some(i) => i,
            Option::None => {
                return Err(ServiceError::NotFound);
            },
        };
        let updated_ev = {
            let e = &self.storage.token_transaction_events[ei];
            TokenTransactionEventDb {
                id: e.id,
                service_id: e.service_id,
                token_transaction_id: e.token_transaction_id,
                message_hash: e.message_hash.clone(),
                account_workchain_id: e.account_workchain_id,
                account_hex: e.account_hex.clone(),
                value: e.value,
                root_address: e.root_address.clone(),
                transaction_direction: e.transaction_direction,
                transaction_status: e.transaction_status,
                event_status,
            }
        };
        let ev_ret = updated_ev.duplicate();
        proof {
            lemma_tevs_update_keeps(
                self.storage.token_transaction_events@,
                ei as int,
                updated_ev,
                self.storage.next_id,
            );
        }
        self.storage.token_transaction_events.set(ei, updated_ev);
        Ok(ev_ret)
    }

    /// Marks one token event, addressed by id, as successfully delivered
    /// after an out-of-band retry.
    pub fn mark_token_event(&mut self, service_id: ServiceId, id: u64) -> (r: Result<
        TokenTransactionEventDb,
        ServiceError,
    >)
        requires
            old(self).wf(),
        ensures
            final(self).wf(),
            r is Ok <==> exists|j: int|
                0 <= j < old(self).storage.token_transaction_events@.len() && (#[trigger] old(self).storage.token_transaction_events@[j]).id == id && old(self).storage.token_transaction_events@[j].service_id.value == service_id.value,
            r is Err ==> r == Err::<TokenTransactionEventDb, ServiceError>(ServiceError::NotFound)
                && storage_unchanged(final(self).storage, old(self).storage),
            r is Ok ==> exists|j: int|
                0 <= j < old(self).storage.token_transaction_events@.len() && (#[trigger] old(self).storage.token_transaction_events@[j]).id == id && old(self).storage.token_transaction_events@[j].service_id.value == service_id.value
                    && final(self).storage.token_transaction_events@ == old(self).storage.token_transaction_events@.update(
                    j,
                    (TokenTransactionEventDb {
                        event_status: TonEventStatus::Notified,
                        ..old(self).storage.token_transaction_events@[j]
                    }),
                ) && r->Ok_0@ == final(self).storage.token_transaction_events@[j]@,
            r is Ok ==> final(self).storage.token_transactions@ == old(self).storage.token_transactions@ && aux_tables_unchanged(
                final(self).storage,
                old(self).storage,
            ) && native_tables_unchanged(final(self).storage, old(self).storage) && final(self).storage.next_id == old(self).storage.next_id,
    {
        let mut i: usize = 0;
        let n = self.storage.token_transaction_events.len();
        while i < n
            invariant
                old(self).wf(),
                n == self.storage.token_transaction_events@.len(),
                i <= n,
                *self == *old(self),
                forall|k: int|
                    0 <= k < i ==> !((#[trigger] self.storage.token_transaction_events@[k]).id
                        == id && self.storage.token_transaction_events@[k].service_id.value
                        == service_id.value),
            decreases n - i,
        {
            let matched = {
                let e = &self.storage.token_transaction_events[i];
                e.id == id && e.service_id.value == service_id.value
            };
            if matched {
                let updated_ev = {
                    let e = &self.storage.token_transaction_events[i];
                    TokenTransactionEventDb {
                        id: e.id,
                        service_id: e.service_id,
                        token_transaction_id: e.token_transaction_id,
                        message_hash: e.message_hash.clone(),
                        account_workchain_id: e.account_workchain_id,
                        account_hex: e.account_hex.clone(),
                        value: e.value,
                        root_address: e.root_address.clone(),
                        transaction_direction: e.transaction_direction,
                        transaction_status: e.transaction_status,
                        event_status: TonEventStatus::Notified,
                    }
                };
                let ev_ret = updated_ev.duplicate();
                proof {
                    lemma_tevs_update_keeps(
                        self.storage.token_transaction_events@,
                        i as int,
                        updated_ev,
                        self.storage.next_id,
                    );
                }
                self.storage.token_transaction_events.set(i, updated_ev);
                return Ok(ev_ret);
            }
            i = i + 1;
        }
        Err(ServiceError::NotFound)
    }

    /// The first token transaction of the tenant carrying the message hash.
    pub fn get_tokens_transaction_by_mh(&self, service_id: ServiceId, message_hash: &String) -> (r:
        Result<TokenTransactionFromDb, ServiceError>)
        ensures
            r is Ok <==> exists|i: int|
                0 <= i < self.storage.token_transactions@.len() && (
                #[trigger] self.storage.token_transactions@[i]).service_id.value
                    == service_id.value && self.storage.token_transactions@[i].message_hash@
                    == message_hash@,
            r is Ok ==> exists|i: int|
                0 <= i < self.storage.token_transactions@.len() && (
                #[trigger] self.storage.token_transactions@[i]).service_id.value
                    == service_id.value && self.storage.token_transactions@[i].message_hash@
                    == message_hash@ && r->Ok_0@ == self.storage.token_transactions@[i]@,
            r is Err ==> r == Err::<TokenTransactionFromDb, ServiceError>(ServiceError::NotFound),
    {
        let mut i: usize = 0;
        let n = self.storage.token_transactions.len();
        while i < n
            invariant
                n == self.storage.token_transactions@.len(),
                i <= n,
                forall|k: int|
                    0 <= k < i ==> !((
                    #[trigger] self.storage.token_transactions@[k]).service_id.value
                        == service_id.value && self.storage.token_transactions@[k].message_hash@
                        == message_hash@),
            decreases n - i,
        {
            let t = &self.storage.token_transactions[i];
            if t.service_id.value == service_id.value && t.message_hash == *message_hash {
                return Ok(t.duplicate());
            }
            i = i + 1;
        }
        Err(ServiceError::NotFound)
    }

    /// Registers a fresh ledger address for the tenant; fails when the
    /// account is already registered to any tenant.
    pub fn create_address(
        &mut self,
        service_id: ServiceId,
        workchain_id: i32,
        hex: String,
        balance: u128,
    ) -> (r: Result<AddressDb, ServiceError>)
        requires
            old(self).wf(),
            old(self).storage.next_id < u64::MAX,
        ensures
            final(self).wf(),
            r is Err <==> has_addr(old(self).storage.addresses@, workchain_id as int, hex@),
            r is Err ==> r == Err::<AddressDb, ServiceError>(ServiceError::Duplicate)
                && storage_unchanged(final(self).storage, old(self).storage),
            r is Ok ==> final(self).storage.addresses@ == old(self).storage.addresses@.push(
                (AddressDb {
                    id: old(self).storage.next_id,
                    service_id,
                    workchain_id,
                    hex,
                    balance,
                }),
            ) && final(self).storage.next_id == old(self).storage.next_id + 1 && final(self).storage.callbacks@ == old(self).storage.callbacks@ && final(self).storage.token_balances@ == old(self).storage.token_balances@ && final(self).storage.token_whitelist@ == old(self).storage.token_whitelist@
                && native_tables_unchanged(final(self).storage, old(self).storage)
                && token_tables_unchanged(final(self).storage, old(self).storage) && r->Ok_0@
                == final(self).storage.addresses@.last()@,
    {
        let ghost wc = workchain_id as int;
        let ghost hx = hex@;
        if find_addr(&self.storage.addresses, workchain_id, &hex).is_some() {
            return Err(ServiceError::Duplicate);
        }
        let rec = AddressDb { id: self.storage.next_id, service_id, workchain_id, hex, balance };
        let ret = rec.duplicate();
        self.storage.addresses.push(rec);
        self.storage.next_id = self.storage.next_id + 1;
        proof {
            let s = self.storage.addresses@;
            let n = s.len() - 1;
            assert forall|a: int, b: int|
                #![trigger s[a], s[b]]
                0 <= a < b < s.len() implies !addr_match(
                s[a],
                s[b].workchain_id as int,
                s[b].hex@,
            ) by {
                if b < n {
                    assert(s[a] == old(self).storage.addresses@[a]);
                    assert(s[b] == old(self).storage.addresses@[b]);
                } else {
                    assert(s[a] == old(self).storage.addresses@[a]);
                    assert(!addr_match(old(self).storage.addresses@[a], wc, hx));
                }
            }
            assert forall|k: int| 0 <= k < s.len() implies (#[trigger] s[k]).id
                < self.storage.next_id by {
                if k < n {
                    assert(s[k] == old(self).storage.addresses@[k]);
                    assert(old(self).storage.addresses@[k].id < old(self).storage.next_id);
                }
            }
        }
        Ok(ret)
    }

    /// The tenant's stored record of one of its own addresses; the live
    /// network balance is fetched by the caller and paired with it.
    pub fn get_address_balance(
        &self,
        service_id: ServiceId,
        workchain_id: i32,
        hex: &String,
    ) -> (r: Result<AddressDb, ServiceError>)
        requires
            self.wf(),
        ensures
            r is Ok <==> exists|i: int|
                0 <= i < self.storage.addresses@.len() && addr_match(
                    #[trigger] self.storage.addresses@[i],
                    workchain_id as int,
                    hex@,
                ) && self.storage.addresses@[i].service_id.value == service_id.value,
            r is Ok ==> exists|i: int|
                0 <= i < self.storage.addresses@.len() && addr_match(
                    #[trigger] self.storage.addresses@[i],
                    workchain_id as int,
                    hex@,
                ) && self.storage.addresses@[i].service_id.value == service_id.value && r->Ok_0@
                    == self.storage.addresses@[i]@,
            r is Err ==> r == Err::<AddressDb, ServiceError>(ServiceError::NotFound),
    {
        match find_addr(&self.storage.addresses, workchain_id, hex) {
            Option::Some(i) => {
                let a = &self.storage.addresses[i];
                if a.service_id.value == service_id.value {
                    Ok(a.duplicate())
                } else {
                    proof {
                        let s = self.storage.addresses@;
                        assert forall|k: int|
                            0 <= k < s.len() && addr_match(
                                #[trigger] s[k],
                                workchain_id as int,
                                hex@,
                            ) implies s[k].service_id.value != service_id.value by {
                            if k != i as int {
                                let lo = if k < i as int { k } else { i as int };
                                let hi = if k < i as int { i as int } else { k };
                                assert(!addr_match(s[lo], s[hi].workchain_id as int, s[hi].hex@));
                            }
                        }
                    }
                    Err(ServiceError::NotFound)
                }
            },
            Option::None => Err(ServiceError::NotFound),
        }
    }

    /// Configures the webhook endpoint of a tenant; one per tenant.
    pub fn register_callback(&mut self, service_id: ServiceId, callback: String) -> (r: Result<
        (),
        ServiceError,
    >)
        requires
            old(self).wf(),
        ensures
            final(self).wf(),
            r is Err <==> has_cb(old(self).storage.callbacks@, service_id.value as int),
            r is Err ==> r == Err::<(), ServiceError>(ServiceError::Duplicate) && storage_unchanged(
                final(self).storage,
                old(self).storage,
            ),
            r is Ok ==> final(self).storage.callbacks@ == old(self).storage.callbacks@.push(
                (ApiServiceCallbackDb { service_id, callback }),
            ) && final(self).storage.addresses@ == old(self).storage.addresses@ && final(self).storage.token_balances@ == old(self).storage.token_balances@ && final(self).storage.token_whitelist@ == old(self).storage.token_whitelist@
                && native_tables_unchanged(final(self).storage, old(self).storage)
                && token_tables_unchanged(final(self).storage, old(self).storage) && final(self).storage.next_id == old(self).storage.next_id,
    {
        let ghost sid = service_id.value as int;
        if find_cb(&self.storage.callbacks, service_id).is_some() {
            return Err(ServiceError::Duplicate);
        }
        let ghost pre = self.storage.callbacks@;
        self.storage.callbacks.push(ApiServiceCallbackDb { service_id, callback });
        proof {
            let s = self.storage.callbacks@;
            let n = s.len() - 1;
            assert forall|a: int, b: int|
                #![trigger s[a], s[b]]
                0 <= a < b < s.len() implies !cb_match(s[a], s[b].service_id.value as int) by {
                if b < n {
                    assert(s[a] == pre[a]);
                    assert(s[b] == pre[b]);
                } else {
                    assert(s[a] == pre[a]);
                    assert(!cb_match(pre[a], sid));
                }
            }
        }
        Ok(())
    }

    /// Records a token balance row, the owner table entry of one token
    /// account; unique per (account, root).
    pub fn register_token_balance(
        &mut self,
        service_id: ServiceId,
        account_workchain_id: i32,
        account_hex: String,
        root_address: String,
        balance: u128,
    ) -> (r: Result<(), ServiceError>)
        requires
            old(self).wf(),
        ensures
            final(self).wf(),
            r is Err <==> has_bal(
                old(self).storage.token_balances@,
                account_workchain_id as int,
                account_hex@,
                root_address@,
            ),
            r is Err ==> r == Err::<(), ServiceError>(ServiceError::Duplicate) && storage_unchanged(
                final(self).storage,
                old(self).storage,
            ),
            r is Ok ==> final(self).storage.token_balances@ == old(self).storage.token_balances@.push(
                (TokenBalanceFromDb {
                    service_id,
                    account_workchain_id,
                    account_hex,
                    balance,
                    root_address,
                }),
            ) && final(self).storage.addresses@ == old(self).storage.addresses@ && final(self).storage.callbacks@ == old(self).storage.callbacks@ && final(self).storage.token_whitelist@ == old(self).storage.token_whitelist@
                && native_tables_unchanged(final(self).storage, old(self).storage)
                && token_tables_unchanged(final(self).storage, old(self).storage) && final(self).storage.next_id == old(self).storage.next_id,
    {
        let ghost wc = account_workchain_id as int;
        let ghost hx = account_hex@;
        let ghost rt = root_address@;
        if find_bal(&self.storage.token_balances, account_workchain_id, &account_hex, &root_address)
            .is_some() {
            return Err(ServiceError::Duplicate);
        }
        let ghost pre = self.storage.token_balances@;
        self.storage.token_balances.push(
            TokenBalanceFromDb {
                service_id,
                account_workchain_id,
                account_hex,
                balance,
                root_address,
            },
        );
        proof {
            let s = self.storage.token_balances@;
            let n = s.len() - 1;
            assert forall|a: int, b: int|
                #![trigger s[a], s[b]]
                0 <= a < b < s.len() implies !bal_match(
                s[a],
                s[b].account_workchain_id as int,
                s[b].account_hex@,
                s[b].root_address@,
            ) by {
                if b < n {
                    assert(s[a] == pre[a]);
                    assert(s[b] == pre[b]);
                } else {
                    assert(s[a] == pre[a]);
                    assert(!bal_match(pre[a], wc, hx, rt));
                }
            }
        }
        Ok(())
    }

    /// Adds a token root to the whitelist.
    pub fn whitelist_token(&mut self, entry: crate::models::TokenWhitelistFromDb)
        requires
            old(self).wf(),
        ensures
            final(self).wf(),
            final(self).storage.token_whitelist@ == old(self).storage.token_whitelist@.push(entry),
            final(self).storage.addresses@ == old(self).storage.addresses@,
            final(self).storage.callbacks@ == old(self).storage.callbacks@,
            final(self).storage.token_balances@ == old(self).storage.token_balances@,
            native_tables_unchanged(final(self).storage, old(self).storage),
            token_tables_unchanged(final(self).storage, old(self).storage),
            final(self).storage.next_id == old(self).storage.next_id,
    {
        self.storage.token_whitelist.push(entry);
    }

    /// Whether the given textual address is acceptable: either the
    /// canonical `workchain:hex` form, or a packed representation the
    /// external address codec accepted — the packed encoding rules are an
    /// external concern, so that verdict is handed in.
    pub fn check_address(&self, address: &crate::models::Address, packed_valid: bool) -> (r: bool)
        ensures
            r == (crate::address::valid_account_str(address.0@) || packed_valid),
    {
        crate::address::parse_account_address(address.0.as_str()).is_some() || packed_valid
    }

    /// Whether a token root address is on the configured whitelist.
    pub fn is_token_whitelisted(&self, root_address: &String) -> (r: bool)
        ensures
            r == exists|i: int|
                0 <= i < self.storage.token_whitelist@.len() && (
                #[trigger] self.storage.token_whitelist@[i]).address@ == root_address@,
    {
        let mut i: usize = 0;
        let n = self.storage.token_whitelist.len();
        while i < n
            invariant
                n == self.storage.token_whitelist@.len(),
                i <= n,
                forall|k: int|
                    0 <= k < i ==> (#[trigger] self.storage.token_whitelist@[k]).address@
                        != root_address@,
            decreases n - i,
        {
            if self.storage.token_whitelist[i].address == *root_address {
                return true;
            }
            i = i + 1;
        }
        false
    }
}

/// An event left in a given webhook-delivery state stays discoverable: it
/// appears in the search for its tenant and that state. In particular a
/// record whose callback failed (`Error`) is retrievable by the external
/// retry sweep until `mark_event` transitions it — and `mark_event` then
/// changes nothing but that event's webhook axis.
pub proof fn lemma_event_searchable(s: Seq<TransactionEventDb>, j: int, sid: int, st: TonEventStatus)
    requires
        0 <= j < s.len(),
        s[j].service_id.value == sid,
        s[j].event_status == st,
    ensures
        s.map_values(|e: TransactionEventDb| e@).filter(
            (|v: TransactionEventDbV| v.service_id == sid && v.event_status == st),
        ).contains(s[j]@),
{
    let m = s.map_values(|e: TransactionEventDb| e@);
    let pred = |v: TransactionEventDbV| v.service_id == sid && v.event_status == st;
    assert(m[j] == s[j]@);
    assert(pred(m[j]));
    m.lemma_filter_contains(pred, j);
}

/// The token twin of `lemma_event_searchable`.
pub proof fn lemma_token_event_searchable(
    s: Seq<TokenTransactionEventDb>,
    j: int,
    sid: int,
    st: TonEventStatus,
)
    requires
        0 <= j < s.len(),
        s[j].service_id.value == sid,
        s[j].event_status == st,
    ensures
        s.map_values(|e: TokenTransactionEventDb| e@).filter(
            (|v: TokenTransactionEventDbV| v.service_id == sid && v.event_status == st),
        ).contains(s[j]@),
{
    let m = s.map_values(|e: TokenTransactionEventDb| e@);
    let pred = |v: TokenTransactionEventDbV| v.service_id == sid && v.event_status == st;
    assert(m[j] == s[j]@);
    assert(pred(m[j]));
    m.lemma_filter_contains(pred, j);
}

} // verus!
