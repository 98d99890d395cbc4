//! In-memory model of the persistent store: one vector per table, with the
//! uniqueness constraints the schema enforces. The orchestration layer reads
//! and writes records only through the operations of `service`, which keep
//! every invariant stated here.

use vstd::prelude::*;

use crate::models::AddressDb;
use crate::models::ApiServiceCallbackDb;
use crate::models::TokenBalanceFromDb;
use crate::models::TokenTransactionEventDb;
use crate::models::TokenTransactionFromDb;
use crate::models::TokenWhitelistFromDb;
use crate::models::TransactionDb;
use crate::models::TransactionEventDb;

verus! {

/// The transaction is keyed by (service, message hash, account).
pub open spec fn tx_match(t: TransactionDb, sid: int, mh: Seq<char>, wc: int, hex: Seq<char>) -> bool {
    t.service_id.value == sid && t.message_hash@ == mh && t.account_workchain_id == wc
        && t.account_hex@ == hex
}

pub open spec fn has_tx(s: Seq<TransactionDb>, sid: int, mh: Seq<char>, wc: int, hex: Seq<char>) -> bool {
    exists|i: int| 0 <= i < s.len() && tx_match(#[trigger] s[i], sid, mh, wc, hex)
}

/// Unique ids and unique (service, message hash, account) keys.
pub open spec fn txs_distinct(s: Seq<TransactionDb>) -> bool {
    forall|i: int, j: int|
        #![trigger s[i], s[j]]
        0 <= i < j < s.len() ==> s[i].id != s[j].id && !tx_match(
            s[i],
            s[j].service_id.value as int,
            s[j].message_hash@,
            s[j].account_workchain_id as int,
            s[j].account_hex@,
        )
}

pub open spec fn tx_ids_below(s: Seq<TransactionDb>, b: u64) -> bool {
    forall|i: int| 0 <= i < s.len() ==> (#[trigger] s[i]).id < b
}

/// The event is keyed by (service, message hash, account).
pub open spec fn ev_match(e: TransactionEventDb, sid: int, mh: Seq<char>, wc: int, hex: Seq<char>) -> bool {
    e.service_id.value == sid && e.message_hash@ == mh && e.account_workchain_id == wc
        && e.account_hex@ == hex
}

pub open spec fn has_ev(s: Seq<TransactionEventDb>, sid: int, mh: Seq<char>, wc: int, hex: Seq<char>) -> bool {
    exists|i: int| 0 <= i < s.len() && ev_match(#[trigger] s[i], sid, mh, wc, hex)
}

pub open spec fn evs_distinct(s: Seq<TransactionEventDb>) -> bool {
    forall|i: int, j: int|
        #![trigger s[i], s[j]]
        0 <= i < j < s.len() ==> s[i].id != s[j].id
}

pub open spec fn ev_ids_below(s: Seq<TransactionEventDb>, b: u64) -> bool {
    forall|i: int| 0 <= i < s.len() ==> (#[trigger] s[i]).id < b
}

/// The token transaction is keyed by (service, message hash, account, root).
pub open spec fn ttx_match(
    t: TokenTransactionFromDb,
    sid: int,
    mh: Seq<char>,
    wc: int,
    hex: Seq<char>,
    root: Seq<char>,
) -> bool {
    t.service_id.value == sid && t.message_hash@ == mh && t.account_workchain_id == wc
        && t.account_hex@ == hex && t.root_address@ == root
}

pub open spec fn has_ttx(
    s: Seq<TokenTransactionFromDb>,
    sid: int,
    mh: Seq<char>,
    wc: int,
    hex: Seq<char>,
    root: Seq<char>,
) -> bool {
    exists|i: int| 0 <= i < s.len() && ttx_match(#[trigger] s[i], sid, mh, wc, hex, root)
}

pub open spec fn ttxs_distinct(s: Seq<TokenTransactionFromDb>) -> bool {
    forall|i: int, j: int|
        #![trigger s[i], s[j]]
        0 <= i < j < s.len() ==> s[i].id != s[j].id && !ttx_match(
            s[i],
            s[j].service_id.value as int,
            s[j].message_hash@,
            s[j].account_workchain_id as int,
            s[j].account_hex@,
            s[j].root_address@,
        )
}

pub open spec fn ttx_ids_below(s: Seq<TokenTransactionFromDb>, b: u64) -> bool {
    forall|i: int| 0 <= i < s.len() ==> (#[trigger] s[i]).id < b
}

/// The token event is keyed by (service, message hash, account, root).
pub open spec fn tev_match(
    e: TokenTransactionEventDb,
    sid: int,
    mh: Seq<char>,
    wc: int,
    hex: Seq<char>,
    root: Seq<char>,
) -> bool {
    e.service_id.value == sid && e.message_hash@ == mh && e.account_workchain_id == wc
        && e.account_hex@ == hex && e.root_address@ == root
}

pub open spec fn has_tev(
    s: Seq<TokenTransactionEventDb>,
    sid: int,
    mh: Seq<char>,
    wc: int,
    hex: Seq<char>,
    root: Seq<char>,
) -> bool {
    exists|i: int| 0 <= i < s.len() && tev_match(#[trigger] s[i], sid, mh, wc, hex, root)
}

pub open spec fn tevs_distinct(s: Seq<TokenTransactionEventDb>) -> bool {
    forall|i: int, j: int|
        #![trigger s[i], s[j]]
        0 <= i < j < s.len() ==> s[i].id != s[j].id
}

pub open spec fn tev_ids_below(s: Seq<TokenTransactionEventDb>, b: u64) -> bool {
    forall|i: int| 0 <= i < s.len() ==> (#[trigger] s[i]).id < b
}

/// The address row is keyed by (workchain, hex) alone: it resolves an
/// observed account to its owning tenant.
pub open spec fn addr_match(a: AddressDb, wc: int, hex: Seq<char>) -> bool {
    a.workchain_id == wc && a.hex@ == hex
}

pub open spec fn has_addr(s: Seq<AddressDb>, wc: int, hex: Seq<char>) -> bool {
    exists|i: int| 0 <= i < s.len() && addr_match(#[trigger] s[i], wc, hex)
}

pub open spec fn addrs_distinct(s: Seq<AddressDb>) -> bool {
    forall|i: int, j: int|
        #![trigger s[i], s[j]]
        0 <= i < j < s.len() ==> !addr_match(
            s[i],
            s[j].workchain_id as int,
            s[j].hex@,
        )
}

pub open spec fn addr_ids_below(s: Seq<AddressDb>, b: u64) -> bool {
    forall|i: int| 0 <= i < s.len() ==> (#[trigger] s[i]).id < b
}

/// At most one webhook endpoint per tenant.
pub open spec fn cb_match(c: ApiServiceCallbackDb, sid: int) -> bool {
    c.service_id.value == sid
}

pub open spec fn has_cb(s: Seq<ApiServiceCallbackDb>, sid: int) -> bool {
    exists|i: int| 0 <= i < s.len() && cb_match(#[trigger] s[i], sid)
}

pub open spec fn cbs_distinct(s: Seq<ApiServiceCallbackDb>) -> bool {
    forall|i: int, j: int|
        #![trigger s[i], s[j]]
        0 <= i < j < s.len() ==> !cb_match(s[i], s[j].service_id.value as int)
}

/// The token balance row is keyed by (account, root): it resolves an
/// observed token account to its owning tenant.
pub open spec fn bal_match(b: TokenBalanceFromDb, wc: int, hex: Seq<char>, root: Seq<char>) -> bool {
    b.account_workchain_id == wc && b.account_hex@ == hex && b.root_address@ == root
}

pub open spec fn has_bal(s: Seq<TokenBalanceFromDb>, wc: int, hex: Seq<char>, root: Seq<char>) -> bool {
    exists|i: int| 0 <= i < s.len() && bal_match(#[trigger] s[i], wc, hex, root)
}

pub open spec fn bals_distinct(s: Seq<TokenBalanceFromDb>) -> bool {
    forall|i: int, j: int|
        #![trigger s[i], s[j]]
        0 <= i < j < s.len() ==> !bal_match(
            s[i],
            s[j].account_workchain_id as int,
            s[j].account_hex@,
            s[j].root_address@,
        )
}

/// The tenant owning the address row with the given key.
pub open spec fn addr_service_sid(s: Seq<AddressDb>, wc: int, hex: Seq<char>) -> crate::models::ServiceId {
    let i = choose|i: int| 0 <= i < s.len() && addr_match(#[trigger] s[i], wc, hex);
    s[i].service_id
}

/// The tenant owning the token balance row with the given key.
pub open spec fn bal_service_sid(
    s: Seq<TokenBalanceFromDb>,
    wc: int,
    hex: Seq<char>,
    root: Seq<char>,
) -> crate::models::ServiceId {
    let i = choose|i: int| 0 <= i < s.len() && bal_match(#[trigger] s[i], wc, hex, root);
    s[i].service_id
}

/// Replacing a transaction with one of equal id and key keeps the table's
/// constraints.
pub proof fn lemma_txs_update_keeps(s: Seq<TransactionDb>, i: int, x: TransactionDb, b: u64)
    requires
        txs_distinct(s),
        tx_ids_below(s, b),
        0 <= i < s.len(),
        x.id == s[i].id,
        x.service_id == s[i].service_id,
        x.message_hash@ == s[i].message_hash@,
        x.account_workchain_id == s[i].account_workchain_id,
        x.account_hex@ == s[i].account_hex@,
    ensures
        txs_distinct(s.update(i, x)),
        tx_ids_below(s.update(i, x), b),
{
    let s2 = s.update(i, x);
    assert forall|a: int, c: int|
        #![trigger s2[a], s2[c]]
        0 <= a < c < s2.len() implies s2[a].id != s2[c].id && !tx_match(
        s2[a],
        s2[c].service_id.value as int,
        s2[c].message_hash@,
        s2[c].account_workchain_id as int,
        s2[c].account_hex@,
    ) by {
        assert(s[a].id != s[c].id && !tx_match(
            s[a],
            s[c].service_id.value as int,
            s[c].message_hash@,
            s[c].account_workchain_id as int,
            s[c].account_hex@,
        ));
    }
    assert forall|k: int| 0 <= k < s2.len() implies (#[trigger] s2[k]).id < b by {
        assert(s[k].id < b);
    }
}

/// Replacing an event with one of equal id and key keeps the table's
/// constraints.
pub proof fn lemma_evs_update_keeps(s: Seq<TransactionEventDb>, i: int, x: TransactionEventDb, b: u64)
    requires
        evs_distinct(s),
        ev_ids_below(s, b),
        0 <= i < s.len(),
        x.id == s[i].id,
        x.service_id == s[i].service_id,
        x.message_hash@ == s[i].message_hash@,
        x.account_workchain_id == s[i].account_workchain_id,
        x.account_hex@ == s[i].account_hex@,
    ensures
        evs_distinct(s.update(i, x)),
        ev_ids_below(s.update(i, x), b),
{
    let s2 = s.update(i, x);
    assert forall|a: int, c: int|
        #![trigger s2[a], s2[c]]
        0 <= a < c < s2.len() implies s2[a].id != s2[c].id by {
        assert(s[a].id != s[c].id);
    }
    assert forall|k: int| 0 <= k < s2.len() implies (#[trigger] s2[k]).id < b by {
        assert(s[k].id < b);
    }
}

/// Replacing a token transaction with one of equal id and key keeps the
/// table's constraints.
pub proof fn lemma_ttxs_update_keeps(
    s: Seq<TokenTransactionFromDb>,
    i: int,
    x: TokenTransactionFromDb,
    b: u64,
)
    requires
        ttxs_distinct(s),
        ttx_ids_below(s, b),
        0 <= i < s.len(),
        x.id == s[i].id,
        x.service_id == s[i].service_id,
        x.message_hash@ == s[i].message_hash@,
        x.account_workchain_id == s[i].account_workchain_id,
        x.account_hex@ == s[i].account_hex@,
        x.root_address@ == s[i].root_address@,
    ensures
        ttxs_distinct(s.update(i, x)),
        ttx_ids_below(s.update(i, x), b),
{
    let s2 = s.update(i, x);
    assert forall|a: int, c: int|
        #![trigger s2[a], s2[c]]
        0 <= a < c < s2.len() implies s2[a].id != s2[c].id && !ttx_match(
        s2[a],
        s2[c].service_id.value as int,
        s2[c].message_hash@,
        s2[c].account_workchain_id as int,
        s2[c].account_hex@,
        s2[c].root_address@,
    ) by {
        assert(s[a].id != s[c].id && !ttx_match(
            s[a],
            s[c].service_id.value as int,
            s[c].message_hash@,
            s[c].account_workchain_id as int,
            s[c].account_hex@,
            s[c].root_address@,
        ));
    }
    assert forall|k: int| 0 <= k < s2.len() implies (#[trigger] s2[k]).id < b by {
        assert(s[k].id < b);
    }
}

/// Replacing a token event with one of equal id and key keeps the table's
/// constraints.
pub proof fn lemma_tevs_update_keeps(
    s: Seq<TokenTransactionEventDb>,
    i: int,
    x: TokenTransactionEventDb,
    b: u64,
)
    requires
        tevs_distinct(s),
        tev_ids_below(s, b),
        0 <= i < s.len(),
        x.id == s[i].id,
        x.service_id == s[i].service_id,
        x.message_hash@ == s[i].message_hash@,
        x.account_workchain_id == s[i].account_workchain_id,
        x.account_hex@ == s[i].account_hex@,
        x.root_address@ == s[i].root_address@,
    ensures
        tevs_distinct(s.update(i, x)),
        tev_ids_below(s.update(i, x), b),
{
    let s2 = s.update(i, x);
    assert forall|a: int, c: int|
        #![trigger s2[a], s2[c]]
        0 <= a < c < s2.len() implies s2[a].id != s2[c].id by {
        assert(s[a].id != s[c].id);
    }
    assert forall|k: int| 0 <= k < s2.len() implies (#[trigger] s2[k]).id < b by {
        assert(s[k].id < b);
    }
}

/// The durable source of truth: every in-memory cache can be rebuilt from it.
pub struct Storage {
    pub addresses: Vec<AddressDb>,
    pub callbacks: Vec<ApiServiceCallbackDb>,
    pub transactions: Vec<TransactionDb>,
    pub transaction_events: Vec<TransactionEventDb>,
    pub token_transactions: Vec<TokenTransactionFromDb>,
    pub token_transaction_events: Vec<TokenTransactionEventDb>,
    pub token_balances: Vec<TokenBalanceFromDb>,
    pub token_whitelist: Vec<TokenWhitelistFromDb>,
    pub next_id: u64,
}

/// The tables no transaction operation touches are equal.
pub open spec fn aux_tables_unchanged(a: Storage, b: Storage) -> bool {
    a.addresses@ == b.addresses@ && a.callbacks@ == b.callbacks@ && a.token_balances@
        == b.token_balances@ && a.token_whitelist@ == b.token_whitelist@
}

/// The native transaction tables are equal.
pub open spec fn native_tables_unchanged(a: Storage, b: Storage) -> bool {
    a.transactions@ == b.transactions@ && a.transaction_events@ == b.transaction_events@
}

/// The token transaction tables are equal.
pub open spec fn token_tables_unchanged(a: Storage, b: Storage) -> bool {
    a.token_transactions@ == b.token_transactions@ && a.token_transaction_events@
        == b.token_transaction_events@
}

/// Nothing in the store changed.
pub open spec fn storage_unchanged(a: Storage, b: Storage) -> bool {
    aux_tables_unchanged(a, b) && native_tables_unchanged(a, b) && token_tables_unchanged(a, b)
        && a.next_id == b.next_id
}

impl Storage {
    /// Schema constraints: unique keys per table and fresh ids.
    pub open spec fn wf(&self) -> bool {
        txs_distinct(self.transactions@) && tx_ids_below(self.transactions@, self.next_id)
            && evs_distinct(self.transaction_events@) && ev_ids_below(
            self.transaction_events@,
            self.next_id,
        ) && ttxs_distinct(self.token_transactions@) && ttx_ids_below(
            self.token_transactions@,
            self.next_id,
        ) && tevs_distinct(self.token_transaction_events@) && tev_ids_below(
            self.token_transaction_events@,
            self.next_id,
        ) && addrs_distinct(self.addresses@) && addr_ids_below(self.addresses@, self.next_id)
            && cbs_distinct(self.callbacks@) && bals_distinct(self.token_balances@)
    }

    /// An empty store.
    pub fn new() -> (r: Storage)
        ensures
            r.wf(),
            r.addresses@.len() == 0,
            r.callbacks@.len() == 0,
            r.transactions@.len() == 0,
            r.transaction_events@.len() == 0,
            r.token_transactions@.len() == 0,
            r.token_transaction_events@.len() == 0,
            r.token_balances@.len() == 0,
            r.token_whitelist@.len() == 0,
            r.next_id == 0,
    {
        Storage {
            addresses: Vec::new(),
            callbacks: Vec::new(),
            transactions: Vec::new(),
            transaction_events: Vec::new(),
            token_transactions: Vec::new(),
            token_transaction_events: Vec::new(),
            token_balances: Vec::new(),
            token_whitelist: Vec::new(),
            next_id: 0,
        }
    }
}

} // verus!
