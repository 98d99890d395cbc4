//! Pending message queue: correlates an outbound ledger message, keyed by
//! account and message hash, with its eventual confirmation or timeout.
//!
//! Each registered entry owns a completion handle (an identifier the caller
//! pairs with a single-resolution channel). An entry is removed exactly when
//! it is resolved, so every handle is fulfilled at most once: `resolve`
//! removes the matching entry and is a no-op on an absent key, and
//! `sweep_expired` fulfills precisely the entries whose deadline has passed.

use vstd::prelude::*;

use crate::models::AccountAddress;
use crate::models::MessageStatus;

verus! {

/// A message submitted for broadcast, awaiting confirmation or expiration.
pub struct PendingMessage {
    pub account: AccountAddress,
    pub message_hash: String,
    pub expire_at: u32,
    pub handle: u64,
}

impl PendingMessage {
    /// Whether this entry is keyed by the given account and message hash.
    pub open spec fn matches_key(&self, wc: int, hex: Seq<char>, hash: Seq<char>) -> bool {
        self.account.workchain_id == wc && self.account.hex@ == hex && self.message_hash@
            == hash
    }
}

/// Two entries share the same (account, message hash) key.
pub open spec fn same_key(a: PendingMessage, b: PendingMessage) -> bool {
    a.matches_key(b.account.workchain_id as int, b.account.hex@, b.message_hash@)
}

/// Some unresolved entry with the given key exists.
pub open spec fn has_pending(s: Seq<PendingMessage>, wc: int, hex: Seq<char>, hash: Seq<char>) -> bool {
    exists|i: int| 0 <= i < s.len() && (#[trigger] s[i]).matches_key(wc, hex, hash)
}

/// No two entries share a key or a completion handle.
pub open spec fn entries_distinct(s: Seq<PendingMessage>) -> bool {
    forall|i: int, j: int|
        #![trigger s[i], s[j]]
        0 <= i < j < s.len() ==> !same_key(s[i], s[j]) && s[i].handle != s[j].handle
}

/// Every handle in the queue was drawn below the given bound.
pub open spec fn handles_below(s: Seq<PendingMessage>, h: u64) -> bool {
    forall|i: int| 0 <= i < s.len() ==> (#[trigger] s[i]).handle < h
}

/// Failure of `add_message`.
#[derive(Clone, Copy, Debug, PartialEq, Eq, Structural)]
pub enum PendingMessageError {
    /// An unresolved entry already exists for the same (account, hash) pair.
    DuplicateEntry,
}

/// A terminal resolution to deliver through a completion handle.
#[derive(Clone, Copy, Debug, PartialEq, Eq, Structural)]
pub struct ResolvedEntry {
    pub handle: u64,
    pub status: MessageStatus,
}

/// The set of unresolved pending sends, with a counter for fresh handles.
pub struct PendingMessagesQueue {
    pub entries: Vec<PendingMessage>,
    pub next_handle: u64,
}

impl PendingMessagesQueue {
    /// Key uniqueness and handle freshness; established by `new` and kept by
    /// every operation.
    pub open spec fn wf(&self) -> bool {
        entries_distinct(self.entries@) && handles_below(self.entries@, self.next_handle)
    }

    pub fn new() -> (r: Self)
        ensures
            r.wf(),
            r.entries@.len() == 0,
            r.next_handle == 0,
    {
        PendingMessagesQueue { entries: Vec::new(), next_handle: 0 }
    }

    /// Whether an unresolved entry for the pair is currently registered.
    pub fn has_entry(&self, account: &AccountAddress, message_hash: &String) -> (r: bool)
        ensures
            r == has_pending(
                self.entries@,
                account.workchain_id as int,
                account.hex@,
                message_hash@,
            ),
    {
        let mut i: usize = 0;
        while i < self.entries.len()
            invariant
                i <= self.entries@.len(),
                forall|k: int|
                    0 <= k < i ==> !(#[trigger] self.entries@[k]).matches_key(
                        account.workchain_id as int,
                        account.hex@,
                        message_hash@,
                    ),
            decreases self.entries@.len() - i,
        {
            let e = &self.entries[i];
            if e.account.workchain_id == account.workchain_id && e.account.hex == account.hex
                && e.message_hash == *message_hash {
                return true;
            }
            i = i + 1;
        }
        false
    }

    /// Registers a new pending send; fails when the pair is already pending.
    /// On success the returned handle is fresh: it never names an earlier
    /// entry of this queue.
    pub fn add_message(
        &mut self,
        account: AccountAddress,
        message_hash: String,
        expire_at: u32,
    ) -> (r: Result<u64, PendingMessageError>)
        requires
            old(self).wf(),
            old(self).next_handle < u64::MAX,
        ensures
            final(self).wf(),
            r is Err <==> has_pending(
                old(self).entries@,
                account.workchain_id as int,
                account.hex@,
                message_hash@,
            ),
            r is Err ==> r == Err::<u64, PendingMessageError>(PendingMessageError::DuplicateEntry)
                && final(self).entries@ == old(self).entries@ && final(self).next_handle == old(self).next_handle,
            r is Ok ==> r == Ok::<u64, PendingMessageError>(old(self).next_handle)
                && final(self).next_handle == old(self).next_handle + 1 && final(self).entries@ == old(self).entries@.push(
                (PendingMessage {
                    account,
                    message_hash,
                    expire_at,
                    handle: old(self).next_handle,
                }),
            ),
    {
        let mut i: usize = 0;
        while i < self.entries.len()
            invariant
                old(self).wf(),
                old(self).next_handle < u64::MAX,
                i <= self.entries@.len(),
                self.entries@ == old(self).entries@,
                self.next_handle == old(self).next_handle,
                forall|k: int|
                    0 <= k < i ==> !(#[trigger] self.entries@[k]).matches_key(
                        account.workchain_id as int,
                        account.hex@,
                        message_hash@,
                    ),
            decreases self.entries@.len() - i,
        {
            let e = &self.entries[i];
            if e.account.workchain_id == account.workchain_id && e.account.hex == account.hex
                && e.message_hash == message_hash {
                return Err(PendingMessageError::DuplicateEntry);
            }
            i = i + 1;
        }
        let handle = self.next_handle;
        let entry = PendingMessage { account, message_hash, expire_at, handle };
        self.entries.push(entry);
        self.next_handle = self.next_handle + 1;
        proof {
            let s = self.entries@;
            let n = s.len() - 1;
            assert forall|a: int, b: int|
                #![trigger s[a], s[b]]
                0 <= a < b < s.len() implies !same_key(s[a], s[b]) && s[a].handle
                != s[b].handle by {
                if b < n {
                    assert(s[a] == old(self).entries@[a]);
                    assert(s[b] == old(self).entries@[b]);
                } else {
                    assert(s[a] == old(self).entries@[a]);
                    assert(!old(self).entries@[a].matches_key(
                        account.workchain_id as int,
                        account.hex@,
                        message_hash@,
                    ));
                }
            }
        }
        Ok(handle)
    }

    /// Resolves the entry for the pair, handing back its completion handle
    /// paired with the given terminal status; a no-op when no entry matches
    /// (idempotent against duplicate confirmations). Afterwards the pair is
    /// never pending, so the same pair may be registered again.
    pub fn resolve(
        &mut self,
        account: &AccountAddress,
        message_hash: &String,
        status: MessageStatus,
    ) -> (r: Option<ResolvedEntry>)
        requires
            old(self).wf(),
        ensures
            final(self).wf(),
            final(self).next_handle == old(self).next_handle,
            !has_pending(
                final(self).entries@,
                account.workchain_id as int,
                account.hex@,
                message_hash@,
            ),
            r is Some <==> has_pending(
                old(self).entries@,
                account.workchain_id as int,
                account.hex@,
                message_hash@,
            ),
            r is None ==> final(self).entries@ == old(self).entries@,
            r is Some ==> r->0.status == status && exists|i: int|
                0 <= i < old(self).entries@.len() && (#[trigger] old(self).entries@[i]).matches_key(
                    account.workchain_id as int,
                    account.hex@,
                    message_hash@,
                ) && r->0.handle == old(self).entries@[i].handle && final(self).entries@ == old(self).entries@.remove(i),
    {
        let ghost wc = account.workchain_id as int;
        let ghost hex = account.hex@;
        let ghost hash = message_hash@;
        let mut i: usize = 0;
        while i < self.entries.len()
            invariant
                old(self).wf(),
                wc == account.workchain_id as int,
                hex == account.hex@,
                hash == message_hash@,
                i <= self.entries@.len(),
                self.entries@ == old(self).entries@,
                self.next_handle == old(self).next_handle,
                forall|k: int|
                    0 <= k < i ==> !(#[trigger] self.entries@[k]).matches_key(wc, hex, hash),
            decreases self.entries@.len() - i,
        {
            let e = &self.entries[i];
            if e.account.workchain_id == account.workchain_id && e.account.hex == account.hex
                && e.message_hash == *message_hash {
                proof {
                    assert(self.entries@[i as int].account.workchain_id == wc);
                    assert(self.entries@[i as int].account.hex@ == hex);
                    assert(self.entries@[i as int].message_hash@ == hash);
                }
                let removed = self.entries.remove(i);
                proof {
                    let idx = i as int;
                    let s_old = old(self).entries@;
                    let s_new = self.entries@;
                    assert(s_old[idx].matches_key(wc, hex, hash));
                    s_old.remove_ensures(idx);
                    assert forall|k: int| 0 <= k < s_new.len() implies #[trigger] s_new[k] == s_old[
                        if k < idx {
                            k
                        } else {
                            k + 1
                        }
                    ] by {
                        if k < idx {
                            assert(s_old.remove(idx)[k] == s_old[k]);
                        } else {
                            assert(s_old.remove(idx)[k] == s_old[k + 1]);
                        }
                    }
                    assert forall|a: int, b: int|
                        #![trigger s_new[a], s_new[b]]
                        0 <= a < b < s_new.len() implies !same_key(s_new[a], s_new[b])
                        && s_new[a].handle != s_new[b].handle by {
                        let a0 = if a < idx { a } else { a + 1 };
                        let b0 = if b < idx { b } else { b + 1 };
                        assert(s_new[a] == s_old[a0]);
                        assert(s_new[b] == s_old[b0]);
                        assert(!same_key(s_old[a0], s_old[b0]) && s_old[a0].handle
                            != s_old[b0].handle);
                    }
                    assert forall|k: int| 0 <= k < s_new.len() implies !(#[trigger] s_new[k]).matches_key(
                        wc,
                        hex,
                        hash,
                    ) by {
                        let k0 = if k < idx { k } else { k + 1 };
                        assert(s_new[k] == s_old[k0]);
                        if s_old[k0].matches_key(wc, hex, hash) {
                            if k0 < idx {
                                assert(!same_key(s_old[k0], s_old[idx]));
                                assert(same_key(s_old[k0], s_old[idx]));
                            } else {
                                assert(!same_key(s_old[idx], s_old[k0]));
                                assert(same_key(s_old[idx], s_old[k0]));
                            }
                        }
                    }
                    assert forall|k: int| 0 <= k < s_new.len() implies (#[trigger] s_new[k]).handle
                        < self.next_handle by {
                        let k0 = if k < idx { k } else { k + 1 };
                        assert(s_new[k] == s_old[k0]);
                        assert(s_old[k0].handle < old(self).next_handle);
                    }
                }
                return Some(ResolvedEntry { handle: removed.handle, status });
            }
            i = i + 1;
        }
        None
    }
}

/// Entries surviving a filter keep key and handle distinctness, since the
/// filtered sequence only holds elements of the sequence it came from.
proof fn lemma_filter_keeps_distinct(s: Seq<PendingMessage>, pred: spec_fn(PendingMessage) -> bool)
    requires
        entries_distinct(s),
    ensures
        entries_distinct(s.filter(pred)),
        forall|k: int| 0 <= k < s.filter(pred).len() ==> s.contains(#[trigger] s.filter(pred)[k]),
    decreases s.len(),
{
    reveal(Seq::filter);
    if s.len() == 0 {
    } else {
        let rest = s.drop_last();
        assert(entries_distinct(rest)) by {
            assert forall|a: int, b: int|
                #![trigger rest[a], rest[b]]
                0 <= a < b < rest.len() implies !same_key(rest[a], rest[b]) && rest[a].handle
                != rest[b].handle by {
                assert(rest[a] == s[a]);
                assert(rest[b] == s[b]);
            }
        }
        lemma_filter_keeps_distinct(rest, pred);
        let fr = rest.filter(pred);
        assert forall|k: int| 0 <= k < fr.len() implies s.contains(#[trigger] fr[k]) by {
            assert(rest.contains(fr[k]));
            let m = choose|m: int| 0 <= m < rest.len() && rest[m] == fr[k];
            assert(s[m] == fr[k]);
        }
        if pred(s.last()) {
            let f = s.filter(pred);
            assert(f == fr.push(s.last()));
            assert forall|a: int, b: int|
                #![trigger f[a], f[b]]
                0 <= a < b < f.len() implies !same_key(f[a], f[b]) && f[a].handle
                != f[b].handle by {
                if b < f.len() - 1 {
                    assert(f[a] == fr[a]);
                    assert(f[b] == fr[b]);
                } else {
                    assert(f[a] == fr[a]);
                    assert(f[b] == s.last());
                    assert(rest.contains(fr[a]));
                    let m = choose|m: int| 0 <= m < rest.len() && rest[m] == fr[a];
                    assert(s[m] == fr[a]);
                    assert(!same_key(s[m], s[s.len() - 1]) && s[m].handle != s[s.len()
                        - 1].handle);
                }
            }
            assert(s.contains(s.last()));
        }
    }
}

impl PendingMessagesQueue {
    /// Resolves as `Expired` exactly the entries whose deadline has passed:
    /// an entry is swept only when `now` has reached its `expire_at`, and
    /// every remaining entry is strictly younger than `now`'s sweep.
    pub fn sweep_expired(&mut self, now: u32) -> (r: Vec<ResolvedEntry>)
        requires
            old(self).wf(),
        ensures
            final(self).wf(),
            final(self).next_handle == old(self).next_handle,
            final(self).entries@ == old(self).entries@.filter(|e: PendingMessage| e.expire_at > now),
            r@ == old(self).entries@.filter(|e: PendingMessage| e.expire_at <= now).map_values(
                |e: PendingMessage| (ResolvedEntry { handle: e.handle, status: MessageStatus::Expired }),
            ),
            forall|k: int|
                0 <= k < final(self).entries@.len() ==> (#[trigger] final(self).entries@[k]).expire_at > now,
            forall|k: int|
                0 <= k < r@.len() ==> (#[trigger] r@[k]).status == MessageStatus::Expired,
    {
        let ghost orig = old(self).entries@;
        let ghost live = |e: PendingMessage| e.expire_at > now;
        let ghost dead = |e: PendingMessage| e.expire_at <= now;
        let mut olds: Vec<PendingMessage> = Vec::new();
        core::mem::swap(&mut olds, &mut self.entries);
        let mut fired: Vec<ResolvedEntry> = Vec::new();
        let ghost total = orig.len();
        proof {
            assert(orig.subrange(0, 0int) =~= Seq::<PendingMessage>::empty());
            assert(Seq::<PendingMessage>::empty().filter(live) =~= Seq::<
                PendingMessage,
            >::empty()) by {
                reveal(Seq::filter);
            }
            assert(Seq::<PendingMessage>::empty().filter(dead) =~= Seq::<
                PendingMessage,
            >::empty()) by {
                reveal(Seq::filter);
            }
        }
        while olds.len() > 0
            invariant
                old(self).wf(),
                olds@.len() <= total,
                orig == old(self).entries@,
                orig.len() == total,
                live == (|e: PendingMessage| e.expire_at > now),
                dead == (|e: PendingMessage| e.expire_at <= now),
                olds@ == orig.subrange(total - olds@.len(), total as int),
                self.entries@ == orig.subrange(0, total - olds@.len()).filter(live),
                fired@ == orig.subrange(0, total - olds@.len()).filter(dead).map_values(
                    |e: PendingMessage| (ResolvedEntry {
                        handle: e.handle,
                        status: MessageStatus::Expired,
                    }),
                ),
                self.next_handle == old(self).next_handle,
            decreases olds@.len(),
        {
            let ghost i = total - olds@.len();
            let e = olds.remove(0);
            proof {
                assert(olds@ =~= orig.subrange(i + 1, total as int));
                assert(e == orig[i]);
                let pre = orig.subrange(0, i);
                let post = orig.subrange(0, i + 1);
                assert(post =~= pre + seq![orig[i]]);
                Seq::<PendingMessage>::filter_distributes_over_add(pre, seq![orig[i]], live);
                Seq::<PendingMessage>::filter_distributes_over_add(pre, seq![orig[i]], dead);
                reveal(Seq::filter);
                assert(seq![orig[i]].drop_last() =~= Seq::<PendingMessage>::empty());
            }
            if e.expire_at > now {
                proof {
                    reveal_with_fuel(Seq::filter, 3);
                    assert(live(orig[i]) && !dead(orig[i]));
                    assert(seq![orig[i]].filter(live) =~= seq![orig[i]]);
                    assert(seq![orig[i]].filter(dead) =~= Seq::<PendingMessage>::empty());
                    assert(orig.subrange(0, i + 1).filter(dead) =~= orig.subrange(0, i).filter(
                        dead,
                    ));
                }
                self.entries.push(e);
                proof {
                    assert(self.entries@ =~= orig.subrange(0, i + 1).filter(live));
                }
            } else {
                proof {
                    reveal_with_fuel(Seq::filter, 3);
                    assert(dead(orig[i]) && !live(orig[i]));
                    assert(seq![orig[i]].filter(dead) =~= seq![orig[i]]);
                    assert(seq![orig[i]].filter(live) =~= Seq::<PendingMessage>::empty());
                    assert(orig.subrange(0, i + 1).filter(live) =~= orig.subrange(0, i).filter(
                        live,
                    ));
                }
                let handle = e.handle;
                fired.push(ResolvedEntry { handle, status: MessageStatus::Expired });
                proof {
                    assert(fired@ =~= orig.subrange(0, i + 1).filter(dead).map_values(
                        |e: PendingMessage| (ResolvedEntry {
                            handle: e.handle,
                            status: MessageStatus::Expired,
                        }),
                    ));
                }
            }
        }
        proof {
            assert(orig.subrange(0, total as int) =~= orig);
            lemma_filter_keeps_distinct(orig, live);
            let f = orig.filter(live);
            assert forall|k: int| 0 <= k < f.len() implies (#[trigger] f[k]).handle < old(self).next_handle by {
                assert(orig.contains(f[k]));
                let m = choose|m: int| 0 <= m < orig.len() && orig[m] == f[k];
                assert(orig[m].handle < old(self).next_handle);
            }
            assert forall|k: int| 0 <= k < f.len() implies (#[trigger] f[k]).expire_at > now by {
                Seq::lemma_filter_pred(orig, live, k);
            }
            assert forall|k: int| 0 <= k < fired@.len() implies (#[trigger] fired@[k]).status
                == MessageStatus::Expired by {
                let d = orig.filter(dead);
                assert(fired@[k] == (ResolvedEntry {
                    handle: d[k].handle,
                    status: MessageStatus::Expired,
                }));
            }
        }
        fired
    }
}

/// A (account, hash) pair has at most one outstanding entry in a
/// well-formed queue, so a pending send is resolved at most once: `resolve`
/// removes the single entry it fulfills and returns `None` ever after, and
/// `sweep_expired` removes every entry it fulfills.
pub proof fn lemma_at_most_one_pending(
    q: PendingMessagesQueue,
    wc: int,
    hex: Seq<char>,
    hash: Seq<char>,
)
    requires
        q.wf(),
    ensures
        forall|i: int, j: int|
            #![trigger q.entries@[i], q.entries@[j]]
            0 <= i < j < q.entries@.len() ==> !(q.entries@[i].matches_key(wc, hex, hash)
                && q.entries@[j].matches_key(wc, hex, hash)),
{
    assert forall|i: int, j: int|
        #![trigger q.entries@[i], q.entries@[j]]
        0 <= i < j < q.entries@.len() implies !(q.entries@[i].matches_key(wc, hex, hash)
        && q.entries@[j].matches_key(wc, hex, hash)) by {
        if q.entries@[i].matches_key(wc, hex, hash) && q.entries@[j].matches_key(wc, hex, hash) {
            assert(same_key(q.entries@[i], q.entries@[j]));
        }
    }
}

} // verus!
