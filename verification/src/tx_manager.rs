//! The transaction cache: a bounded mapping from each calling actor to its
//! single in-flight transaction id and action fingerprint.
//!
//! A `New` action takes a fresh id from the nonce, evicting the oldest
//! cached transaction when the cache is full; a `Retry` reconnects the actor
//! to its cached id provided the fingerprint matches. A guard borrowed for
//! one workflow invocation issues deterministic step ids for sub-calls, and
//! releasing it purges the transaction from both maps.

use vstd::prelude::*;
use crate::actor::ActorId;
use crate::io::{CachedAction, TransactionCacheError, TransactionKind};
use crate::omap::OrderedMap;

verus! {

/// The capacity bound of the transaction cache.
pub const MAX_NUMBER_OF_TXS: usize = 65536;

/// `2^64`, for the wrapping id arithmetic.
pub open spec fn pow2_64() -> int {
    0x10000000000000000int
}

pub struct TransactionManager {
    /// Transaction ids mapped to the actor that owns them, ordered by id so
    /// that eviction can pick the oldest.
    pub txs_for_actor: OrderedMap<ActorId>,
    /// Each actor's live transaction id and cached fingerprint, keyed by the
    /// actor's identity value.
    pub actors_for_tx: OrderedMap<(u64, CachedAction)>,
    /// The id generator; advances by 255 per transaction, wrapping, so that
    /// every transaction owns a block of 256 step ids.
    pub tx_id_nonce: u64,
}

/// A scoped handle over one admitted transaction. It issues the step ids for
/// the workflow's sub-calls; handing it back to
/// [`TransactionManager::release`] purges the cache entry.
#[derive(Debug)]
pub struct TransactionGuard {
    pub msg_source: ActorId,
    pub tx_id: u64,
    pub step: u8,
}

impl TransactionGuard {
    /// The next sub-call id, `transaction_id + step` (wrapping); at most 256
    /// steps may be issued within one workflow invocation.
    pub fn step(&mut self) -> (r: Result<u64, TransactionCacheError>)
        ensures
            old(self).step == 255 ==> r == Err::<u64, TransactionCacheError>(
                TransactionCacheError::StepOverflow,
            ) && *final(self) == *old(self),
            old(self).step < 255 ==> r == Ok::<u64, TransactionCacheError>(
                (((old(self).tx_id + old(self).step) % pow2_64()) as u64),
            ) && final(self).step == old(self).step + 1 && final(self).tx_id == old(self).tx_id
                && final(self).msg_source == old(self).msg_source,
    {
        let step = self.tx_id.wrapping_add(self.step as u64);
        if self.step == 255 {
            Err(TransactionCacheError::StepOverflow)
        } else {
            self.step = self.step + 1;
            Ok(step)
        }
    }
}

impl TransactionManager {
    /// Transaction ids mapped to their owning actor.
    pub open spec fn txs_map(self) -> Map<u64, ActorId> {
        self.txs_for_actor.as_map()
    }

    /// Each actor's live `(transaction id, fingerprint)` entry.
    pub open spec fn actors_map(self) -> Map<u64, (u64, CachedAction)> {
        self.actors_for_tx.as_map()
    }

    pub open spec fn nonce(self) -> u64 {
        self.tx_id_nonce
    }

    /// The nonce after admitting one more transaction.
    pub open spec fn next_nonce(self) -> u64 {
        (((self.tx_id_nonce + 255) % pow2_64()) as u64)
    }

    /// Both maps are sorted and the id map never exceeds the capacity bound.
    pub open spec fn wf(self) -> bool {
        &&& self.txs_for_actor.wf()
        &&& self.actors_for_tx.wf()
        &&& self.txs_for_actor.seq().len() <= MAX_NUMBER_OF_TXS
    }

    /// Admitting one more transaction must evict one first.
    pub open spec fn at_capacity(self) -> bool {
        self.txs_for_actor.seq().len() == MAX_NUMBER_OF_TXS
    }

    /// `k` is the id eviction picks: the smallest id at or after the
    /// advanced nonce, or the smallest id overall when none is.
    pub open spec fn is_eviction_choice(self, k: u64) -> bool {
        let s = self.txs_for_actor.seq();
        let from = self.next_nonce();
        if exists|i: int| 0 <= i < s.len() && s[i].0 >= from {
            k >= from && (forall|i: int| 0 <= i < s.len() && s[i].0 >= from ==> k <= s[i].0)
        } else {
            forall|i: int| 0 <= i < s.len() ==> k <= s[i].0
        }
    }

    /// What a full cache loses when a `New` transaction for `source` with
    /// fingerprint `action` is admitted: the eviction victim `ev` leaves
    /// both maps, then the fresh entry goes in.
    pub open spec fn new_tx_with_eviction(
        pre: TransactionManager,
        post: TransactionManager,
        ev: (u64, ActorId),
        source: ActorId,
        action: CachedAction,
    ) -> bool {
        &&& pre.txs_map().contains_key(ev.0)
        &&& pre.txs_map()[ev.0] == ev.1
        &&& pre.is_eviction_choice(ev.0)
        &&& post.txs_map() == pre.txs_map().remove(ev.0).insert(pre.nonce(), source)
        &&& post.actors_map() == pre.actors_map().remove(ev.1.value).insert(
            source.value,
            (pre.nonce(), action),
        )
        // Unless the wrapped nonce collides with an id that is still cached
        // (the id-order-as-age approximation's boundary), the id map ends
        // exactly at capacity: one entry evicted, one inserted.
        &&& !pre.txs_map().remove(ev.0).contains_key(pre.nonce())
            ==> post.txs_for_actor.seq().len() == MAX_NUMBER_OF_TXS
    }

    /// The admission decision: `New` is always admitted under the current
    /// nonce; `Retry` finds the caller's cached id, provided the fingerprint
    /// matches.
    pub open spec fn spec_admit(
        self,
        kind: TransactionKind,
        source: ActorId,
        fingerprint: CachedAction,
    ) -> Result<u64, TransactionCacheError> {
        match kind {
            TransactionKind::New => Ok(self.nonce()),
            TransactionKind::Retry => {
                if !self.actors_map().contains_key(source.value) {
                    Err(TransactionCacheError::TransactionNotFound)
                } else if self.actors_map()[source.value].1 != fingerprint {
                    Err(TransactionCacheError::MismatchedAction)
                } else {
                    Ok(self.actors_map()[source.value].0)
                }
            },
        }
    }

    /// How admission changes the cache: a retry touches nothing; a new
    /// transaction advances the nonce and inserts the entry, evicting the
    /// oldest one from a full cache.
    pub open spec fn spec_admitted(
        pre: TransactionManager,
        post: TransactionManager,
        kind: TransactionKind,
        source: ActorId,
        fingerprint: CachedAction,
    ) -> bool {
        match kind {
            TransactionKind::Retry => post == pre,
            TransactionKind::New => {
                &&& post.nonce() == pre.next_nonce()
                &&& post.actors_map().contains_key(source.value)
                &&& post.actors_map()[source.value] == (pre.nonce(), fingerprint)
                &&& !pre.at_capacity() ==> post.txs_map() == pre.txs_map().insert(
                    pre.nonce(),
                    source,
                ) && post.actors_map() == pre.actors_map().insert(
                    source.value,
                    (pre.nonce(), fingerprint),
                )
                &&& pre.at_capacity() ==> exists|ev: (u64, ActorId)|
                    Self::new_tx_with_eviction(pre, post, ev, source, fingerprint)
            },
        }
    }

    /// An empty cache with the nonce at zero.
    pub fn new() -> (r: Self)
        ensures
            r.wf(),
            r.txs_map() == Map::<u64, ActorId>::empty(),
            r.actors_map() == Map::<u64, (u64, CachedAction)>::empty(),
            r.txs_for_actor.seq().len() == 0,
            r.actors_for_tx.seq().len() == 0,
            r.nonce() == 0,
    {
        TransactionManager {
            txs_for_actor: OrderedMap::new(),
            actors_for_tx: OrderedMap::new(),
            tx_id_nonce: 0,
        }
    }

    /// Admits an action: `New` allocates a fresh transaction id (evicting
    /// the oldest cached one if the cache is full); `Retry` validates the
    /// action against the caller's cached fingerprint and returns the cached
    /// id. The guard starts with step counter 0 either way.
    pub fn asquire_transaction(
        &mut self,
        kind: TransactionKind,
        msg_source: ActorId,
        check_action: CachedAction,
    ) -> (r: Result<TransactionGuard, TransactionCacheError>)
        requires
            old(self).wf(),
        ensures
            final(self).wf(),
            match old(self).spec_admit(kind, msg_source, check_action) {
                Err(e) => r == Err::<TransactionGuard, TransactionCacheError>(e) && *final(self)
                    == *old(self),
                Ok(tx_id) => r == Ok::<TransactionGuard, TransactionCacheError>(
                    TransactionGuard { msg_source, tx_id, step: 0 },
                ) && Self::spec_admitted(*old(self), *final(self), kind, msg_source, check_action),
            },
    {
        let tx_id = match kind {
            TransactionKind::New => {
                let id = self.tx_id_nonce;
                self.tx_id_nonce = id.wrapping_add(255);
                if self.txs_for_actor.len() == MAX_NUMBER_OF_TXS {
                    let (tx, actor) = match self.txs_for_actor.next_at_or_after(self.tx_id_nonce) {
                        Some(entry) => entry,
                        None => {
                            match self.txs_for_actor.first() {
                                Some(entry) => entry,
                                None => {
                                    // The cache holds MAX_NUMBER_OF_TXS entries here.
                                    proof {
                                        assert(false);
                                    }
                                    (0u64, ActorId { value: 0 })
                                },
                            }
                        },
                    };
                    proof {
                        self.txs_for_actor.lemma_distinct();
                        let i = choose|i: int|
                            0 <= i < self.txs_for_actor.seq().len() && self.txs_for_actor.seq()[i]
                                == (tx, actor);
                        crate::omap::lemma_seq_to_map_index(self.txs_for_actor.seq(), i);
                    }
                    let ghost pre_evict = *self;
                    let removed = self.txs_for_actor.remove(tx);
                    proof {
                        // Exactly one entry left the id sequence.
                        if let Some(v) = removed {
                            let i = choose|i: int|
                                0 <= i < pre_evict.txs_for_actor.seq().len()
                                    && pre_evict.txs_for_actor.seq()[i] == (tx, v)
                                    && self.txs_for_actor.seq()
                                    == pre_evict.txs_for_actor.seq().remove(i);
                            assert(self.txs_for_actor.seq().len()
                                == pre_evict.txs_for_actor.seq().len() - 1);
                        } else {
                            assert(false);
                        }
                    }
                    self.actors_for_tx.remove(actor.value);
                    let ghost ev = (tx, actor);
                    self.txs_for_actor.insert(id, msg_source);
                    self.actors_for_tx.insert(msg_source.value, (id, check_action));
                    proof {
                        assert(Self::new_tx_with_eviction(
                            *old(self),
                            *self,
                            ev,
                            msg_source,
                            check_action,
                        ));
                    }
                } else {
                    self.txs_for_actor.insert(id, msg_source);
                    self.actors_for_tx.insert(msg_source.value, (id, check_action));
                }
                id
            },
            TransactionKind::Retry => {
                match self.actors_for_tx.get(msg_source.value) {
                    None => {
                        return Err(TransactionCacheError::TransactionNotFound);
                    },
                    Some(entry) => {
                        if entry.1 != check_action {
                            return Err(TransactionCacheError::MismatchedAction);
                        }
                        entry.0
                    },
                }
            },
        };
        Ok(TransactionGuard { msg_source, tx_id, step: 0 })
    }

    /// Purges a transaction's entries from both maps, whatever the workflow's
    /// outcome was; afterwards the actor has no cached transaction.
    pub fn release(&mut self, guard: TransactionGuard)
        requires
            old(self).wf(),
        ensures
            final(self).wf(),
            final(self).txs_map() == old(self).txs_map().remove(guard.tx_id),
            final(self).actors_map() == old(self).actors_map().remove(guard.msg_source.value),
            final(self).nonce() == old(self).nonce(),
            !final(self).actors_map().contains_key(guard.msg_source.value),
    {
        self.txs_for_actor.remove(guard.tx_id);
        self.actors_for_tx.remove(guard.msg_source.value);
    }

    /// A read-only snapshot of every cached `(actor, fingerprint)` entry.
    pub fn cached_actions(&self) -> (r: Vec<(ActorId, CachedAction)>)
        ensures
            r@.len() == self.actors_for_tx.seq().len(),
            forall|i: int|
                0 <= i < r@.len() ==> r@[i] == (
                    ActorId { value: self.actors_for_tx.seq()[i].0 },
                    self.actors_for_tx.seq()[i].1.1,
                ),
    {
        let mut r: Vec<(ActorId, CachedAction)> = Vec::new();
        let n = self.actors_for_tx.len();
        let mut i: usize = 0;
        while i < n
            invariant
                i <= n,
                n == self.actors_for_tx.seq().len(),
                r@.len() == i,
                forall|m: int|
                    0 <= m < i ==> r@[m] == (
                        ActorId { value: self.actors_for_tx.seq()[m].0 },
                        self.actors_for_tx.seq()[m].1.1,
                    ),
            decreases n - i,
        {
            let entry = self.actors_for_tx.entry_at(i);
            r.push((ActorId { value: entry.0 }, entry.1.1));
            i = i + 1;
        }
        r
    }
}

impl Default for TransactionManager {
    /// An empty cache with the nonce at zero.
    fn default() -> (r: Self)
        ensures
            r.wf(),
            r.txs_map() == Map::<u64, ActorId>::empty(),
            r.actors_map() == Map::<u64, (u64, CachedAction)>::empty(),
            r.nonce() == 0,
    {
        TransactionManager::new()
    }
}

} // verus!
