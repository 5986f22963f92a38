//! Bookkeeping shared by the contracts: per-account replay-protection
//! counters, per-account sets of spent nonces, and bounded audit logs.

use std::collections::HashMap;
use vstd::prelude::*;
use crate::common::AccountId;

verus! {

broadcast use vstd::std_specs::hash::group_hash_axioms;

/// The log that results from appending `entry` to a log bounded by `cap`:
/// when the log is full, its oldest entry is dropped first.
pub open spec fn capped_push<T>(log: Seq<T>, entry: T, cap: nat) -> Seq<T> {
    if log.len() >= cap {
        log.drop_first().push(entry)
    } else {
        log.push(entry)
    }
}

/// Appends to a log bounded by `cap`, dropping the oldest entry when full.
pub fn push_capped<T>(log: &mut Vec<T>, entry: T, cap: usize)
    requires
        cap > 0,
    ensures
        final(log)@ == capped_push(old(log)@, entry, cap as nat),
{
    if log.len() >= cap {
        log.remove(0);
        assert(old(log)@.remove(0) =~= old(log)@.drop_first());
    }
    log.push(entry);
}

/// A bounded log never grows past its bound.
pub proof fn lemma_capped_push_len<T>(log: Seq<T>, entry: T, cap: nat)
    requires
        cap > 0,
        log.len() <= cap,
    ensures
        capped_push(log, entry, cap).len() <= cap,
        capped_push(log, entry, cap).last() == entry,
{
}

/// Sequential per-account nonces; an account that never transacted is at 0.
pub struct NonceBook {
    pub counters: HashMap<AccountId, u64>,
}

impl View for NonceBook {
    type V = Map<AccountId, u64>;

    open spec fn view(&self) -> Map<AccountId, u64> {
        self.counters@
    }
}

/// The nonce of an account in a counter map.
pub open spec fn nonce_in(m: Map<AccountId, u64>, account: AccountId) -> u64 {
    if m.contains_key(account) {
        m[account]
    } else {
        0
    }
}

impl NonceBook {
    /// The current nonce of an account.
    pub open spec fn nonce_of(&self, account: AccountId) -> u64 {
        nonce_in(self@, account)
    }

    /// A book in which every account is at nonce 0.
    pub fn new() -> (r: NonceBook)
        ensures
            r@ == Map::<AccountId, u64>::empty(),
    {
        NonceBook { counters: HashMap::new() }
    }

    /// The current nonce of an account.
    pub fn current(&self, account: AccountId) -> (r: u64)
        ensures
            r == self.nonce_of(account),
    {
        match self.counters.get(&account) {
            Some(v) => *v,
            None => 0,
        }
    }

    /// Sets the nonce of an account.
    pub fn set(&mut self, account: AccountId, value: u64)
        ensures
            final(self)@ == old(self)@.insert(account, value),
    {
        self.counters.insert(account, value);
    }
}

/// Per-account lists of spent nonces, oldest first.
pub struct SpentNonces {
    pub lists: HashMap<AccountId, Vec<u64>>,
}

impl SpentNonces {
    /// The spent nonces of an account, oldest first.
    pub open spec fn spent_of(&self, account: AccountId) -> Seq<u64> {
        if self.lists@.contains_key(account) {
            self.lists@[account]@
        } else {
            Seq::empty()
        }
    }

    /// No account has spent any nonce.
    pub fn new() -> (r: SpentNonces)
        ensures
            forall|a: AccountId| #[trigger] r.spent_of(a) == Seq::<u64>::empty(),
    {
        SpentNonces { lists: HashMap::new() }
    }

    /// Whether an account has spent a nonce.
    pub fn contains(&self, account: AccountId, nonce: u64) -> (r: bool)
        ensures
            r == self.spent_of(account).contains(nonce),
    {
        match self.lists.get(&account) {
            None => false,
            Some(list) => {
                let n = list.len();
                let mut i: usize = 0;
                while i < n
                    invariant
                        n == list@.len(),
                        list@ == self.spent_of(account),
                        i <= n,
                        forall|j: int| 0 <= j < i ==> list@[j] != nonce,
                    decreases n - i,
                {
                    if list[i] == nonce {
                        return true;
                    }
                    i = i + 1;
                }
                false
            },
        }
    }

    /// Records a spent nonce, keeping at most `cap` per account.
    pub fn record(&mut self, account: AccountId, nonce: u64, cap: usize)
        requires
            cap > 0,
        ensures
            final(self).spent_of(account) == capped_push(old(self).spent_of(account), nonce, cap as nat),
            forall|a: AccountId| a != account ==> #[trigger] final(self).spent_of(a) == old(self).spent_of(a),
    {
        let mut list = match self.lists.remove(&account) {
            Some(l) => l,
            None => Vec::new(),
        };
        push_capped(&mut list, nonce, cap);
        self.lists.insert(account, list);
    }
}

} // verus!
