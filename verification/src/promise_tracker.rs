//! Infrastructure for tracking unhandled rejected promises.
//!
//! A rejected promise is identified by a key (the identity of the promise
//! object) and carries a payload (the rooted promise itself).
use vstd::prelude::*;
use crate::error::{Error, ErrorKind};

verus! {

/// The states that the JavaScript engine reports for a rejected promise.
#[derive(Debug, Clone, Copy, PartialEq, Eq, Structural)]
pub enum PromiseRejectionHandlingState {
    /// A rejection handler was attached to the promise.
    Handled,
    /// The promise was rejected with no handler attached.
    Unhandled,
}

/// The keys after `key` was reported handled: its entry, if present, is
/// replaced by the last entry, and the sequence shrinks by one.
pub open spec fn handled_seq<T>(keys: Seq<u64>, items: Seq<T>, key: u64) -> Seq<T> {
    if keys.contains(key) {
        let i = keys.index_of(key);
        items.update(i, items.last()).drop_last()
    } else {
        items
    }
}

/// The keys after `key` was reported unhandled: appended when absent.
pub open spec fn unhandled_keys(keys: Seq<u64>, key: u64) -> Seq<u64> {
    if keys.contains(key) { keys } else { keys.push(key) }
}

/// Keeps track of unhandled, rejected promises.
#[derive(Debug)]
pub struct RejectedPromisesTracker<P> {
    keys: Vec<u64>,
    unhandled_rejected_promises: Vec<P>,
}

impl<P> RejectedPromisesTracker<P> {
    /// Keys and promises correspond one to one, and no promise is tracked
    /// twice.
    pub closed spec fn wf(&self) -> bool {
        &&& self.keys@.len() == self.unhandled_rejected_promises@.len()
        &&& self.keys@.no_duplicates()
    }

    /// In a well-formed tracker, each tracked promise has exactly one key, and
    /// no key occurs twice.
    pub proof fn lemma_keys_match_promises(&self)
        requires
            self.wf(),
        ensures
            self.spec_keys().len() == self.spec_promises().len(),
            self.spec_keys().no_duplicates(),
    {
    }

    /// The keys of the tracked promises, in tracking order.
    pub closed spec fn spec_keys(&self) -> Seq<u64> {
        self.keys@
    }

    /// The tracked promises, in tracking order.
    pub closed spec fn spec_promises(&self) -> Seq<P> {
        self.unhandled_rejected_promises@
    }

    /// An empty tracker.
    pub fn new() -> (t: Self)
        ensures
            t.wf(),
            t.spec_keys() == Seq::<u64>::empty(),
            t.spec_promises() == Seq::<P>::empty(),
    {
        RejectedPromisesTracker { keys: Vec::new(), unhandled_rejected_promises: Vec::new() }
    }

    /// The number of unhandled, rejected promises.
    pub fn len(&self) -> (n: usize)
        requires
            self.wf(),
        ensures
            n == self.spec_keys().len(),
    {
        self.keys.len()
    }

    /// Whether the promise with the given key is tracked.
    pub fn contains(&self, key: u64) -> (b: bool)
        ensures
            b == self.spec_keys().contains(key),
    {
        match self.position(key) {
            Some(_) => true,
            None => false,
        }
    }

    /// The index of the promise with the given key.
    fn position(&self, key: u64) -> (idx: Option<usize>)
        ensures
            idx matches Some(i) ==> i < self.keys@.len() && self.keys@[i as int] == key,
            idx is None <==> !self.keys@.contains(key),
            self.keys@.no_duplicates() ==> (idx matches Some(i) ==> i == self.keys@.index_of(key)),
    {
        let n = self.keys.len();
        let mut i: usize = 0;
        while i < n
            invariant
                n == self.keys@.len(),
                i <= n,
                forall|j: int| 0 <= j < i ==> self.keys@[j] != key,
            decreases n - i,
        {
            if self.keys[i] == key {
                proof {
                    if self.keys@.no_duplicates() {
                        let k = self.keys@.index_of(key);
                        assert(self.keys@.contains(key));
                        assert(self.keys@[k] == key);
                        assert(k == i);
                    }
                }
                return Some(i);
            }
            i = i + 1;
        }
        None
    }

    /// Clear the set of unhandled, rejected promises.
    pub fn clear(&mut self)
        ensures
            final(self).wf(),
            final(self).spec_keys() == Seq::<u64>::empty(),
            final(self).spec_promises() == Seq::<P>::empty(),
    {
        self.keys.clear();
        self.unhandled_rejected_promises.clear();
    }

    /// Take this tracker's unhandled, rejected promises, in tracking order,
    /// leaving an empty set in its place; `None` when there are none.
    pub fn take(&mut self) -> (taken: Option<Vec<P>>)
        requires
            old(self).wf(),
        ensures
            final(self).wf(),
            final(self).spec_keys() == Seq::<u64>::empty(),
            final(self).spec_promises() == Seq::<P>::empty(),
            taken is None <==> old(self).spec_keys().len() == 0,
            taken is None <==> old(self).spec_promises().len() == 0,
            taken matches Some(v) ==> v@ == old(self).spec_promises(),
    {
        if self.keys.len() == 0 {
            return None;
        }
        let mut taken: Vec<P> = Vec::new();
        core::mem::swap(&mut taken, &mut self.unhandled_rejected_promises);
        self.keys.clear();
        Some(taken)
    }

    /// The given rejected promise has been handled, so remove it from the
    /// unhandled set.
    pub fn handled(&mut self, key: u64)
        requires
            old(self).wf(),
        ensures
            final(self).wf(),
            final(self).spec_keys() == handled_seq(old(self).spec_keys(), old(self).spec_keys(), key),
            final(self).spec_promises() == handled_seq(
                old(self).spec_keys(),
                old(self).spec_promises(),
                key,
            ),
    {
        let idx = self.position(key);
        if let Some(i) = idx {
            let ghost old_keys = self.keys@;
            self.keys.swap_remove(i);
            self.unhandled_rejected_promises.swap_remove(i);
            proof {
                lemma_swap_remove_no_duplicates(old_keys, i as int);
            }
        }
    }

    /// The given rejected promise has not been handled, so add it to the
    /// rejected set if it is not already there.
    pub fn unhandled(&mut self, key: u64, promise: P)
        requires
            old(self).wf(),
        ensures
            final(self).wf(),
            final(self).spec_keys() == unhandled_keys(old(self).spec_keys(), key),
            old(self).spec_keys().contains(key) ==> final(self).spec_promises() == old(
                self,
            ).spec_promises(),
            !old(self).spec_keys().contains(key) ==> final(self).spec_promises() == old(
                self,
            ).spec_promises().push(promise),
    {
        let idx = self.position(key);
        if idx.is_none() {
            let ghost old_keys = self.keys@;
            self.keys.push(key);
            self.unhandled_rejected_promises.push(promise);
            proof {
                assert forall|a: int, b: int|
                    0 <= a < self.keys@.len() && 0 <= b < self.keys@.len() && a != b implies
                    self.keys@[a] != self.keys@[b] by {
                    if a < old_keys.len() && b < old_keys.len() {
                    } else if a == old_keys.len() {
                        assert(old_keys[b] == self.keys@[b]);
                    } else {
                        assert(old_keys[a] == self.keys@[a]);
                    }
                }
            }
        }
    }

    /// React to the engine's report on a rejected promise: a handled promise
    /// leaves the unhandled set, an unhandled one joins it.
    pub fn on_rejection_state(
        &mut self,
        state: PromiseRejectionHandlingState,
        key: u64,
        promise: P,
    )
        requires
            old(self).wf(),
        ensures
            final(self).wf(),
            state == PromiseRejectionHandlingState::Handled ==> {
                &&& final(self).spec_keys() == handled_seq(
                    old(self).spec_keys(),
                    old(self).spec_keys(),
                    key,
                )
                &&& final(self).spec_promises() == handled_seq(
                    old(self).spec_keys(),
                    old(self).spec_promises(),
                    key,
                )
            },
            state == PromiseRejectionHandlingState::Unhandled ==> {
                &&& final(self).spec_keys() == unhandled_keys(old(self).spec_keys(), key)
                &&& old(self).spec_keys().contains(key) ==> final(self).spec_promises() == old(
                    self,
                ).spec_promises()
                &&& !old(self).spec_keys().contains(key) ==> final(self).spec_promises() == old(
                    self,
                ).spec_promises().push(promise)
            },
    {
        match state {
            PromiseRejectionHandlingState::Handled => self.handled(key),
            PromiseRejectionHandlingState::Unhandled => self.unhandled(key, promise),
        }
    }
}

/// Removing an entry by swapping in the last one keeps a sequence free of
/// duplicates.
proof fn lemma_swap_remove_no_duplicates(s: Seq<u64>, i: int)
    requires
        s.no_duplicates(),
        0 <= i < s.len(),
    ensures
        s.update(i, s.last()).drop_last().no_duplicates(),
        s.update(i, s.last()).drop_last().to_set() == s.to_set().remove(s[i]),
{
    let t = s.update(i, s.last()).drop_last();
    let last = s.len() - 1;
    assert forall|a: int, b: int| 0 <= a < t.len() && 0 <= b < t.len() && a != b implies t[a]
        != t[b] by {
        let sa = if a == i { last } else { a };
        let sb = if b == i { last } else { b };
        assert(t[a] == s[sa]);
        assert(t[b] == s[sb]);
    }
    assert forall|x: u64| t.to_set().contains(x) <==> s.to_set().remove(s[i]).contains(x) by {
        if t.to_set().contains(x) {
            let a = choose|a: int| 0 <= a < t.len() && t[a] == x;
            let sa = if a == i { last } else { a };
            assert(s[sa] == x);
            assert(sa != i);
        }
        if s.to_set().remove(s[i]).contains(x) {
            let a = choose|a: int| 0 <= a < s.len() && s[a] == x;
            assert(a != i);
            if a == last {
                assert(t[i] == x);
            } else {
                assert(t[a] == x);
            }
        }
    }
    assert(t.to_set() =~= s.to_set().remove(s[i]));
}

/// A promise reported unhandled is tracked afterwards, exactly once, and
/// nothing else changes.
pub proof fn law_unhandled_tracks(keys: Seq<u64>, key: u64)
    requires
        keys.no_duplicates(),
    ensures
        unhandled_keys(keys, key).contains(key),
        unhandled_keys(keys, key).no_duplicates(),
        unhandled_keys(keys, key).to_set() == keys.to_set().insert(key),
{
    let t = unhandled_keys(keys, key);
    if !keys.contains(key) {
        assert(t[keys.len() as int] == key);
        assert forall|a: int, b: int| 0 <= a < t.len() && 0 <= b < t.len() && a != b implies t[a]
            != t[b] by {
            if a < keys.len() && b < keys.len() {
                assert(t[a] == keys[a] && t[b] == keys[b]);
            } else if a == keys.len() {
                assert(t[b] == keys[b]);
            } else {
                assert(t[a] == keys[a]);
            }
        }
    }
    assert forall|x: u64| t.to_set().contains(x) <==> keys.to_set().insert(key).contains(x) by {
        if t.to_set().contains(x) {
            let a = choose|a: int| 0 <= a < t.len() && t[a] == x;
            if a < keys.len() {
                assert(keys[a] == x);
            }
        }
        if keys.to_set().contains(x) {
            let a = choose|a: int| 0 <= a < keys.len() && keys[a] == x;
            assert(t[a] == x);
        }
        if x == key && !keys.contains(key) {
            assert(t[keys.len() as int] == x);
        }
    }
    assert(t.to_set() =~= keys.to_set().insert(key));
}

/// A promise reported handled is no longer tracked, and the others stay.
pub proof fn law_handled_untracks(keys: Seq<u64>, key: u64)
    requires
        keys.no_duplicates(),
    ensures
        !handled_seq(keys, keys, key).contains(key),
        handled_seq(keys, keys, key).no_duplicates(),
        handled_seq(keys, keys, key).to_set() == keys.to_set().remove(key),
{
    let t = handled_seq(keys, keys, key);
    if keys.contains(key) {
        let i = keys.index_of(key);
        lemma_swap_remove_no_duplicates(keys, i);
        assert(keys[i] == key);
    } else {
        assert(keys.to_set() =~= keys.to_set().remove(key));
    }
    assert(!t.to_set().contains(key));
    if t.contains(key) {
        let a = choose|a: int| 0 <= a < t.len() && t[a] == key;
        assert(t.to_set().contains(t[a]));
    }
}

/// Reporting a promise unhandled and then handled leaves every other promise
/// tracked as before, and that promise untracked.
pub proof fn law_unhandled_then_handled(keys: Seq<u64>, key: u64)
    requires
        keys.no_duplicates(),
    ensures
        ({
            let after = unhandled_keys(keys, key);
            handled_seq(after, after, key).to_set() == keys.to_set().remove(key)
        }),
{
    let after = unhandled_keys(keys, key);
    law_unhandled_tracks(keys, key);
    law_handled_untracks(after, key);
    assert(keys.to_set().insert(key).remove(key) =~= keys.to_set().remove(key));
}

/// What a check for unhandled, rejected promises does: it succeeds exactly
/// when no promise is tracked, and leaves no promise tracked.
pub open spec fn check_outcome<P>(
    pre_keys: Seq<u64>,
    pre_promises: Seq<P>,
    ok: bool,
    post_keys: Seq<u64>,
    post_promises: Seq<P>,
) -> bool {
    &&& ok <==> pre_keys.len() == 0
    &&& ok <==> pre_promises.len() == 0
    &&& post_keys == Seq::<u64>::empty()
    &&& post_promises == Seq::<P>::empty()
}

/// Checking twice with no JavaScript run in between: the second check
/// succeeds and leaves the tracker as the first one left it, empty.
pub proof fn law_check_twice<P>(
    k0: Seq<u64>,
    p0: Seq<P>,
    ok1: bool,
    k1: Seq<u64>,
    p1: Seq<P>,
    ok2: bool,
    k2: Seq<u64>,
    p2: Seq<P>,
)
    requires
        check_outcome(k0, p0, ok1, k1, p1),
        check_outcome(k1, p1, ok2, k2, p2),
    ensures
        ok2,
        k2 == k1,
        p2 == p1,
        k2 == Seq::<u64>::empty(),
        p2 == Seq::<P>::empty(),
{
}

/// Check a tracker for unhandled, rejected promises: an error when there are
/// any, in which case the tracker is emptied.
pub fn check_for_unhandled_rejected_promises<P>(tracker: &mut RejectedPromisesTracker<P>) -> (r:
    Result<(), Error>)
    requires
        old(tracker).wf(),
    ensures
        final(tracker).wf(),
        check_outcome(
            old(tracker).spec_keys(),
            old(tracker).spec_promises(),
            r is Ok,
            final(tracker).spec_keys(),
            final(tracker).spec_promises(),
        ),
        r matches Err(e) ==> e.spec_kind() == ErrorKind::JavaScriptUnhandledRejectedPromise,
{
    match tracker.take() {
        Some(_unhandled) => Err(Error::from_kind(ErrorKind::JavaScriptUnhandledRejectedPromise)),
        None => Ok(()),
    }
}

} // verus!
