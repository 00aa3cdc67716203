//! The correlation registry: the table of in-flight calls, keyed by call id.
//!
//! Each bridged call registers its id here before code is injected. The
//! sandbox's out-of-band callback resolves the matching entry; the timeout
//! path evicts it. Resolution and eviction are idempotent and mutually
//! exclusive: for any registered id, at most one of them reports success,
//! and a repeat of either is a benign no-op.
//!
//! The registry's view is a map from call id to the state of its one-shot
//! completion slot: `None` while the call still waits, `Some(outcome)` once
//! a callback has delivered a result that the waiter has not yet picked up.

use vstd::prelude::*;

use crate::EvalResult;
use crate::strutil::str_eq;

verus! {

/// One in-flight call: its id and its one-shot completion slot.
struct PendingCall {
    id: String,
    slot: Option<EvalResult>,
}

/// The table of in-flight calls. See the module documentation.
pub struct CorrelationRegistry {
    calls: Vec<PendingCall>,
}

/// The map described by a sequence of entries, later entries winning.
spec fn map_of(s: Seq<PendingCall>) -> Map<Seq<char>, Option<EvalResult>>
    decreases s.len(),
{
    if s.len() == 0 {
        Map::empty()
    } else {
        map_of(s.drop_last()).insert(s.last().id@, s.last().slot)
    }
}

/// No two entries share an id.
spec fn unique_ids(s: Seq<PendingCall>) -> bool {
    forall|i: int, j: int| 0 <= i < j < s.len() ==> s[i].id@ != s[j].id@
}

proof fn lemma_map_of_contains(s: Seq<PendingCall>, id: Seq<char>)
    ensures
        map_of(s).contains_key(id) <==> exists|i: int| 0 <= i < s.len() && s[i].id@ == id,
    decreases s.len(),
{
    if s.len() > 0 {
        lemma_map_of_contains(s.drop_last(), id);
        if s.last().id@ == id {
            assert(s[s.len() - 1].id@ == id);
        } else if map_of(s).contains_key(id) {
            let i = choose|i: int| 0 <= i < s.drop_last().len() && s.drop_last()[i].id@ == id;
            assert(s[i].id@ == id);
        } else {
            assert(forall|i: int|
                0 <= i < s.len() - 1 ==> s.drop_last()[i] == #[trigger] s[i]);
        }
    }
}

proof fn lemma_map_of_index(s: Seq<PendingCall>, i: int)
    requires
        unique_ids(s),
        0 <= i < s.len(),
    ensures
        map_of(s).contains_key(s[i].id@),
        map_of(s)[s[i].id@] == s[i].slot,
    decreases s.len(),
{
    lemma_map_of_contains(s, s[i].id@);
    if i < s.len() - 1 {
        assert(s.drop_last()[i] == s[i]);
        lemma_map_of_index(s.drop_last(), i);
    }
}

proof fn lemma_map_of_update(s: Seq<PendingCall>, i: int, pc: PendingCall)
    requires
        unique_ids(s),
        0 <= i < s.len(),
        pc.id@ == s[i].id@,
    ensures
        map_of(s.update(i, pc)) =~= map_of(s).insert(pc.id@, pc.slot),
    decreases s.len(),
{
    let t = s.update(i, pc);
    if i == s.len() - 1 {
        assert(t.drop_last() =~= s.drop_last());
    } else {
        assert(t.drop_last() =~= s.drop_last().update(i, pc));
        lemma_map_of_update(s.drop_last(), i, pc);
        assert(s.last().id@ != pc.id@);
        assert(t.last() == s.last());
    }
}

proof fn lemma_map_of_remove(s: Seq<PendingCall>, i: int)
    requires
        unique_ids(s),
        0 <= i < s.len(),
    ensures
        map_of(s.remove(i)) =~= map_of(s).remove(s[i].id@),
    decreases s.len(),
{
    let t = s.remove(i);
    if i == s.len() - 1 {
        assert(t =~= s.drop_last());
        lemma_map_of_contains(s.drop_last(), s[i].id@);
        assert(forall|k: int|
            0 <= k < s.len() - 1 ==> s.drop_last()[k] == #[trigger] s[k]);
        assert(!map_of(s.drop_last()).contains_key(s[i].id@));
        assert(map_of(s.drop_last()) =~= map_of(s).remove(s[i].id@));
    } else {
        assert(t.drop_last() =~= s.drop_last().remove(i));
        lemma_map_of_remove(s.drop_last(), i);
        assert(t.last() == s.last());
        assert(s.last().id@ != s[i].id@);
    }
}

/// The map after a successful `register`: the id gains an empty slot.
pub open spec fn register_spec(
    m: Map<Seq<char>, Option<EvalResult>>,
    id: Seq<char>,
) -> Map<Seq<char>, Option<EvalResult>> {
    m.insert(id, None)
}

/// Whether `id` is registered and still waiting for its callback.
pub open spec fn waiting(m: Map<Seq<char>, Option<EvalResult>>, id: Seq<char>) -> bool {
    m.contains_key(id) && m[id] is None
}

/// The map and success flag after `resolve(id, outcome)`: a waiting slot is
/// filled; anything else is left untouched.
pub open spec fn resolve_spec(
    m: Map<Seq<char>, Option<EvalResult>>,
    id: Seq<char>,
    outcome: EvalResult,
) -> (Map<Seq<char>, Option<EvalResult>>, bool) {
    if waiting(m, id) {
        (m.insert(id, Some(outcome)), true)
    } else {
        (m, false)
    }
}

/// The map and success flag after `evict(id)`: the entry is dropped whatever
/// its state; success is reported only if a waiter was still there.
pub open spec fn evict_spec(
    m: Map<Seq<char>, Option<EvalResult>>,
    id: Seq<char>,
) -> (Map<Seq<char>, Option<EvalResult>>, bool) {
    (m.remove(id), waiting(m, id))
}

impl View for CorrelationRegistry {
    type V = Map<Seq<char>, Option<EvalResult>>;

    closed spec fn view(&self) -> Map<Seq<char>, Option<EvalResult>> {
        map_of(self.calls@)
    }
}

impl CorrelationRegistry {
    /// Ids are pairwise distinct, so every id denotes at most one slot.
    pub closed spec fn wf(self) -> bool {
        unique_ids(self.calls@)
    }

    /// An empty registry.
    pub fn new() -> (r: CorrelationRegistry)
        ensures
            r.wf(),
            r@ == Map::<Seq<char>, Option<EvalResult>>::empty(),
    {
        CorrelationRegistry { calls: Vec::new() }
    }

    /// The number of registered calls.
    pub fn len(&self) -> (n: usize)
        requires
            self.wf(),
        ensures
            n == self@.dom().len(),
    {
        proof {
            lemma_entries_dom(self.calls@);
        }
        self.calls.len()
    }

    /// The index of `id` in the backing vector, if present.
    fn index_of(&self, id: &str) -> (r: Option<usize>)
        ensures
            match r {
                Some(i) => i < self.calls@.len() && self.calls@[i as int].id@ == id@,
                None => forall|i: int| 0 <= i < self.calls@.len() ==> self.calls@[i].id@ != id@,
            },
    {
        let n = self.calls.len();
        let mut i: usize = 0;
        while i < n
            invariant
                i <= n,
                forall|k: int| 0 <= k < i ==> self.calls@[k].id@ != id@,
            decreases n - i,
        {
            if str_eq(self.calls[i].id.as_str(), id) {
                return Some(i);
            }
            i += 1;
        }
        None
    }

    /// Whether `id` is registered (waiting or already delivered).
    pub fn contains(&self, id: &str) -> (r: bool)
        requires
            self.wf(),
        ensures
            r == self@.contains_key(id@),
    {
        proof {
            lemma_map_of_contains(self.calls@, id@);
        }
        self.index_of(id).is_some()
    }

    /// Register a fresh call id with an empty completion slot. Reports
    /// `false`, changing nothing, if the id is already taken: the caller
    /// must then treat the id generation as having collided.
    pub fn register(&mut self, id: String) -> (ok: bool)
        requires
            old(self).wf(),
        ensures
            final(self).wf(),
            ok == !old(self)@.contains_key(id@),
            ok ==> final(self)@ == register_spec(old(self)@, id@),
            !ok ==> final(self)@ == old(self)@,
    {
        proof {
            lemma_map_of_contains(self.calls@, id@);
        }
        if self.index_of(id.as_str()).is_some() {
            return false;
        }
        let ghost pre = self.calls@;
        self.calls.push(PendingCall { id, slot: None });
        proof {
            assert(self.calls@.drop_last() =~= pre);
            assert(forall|k: int|
                0 <= k < pre.len() ==> pre[k] == #[trigger] self.calls@[k]);
            assert(self@ =~= register_spec(old(self)@, id@));
        }
        true
    }

    /// Deliver the sandbox's outcome for `id`. Reports `true` exactly when a
    /// waiter was still registered; a late or unknown callback reports
    /// `false` and leaves every entry untouched.
    pub fn resolve(&mut self, id: &str, outcome: EvalResult) -> (r: bool)
        requires
            old(self).wf(),
        ensures
            final(self).wf(),
            r == resolve_spec(old(self)@, id@, outcome).1,
            final(self)@ == resolve_spec(old(self)@, id@, outcome).0,
    {
        proof {
            lemma_map_of_contains(self.calls@, id@);
        }
        match self.index_of(id) {
            Some(i) => {
                proof {
                    lemma_map_of_index(self.calls@, i as int);
                }
                if self.calls[i].slot.is_some() {
                    return false;
                }
                let ghost pre = self.calls@;
                let id_owned = self.calls[i].id.clone();
                self.calls.set(i, PendingCall { id: id_owned, slot: Some(outcome) });
                proof {
                    lemma_map_of_update(pre, i as int, self.calls@[i as int]);
                }
                true
            },
            None => false,
        }
    }

    /// Drop the registration for `id` without resolving it, whatever its
    /// state; the timeout path uses this. Reports `true` exactly when a
    /// waiter was still registered, so eviction after resolution is a
    /// benign no-op.
    pub fn evict(&mut self, id: &str) -> (r: bool)
        requires
            old(self).wf(),
        ensures
            final(self).wf(),
            r == evict_spec(old(self)@, id@).1,
            final(self)@ == evict_spec(old(self)@, id@).0,
    {
        proof {
            lemma_map_of_contains(self.calls@, id@);
        }
        match self.index_of(id) {
            Some(i) => {
                proof {
                    lemma_map_of_index(self.calls@, i as int);
                    lemma_map_of_remove(self.calls@, i as int);
                }
                let pc = self.calls.remove(i);
                proof {
                    assert(self.wf()) by {
                        assert(forall|a: int, b: int|
                            0 <= a < b < self.calls@.len() ==> self.calls@[a].id@ != self.calls@[b].id@);
                    }
                }
                pc.slot.is_none()
            },
            None => {
                proof {
                    assert(self@ =~= self@.remove(id@));
                }
                false
            },
        }
    }

    /// Pick up a delivered outcome, removing the entry. `None` while the
    /// call still waits or when the id is unknown.
    pub fn take_delivered(&mut self, id: &str) -> (r: Option<EvalResult>)
        requires
            old(self).wf(),
        ensures
            final(self).wf(),
            match r {
                Some(outcome) => {
                    &&& old(self)@.contains_key(id@)
                    &&& old(self)@[id@] == Some(outcome)
                    &&& final(self)@ == old(self)@.remove(id@)
                },
                None => {
                    &&& !(old(self)@.contains_key(id@) && old(self)@[id@] is Some)
                    &&& final(self)@ == old(self)@
                },
            },
    {
        proof {
            lemma_map_of_contains(self.calls@, id@);
        }
        match self.index_of(id) {
            Some(i) => {
                proof {
                    lemma_map_of_index(self.calls@, i as int);
                }
                if self.calls[i].slot.is_none() {
                    return None;
                }
                proof {
                    lemma_map_of_remove(self.calls@, i as int);
                }
                let pc = self.calls.remove(i);
                proof {
                    assert(forall|a: int, b: int|
                        0 <= a < b < self.calls@.len() ==> self.calls@[a].id@ != self.calls@[b].id@);
                }
                pc.slot
            },
            None => None,
        }
    }
}

/// With unique ids, the registry holds as many entries as its map has keys.
proof fn lemma_entries_dom(s: Seq<PendingCall>)
    requires
        unique_ids(s),
    ensures
        map_of(s).dom().finite(),
        map_of(s).dom().len() == s.len(),
    decreases s.len(),
{
    if s.len() > 0 {
        lemma_entries_dom(s.drop_last());
        lemma_map_of_contains(s.drop_last(), s.last().id@);
        assert(forall|k: int|
            0 <= k < s.len() - 1 ==> s.drop_last()[k] == #[trigger] s[k]);
        assert(!map_of(s.drop_last()).contains_key(s.last().id@));
    }
}

/// Exactly one of resolution and eviction succeeds for a waiting call,
/// in either order of arrival, and afterwards no waiter for that id is
/// left behind: a late callback and a late eviction are both no-ops.
pub proof fn lemma_resolve_evict_exclusive(
    m: Map<Seq<char>, Option<EvalResult>>,
    id: Seq<char>,
    outcome: EvalResult,
)
    requires
        waiting(m, id),
    ensures
        ({
            let (m1, r1) = resolve_spec(m, id, outcome);
            let (m2, e1) = evict_spec(m1, id);
            r1 && !e1 && !waiting(m2, id)
        }),
        ({
            let (m1, e1) = evict_spec(m, id);
            let (m2, r1) = resolve_spec(m1, id, outcome);
            e1 && !r1 && !waiting(m2, id)
        }),
{
}

/// A late callback is discarded, not misrouted: resolving an id that is no
/// longer waiting reports failure and leaves every other registration,
/// waiting or delivered, exactly as it was.
pub proof fn lemma_late_callback_harmless(
    m: Map<Seq<char>, Option<EvalResult>>,
    id: Seq<char>,
    outcome: EvalResult,
)
    requires
        !waiting(m, id),
    ensures
        !resolve_spec(m, id, outcome).1,
        resolve_spec(m, id, outcome).0 == m,
{
}

} // verus!
