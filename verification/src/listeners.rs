//! The listener registry: subscriptions from scripts to host state-change
//! notifications.
//!
//! Registration issues a fresh, monotonically increasing id and retains the
//! script's callback until the entry is released. An id, once issued, is
//! never issued again within the registry's lifetime, and unregistering an
//! unknown id is a no-op rather than an error.

use vstd::prelude::*;
use crate::value::ScriptValue;

verus! {

/// The spec-level picture of one registered listener.
pub struct ListenerInfo {
    pub thing: Seq<char>,
    pub callback: ScriptValue,
}

struct ListenerEntry {
    id: u64,
    thing_id: String,
    callback: ScriptValue,
}

/// The table of live listener subscriptions of one session.
pub struct ListenerRegistry {
    next_id: u64,
    entries: Vec<ListenerEntry>,
    issued: Ghost<Set<u64>>,
}

impl View for ListenerRegistry {
    type V = Map<u64, ListenerInfo>;

    closed spec fn view(&self) -> Map<u64, ListenerInfo> {
        Map::new(
            |id: u64|
                exists|i: int| 0 <= i < self.entries@.len() && #[trigger] self.entries@[i].id == id,
            |id: u64|
                {
                    let i = choose|i: int|
                        0 <= i < self.entries@.len() && #[trigger] self.entries@[i].id == id;
                    ListenerInfo {
                        thing: self.entries@[i].thing_id@,
                        callback: self.entries@[i].callback,
                    }
                },
        )
    }
}

impl ListenerRegistry {
    /// The id the next registration will be given.
    pub closed spec fn spec_next(self) -> u64 {
        self.next_id
    }

    /// Every id ever issued by this registry, released ones included.
    pub closed spec fn issued(self) -> Set<u64> {
        self.issued@
    }

    /// Ids are pairwise distinct, below the next id to issue, and recorded
    /// as issued; every held callback is a function value.
    pub closed spec fn wf(self) -> bool {
        &&& forall|i: int, j: int|
            0 <= i < j < self.entries@.len() ==> #[trigger] self.entries@[i].id
                != #[trigger] self.entries@[j].id
        &&& forall|i: int|
            0 <= i < self.entries@.len() ==> #[trigger] self.entries@[i].id < self.next_id
        &&& forall|id: u64| self.issued@.contains(id) ==> id < self.next_id
        &&& forall|i: int|
            0 <= i < self.entries@.len() ==> self.issued@.contains(#[trigger] self.entries@[i].id)
        &&& forall|i: int|
            0 <= i < self.entries@.len() ==> #[trigger] self.entries@[i].callback is Function
    }

    /// An empty registry that has issued no id yet.
    pub fn new() -> (r: ListenerRegistry)
        ensures
            r.wf(),
            r@ == Map::<u64, ListenerInfo>::empty(),
            r.listing() == Seq::<(u64, ListenerInfo)>::empty(),
            r.issued() == Set::<u64>::empty(),
            r.spec_next() == 0,
    {
        let r = ListenerRegistry { next_id: 0, entries: Vec::new(), issued: Ghost(Set::empty()) };
        proof {
            assert(r@ =~= Map::<u64, ListenerInfo>::empty());
            assert(r.listing() =~= Seq::<(u64, ListenerInfo)>::empty());
        }
        r
    }

    /// The entry at index `i` is in the view and carries its fields.
    proof fn lemma_view_entry(self, i: int)
        requires
            self.wf(),
            0 <= i < self.entries@.len(),
        ensures
            self@.contains_key(self.entries@[i].id),
            self@[self.entries@[i].id] == (ListenerInfo {
                thing: self.entries@[i].thing_id@,
                callback: self.entries@[i].callback,
            }),
    {
        let id = self.entries@[i].id;
        assert(0 <= i < self.entries@.len() && self.entries@[i].id == id);
        let j = choose|j: int| 0 <= j < self.entries@.len() && #[trigger] self.entries@[j].id == id;
        assert(j == i);
    }

    /// An id that no entry carries is not in the view.
    proof fn lemma_view_absent(self, id: u64)
        requires
            forall|i: int| 0 <= i < self.entries@.len() ==> #[trigger] self.entries@[i].id != id,
        ensures
            !self@.contains_key(id),
    {
    }

    /// Register a listener for `thing_id` with a script callback.
    ///
    /// Succeeds exactly when the callback is a function value and an id is
    /// still available; the issued id was never issued before. On a
    /// non-function callback the registry is unchanged and nothing is
    /// retained.
    pub fn register(&mut self, thing_id: String, callback: ScriptValue) -> (r: Option<u64>)
        requires
            old(self).wf(),
        ensures
            final(self).wf(),
            r is Some <==> (callback is Function && old(self).spec_next() < u64::MAX),
            r is None ==> *final(self) == *old(self),
            r matches Some(id) ==> {
                &&& id == old(self).spec_next()
                &&& !old(self).issued().contains(id)
                &&& !old(self)@.contains_key(id)
                &&& final(self).issued() == old(self).issued().insert(id)
                &&& final(self).spec_next() == old(self).spec_next() + 1
                &&& final(self)@ == old(self)@.insert(
                    id,
                    ListenerInfo { thing: thing_id@, callback },
                )
                &&& final(self).listing() == old(self).listing().push(
                    (id, ListenerInfo { thing: thing_id@, callback }),
                )
            },
    {
        if !callback.is_function() {
            return None;
        }
        if self.next_id == u64::MAX {
            return None;
        }
        let id = self.next_id;
        self.next_id = id + 1;
        proof {
            self.issued@ = self.issued@.insert(id);
            old(self).lemma_view_absent(id);
        }
        let ghost m0 = old(self)@;
        let ghost e0 = old(self).entries@;
        self.entries.push(ListenerEntry { id, thing_id, callback });
        proof {
            let u = self.entries@;
            assert(forall|k: int| 0 <= k < e0.len() ==> u[k] == e0[k]);
            assert(u[e0.len() as int].id == id);
            let info = ListenerInfo { thing: u[e0.len() as int].thing_id@, callback };
            assert forall|key: u64| self@.contains_key(key) == m0.insert(id, info).contains_key(
                key,
            ) by {
                if exists|j: int| 0 <= j < e0.len() && #[trigger] e0[j].id == key {
                    let j = choose|j: int| 0 <= j < e0.len() && #[trigger] e0[j].id == key;
                    assert(u[j].id == key);
                }
            }
            assert forall|key: u64| #[trigger] self@.contains_key(key) implies self@[key]
                == m0.insert(id, info)[key] by {
                let j = choose|j: int| 0 <= j < u.len() && #[trigger] u[j].id == key;
                if key == id {
                    assert(j == e0.len() as int);
                } else {
                    assert(j < e0.len());
                    assert(u[j] == e0[j]);
                    old(self).lemma_view_entry(j);
                }
            }
            assert(self@ =~= m0.insert(id, info));
            assert(self.listing() =~= old(self).listing().push((id, info)));
        }
        Some(id)
    }

    /// The listing without the entry of one id, registration order kept.
    pub open spec fn spec_without_id(l: Seq<(u64, ListenerInfo)>, id: u64) -> Seq<
        (u64, ListenerInfo),
    >
        decreases l.len(),
    {
        if l.len() == 0 {
            Seq::empty()
        } else {
            Self::spec_without_id(l.drop_last(), id) + if l.last().0 == id {
                Seq::empty()
            } else {
                seq![l.last()]
            }
        }
    }

    /// Removing an id that no entry carries leaves the listing as it was.
    proof fn lemma_without_id_absent(l: Seq<(u64, ListenerInfo)>, id: u64)
        requires
            forall|j: int| 0 <= j < l.len() ==> (#[trigger] l[j]).0 != id,
        ensures
            Self::spec_without_id(l, id) == l,
        decreases l.len(),
    {
        if l.len() == 0 {
            assert(Self::spec_without_id(l, id) =~= l);
        } else {
            Self::lemma_without_id_absent(l.drop_last(), id);
            assert(Self::spec_without_id(l, id) =~= l);
        }
    }

    /// Removing the id of the one entry that carries it drops exactly that
    /// entry, keeping the order of the rest.
    proof fn lemma_without_id_unique(l: Seq<(u64, ListenerInfo)>, id: u64, i: int)
        requires
            0 <= i < l.len(),
            l[i].0 == id,
            forall|j: int| 0 <= j < l.len() && j != i ==> (#[trigger] l[j]).0 != id,
        ensures
            Self::spec_without_id(l, id) == l.remove(i),
        decreases l.len(),
    {
        if i == l.len() - 1 {
            Self::lemma_without_id_absent(l.drop_last(), id);
            assert(Self::spec_without_id(l, id) =~= l.remove(i));
        } else {
            Self::lemma_without_id_unique(l.drop_last(), id, i);
            assert(Self::spec_without_id(l, id) =~= l.remove(i));
        }
    }

    /// Release the listener registered under `id`, handing back the held
    /// callback so that the engine reference can be freed exactly once.
    ///
    /// An unknown id is a no-op: nothing changes and nothing is returned.
    /// The id stays issued either way, so it is never handed out again.
    pub fn unregister(&mut self, id: u64) -> (r: Option<ScriptValue>)
        requires
            old(self).wf(),
        ensures
            final(self).wf(),
            final(self)@ == old(self)@.remove(id),
            final(self).listing() == Self::spec_without_id(old(self).listing(), id),
            final(self).issued() == old(self).issued(),
            final(self).spec_next() == old(self).spec_next(),
            old(self)@.contains_key(id) ==> r == Some(old(self)@[id].callback),
            !old(self)@.contains_key(id) ==> r is None && *final(self) == *old(self),
    {
        let ghost m0 = old(self)@;
        let ghost e0 = old(self).entries@;
        let n = self.entries.len();
        let mut i: usize = 0;
        #[verifier::loop_isolation(false)]
        while i < n
            invariant
                *self == *old(self),
                n == self.entries@.len(),
                i <= n,
                forall|j: int| 0 <= j < i ==> #[trigger] self.entries@[j].id != id,
            decreases n - i,
        {
            if self.entries[i].id == id {
                proof {
                    old(self).lemma_view_entry(i as int);
                }
                let entry = self.entries.remove(i);
                proof {
                    let u = self.entries@;
                    assert(forall|k: int| 0 <= k < i ==> u[k] == e0[k]);
                    assert(forall|k: int| i <= k < u.len() ==> u[k] == e0[k + 1]);
                    assert(self.wf());
                    assert forall|key: u64| self@.contains_key(key) == m0.remove(id).contains_key(
                        key,
                    ) by {
                        if key != id && exists|j: int|
                            0 <= j < e0.len() && #[trigger] e0[j].id == key {
                            let j = choose|j: int| 0 <= j < e0.len() && #[trigger] e0[j].id == key;
                            if j < i {
                                assert(u[j].id == key);
                            } else {
                                assert(j > i);
                                assert(u[j - 1].id == key);
                            }
                        }
                        if exists|j: int| 0 <= j < u.len() && #[trigger] u[j].id == key {
                            let j = choose|j: int| 0 <= j < u.len() && #[trigger] u[j].id == key;
                            if j < i {
                                assert(e0[j].id == key);
                            } else {
                                assert(e0[j + 1].id == key);
                            }
                            assert(key != id);
                        }
                    }
                    assert forall|key: u64| #[trigger] self@.contains_key(key) implies self@[key]
                        == m0.remove(id)[key] by {
                        let j = choose|j: int| 0 <= j < u.len() && #[trigger] u[j].id == key;
                        let j0: int = if j < i { j } else { j + 1 };
                        assert(u[j] == e0[j0]);
                        old(self).lemma_view_entry(j0);
                    }
                    assert(self@ =~= m0.remove(id));
                    let l0 = old(self).listing();
                    assert(l0[i as int].0 == id);
                    assert forall|j: int|
                        0 <= j < l0.len() && j != i as int implies (#[trigger] l0[j]).0 != id by {
                        if j < i as int {
                            assert(e0[j].id != e0[i as int].id);
                        } else {
                            assert(e0[i as int].id != e0[j].id);
                        }
                    }
                    Self::lemma_without_id_unique(l0, id, i as int);
                    assert(self.listing() =~= l0.remove(i as int));
                }
                return Some(entry.callback);
            }
            i = i + 1;
        }
        proof {
            self.lemma_view_absent(id);
            assert(self@ =~= m0.remove(id));
            assert(forall|j: int|
                0 <= j < self.listing().len() ==> (#[trigger] self.listing()[j]).0 != id);
            Self::lemma_without_id_absent(self.listing(), id);
        }
        None
    }

    /// The ids and callbacks of every listener subscribed to `thing`, in
    /// registration order.
    pub open spec fn spec_callbacks_for(l: Seq<(u64, ListenerInfo)>, thing: Seq<char>) -> Seq<
        (u64, ScriptValue),
    >
        decreases l.len(),
    {
        if l.len() == 0 {
            Seq::empty()
        } else {
            Self::spec_callbacks_for(l.drop_last(), thing) + if l.last().1.thing == thing {
                seq![(l.last().0, l.last().1.callback)]
            } else {
                Seq::empty()
            }
        }
    }

    /// The registry's entries in registration order, with their ids.
    pub closed spec fn listing(self) -> Seq<(u64, ListenerInfo)> {
        self.entries@.map(
            |i: int, e: ListenerEntry|
                (e.id, ListenerInfo { thing: e.thing_id@, callback: e.callback }),
        )
    }

    /// Look up every listener subscribed to `thing_id`: their callbacks are
    /// what a state-change notification for that thing must invoke, in
    /// registration order.
    #[verifier::loop_isolation(false)]
    pub fn listeners_for(&self, thing_id: &String) -> (r: Vec<(u64, ScriptValue)>)
        ensures
            r@ == Self::spec_callbacks_for(self.listing(), thing_id@),
    {
        let n = self.entries.len();
        let mut out: Vec<(u64, ScriptValue)> = Vec::new();
        let mut i: usize = 0;
        while i < n
            invariant
                n == self.entries@.len(),
                i <= n,
                out@ == Self::spec_callbacks_for(self.listing().take(i as int), thing_id@),
            decreases n - i,
        {
            proof {
                assert(self.listing().take(i as int + 1).drop_last() =~= self.listing().take(
                    i as int,
                ));
            }
            if self.entries[i].thing_id == *thing_id {
                out.push((self.entries[i].id, self.entries[i].callback.dup()));
            }
            i = i + 1;
        }
        proof {
            assert(self.listing().take(n as int) =~= self.listing());
        }
        out
    }
}

/// Removing a listener id from the registry's table.
pub open spec fn spec_unregister(m: Map<u64, ListenerInfo>, id: u64) -> Map<u64, ListenerInfo> {
    m.remove(id)
}

/// Unregistering is idempotent: once an id has been unregistered, a second
/// unregistration of the same id leaves the table exactly as it was.
pub proof fn lemma_unregister_idempotent(m: Map<u64, ListenerInfo>, id: u64)
    ensures
        spec_unregister(spec_unregister(m, id), id) == spec_unregister(m, id),
{
    assert(spec_unregister(spec_unregister(m, id), id) =~= spec_unregister(m, id));
}

/// Listener ids are never reused within a registry's lifetime. Every
/// operation only grows the set of issued ids, and `register` returns an id
/// outside that set; so an id issued at one registration, even if later
/// unregistered, differs from the id issued at any later registration.
pub proof fn lemma_ids_never_reused(
    issued_then: Set<u64>,
    issued_later: Set<u64>,
    earlier_id: u64,
    later_id: u64,
)
    requires
        issued_then.insert(earlier_id).subset_of(issued_later),
        !issued_later.contains(later_id),
    ensures
        earlier_id != later_id,
{
}

} // verus!
