//! Session-scoped key/value state: the host-side variable store and the
//! named input/output bindings.
//!
//! A [`ValueStore`] maps a variable name to a script value. It is the
//! host-side space behind the set/get variable capabilities, not the
//! script-visible global namespace. Its abstract view is a `Map` from the
//! name's characters to the stored value.

use vstd::prelude::*;
use crate::value::ScriptValue;

verus! {

struct Binding {
    name: String,
    value: ScriptValue,
}

/// A mapping from variable name to value, with one entry per name.
pub struct ValueStore {
    entries: Vec<Binding>,
}

impl View for ValueStore {
    type V = Map<Seq<char>, ScriptValue>;

    closed spec fn view(&self) -> Map<Seq<char>, ScriptValue> {
        Map::new(
            |n: Seq<char>|
                exists|i: int|
                    0 <= i < self.entries@.len() && #[trigger] self.entries@[i].name@ == n,
            |n: Seq<char>|
                self.entries@[choose|i: int|
                    0 <= i < self.entries@.len() && #[trigger] self.entries@[i].name@ == n].value,
        )
    }
}

impl ValueStore {
    /// Every name occurs at most once among the entries.
    pub closed spec fn wf(self) -> bool {
        forall|i: int, j: int|
            0 <= i < j < self.entries@.len() ==> #[trigger] self.entries@[i].name@
                != #[trigger] self.entries@[j].name@
    }

    /// An empty store.
    pub fn new() -> (r: ValueStore)
        ensures
            r.wf(),
            r@ == Map::<Seq<char>, ScriptValue>::empty(),
    {
        let r = ValueStore { entries: Vec::new() };
        proof {
            assert(r@ =~= Map::<Seq<char>, ScriptValue>::empty());
        }
        r
    }

    /// The entry named `n` is in the view and carries its value.
    proof fn lemma_view_entry(self, i: int)
        requires
            self.wf(),
            0 <= i < self.entries@.len(),
        ensures
            self@.contains_key(self.entries@[i].name@),
            self@[self.entries@[i].name@] == self.entries@[i].value,
    {
        let n = self.entries@[i].name@;
        assert(0 <= i < self.entries@.len() && self.entries@[i].name@ == n);
        let j = choose|j: int|
            0 <= j < self.entries@.len() && #[trigger] self.entries@[j].name@ == n;
        assert(j == i);
    }

    /// A name that no entry carries is not in the view.
    proof fn lemma_view_absent(self, n: Seq<char>)
        requires
            forall|i: int|
                0 <= i < self.entries@.len() ==> #[trigger] self.entries@[i].name@ != n,
        ensures
            !self@.contains_key(n),
    {
    }

    /// Read the value bound to `name`, when one is.
    pub fn get(&self, name: &String) -> (r: Option<&ScriptValue>)
        requires
            self.wf(),
        ensures
            match r {
                Some(v) => self@.contains_key(name@) && *v == self@[name@],
                None => !self@.contains_key(name@),
            },
    {
        let n = self.entries.len();
        let mut i: usize = 0;
        while i < n
            invariant
                n == self.entries@.len(),
                i <= n,
                self.wf(),
                forall|j: int| 0 <= j < i ==> #[trigger] self.entries@[j].name@ != name@,
            decreases n - i,
        {
            if self.entries[i].name == *name {
                proof {
                    self.lemma_view_entry(i as int);
                }
                return Some(&self.entries[i].value);
            }
            i = i + 1;
        }
        proof {
            self.lemma_view_absent(name@);
        }
        None
    }

    /// Bind `name` to `value`, replacing any earlier binding of the name.
    #[verifier::loop_isolation(false)]
    pub fn set(&mut self, name: String, value: ScriptValue)
        requires
            old(self).wf(),
        ensures
            final(self).wf(),
            final(self)@ == old(self)@.insert(name@, value),
    {
        let ghost m0 = old(self)@;
        let ghost e0 = old(self).entries@;
        let n = self.entries.len();
        let mut i: usize = 0;
        while i < n
            invariant
                *self == *old(self),
                n == self.entries@.len(),
                i <= n,
                old(self).wf(),
                forall|j: int| 0 <= j < i ==> #[trigger] self.entries@[j].name@ != name@,
            decreases n - i,
        {
            if self.entries[i].name == name {
                self.entries.remove(i);
                self.entries.insert(i, Binding { name, value });
                proof {
                    let u = self.entries@;
                    assert(u =~= e0.update(i as int, u[i as int]));
                    assert(forall|k: int|
                        0 <= k < u.len() ==> #[trigger] u[k].name@ == e0[k].name@);
                    assert(self.wf());
                    assert forall|key: Seq<char>|
                        self@.contains_key(key) == m0.insert(u[i as int].name@, value).contains_key(
                            key,
                        ) by {
                        if exists|j: int|
                            0 <= j < e0.len() && #[trigger] e0[j].name@ == key {
                            let j = choose|j: int|
                                0 <= j < e0.len() && #[trigger] e0[j].name@ == key;
                            assert(u[j].name@ == key);
                        }
                        if exists|j: int|
                            0 <= j < u.len() && #[trigger] u[j].name@ == key {
                            let j = choose|j: int|
                                0 <= j < u.len() && #[trigger] u[j].name@ == key;
                            assert(e0[j].name@ == key);
                        }
                    }
                    assert forall|key: Seq<char>| #[trigger]
                        self@.contains_key(key) implies self@[key] == m0.insert(
                        u[i as int].name@,
                        value,
                    )[key] by {
                        let j = choose|j: int|
                            0 <= j < u.len() && #[trigger] u[j].name@ == key;
                        if key == u[i as int].name@ {
                            assert(j == i as int);
                        } else {
                            assert(u[j] == e0[j]);
                            old(self).lemma_view_entry(j);
                        }
                    }
                    assert(self@ =~= m0.insert(u[i as int].name@, value));
                }
                return;
            }
            i = i + 1;
        }
        let ghost nm = name@;
        self.entries.push(Binding { name, value });
        proof {
            let u = self.entries@;
            assert(u.len() == e0.len() + 1);
            assert(forall|k: int| 0 <= k < e0.len() ==> u[k] == e0[k]);
            assert(u[e0.len() as int].name@ == nm);
            assert(self.wf());
            assert forall|key: Seq<char>|
                self@.contains_key(key) == m0.insert(nm, value).contains_key(key) by {
                if exists|j: int| 0 <= j < e0.len() && #[trigger] e0[j].name@ == key {
                    let j = choose|j: int|
                        0 <= j < e0.len() && #[trigger] e0[j].name@ == key;
                    assert(u[j].name@ == key);
                }
            }
            assert forall|key: Seq<char>| #[trigger]
                self@.contains_key(key) implies self@[key] == m0.insert(nm, value)[key] by {
                let j = choose|j: int|
                    0 <= j < u.len() && #[trigger] u[j].name@ == key;
                if key == nm {
                    assert(j == e0.len() as int);
                } else {
                    assert(j < e0.len());
                    assert(u[j] == e0[j]);
                    old(self).lemma_view_entry(j);
                }
            }
            assert(self@ =~= m0.insert(nm, value));
        }
    }
}

/// One cached state field of an external thing, as last notified by the
/// platform.
#[derive(Debug, PartialEq, Eq)]
pub struct ThingState {
    pub thing_id: String,
    pub state_name: String,
    pub instance: u16,
    pub value: ScriptValue,
}

impl ThingState {
    /// An exact copy of the entry.
    pub fn dup(&self) -> (r: ThingState)
        ensures
            r == *self,
    {
        ThingState {
            thing_id: self.thing_id.clone(),
            state_name: self.state_name.clone(),
            instance: self.instance,
            value: self.value.dup(),
        }
    }

    /// The spec-level key of the entry: thing, state name and instance.
    pub open spec fn key(self) -> ThingKey {
        ThingKey { thing: self.thing_id@, state: self.state_name@, instance: self.instance }
    }
}

/// The spec-level key of one thing-state entry.
pub struct ThingKey {
    pub thing: Seq<char>,
    pub state: Seq<char>,
    pub instance: u16,
}

/// The session's snapshot of external thing states, keyed by thing id,
/// state name and instance.
pub struct ThingStateTable {
    entries: Vec<ThingState>,
}

impl View for ThingStateTable {
    type V = Map<ThingKey, ScriptValue>;

    closed spec fn view(&self) -> Map<ThingKey, ScriptValue> {
        Map::new(
            |k: ThingKey|
                exists|i: int|
                    0 <= i < self.entries@.len() && #[trigger] self.entries@[i].key() == k,
            |k: ThingKey|
                self.entries@[choose|i: int|
                    0 <= i < self.entries@.len() && #[trigger] self.entries@[i].key() == k].value,
        )
    }
}

impl ThingStateTable {
    /// Every key occurs at most once among the entries.
    pub closed spec fn wf(self) -> bool {
        forall|i: int, j: int|
            0 <= i < j < self.entries@.len() ==> #[trigger] self.entries@[i].key()
                != #[trigger] self.entries@[j].key()
    }

    /// The entries in the order the snapshot holds them.
    pub closed spec fn states(self) -> Seq<ThingState> {
        self.entries@
    }

    /// An empty snapshot.
    pub fn new() -> (r: ThingStateTable)
        ensures
            r.wf(),
            r@ == Map::<ThingKey, ScriptValue>::empty(),
            r.states() == Seq::<ThingState>::empty(),
    {
        let r = ThingStateTable { entries: Vec::new() };
        proof {
            assert(r@ =~= Map::<ThingKey, ScriptValue>::empty());
            assert(r.states() =~= Seq::<ThingState>::empty());
        }
        r
    }

    /// The entry at index `i` is in the view and carries its value.
    proof fn lemma_view_entry(self, i: int)
        requires
            self.wf(),
            0 <= i < self.entries@.len(),
        ensures
            self@.contains_key(self.entries@[i].key()),
            self@[self.entries@[i].key()] == self.entries@[i].value,
    {
        let k = self.entries@[i].key();
        assert(0 <= i < self.entries@.len() && self.entries@[i].key() == k);
        let j = choose|j: int| 0 <= j < self.entries@.len() && #[trigger] self.entries@[j].key() == k;
        assert(j == i);
    }

    /// A key that no entry carries is not in the view.
    proof fn lemma_view_absent(self, k: ThingKey)
        requires
            forall|i: int| 0 <= i < self.entries@.len() ==> #[trigger] self.entries@[i].key() != k,
        ensures
            !self@.contains_key(k),
    {
    }

    /// Read the cached value of one state field, when the snapshot has it.
    pub fn get(&self, thing_id: &String, state_name: &String, instance: u16) -> (r: Option<
        &ScriptValue,
    >)
        requires
            self.wf(),
        ensures
            ({
                let k = ThingKey { thing: thing_id@, state: state_name@, instance };
                match r {
                    Some(v) => self@.contains_key(k) && *v == self@[k],
                    None => !self@.contains_key(k),
                }
            }),
    {
        let ghost k = ThingKey { thing: thing_id@, state: state_name@, instance };
        let n = self.entries.len();
        let mut i: usize = 0;
        #[verifier::loop_isolation(false)]
        while i < n
            invariant
                n == self.entries@.len(),
                i <= n,
                forall|j: int| 0 <= j < i ==> #[trigger] self.entries@[j].key() != k,
            decreases n - i,
        {
            if self.entries[i].thing_id == *thing_id && self.entries[i].state_name == *state_name
                && self.entries[i].instance == instance {
                proof {
                    assert(self.entries@[i as int].key() == k);
                    self.lemma_view_entry(i as int);
                }
                return Some(&self.entries[i].value);
            }
            i = i + 1;
        }
        proof {
            self.lemma_view_absent(k);
        }
        None
    }

    /// The snapshot after recording one entry: an entry under the same key
    /// is replaced in place, a new key is appended at the end.
    pub open spec fn spec_upsert(s: Seq<ThingState>, e: ThingState) -> Seq<ThingState>
        decreases s.len(),
    {
        if s.len() == 0 {
            seq![e]
        } else if s.first().key() == e.key() {
            seq![e] + s.drop_first()
        } else {
            seq![s.first()] + Self::spec_upsert(s.drop_first(), e)
        }
    }

    /// Recording a key that no entry carries appends the entry at the end.
    proof fn lemma_upsert_absent(s: Seq<ThingState>, e: ThingState)
        requires
            forall|j: int| 0 <= j < s.len() ==> (#[trigger] s[j]).key() != e.key(),
        ensures
            Self::spec_upsert(s, e) == s.push(e),
        decreases s.len(),
    {
        if s.len() == 0 {
            assert(Self::spec_upsert(s, e) =~= s.push(e));
        } else {
            Self::lemma_upsert_absent(s.drop_first(), e);
            assert(Self::spec_upsert(s, e) =~= s.push(e));
        }
    }

    /// Recording a key whose first carrier is the entry at `i` replaces
    /// that entry in place.
    proof fn lemma_upsert_at(s: Seq<ThingState>, e: ThingState, i: int)
        requires
            0 <= i < s.len(),
            s[i].key() == e.key(),
            forall|j: int| 0 <= j < i ==> (#[trigger] s[j]).key() != e.key(),
        ensures
            Self::spec_upsert(s, e) == s.update(i, e),
        decreases i,
    {
        if i == 0 {
            assert(Self::spec_upsert(s, e) =~= s.update(i, e));
        } else {
            Self::lemma_upsert_at(s.drop_first(), e, i - 1);
            assert(Self::spec_upsert(s, e) =~= s.update(i, e));
        }
    }

    /// Record the value of one state field, replacing any earlier value
    /// under the same key.
    #[verifier::loop_isolation(false)]
    pub fn set(&mut self, thing_id: String, state_name: String, instance: u16, value: ScriptValue)
        requires
            old(self).wf(),
        ensures
            final(self).wf(),
            final(self)@ == old(self)@.insert(
                ThingKey { thing: thing_id@, state: state_name@, instance },
                value,
            ),
            final(self).states() == Self::spec_upsert(
                old(self).states(),
                ThingState { thing_id, state_name, instance, value },
            ),
    {
        let ghost k = ThingKey { thing: thing_id@, state: state_name@, instance };
        let ghost m0 = old(self)@;
        let ghost e0 = old(self).entries@;
        let n = self.entries.len();
        let mut i: usize = 0;
        while i < n
            invariant
                *self == *old(self),
                n == self.entries@.len(),
                i <= n,
                forall|j: int| 0 <= j < i ==> #[trigger] self.entries@[j].key() != k,
            decreases n - i,
        {
            if self.entries[i].thing_id == thing_id && self.entries[i].state_name
                == state_name && self.entries[i].instance == instance {
                self.entries.remove(i);
                self.entries.insert(i, ThingState { thing_id, state_name, instance, value });
                proof {
                    let u = self.entries@;
                    assert(u =~= e0.update(i as int, u[i as int]));
                    assert(u[i as int].key() == k && e0[i as int].key() == k);
                    assert(forall|j: int|
                        0 <= j < u.len() ==> #[trigger] u[j].key() == e0[j].key());
                    assert(self.wf());
                    assert forall|key: ThingKey|
                        self@.contains_key(key) == m0.insert(k, value).contains_key(key) by {
                        if exists|j: int| 0 <= j < e0.len() && #[trigger] e0[j].key() == key {
                            let j = choose|j: int|
                                0 <= j < e0.len() && #[trigger] e0[j].key() == key;
                            assert(u[j].key() == key);
                        }
                        if exists|j: int| 0 <= j < u.len() && #[trigger] u[j].key() == key {
                            let j = choose|j: int| 0 <= j < u.len() && #[trigger] u[j].key() == key;
                            assert(e0[j].key() == key);
                        }
                    }
                    assert forall|key: ThingKey| #[trigger] self@.contains_key(key) implies self@[key]
                        == m0.insert(k, value)[key] by {
                        let j = choose|j: int| 0 <= j < u.len() && #[trigger] u[j].key() == key;
                        if key == k {
                            assert(j == i as int);
                        } else {
                            assert(u[j] == e0[j]);
                            old(self).lemma_view_entry(j);
                        }
                    }
                    assert(self@ =~= m0.insert(k, value));
                    Self::lemma_upsert_at(e0, u[i as int], i as int);
                }
                return;
            }
            i = i + 1;
        }
        self.entries.push(ThingState { thing_id, state_name, instance, value });
        proof {
            let u = self.entries@;
            assert(forall|j: int| 0 <= j < e0.len() ==> u[j] == e0[j]);
            assert(u[e0.len() as int].key() == k);
            assert(self.wf());
            assert forall|key: ThingKey|
                self@.contains_key(key) == m0.insert(k, value).contains_key(key) by {
                if exists|j: int| 0 <= j < e0.len() && #[trigger] e0[j].key() == key {
                    let j = choose|j: int| 0 <= j < e0.len() && #[trigger] e0[j].key() == key;
                    assert(u[j].key() == key);
                }
            }
            assert forall|key: ThingKey| #[trigger] self@.contains_key(key) implies self@[key]
                == m0.insert(k, value)[key] by {
                let j = choose|j: int| 0 <= j < u.len() && #[trigger] u[j].key() == key;
                if key == k {
                    assert(j == e0.len() as int);
                } else {
                    assert(j < e0.len());
                    assert(u[j] == e0[j]);
                    old(self).lemma_view_entry(j);
                }
            }
            assert(self@ =~= m0.insert(k, value));
            Self::lemma_upsert_absent(e0, u[e0.len() as int]);
            assert(u =~= e0.push(u[e0.len() as int]));
        }
    }

    /// The entries of one thing, in snapshot order.
    pub open spec fn spec_states_of(s: Seq<ThingState>, thing: Seq<char>) -> Seq<ThingState>
        decreases s.len(),
    {
        if s.len() == 0 {
            Seq::empty()
        } else {
            Self::spec_states_of(s.drop_last(), thing) + if s.last().thing_id@ == thing {
                seq![s.last()]
            } else {
                Seq::empty()
            }
        }
    }

    /// Every cached state field of `thing_id`, in snapshot order; what the
    /// all-states read of a thing hands to the engine to assemble into an
    /// object.
    #[verifier::loop_isolation(false)]
    pub fn states_of(&self, thing_id: &String) -> (r: Vec<ThingState>)
        ensures
            r@ == Self::spec_states_of(self.states(), thing_id@),
    {
        let n = self.entries.len();
        let mut out: Vec<ThingState> = Vec::new();
        let mut i: usize = 0;
        while i < n
            invariant
                n == self.entries@.len(),
                i <= n,
                out@ == Self::spec_states_of(self.entries@.take(i as int), thing_id@),
            decreases n - i,
        {
            proof {
                assert(self.entries@.take(i as int + 1).drop_last() =~= self.entries@.take(
                    i as int,
                ));
            }
            if self.entries[i].thing_id == *thing_id {
                out.push(self.entries[i].dup());
            }
            i = i + 1;
        }
        proof {
            assert(self.entries@.take(n as int) =~= self.entries@);
        }
        out
    }
}

} // verus!
