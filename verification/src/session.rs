//! One script execution context: the host-side state that the capability
//! surface reads and mutates.
//!
//! A [`Session`] owns the global variable store, the named input and output
//! bindings, the snapshot of external thing states, the listener registry,
//! the queue of outbound requests to the thing registry, and the buffers the
//! remaining capabilities accumulate into. Everything a capability does to a
//! session is stated against the session's abstract [`SessionState`].

use vstd::prelude::*;
use vstd::string::StringExecFns;
use crate::listeners::ListenerInfo;
use crate::listeners::ListenerRegistry;
use crate::store::ThingKey;
use crate::store::ThingState;
use crate::store::ThingStateTable;
use crate::store::ValueStore;
use crate::value::ScriptValue;

verus! {

/// A queued request to the external thing registry. Delegating capabilities
/// are fire-and-forget: they enqueue the request and the host delivers it
/// outside the engine's execution thread.
#[derive(Debug, PartialEq, Eq)]
pub enum ThingRequest {
    InvokeAction { thing_id: String, action_id: String, arguments: ScriptValue },
    CommandState { thing_id: String, state_name: String, instance: u16, value: ScriptValue },
}

/// The abstract state of a session: every map, table and queue a capability
/// can observe or change.
#[verifier::ext_equal]
pub struct SessionState {
    /// The host-side global variable store.
    pub vars: Map<Seq<char>, ScriptValue>,
    /// The named output bindings.
    pub outputs: Map<Seq<char>, ScriptValue>,
    /// The named input bindings.
    pub inputs: Map<Seq<char>, ScriptValue>,
    /// The snapshot of external thing states, as a map.
    pub things: Map<ThingKey, ScriptValue>,
    /// The same snapshot in its held order.
    pub thing_states: Seq<ThingState>,
    /// The live listeners by id.
    pub listeners: Map<u64, ListenerInfo>,
    /// The live listeners in registration order.
    pub listener_listing: Seq<(u64, ListenerInfo)>,
    /// Every listener id ever issued.
    pub issued_ids: Set<u64>,
    /// The id the next registration will be given.
    pub next_listener_id: u64,
    /// The queued outbound thing-registry requests.
    pub requests: Seq<ThingRequest>,
    /// The strings the greeting capability has accumulated.
    pub greeted: Seq<String>,
    /// Callback references released by unregistration and not yet freed.
    pub released: Seq<ScriptValue>,
}

/// One execution context bound to a runtime: the host-side half of a script
/// run.
pub struct Session {
    vars: ValueStore,
    outputs: ValueStore,
    inputs: ValueStore,
    things: ThingStateTable,
    listeners: ListenerRegistry,
    requests: Vec<ThingRequest>,
    greeted: Vec<String>,
    released: Vec<ScriptValue>,
}

impl Session {
    /// The session's abstract state.
    pub closed spec fn state(self) -> SessionState {
        SessionState {
            vars: self.vars@,
            outputs: self.outputs@,
            inputs: self.inputs@,
            things: self.things@,
            thing_states: self.things.states(),
            listeners: self.listeners@,
            listener_listing: self.listeners.listing(),
            issued_ids: self.listeners.issued(),
            next_listener_id: self.listeners.spec_next(),
            requests: self.requests@,
            greeted: self.greeted@,
            released: self.released@,
        }
    }

    /// The components are well formed and the variable store only holds
    /// marshalled strings, the one shape the set capability writes.
    pub closed spec fn wf(self) -> bool {
        &&& self.vars.wf()
        &&& self.outputs.wf()
        &&& self.inputs.wf()
        &&& self.things.wf()
        &&& self.listeners.wf()
        &&& forall|k: Seq<char>|
            self.vars@.contains_key(k) ==> #[trigger] self.vars@[k] is Str
    }

    /// A fresh session with nothing stored, no listeners and no issued id.
    pub fn new() -> (r: Session)
        ensures
            r.wf(),
            r.state() == (SessionState {
                vars: Map::empty(),
                outputs: Map::empty(),
                inputs: Map::empty(),
                things: Map::empty(),
                thing_states: Seq::empty(),
                listeners: Map::empty(),
                listener_listing: Seq::empty(),
                issued_ids: Set::empty(),
                next_listener_id: 0,
                requests: Seq::empty(),
                greeted: Seq::empty(),
                released: Seq::empty(),
            }),
    {
        let r = Session {
            vars: ValueStore::new(),
            outputs: ValueStore::new(),
            inputs: ValueStore::new(),
            things: ThingStateTable::new(),
            listeners: ListenerRegistry::new(),
            requests: Vec::new(),
            greeted: Vec::new(),
            released: Vec::new(),
        };
        proof {
            assert(r.listeners.listing() =~= Seq::<(u64, ListenerInfo)>::empty());
            assert(r.state() =~= (SessionState {
                vars: Map::empty(),
                outputs: Map::empty(),
                inputs: Map::empty(),
                things: Map::empty(),
                thing_states: Seq::empty(),
                listeners: Map::empty(),
                listener_listing: Seq::empty(),
                issued_ids: Set::empty(),
                next_listener_id: 0,
                requests: Seq::empty(),
                greeted: Seq::empty(),
                released: Seq::empty(),
            }));
        }
        r
    }

    /// Bind a global variable to a string value.
    pub fn set_global_var(&mut self, var_name: String, var_value: String)
        requires
            old(self).wf(),
        ensures
            final(self).wf(),
            final(self).state() == (SessionState {
                vars: old(self).state().vars.insert(var_name@, ScriptValue::Str(var_value)),
                ..old(self).state()
            }),
    {
        let ghost target = SessionState {
            vars: old(self).state().vars.insert(var_name@, ScriptValue::Str(var_value)),
            ..old(self).state()
        };
        self.vars.set(var_name, ScriptValue::Str(var_value));
        proof {
            assert(self.state() =~= target);
        }
    }

    /// Read a global variable. Reading a name that was never set fails with
    /// the undefined value, which the store never holds.
    pub fn get_global_var(&self, var_name: String) -> (r: ScriptValue)
        requires
            self.wf(),
        ensures
            self.state().vars.contains_key(var_name@) ==> r == self.state().vars[var_name@] && r
                is Str,
            !self.state().vars.contains_key(var_name@) ==> r == ScriptValue::Undefined,
    {
        match self.vars.get(&var_name) {
            Some(v) => v.dup(),
            None => ScriptValue::Undefined,
        }
    }

    /// Bind a named output to a value.
    pub fn set_named_output(&mut self, var_name: String, var_value: ScriptValue)
        requires
            old(self).wf(),
        ensures
            final(self).wf(),
            final(self).state() == (SessionState {
                outputs: old(self).state().outputs.insert(var_name@, var_value),
                ..old(self).state()
            }),
    {
        let ghost target = SessionState {
            outputs: old(self).state().outputs.insert(var_name@, var_value),
            ..old(self).state()
        };
        self.outputs.set(var_name, var_value);
        proof {
            assert(self.state() =~= target);
        }
    }

    /// Read a named input binding; fails with the undefined value when the
    /// host provided none under that name.
    pub fn get_named_input(&self, var_name: String) -> (r: ScriptValue)
        requires
            self.wf(),
        ensures
            self.state().inputs.contains_key(var_name@) ==> r == self.state().inputs[var_name@],
            !self.state().inputs.contains_key(var_name@) ==> r == ScriptValue::Undefined,
    {
        match self.inputs.get(&var_name) {
            Some(v) => v.dup(),
            None => ScriptValue::Undefined,
        }
    }

    /// Read a named output binding back after the run; fails with the
    /// undefined value when the script bound none under that name.
    pub fn get_named_output(&self, var_name: String) -> (r: ScriptValue)
        requires
            self.wf(),
        ensures
            self.state().outputs.contains_key(var_name@) ==> r == self.state().outputs[var_name@],
            !self.state().outputs.contains_key(var_name@) ==> r == ScriptValue::Undefined,
    {
        match self.outputs.get(&var_name) {
            Some(v) => v.dup(),
            None => ScriptValue::Undefined,
        }
    }

    /// Hand an input binding to the session before the script runs.
    pub fn provide_named_input(&mut self, var_name: String, var_value: ScriptValue)
        requires
            old(self).wf(),
        ensures
            final(self).wf(),
            final(self).state() == (SessionState {
                inputs: old(self).state().inputs.insert(var_name@, var_value),
                ..old(self).state()
            }),
    {
        let ghost target = SessionState {
            inputs: old(self).state().inputs.insert(var_name@, var_value),
            ..old(self).state()
        };
        self.inputs.set(var_name, var_value);
        proof {
            assert(self.state() =~= target);
        }
    }

    /// Queue an action invocation for the external thing registry.
    pub fn exec_thing_action(&mut self, thing_id: String, action_id: String, arguments: ScriptValue)
        requires
            old(self).wf(),
        ensures
            final(self).wf(),
            final(self).state() == (SessionState {
                requests: old(self).state().requests.push(
                    ThingRequest::InvokeAction { thing_id, action_id, arguments },
                ),
                ..old(self).state()
            }),
    {
        let ghost target = SessionState {
            requests: old(self).state().requests.push(
                ThingRequest::InvokeAction { thing_id, action_id, arguments },
            ),
            ..old(self).state()
        };
        self.requests.push(ThingRequest::InvokeAction { thing_id, action_id, arguments });
        proof {
            assert(self.state() =~= target);
        }
    }

    /// Read the cached value of one thing state field; fails with the
    /// undefined value when the snapshot has none.
    pub fn get_thing_state(&self, thing_id: String, state_name: String, state_instance: u16) -> (r:
        ScriptValue)
        requires
            self.wf(),
        ensures
            ({
                let k = ThingKey { thing: thing_id@, state: state_name@, instance: state_instance };
                &&& self.state().things.contains_key(k) ==> r == self.state().things[k]
                &&& !self.state().things.contains_key(k) ==> r == ScriptValue::Undefined
            }),
    {
        match self.things.get(&thing_id, &state_name, state_instance) {
            Some(v) => v.dup(),
            None => ScriptValue::Undefined,
        }
    }

    /// Every cached state field of one thing, for the engine to assemble
    /// into an object value.
    pub fn get_all_thing_states(&self, thing_id: String) -> (r: Vec<ThingState>)
        requires
            self.wf(),
        ensures
            r@ == ThingStateTable::spec_states_of(self.state().thing_states, thing_id@),
    {
        self.things.states_of(&thing_id)
    }

    /// Queue a state command for the external thing registry; reports
    /// whether the command was accepted into the queue.
    pub fn cmd_thing_state(
        &mut self,
        thing_id: String,
        state_name: String,
        state_instance: u16,
        var_value: ScriptValue,
    ) -> (r: bool)
        requires
            old(self).wf(),
        ensures
            final(self).wf(),
            r == true,
            final(self).state() == (SessionState {
                requests: old(self).state().requests.push(
                    ThingRequest::CommandState {
                        thing_id,
                        state_name,
                        instance: state_instance,
                        value: var_value,
                    },
                ),
                ..old(self).state()
            }),
    {
        let ghost target = SessionState {
            requests: old(self).state().requests.push(
                ThingRequest::CommandState {
                    thing_id,
                    state_name,
                    instance: state_instance,
                    value: var_value,
                },
            ),
            ..old(self).state()
        };
        self.requests.push(
            ThingRequest::CommandState {
                thing_id,
                state_name,
                instance: state_instance,
                value: var_value,
            },
        );
        proof {
            assert(self.state() =~= target);
        }
        true
    }

    /// Register a script callback for state changes of one thing. Succeeds
    /// exactly when the callback is a function value and an id is still
    /// available; the issued id was never issued before.
    pub fn register_state_listener(&mut self, thing_id: String, callback_function: ScriptValue) -> (r:
        Option<u64>)
        requires
            old(self).wf(),
        ensures
            final(self).wf(),
            r is Some <==> (callback_function is Function && old(self).state().next_listener_id
                < u64::MAX),
            r is None ==> final(self).state() == old(self).state(),
            r matches Some(id) ==> {
                &&& id == old(self).state().next_listener_id
                &&& !old(self).state().issued_ids.contains(id)
                &&& !old(self).state().listeners.contains_key(id)
                &&& final(self).state() == (SessionState {
                    listeners: old(self).state().listeners.insert(
                        id,
                        ListenerInfo { thing: thing_id@, callback: callback_function },
                    ),
                    listener_listing: old(self).state().listener_listing.push(
                        (id, ListenerInfo { thing: thing_id@, callback: callback_function }),
                    ),
                    issued_ids: old(self).state().issued_ids.insert(id),
                    next_listener_id: (id + 1) as u64,
                    ..old(self).state()
                })
            },
    {
        let r = self.listeners.register(thing_id, callback_function);
        proof {
            if r is Some {
                assert(self.state() =~= (SessionState {
                    listeners: self.state().listeners,
                    listener_listing: self.state().listener_listing,
                    issued_ids: self.state().issued_ids,
                    next_listener_id: self.state().next_listener_id,
                    ..old(self).state()
                }));
            } else {
                assert(self.state() =~= old(self).state());
            }
        }
        r
    }

    /// Release the listener registered under `listener_id`. The held
    /// callback moves to the released queue exactly once, for the host to
    /// free its engine reference; an unknown id is a no-op.
    pub fn unregister_state_listener(&mut self, listener_id: u64)
        requires
            old(self).wf(),
        ensures
            final(self).wf(),
            old(self).state().listeners.contains_key(listener_id) ==> final(self).state()
                == (SessionState {
                listeners: old(self).state().listeners.remove(listener_id),
                listener_listing: ListenerRegistry::spec_without_id(
                    old(self).state().listener_listing,
                    listener_id,
                ),
                released: old(self).state().released.push(
                    old(self).state().listeners[listener_id].callback,
                ),
                ..old(self).state()
            }),
            !old(self).state().listeners.contains_key(listener_id) ==> final(self).state()
                == old(self).state(),
    {
        let released = self.listeners.unregister(listener_id);
        match released {
            Some(cb) => {
                self.released.push(cb);
                proof {
                    assert(self.state() =~= (SessionState {
                        listeners: old(self).state().listeners.remove(listener_id),
                        listener_listing: self.state().listener_listing,
                        released: old(self).state().released.push(
                            old(self).state().listeners[listener_id].callback,
                        ),
                        ..old(self).state()
                    }));
                }
            },
            None => {
                proof {
                    assert(self.state() =~= old(self).state());
                }
            },
        }
    }

    /// Record a state-change notification from the platform: update the
    /// snapshot and hand back the callbacks of every listener subscribed to
    /// the thing, in registration order, for the engine to invoke with the
    /// marshalled new state.
    pub fn notify_state_change(
        &mut self,
        thing_id: String,
        state_name: String,
        instance: u16,
        value: ScriptValue,
    ) -> (r: Vec<(u64, ScriptValue)>)
        requires
            old(self).wf(),
        ensures
            final(self).wf(),
            final(self).state() == (SessionState {
                things: old(self).state().things.insert(
                    ThingKey { thing: thing_id@, state: state_name@, instance },
                    value,
                ),
                thing_states: ThingStateTable::spec_upsert(
                    old(self).state().thing_states,
                    ThingState { thing_id, state_name, instance, value },
                ),
                ..old(self).state()
            }),
            r@ == ListenerRegistry::spec_callbacks_for(
                old(self).state().listener_listing,
                thing_id@,
            ),
    {
        let r = self.listeners.listeners_for(&thing_id);
        self.things.set(thing_id, state_name, instance, value);
        proof {
            assert(self.state() =~= (SessionState {
                things: self.state().things,
                thing_states: self.state().thing_states,
                ..old(self).state()
            }));
        }
        r
    }

    /// Greet: push the caller's string into the accumulation buffer and
    /// answer with a greeting; on anything but a string, answer with the
    /// empty string and change nothing.
    pub fn hello(&mut self, arg: &ScriptValue) -> (r: String)
        requires
            old(self).wf(),
        ensures
            final(self).wf(),
            match *arg {
                ScriptValue::Str(ref s) => r@ == "hello "@ + s@ && final(self).state()
                    == (SessionState {
                    greeted: old(self).state().greeted.push(*s),
                    ..old(self).state()
                }),
                _ => r@ == Seq::<char>::empty() && final(self).state() == old(self).state(),
            },
    {
        match arg.as_str() {
            Some(s) => {
                let copy = s.clone();
                let mut out = "hello ".to_owned();
                out.append(copy.as_str());
                self.greeted.push(copy);
                proof {
                    assert(self.state() =~= (SessionState {
                        greeted: self.state().greeted,
                        ..old(self).state()
                    }));
                }
                out
            },
            None => {
                let out = String::new();
                proof {
                    assert(self.state() =~= old(self).state());
                }
                out
            },
        }
    }

    /// Drain the queued outbound requests for delivery to the platform.
    pub fn take_requests(&mut self) -> (r: Vec<ThingRequest>)
        requires
            old(self).wf(),
        ensures
            final(self).wf(),
            r@ == old(self).state().requests,
            final(self).state() == (SessionState { requests: Seq::empty(), ..old(self).state() }),
    {
        let mut out: Vec<ThingRequest> = Vec::new();
        core::mem::swap(&mut out, &mut self.requests);
        proof {
            assert(self.state() =~= (SessionState { requests: Seq::empty(), ..old(self).state() }));
        }
        out
    }

    /// Drain the released callback references, for the host to free their
    /// engine references.
    pub fn take_released(&mut self) -> (r: Vec<ScriptValue>)
        requires
            old(self).wf(),
        ensures
            final(self).wf(),
            r@ == old(self).state().released,
            final(self).state() == (SessionState { released: Seq::empty(), ..old(self).state() }),
    {
        let mut out: Vec<ScriptValue> = Vec::new();
        core::mem::swap(&mut out, &mut self.released);
        proof {
            assert(self.state() =~= (SessionState { released: Seq::empty(), ..old(self).state() }));
        }
        out
    }
}

/// The diagnostic stub behind the fetch-by-url capability: it answers with
/// a diagnostic string naming the url instead of fetching anything.
pub fn get_url(url: String) -> (r: String)
    ensures
        r@ == "get_url "@ + url@,
{
    let mut r = "get_url ".to_owned();
    r.append(url.as_str());
    r
}

} // verus!
