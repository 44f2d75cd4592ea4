//! The host capability registry: the fixed table of native functions the
//! bridge exposes into the script global namespace.
//!
//! Every capability takes its arguments as raw script values and marshals
//! them itself. A missing or wrong-shaped argument makes the call answer
//! with the failure value and leave the session untouched, rather than
//! aborting the run.

use vstd::prelude::*;
use crate::session::Session;
use crate::session::SessionState;
use crate::session::ThingRequest;
use crate::store::ThingKey;
use crate::store::ThingState;
use crate::store::ThingStateTable;
use crate::listeners::ListenerInfo;
use crate::listeners::ListenerRegistry;
use crate::value::ScriptValue;
use crate::value::parse_u64_dec;
use crate::value::spec_all_digits;
use crate::value::spec_dec_value;
use crate::value::spec_dec_string;
use crate::value::u64_to_dec;

verus! {

/// The fixed set of capabilities a session exposes to scripts.
pub enum Capability {
    FetchUrl,
    RuleType,
    SetGlobalVar,
    GetGlobalVar,
    SetNamedOutput,
    GetNamedInput,
    ExecThingAction,
    GetThingState,
    GetAllThingStates,
    CmdThingState,
    RegisterStateListener,
    UnregisterStateListener,
    Hello,
}

/// What a capability call hands back to the engine: one value, or the
/// named state fields of a thing for the engine to assemble into an object.
#[derive(Debug, PartialEq, Eq)]
pub enum HostReturn {
    Value(ScriptValue),
    NamedStates(Vec<ThingState>),
}

/// The listener id carried by an argument: scripts may pass the id back as
/// the number it is or as the decimal string registration answered with.
pub open spec fn spec_listener_id_arg(v: ScriptValue) -> Option<u64> {
    match v {
        ScriptValue::Number(n) => if 0 <= n {
            Some(n as u64)
        } else {
            None
        },
        ScriptValue::Str(s) => if s@.len() > 0 && spec_all_digits(s@) && spec_dec_value(s@)
            <= u64::MAX {
            Some(spec_dec_value(s@) as u64)
        } else {
            None
        },
        _ => None,
    }
}

/// Marshal a listener id out of an argument value.
fn listener_id_arg(v: &ScriptValue) -> (r: Option<u64>)
    ensures
        r == spec_listener_id_arg(*v),
{
    match v {
        ScriptValue::Number(n) => {
            if *n >= 0 {
                Some(*n as u64)
            } else {
                None
            }
        },
        ScriptValue::Str(s) => parse_u64_dec(s.as_str()),
        _ => None,
    }
}

/// Whether argument `i` exists and is a string.
pub open spec fn str_arg(args: Seq<ScriptValue>, i: int) -> bool {
    0 <= i < args.len() && args[i] is Str
}

/// The characters of string argument `i`.
pub open spec fn str_arg_chars(args: Seq<ScriptValue>, i: int) -> Seq<char> {
    args[i]->Str_0@
}

/// Whether argument `i` exists and is a number that fits an instance index.
pub open spec fn instance_arg(args: Seq<ScriptValue>, i: int) -> bool {
    &&& 0 <= i < args.len()
    &&& args[i] matches ScriptValue::Number(n) && 0 <= n <= u16::MAX
}

impl Session {
    /// Invoke one capability with marshalled script arguments.
    ///
    /// Each capability checks the shape of its arguments; on a missing or
    /// wrong-shaped argument it answers the failure value (`Undefined`, the
    /// greeting capability's empty string aside) and the session state is
    /// unchanged, so the run continues.
    pub fn invoke(&mut self, cap: Capability, args: Vec<ScriptValue>) -> (r: HostReturn)
        requires
            old(self).wf(),
        ensures
            final(self).wf(),
            match cap {
                Capability::FetchUrl => {
                    &&& final(self).state() == old(self).state()
                    &&& if str_arg(args@, 0) {
                        r matches HostReturn::Value(ScriptValue::Str(s)) && s@ == "get_url "@
                            + str_arg_chars(args@, 0)
                    } else {
                        r == HostReturn::Value(ScriptValue::Undefined)
                    }
                },
                Capability::RuleType => {
                    &&& final(self).state() == old(self).state()
                    &&& r matches HostReturn::Value(ScriptValue::Str(s)) && s@ == "condition"@
                },
                Capability::SetGlobalVar => {
                    if str_arg(args@, 0) && str_arg(args@, 1) {
                        &&& final(self).state() == (SessionState {
                            vars: old(self).state().vars.insert(
                                str_arg_chars(args@, 0),
                                ScriptValue::Str(args@[1]->Str_0),
                            ),
                            ..old(self).state()
                        })
                        &&& r == HostReturn::Value(ScriptValue::Undefined)
                    } else {
                        &&& final(self).state() == old(self).state()
                        &&& r == HostReturn::Value(ScriptValue::Undefined)
                    }
                },
                Capability::GetGlobalVar => {
                    &&& final(self).state() == old(self).state()
                    &&& if str_arg(args@, 0) {
                        if old(self).state().vars.contains_key(str_arg_chars(args@, 0)) {
                            r == HostReturn::Value(
                                old(self).state().vars[str_arg_chars(args@, 0)],
                            )
                        } else {
                            r == HostReturn::Value(ScriptValue::Undefined)
                        }
                    } else {
                        r == HostReturn::Value(ScriptValue::Undefined)
                    }
                },
                Capability::SetNamedOutput => {
                    if str_arg(args@, 0) && args@.len() >= 2 {
                        &&& final(self).state() == (SessionState {
                            outputs: old(self).state().outputs.insert(
                                str_arg_chars(args@, 0),
                                args@[1],
                            ),
                            ..old(self).state()
                        })
                        &&& r == HostReturn::Value(ScriptValue::Undefined)
                    } else {
                        &&& final(self).state() == old(self).state()
                        &&& r == HostReturn::Value(ScriptValue::Undefined)
                    }
                },
                Capability::GetNamedInput => {
                    &&& final(self).state() == old(self).state()
                    &&& if str_arg(args@, 0) {
                        if old(self).state().inputs.contains_key(str_arg_chars(args@, 0)) {
                            r == HostReturn::Value(
                                old(self).state().inputs[str_arg_chars(args@, 0)],
                            )
                        } else {
                            r == HostReturn::Value(ScriptValue::Undefined)
                        }
                    } else {
                        r == HostReturn::Value(ScriptValue::Undefined)
                    }
                },
                Capability::ExecThingAction => {
                    if str_arg(args@, 0) && str_arg(args@, 1) && args@.len() >= 3 {
                        &&& final(self).state() == (SessionState {
                            requests: old(self).state().requests.push(
                                ThingRequest::InvokeAction {
                                    thing_id: args@[0]->Str_0,
                                    action_id: args@[1]->Str_0,
                                    arguments: args@[2],
                                },
                            ),
                            ..old(self).state()
                        })
                        &&& r == HostReturn::Value(ScriptValue::Undefined)
                    } else {
                        &&& final(self).state() == old(self).state()
                        &&& r == HostReturn::Value(ScriptValue::Undefined)
                    }
                },
                Capability::GetThingState => {
                    &&& final(self).state() == old(self).state()
                    &&& if str_arg(args@, 0) && str_arg(args@, 1) && instance_arg(args@, 2) {
                        let k = ThingKey {
                            thing: str_arg_chars(args@, 0),
                            state: str_arg_chars(args@, 1),
                            instance: args@[2]->Number_0 as u16,
                        };
                        if old(self).state().things.contains_key(k) {
                            r == HostReturn::Value(old(self).state().things[k])
                        } else {
                            r == HostReturn::Value(ScriptValue::Undefined)
                        }
                    } else {
                        r == HostReturn::Value(ScriptValue::Undefined)
                    }
                },
                Capability::GetAllThingStates => {
                    &&& final(self).state() == old(self).state()
                    &&& if str_arg(args@, 0) {
                        r matches HostReturn::NamedStates(v) && v@
                            == ThingStateTable::spec_states_of(
                            old(self).state().thing_states,
                            str_arg_chars(args@, 0),
                        )
                    } else {
                        r == HostReturn::Value(ScriptValue::Undefined)
                    }
                },
                Capability::CmdThingState => {
                    if str_arg(args@, 0) && str_arg(args@, 1) && instance_arg(args@, 2)
                        && args@.len() >= 4 {
                        &&& final(self).state() == (SessionState {
                            requests: old(self).state().requests.push(
                                ThingRequest::CommandState {
                                    thing_id: args@[0]->Str_0,
                                    state_name: args@[1]->Str_0,
                                    instance: args@[2]->Number_0 as u16,
                                    value: args@[3],
                                },
                            ),
                            ..old(self).state()
                        })
                        &&& r == HostReturn::Value(ScriptValue::Bool(true))
                    } else {
                        &&& final(self).state() == old(self).state()
                        &&& r == HostReturn::Value(ScriptValue::Undefined)
                    }
                },
                Capability::RegisterStateListener => {
                    if str_arg(args@, 0) && args@.len() >= 2 && args@[1] is Function && old(
                        self,
                    ).state().next_listener_id < u64::MAX {
                        let id = old(self).state().next_listener_id;
                        &&& !old(self).state().issued_ids.contains(id)
                        &&& final(self).state() == (SessionState {
                            listeners: old(self).state().listeners.insert(
                                id,
                                ListenerInfo { thing: str_arg_chars(args@, 0), callback: args@[1] },
                            ),
                            listener_listing: old(self).state().listener_listing.push(
                                (
                                    id,
                                    ListenerInfo {
                                        thing: str_arg_chars(args@, 0),
                                        callback: args@[1],
                                    },
                                ),
                            ),
                            issued_ids: old(self).state().issued_ids.insert(id),
                            next_listener_id: (id + 1) as u64,
                            ..old(self).state()
                        })
                        &&& r matches HostReturn::Value(ScriptValue::Str(s)) && s@
                            == spec_dec_string(id as nat)
                    } else {
                        &&& final(self).state() == old(self).state()
                        &&& r == HostReturn::Value(ScriptValue::Undefined)
                    }
                },
                Capability::UnregisterStateListener => {
                    &&& r == HostReturn::Value(ScriptValue::Undefined)
                    &&& if args@.len() >= 1 {
                        match spec_listener_id_arg(args@[0]) {
                            Some(id) => if old(self).state().listeners.contains_key(id) {
                                final(self).state() == (SessionState {
                                    listeners: old(self).state().listeners.remove(id),
                                    listener_listing: ListenerRegistry::spec_without_id(
                                        old(self).state().listener_listing,
                                        id,
                                    ),
                                    released: old(self).state().released.push(
                                        old(self).state().listeners[id].callback,
                                    ),
                                    ..old(self).state()
                                })
                            } else {
                                final(self).state() == old(self).state()
                            },
                            None => final(self).state() == old(self).state(),
                        }
                    } else {
                        final(self).state() == old(self).state()
                    }
                },
                Capability::Hello => {
                    if str_arg(args@, 0) {
                        &&& final(self).state() == (SessionState {
                            greeted: old(self).state().greeted.push(args@[0]->Str_0),
                            ..old(self).state()
                        })
                        &&& r matches HostReturn::Value(ScriptValue::Str(s)) && s@ == "hello "@
                            + str_arg_chars(args@, 0)
                    } else {
                        &&& final(self).state() == old(self).state()
                        &&& r matches HostReturn::Value(ScriptValue::Str(s)) && s@ == Seq::<
                            char,
                        >::empty()
                    }
                },
            },
    {
        match cap {
            Capability::FetchUrl => {
                if args.len() >= 1 {
                    if let Some(u) = args[0].as_str() {
                        return HostReturn::Value(
                            ScriptValue::Str(crate::session::get_url(u.clone())),
                        );
                    }
                }
                HostReturn::Value(ScriptValue::Undefined)
            },
            Capability::RuleType => HostReturn::Value(ScriptValue::Str(crate::ruletype())),
            Capability::SetGlobalVar => {
                if args.len() >= 2 {
                    let name = args[0].as_str();
                    let value = args[1].as_str();
                    if name.is_some() && value.is_some() {
                        let n = name.unwrap().clone();
                        let v = value.unwrap().clone();
                        self.set_global_var(n, v);
                        return HostReturn::Value(ScriptValue::Undefined);
                    }
                }
                HostReturn::Value(ScriptValue::Undefined)
            },
            Capability::GetGlobalVar => {
                if args.len() >= 1 {
                    if let Some(n) = args[0].as_str() {
                        return HostReturn::Value(self.get_global_var(n.clone()));
                    }
                }
                HostReturn::Value(ScriptValue::Undefined)
            },
            Capability::SetNamedOutput => {
                if args.len() >= 2 {
                    if let Some(n) = args[0].as_str() {
                        let name = n.clone();
                        let value = args[1].dup();
                        self.set_named_output(name, value);
                        return HostReturn::Value(ScriptValue::Undefined);
                    }
                }
                HostReturn::Value(ScriptValue::Undefined)
            },
            Capability::GetNamedInput => {
                if args.len() >= 1 {
                    if let Some(n) = args[0].as_str() {
                        return HostReturn::Value(self.get_named_input(n.clone()));
                    }
                }
                HostReturn::Value(ScriptValue::Undefined)
            },
            Capability::ExecThingAction => {
                if args.len() >= 3 {
                    let thing = args[0].as_str();
                    let action = args[1].as_str();
                    if thing.is_some() && action.is_some() {
                        let t = thing.unwrap().clone();
                        let a = action.unwrap().clone();
                        let arguments = args[2].dup();
                        self.exec_thing_action(t, a, arguments);
                        return HostReturn::Value(ScriptValue::Undefined);
                    }
                }
                HostReturn::Value(ScriptValue::Undefined)
            },
            Capability::GetThingState => {
                if args.len() >= 3 {
                    let thing = args[0].as_str();
                    let state = args[1].as_str();
                    let inst = args[2].as_number();
                    if thing.is_some() && state.is_some() && inst.is_some() {
                        let n = inst.unwrap();
                        if 0 <= n && n <= u16::MAX as i64 {
                            let t = thing.unwrap().clone();
                            let s = state.unwrap().clone();
                            return HostReturn::Value(self.get_thing_state(t, s, n as u16));
                        }
                    }
                }
                HostReturn::Value(ScriptValue::Undefined)
            },
            Capability::GetAllThingStates => {
                if args.len() >= 1 {
                    if let Some(t) = args[0].as_str() {
                        return HostReturn::NamedStates(self.get_all_thing_states(t.clone()));
                    }
                }
                HostReturn::Value(ScriptValue::Undefined)
            },
            Capability::CmdThingState => {
                if args.len() >= 4 {
                    let thing = args[0].as_str();
                    let state = args[1].as_str();
                    let inst = args[2].as_number();
                    if thing.is_some() && state.is_some() && inst.is_some() {
                        let n = inst.unwrap();
                        if 0 <= n && n <= u16::MAX as i64 {
                            let t = thing.unwrap().clone();
                            let s = state.unwrap().clone();
                            let v = args[3].dup();
                            let accepted = self.cmd_thing_state(t, s, n as u16, v);
                            return HostReturn::Value(ScriptValue::Bool(accepted));
                        }
                    }
                }
                HostReturn::Value(ScriptValue::Undefined)
            },
            Capability::RegisterStateListener => {
                if args.len() >= 2 {
                    if let Some(t) = args[0].as_str() {
                        let thing = t.clone();
                        let callback = args[1].dup();
                        match self.register_state_listener(thing, callback) {
                            Some(id) => {
                                return HostReturn::Value(ScriptValue::Str(u64_to_dec(id)));
                            },
                            None => {
                                return HostReturn::Value(ScriptValue::Undefined);
                            },
                        }
                    }
                }
                HostReturn::Value(ScriptValue::Undefined)
            },
            Capability::UnregisterStateListener => {
                if args.len() >= 1 {
                    if let Some(id) = listener_id_arg(&args[0]) {
                        self.unregister_state_listener(id);
                    }
                }
                HostReturn::Value(ScriptValue::Undefined)
            },
            Capability::Hello => {
                if args.len() >= 1 {
                    let r = self.hello(&args[0]);
                    HostReturn::Value(ScriptValue::Str(r))
                } else {
                    HostReturn::Value(ScriptValue::Str(String::new()))
                }
            },
        }
    }
}

} // verus!
