use scriptengine_quickjs::host::Capability;
use scriptengine_quickjs::host::HostReturn;
use scriptengine_quickjs::session::Session;
use scriptengine_quickjs::session::ThingRequest;
use scriptengine_quickjs::session::get_url;
use scriptengine_quickjs::ruletype;
use scriptengine_quickjs::value::ScriptValue;
use scriptengine_quickjs::value::marshal_string;
use scriptengine_quickjs::value::unmarshal_string;

#[test]
fn string_round_trip() {
    for s in ["", "x", "héllo wörld", "日本語", "a\u{0}b"] {
        let v = marshal_string(s.to_string());
        assert_eq!(unmarshal_string(v), Some(s.to_string()));
    }
}

#[test]
fn string_round_trip_rejects_other_shapes() {
    assert_eq!(unmarshal_string(ScriptValue::Number(3)), None);
    assert_eq!(unmarshal_string(ScriptValue::Undefined), None);
}

#[test]
fn ruletype_is_condition() {
    assert_eq!(ruletype(), "condition");
}

#[test]
fn get_url_formats_diagnostic() {
    assert_eq!(get_url("http://e/x".to_string()), "get_url http://e/x");
}

#[test]
fn global_vars_set_and_get() {
    let mut s = Session::new();
    s.set_global_var("a".to_string(), "1".to_string());
    s.set_global_var("b".to_string(), "2".to_string());
    s.set_global_var("a".to_string(), "3".to_string());
    assert_eq!(s.get_global_var("a".to_string()), ScriptValue::Str("3".to_string()));
    assert_eq!(s.get_global_var("b".to_string()), ScriptValue::Str("2".to_string()));
    assert_eq!(s.get_global_var("missing".to_string()), ScriptValue::Undefined);
}

#[test]
fn named_bindings() {
    let mut s = Session::new();
    assert_eq!(s.get_named_input("in".to_string()), ScriptValue::Undefined);
    s.provide_named_input("in".to_string(), ScriptValue::Number(9));
    assert_eq!(s.get_named_input("in".to_string()), ScriptValue::Number(9));
    assert_eq!(s.get_named_output("out".to_string()), ScriptValue::Undefined);
    s.set_named_output("out".to_string(), ScriptValue::Bool(true));
    assert_eq!(s.get_named_output("out".to_string()), ScriptValue::Bool(true));
}

#[test]
fn unregister_twice_is_a_no_op() {
    let mut s = Session::new();
    let id = s.register_state_listener("lamp".to_string(), ScriptValue::Function(7)).unwrap();
    s.unregister_state_listener(id);
    assert_eq!(s.take_released(), vec![ScriptValue::Function(7)]);
    s.unregister_state_listener(id);
    assert_eq!(s.take_released(), Vec::<ScriptValue>::new());
    s.unregister_state_listener(id + 1);
    assert_eq!(s.take_released(), Vec::<ScriptValue>::new());
}

#[test]
fn listener_ids_are_not_reused() {
    let mut s = Session::new();
    let first = s.register_state_listener("a".to_string(), ScriptValue::Function(1)).unwrap();
    s.unregister_state_listener(first);
    let second = s.register_state_listener("a".to_string(), ScriptValue::Function(2)).unwrap();
    assert_ne!(first, second);
    s.unregister_state_listener(second);
    let third = s.register_state_listener("b".to_string(), ScriptValue::Function(3)).unwrap();
    assert_ne!(third, first);
    assert_ne!(third, second);
}

#[test]
fn register_rejects_non_function_callback() {
    let mut s = Session::new();
    assert_eq!(s.register_state_listener("a".to_string(), ScriptValue::Number(4)), None);
    let cbs = s.notify_state_change(
        "a".to_string(),
        "on".to_string(),
        0,
        ScriptValue::Bool(true),
    );
    assert!(cbs.is_empty());
}

#[test]
fn notifications_reach_matching_listeners_in_order() {
    let mut s = Session::new();
    let a = s.register_state_listener("lamp".to_string(), ScriptValue::Function(10)).unwrap();
    let _b = s.register_state_listener("door".to_string(), ScriptValue::Function(11)).unwrap();
    let c = s.register_state_listener("lamp".to_string(), ScriptValue::Function(12)).unwrap();
    let cbs = s.notify_state_change(
        "lamp".to_string(),
        "on".to_string(),
        0,
        ScriptValue::Bool(true),
    );
    assert_eq!(cbs, vec![(a, ScriptValue::Function(10)), (c, ScriptValue::Function(12))]);
    assert_eq!(
        s.get_thing_state("lamp".to_string(), "on".to_string(), 0),
        ScriptValue::Bool(true)
    );
    assert_eq!(
        s.get_thing_state("lamp".to_string(), "on".to_string(), 1),
        ScriptValue::Undefined
    );
}

#[test]
fn all_thing_states_of_one_thing() {
    let mut s = Session::new();
    s.notify_state_change("lamp".to_string(), "on".to_string(), 0, ScriptValue::Bool(true));
    s.notify_state_change("lamp".to_string(), "level".to_string(), 0, ScriptValue::Number(40));
    s.notify_state_change("door".to_string(), "open".to_string(), 0, ScriptValue::Bool(false));
    s.notify_state_change("lamp".to_string(), "level".to_string(), 0, ScriptValue::Number(60));
    let states = s.get_all_thing_states("lamp".to_string());
    assert_eq!(states.len(), 2);
    assert_eq!(states[0].state_name, "on");
    assert_eq!(states[0].value, ScriptValue::Bool(true));
    assert_eq!(states[1].state_name, "level");
    assert_eq!(states[1].value, ScriptValue::Number(60));
}

#[test]
fn thing_requests_are_queued_and_drained() {
    let mut s = Session::new();
    s.exec_thing_action("lamp".to_string(), "blink".to_string(), ScriptValue::Number(3));
    let accepted = s.cmd_thing_state(
        "lamp".to_string(),
        "on".to_string(),
        1,
        ScriptValue::Bool(true),
    );
    assert!(accepted);
    let reqs = s.take_requests();
    assert_eq!(
        reqs,
        vec![
            ThingRequest::InvokeAction {
                thing_id: "lamp".to_string(),
                action_id: "blink".to_string(),
                arguments: ScriptValue::Number(3),
            },
            ThingRequest::CommandState {
                thing_id: "lamp".to_string(),
                state_name: "on".to_string(),
                instance: 1,
                value: ScriptValue::Bool(true),
            },
        ]
    );
    assert_eq!(s.take_requests(), Vec::<ThingRequest>::new());
}

#[test]
fn hello_accumulates_and_greets() {
    let mut s = Session::new();
    assert_eq!(s.hello(&ScriptValue::Str("bob".to_string())), "hello bob");
    assert_eq!(s.hello(&ScriptValue::Number(1)), "");
    assert_eq!(s.hello(&ScriptValue::Str("eve".to_string())), "hello eve");
}

#[test]
fn wrong_shaped_arguments_yield_failure_value_and_keep_state() {
    let mut s = Session::new();
    // a number where a string is expected
    let r = s.invoke(
        Capability::SetGlobalVar,
        vec![ScriptValue::Number(5), ScriptValue::Str("v".to_string())],
    );
    assert_eq!(r, HostReturn::Value(ScriptValue::Undefined));
    // a missing argument
    let r = s.invoke(Capability::SetGlobalVar, vec![ScriptValue::Str("x".to_string())]);
    assert_eq!(r, HostReturn::Value(ScriptValue::Undefined));
    // the session keeps running and its state is untouched
    let r = s.invoke(Capability::GetGlobalVar, vec![ScriptValue::Str("x".to_string())]);
    assert_eq!(r, HostReturn::Value(ScriptValue::Undefined));
    let r = s.invoke(Capability::Hello, vec![ScriptValue::Number(2)]);
    assert_eq!(r, HostReturn::Value(ScriptValue::Str(String::new())));
    let r = s.invoke(
        Capability::GetThingState,
        vec![
            ScriptValue::Str("lamp".to_string()),
            ScriptValue::Str("on".to_string()),
            ScriptValue::Number(-1),
        ],
    );
    assert_eq!(r, HostReturn::Value(ScriptValue::Undefined));
    let r = s.invoke(Capability::Hello, vec![ScriptValue::Str("bob".to_string())]);
    assert_eq!(r, HostReturn::Value(ScriptValue::Str("hello bob".to_string())));
}

#[test]
fn capability_surface_round_trip() {
    let mut s = Session::new();
    let r = s.invoke(
        Capability::SetGlobalVar,
        vec![ScriptValue::Str("k".to_string()), ScriptValue::Str("v".to_string())],
    );
    assert_eq!(r, HostReturn::Value(ScriptValue::Undefined));
    let r = s.invoke(Capability::GetGlobalVar, vec![ScriptValue::Str("k".to_string())]);
    assert_eq!(r, HostReturn::Value(ScriptValue::Str("v".to_string())));
    let r = s.invoke(Capability::RuleType, vec![]);
    assert_eq!(r, HostReturn::Value(ScriptValue::Str("condition".to_string())));
    let r = s.invoke(Capability::FetchUrl, vec![ScriptValue::Str("http://e".to_string())]);
    assert_eq!(r, HostReturn::Value(ScriptValue::Str("get_url http://e".to_string())));
    let r = s.invoke(
        Capability::CmdThingState,
        vec![
            ScriptValue::Str("lamp".to_string()),
            ScriptValue::Str("on".to_string()),
            ScriptValue::Number(0),
            ScriptValue::Bool(true),
        ],
    );
    assert_eq!(r, HostReturn::Value(ScriptValue::Bool(true)));
}

#[test]
fn timer_driven_unregistration_empties_the_registry() {
    // a script registers a listener, then a timer callback fired while the
    // event loop drains passes the decimal id back to the unregister
    // capability: afterwards no entry for that id is left
    let mut s = Session::new();
    let r = s.invoke(
        Capability::RegisterStateListener,
        vec![ScriptValue::Str("lamp".to_string()), ScriptValue::Function(9)],
    );
    let id_string = match r {
        HostReturn::Value(ScriptValue::Str(id)) => id,
        other => panic!("registration answered {:?}", other),
    };
    assert_eq!(id_string, "0");
    let r = s.invoke(
        Capability::UnregisterStateListener,
        vec![ScriptValue::Str(id_string)],
    );
    assert_eq!(r, HostReturn::Value(ScriptValue::Undefined));
    let cbs = s.notify_state_change(
        "lamp".to_string(),
        "on".to_string(),
        0,
        ScriptValue::Bool(true),
    );
    assert!(cbs.is_empty());
    assert_eq!(s.take_released(), vec![ScriptValue::Function(9)]);
}

#[test]
fn unregister_accepts_numeric_ids_too() {
    let mut s = Session::new();
    let id = s.register_state_listener("a".to_string(), ScriptValue::Function(3)).unwrap();
    let r = s.invoke(
        Capability::UnregisterStateListener,
        vec![ScriptValue::Number(id as i64)],
    );
    assert_eq!(r, HostReturn::Value(ScriptValue::Undefined));
    assert_eq!(s.take_released(), vec![ScriptValue::Function(3)]);
}
