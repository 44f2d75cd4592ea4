use scriptengine_quickjs::loader::CompileRequest;
use scriptengine_quickjs::loader::loader_reply;
use scriptengine_quickjs::loader::resolve_specifier;
use scriptengine_quickjs::runner::EngineAction;
use scriptengine_quickjs::runner::EngineEvent;
use scriptengine_quickjs::runner::ExtractedResult;
use scriptengine_quickjs::runner::ResultKind;
use scriptengine_quickjs::runner::SessionOutcome;
use scriptengine_quickjs::runner::SessionPhase;
use scriptengine_quickjs::runner::advance;
use scriptengine_quickjs::runner::exit_code;
use scriptengine_quickjs::runner::extract_result;
use scriptengine_quickjs::runner::result_kind;
use scriptengine_quickjs::runner::start;
use scriptengine_quickjs::runner::with_preamble;
use scriptengine_quickjs::value::ScriptValue;
use scriptengine_quickjs::value::parse_u64_dec;
use scriptengine_quickjs::value::u64_to_dec;

const PREAMBLE: &[u8] = b"import {sleep,setTimeout,clearTimeout} from 'os';\n";

#[test]
fn decimal_rendering_exact_values() {
    assert_eq!(u64_to_dec(0), "0");
    assert_eq!(u64_to_dec(7), "7");
    assert_eq!(u64_to_dec(10), "10");
    assert_eq!(u64_to_dec(12345), "12345");
    assert_eq!(u64_to_dec(u64::MAX), "18446744073709551615");
}

#[test]
fn decimal_parsing() {
    assert_eq!(parse_u64_dec("0"), Some(0));
    assert_eq!(parse_u64_dec("0042"), Some(42));
    assert_eq!(parse_u64_dec("18446744073709551615"), Some(u64::MAX));
    assert_eq!(parse_u64_dec(""), None);
    assert_eq!(parse_u64_dec("12a"), None);
    assert_eq!(parse_u64_dec("-3"), None);
    assert_eq!(parse_u64_dec("18446744073709551616"), None);
}

#[test]
fn decimal_round_trip() {
    for n in [0u64, 1, 9, 10, 99, 100, 65535, 1 << 40, u64::MAX] {
        assert_eq!(parse_u64_dec(&u64_to_dec(n)), Some(n));
    }
}

#[test]
fn preamble_is_prepended() {
    let src = b"output = 'x';".to_vec();
    let buf = with_preamble(src.clone());
    assert_eq!(&buf[..PREAMBLE.len()], PREAMBLE);
    assert_eq!(&buf[PREAMBLE.len()..], &src[..]);
    let empty = with_preamble(Vec::new());
    assert_eq!(&empty[..], PREAMBLE);
}

#[test]
fn string_output_is_extracted_as_written() {
    // a script that set output = "x" and did no asynchronous work
    let r = extract_result(Some(ScriptValue::Str("x".to_string())));
    assert_eq!(r, ExtractedResult::Value(ScriptValue::Str("x".to_string())));
    match r {
        ExtractedResult::Value(v) => assert_eq!(result_kind(&v), ResultKind::StringResult),
        ExtractedResult::NoResult => panic!("a bound output must extract as a value"),
    }
}

#[test]
fn absent_output_is_distinct_from_every_value() {
    let none = extract_result(None);
    assert_eq!(none, ExtractedResult::NoResult);
    assert_ne!(none, ExtractedResult::Value(ScriptValue::Str(String::new())));
    assert_ne!(none, ExtractedResult::Value(ScriptValue::Bool(false)));
    assert_ne!(none, ExtractedResult::Value(ScriptValue::Number(0)));
    assert_ne!(none, ExtractedResult::Value(ScriptValue::Undefined));
}

#[test]
fn happy_path_walks_every_step_and_exits_zero() {
    let (phase, action) = start(true);
    assert_eq!(action, EngineAction::ReadEntrySource);
    let (phase, action) = advance(phase, EngineEvent::SourceRead(b"output = 'x';".to_vec()));
    assert_eq!(phase, SessionPhase::Compiling);
    match action {
        EngineAction::CompileModule(buf) => assert_eq!(&buf[..PREAMBLE.len()], PREAMBLE),
        other => panic!("expected a compile action, got {:?}", other),
    }
    let (phase, action) = advance(phase, EngineEvent::Compiled);
    assert_eq!((&phase, action), (&SessionPhase::Serializing, EngineAction::SerializeModule));
    let (phase, action) = advance(phase, EngineEvent::Serialized);
    assert_eq!((&phase, action), (&SessionPhase::Executing, EngineAction::ExecuteBytecode));
    let (phase, action) = advance(phase, EngineEvent::Executed);
    assert_eq!((&phase, action), (&SessionPhase::Draining, EngineAction::DrainLoop));
    let (phase, action) = advance(phase, EngineEvent::LoopDrained);
    assert_eq!((&phase, action), (&SessionPhase::Extracting, EngineAction::ReadOutput));
    let (phase, action) = advance(
        phase,
        EngineEvent::OutputValue(Some(ScriptValue::Str("x".to_string()))),
    );
    assert_eq!(action, EngineAction::ReleaseResources);
    let (phase, action) = advance(phase, EngineEvent::CleanedUp);
    assert_eq!(action, EngineAction::Stop);
    match phase {
        SessionPhase::Done(SessionOutcome::Completed(r)) => {
            assert_eq!(r, ExtractedResult::Value(ScriptValue::Str("x".to_string())));
            assert_eq!(exit_code(&SessionOutcome::Completed(r)), 0);
        },
        other => panic!("expected a completed run, got {:?}", other),
    }
}

#[test]
fn unresolvable_import_fails_at_the_compile_stage() {
    // the loader answered the engine's callback with the null sentinel, so
    // compilation of the entry module fails with a resolution error
    assert_eq!(loader_reply(None), 0);
    let (phase, action) = start(true);
    assert_eq!(action, EngineAction::ReadEntrySource);
    let (phase, _) = advance(
        phase,
        EngineEvent::SourceRead(b"import {x} from 'no/such/module.js';".to_vec()),
    );
    let (phase, action) = advance(
        phase,
        EngineEvent::CompileFailed {
            message: "could not load module 'no/such/module.js'".to_string(),
            stack: None,
        },
    );
    assert_eq!(action, EngineAction::ReleaseResources);
    let (phase, action) = advance(phase, EngineEvent::CleanedUp);
    assert_eq!(action, EngineAction::Stop);
    match phase {
        SessionPhase::Done(outcome) => {
            match &outcome {
                SessionOutcome::Failed { message, stack } => {
                    assert!(message.contains("could not load module"));
                    assert_eq!(*stack, None);
                },
                other => panic!("expected a failed run, got {:?}", other),
            }
            assert_ne!(exit_code(&outcome), 0);
        },
        other => panic!("expected a finished run, got {:?}", other),
    }
}

#[test]
fn runtime_failure_still_cleans_up() {
    let (phase, action) = advance(
        SessionPhase::Executing,
        EngineEvent::ExecFailed {
            message: "ReferenceError: nope is not defined".to_string(),
            stack: Some("    at <anonymous>".to_string()),
        },
    );
    assert_eq!(action, EngineAction::ReleaseResources);
    match phase {
        SessionPhase::CleaningUp(SessionOutcome::Failed { message, stack }) => {
            assert!(message.contains("ReferenceError"));
            assert_eq!(stack.as_deref(), Some("    at <anonymous>"));
        },
        other => panic!("expected cleanup after a failure, got {:?}", other),
    }
}

#[test]
fn no_script_still_drains_and_reads_output() {
    let (phase, action) = start(false);
    assert_eq!((&phase, action), (&SessionPhase::Draining, EngineAction::DrainLoop));
    let (phase, _) = advance(phase, EngineEvent::LoopDrained);
    let (phase, _) = advance(phase, EngineEvent::OutputValue(None));
    let (phase, _) = advance(phase, EngineEvent::CleanedUp);
    assert_eq!(
        phase,
        SessionPhase::Done(SessionOutcome::Completed(ExtractedResult::NoResult))
    );
}

#[test]
fn result_kinds_follow_the_variant() {
    assert_eq!(result_kind(&ScriptValue::Bool(true)), ResultKind::BoolResult);
    assert_eq!(result_kind(&ScriptValue::Number(-2)), ResultKind::NumberResult);
    assert_eq!(result_kind(&ScriptValue::Str("s".to_string())), ResultKind::StringResult);
    assert_eq!(result_kind(&ScriptValue::Function(1)), ResultKind::FunctionResult);
    assert_eq!(result_kind(&ScriptValue::Object(1)), ResultKind::ObjectResult);
    assert_eq!(result_kind(&ScriptValue::Undefined), ResultKind::UndefinedResult);
}

#[test]
fn loader_protocol() {
    let req = resolve_specifier("lib/util.js".to_string());
    assert_eq!(
        req,
        CompileRequest { path: "lib/util.js".to_string(), compile_only: true, as_module: true }
    );
    assert_eq!(loader_reply(Some(41)), 41);
    assert_eq!(loader_reply(None), 0);
}
