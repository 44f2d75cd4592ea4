//! The execution-session protocol: load, compile, execute from bytecode,
//! drain the event loop, extract the result, tear down.
//!
//! The engine work itself (reading a file, compiling, running the loop)
//! happens outside the library; the host drives it and feeds each step's
//! outcome back as an [`EngineEvent`]. [`advance`] is the protocol's state
//! machine: it decides, from the current phase and the event, the next
//! phase and the next [`EngineAction`] the host must perform. Resources are
//! released on every path, success and failure alike, before the run is
//! reported done.

use vstd::prelude::*;
use vstd::string::StringSliceAdditionalSpecFns;
use crate::value::ScriptValue;

verus! {

/// The designated result read back after quiescence: either the `output`
/// global was never bound ("no result"), or it held a value, possibly the
/// undefined one.
#[derive(Debug, PartialEq, Eq)]
pub enum ExtractedResult {
    NoResult,
    Value(ScriptValue),
}

/// How one session run ended.
#[derive(Debug, PartialEq, Eq)]
pub enum SessionOutcome {
    Completed(ExtractedResult),
    Failed { message: String, stack: Option<String> },
}

/// Where the session protocol stands.
#[derive(Debug, PartialEq, Eq)]
pub enum SessionPhase {
    /// Reading the entry script's source.
    Loading,
    /// Compiling the preamble-wrapped source as a module, compile-only.
    Compiling,
    /// Serializing the compiled module to portable bytecode.
    Serializing,
    /// Executing the bytecode.
    Executing,
    /// Draining the cooperative event loop to quiescence.
    Draining,
    /// Reading the designated `output` global.
    Extracting,
    /// Releasing engine resources; the outcome is already decided.
    CleaningUp(SessionOutcome),
    /// The run is over.
    Done(SessionOutcome),
}

/// What the engine reported back for the last requested action.
#[derive(Debug, PartialEq, Eq)]
pub enum EngineEvent {
    SourceRead(Vec<u8>),
    SourceMissing(String),
    Compiled,
    CompileFailed { message: String, stack: Option<String> },
    Serialized,
    SerializeFailed { message: String, stack: Option<String> },
    Executed,
    ExecFailed { message: String, stack: Option<String> },
    LoopDrained,
    OutputValue(Option<ScriptValue>),
    CleanedUp,
}

/// What the host must ask of the engine next.
#[derive(Debug, PartialEq, Eq)]
pub enum EngineAction {
    ReadEntrySource,
    CompileModule(Vec<u8>),
    SerializeModule,
    ExecuteBytecode,
    DrainLoop,
    ReadOutput,
    ReleaseResources,
    Stop,
}

/// The fixed import preamble prepended to every entry script: it pulls the
/// timer and sleep primitives in from the engine's standard environment.
pub open spec fn spec_preamble() -> Seq<u8> {
    "import {sleep,setTimeout,clearTimeout} from 'os';\n".spec_bytes()
}

/// Append a slice's bytes to a buffer.
#[verifier::loop_isolation(false)]
fn push_bytes(buf: &mut Vec<u8>, bytes: &[u8])
    ensures
        final(buf)@ == old(buf)@ + bytes@,
{
    let n = bytes.len();
    let mut i: usize = 0;
    while i < n
        invariant
            n == bytes@.len(),
            i <= n,
            buf@ == old(buf)@ + bytes@.take(i as int),
        decreases n - i,
    {
        buf.push(bytes[i]);
        proof {
            assert(buf@ =~= old(buf)@ + bytes@.take(i as int + 1));
        }
        i = i + 1;
    }
    proof {
        assert(buf@ =~= old(buf)@ + bytes@);
    }
}

/// Prepend the fixed import preamble to an entry script's source.
pub fn with_preamble(source: Vec<u8>) -> (r: Vec<u8>)
    ensures
        r@ == spec_preamble() + source@,
{
    let mut buf: Vec<u8> = Vec::new();
    push_bytes(&mut buf, "import {sleep,setTimeout,clearTimeout} from 'os';\n".as_bytes());
    push_bytes(&mut buf, source.as_slice());
    proof {
        assert(buf@ =~= spec_preamble() + source@);
    }
    buf
}

/// Whether an event is one the phase can be answered with.
pub open spec fn phase_expects(phase: SessionPhase, event: EngineEvent) -> bool {
    match phase {
        SessionPhase::Loading => event is SourceRead || event is SourceMissing,
        SessionPhase::Compiling => event is Compiled || event is CompileFailed,
        SessionPhase::Serializing => event is Serialized || event is SerializeFailed,
        SessionPhase::Executing => event is Executed || event is ExecFailed,
        SessionPhase::Draining => event is LoopDrained,
        SessionPhase::Extracting => event is OutputValue,
        SessionPhase::CleaningUp(..) => event is CleanedUp,
        SessionPhase::Done(..) => false,
    }
}

/// Begin a run. With an entry script the session loads it first; without
/// one there is nothing to compile or execute, and the loop is still
/// drained on the empty global namespace before the result is read.
pub fn start(has_script: bool) -> (r: (SessionPhase, EngineAction))
    ensures
        has_script ==> r == (SessionPhase::Loading, EngineAction::ReadEntrySource),
        !has_script ==> r == (SessionPhase::Draining, EngineAction::DrainLoop),
{
    if has_script {
        (SessionPhase::Loading, EngineAction::ReadEntrySource)
    } else {
        (SessionPhase::Draining, EngineAction::DrainLoop)
    }
}

/// Advance the protocol by one engine event.
///
/// Failures while loading, compiling, serializing or executing decide a
/// failed outcome at once; every path, failed or completed, passes through
/// the cleanup phase before the run is done, so engine resources are
/// released unconditionally.
pub fn advance(phase: SessionPhase, event: EngineEvent) -> (r: (SessionPhase, EngineAction))
    requires
        phase_expects(phase, event),
    ensures
        r.0 is Done ==> phase is CleaningUp,
        r.0 is CleaningUp ==> r.1 is ReleaseResources,
        match phase {
            SessionPhase::Loading => match event {
                EngineEvent::SourceRead(src) => r.0 == SessionPhase::Compiling && (
                r.1 matches EngineAction::CompileModule(buf) && buf@ == spec_preamble() + src@),
                EngineEvent::SourceMissing(message) => r == (
                    SessionPhase::CleaningUp(
                        SessionOutcome::Failed { message, stack: None::<String> },
                    ),
                    EngineAction::ReleaseResources,
                ),
                _ => true,
            },
            SessionPhase::Compiling => match event {
                EngineEvent::Compiled => r == (
                    SessionPhase::Serializing,
                    EngineAction::SerializeModule,
                ),
                EngineEvent::CompileFailed { message, stack } => r == (
                    SessionPhase::CleaningUp(SessionOutcome::Failed { message, stack }),
                    EngineAction::ReleaseResources,
                ),
                _ => true,
            },
            SessionPhase::Serializing => match event {
                EngineEvent::Serialized => r == (
                    SessionPhase::Executing,
                    EngineAction::ExecuteBytecode,
                ),
                EngineEvent::SerializeFailed { message, stack } => r == (
                    SessionPhase::CleaningUp(SessionOutcome::Failed { message, stack }),
                    EngineAction::ReleaseResources,
                ),
                _ => true,
            },
            SessionPhase::Executing => match event {
                EngineEvent::Executed => r == (SessionPhase::Draining, EngineAction::DrainLoop),
                EngineEvent::ExecFailed { message, stack } => r == (
                    SessionPhase::CleaningUp(SessionOutcome::Failed { message, stack }),
                    EngineAction::ReleaseResources,
                ),
                _ => true,
            },
            SessionPhase::Draining => r == (SessionPhase::Extracting, EngineAction::ReadOutput),
            SessionPhase::Extracting => match event {
                EngineEvent::OutputValue(output) => r == (
                    SessionPhase::CleaningUp(
                        SessionOutcome::Completed(spec_extract_result(output)),
                    ),
                    EngineAction::ReleaseResources,
                ),
                _ => true,
            },
            SessionPhase::CleaningUp(outcome) => r == (
                SessionPhase::Done(outcome),
                EngineAction::Stop,
            ),
            SessionPhase::Done(..) => true,
        },
{
    match (phase, event) {
        (SessionPhase::Loading, EngineEvent::SourceRead(src)) => (
            SessionPhase::Compiling,
            EngineAction::CompileModule(with_preamble(src)),
        ),
        (SessionPhase::Loading, EngineEvent::SourceMissing(message)) => (
            SessionPhase::CleaningUp(SessionOutcome::Failed { message, stack: None }),
            EngineAction::ReleaseResources,
        ),
        (SessionPhase::Compiling, EngineEvent::Compiled) => (
            SessionPhase::Serializing,
            EngineAction::SerializeModule,
        ),
        (SessionPhase::Compiling, EngineEvent::CompileFailed { message, stack }) => (
            SessionPhase::CleaningUp(SessionOutcome::Failed { message, stack }),
            EngineAction::ReleaseResources,
        ),
        (SessionPhase::Serializing, EngineEvent::Serialized) => (
            SessionPhase::Executing,
            EngineAction::ExecuteBytecode,
        ),
        (SessionPhase::Serializing, EngineEvent::SerializeFailed { message, stack }) => (
            SessionPhase::CleaningUp(SessionOutcome::Failed { message, stack }),
            EngineAction::ReleaseResources,
        ),
        (SessionPhase::Executing, EngineEvent::Executed) => (
            SessionPhase::Draining,
            EngineAction::DrainLoop,
        ),
        (SessionPhase::Executing, EngineEvent::ExecFailed { message, stack }) => (
            SessionPhase::CleaningUp(SessionOutcome::Failed { message, stack }),
            EngineAction::ReleaseResources,
        ),
        (SessionPhase::Draining, _) => (SessionPhase::Extracting, EngineAction::ReadOutput),
        (SessionPhase::Extracting, EngineEvent::OutputValue(output)) => (
            SessionPhase::CleaningUp(SessionOutcome::Completed(extract_result(output))),
            EngineAction::ReleaseResources,
        ),
        (SessionPhase::CleaningUp(outcome), _) => (SessionPhase::Done(outcome), EngineAction::Stop),
        _ => {
            proof {
                assert(false);
            }
            (SessionPhase::Draining, EngineAction::DrainLoop)
        },
    }
}

/// What result extraction reports for the read-back `output` global.
pub open spec fn spec_extract_result(output: Option<ScriptValue>) -> ExtractedResult {
    match output {
        None => ExtractedResult::NoResult,
        Some(v) => ExtractedResult::Value(v),
    }
}

/// Turn the read-back `output` global into the session's result. A global
/// that was never bound is "no result"; a bound one is a value, even when
/// that value is undefined, false, zero or the empty string.
pub fn extract_result(output: Option<ScriptValue>) -> (r: ExtractedResult)
    ensures
        r == spec_extract_result(output),
{
    match output {
        None => ExtractedResult::NoResult,
        Some(v) => ExtractedResult::Value(v),
    }
}

/// "No result" is distinct from every present value: no script value, the
/// empty string, false, zero and the undefined value included, extracts to
/// it.
pub proof fn lemma_no_result_distinct(v: ScriptValue)
    ensures
        spec_extract_result(Some(v)) != spec_extract_result(None::<ScriptValue>),
{
}

/// How the caller reports a completed run's value: by the engine type of
/// the extracted result.
#[derive(Debug, PartialEq, Eq)]
pub enum ResultKind {
    BoolResult,
    NumberResult,
    StringResult,
    FunctionResult,
    ObjectResult,
    UndefinedResult,
}

/// The report kind of an extracted value.
pub fn result_kind(v: &ScriptValue) -> (r: ResultKind)
    ensures
        match *v {
            ScriptValue::Bool(..) => r == ResultKind::BoolResult,
            ScriptValue::Number(..) => r == ResultKind::NumberResult,
            ScriptValue::Str(..) => r == ResultKind::StringResult,
            ScriptValue::Function(..) => r == ResultKind::FunctionResult,
            ScriptValue::Object(..) => r == ResultKind::ObjectResult,
            ScriptValue::Undefined => r == ResultKind::UndefinedResult,
        },
{
    match v {
        ScriptValue::Bool(..) => ResultKind::BoolResult,
        ScriptValue::Number(..) => ResultKind::NumberResult,
        ScriptValue::Str(..) => ResultKind::StringResult,
        ScriptValue::Function(..) => ResultKind::FunctionResult,
        ScriptValue::Object(..) => ResultKind::ObjectResult,
        ScriptValue::Undefined => ResultKind::UndefinedResult,
    }
}

/// The process exit code for an outcome: zero exactly on a completed run.
pub fn exit_code(outcome: &SessionOutcome) -> (r: i32)
    ensures
        *outcome is Completed <==> r == 0,
        *outcome is Failed <==> r == 1,
{
    match outcome {
        SessionOutcome::Completed(..) => 0,
        SessionOutcome::Failed { .. } => 1,
    }
}

} // verus!
