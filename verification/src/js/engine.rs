//! A QuickJS sandbox in which deciphering scripts run, made by the
//! `rquickjs` crate.
use vstd::prelude::*;
use crate::js::decipher::execution_call;
use crate::text::starts_with_spec;
use rquickjs::{Context, Runtime};

verus! {

/// A QuickJS runtime, carried through as it is.
#[verifier::external_type_specification]
#[verifier::external_body]
pub struct ExRuntime(Runtime);

/// A QuickJS context of a runtime, carried through as it is.
#[verifier::external_type_specification]
#[verifier::external_body]
pub struct ExContext(Context);

/// Calls `rquickjs::Runtime::new`, keeping the text of its error. Whether it
/// succeeds depends on the memory the machine gives it, so nothing is stated
/// of the outcome.
#[verifier::external_body]
fn new_runtime() -> (r: Result<Runtime, String>) {
    match Runtime::new() {
        Ok(runtime) => Ok(runtime),
        Err(e) => Err(e.to_string()),
    }
}

/// Calls `rquickjs::Context::full` on `runtime`, keeping the text of its
/// error. Whether it succeeds depends on the memory the machine gives it, so
/// nothing is stated of the outcome.
#[verifier::external_body]
fn full_context(runtime: &Runtime) -> (r: Result<Context, String>) {
    match Context::full(runtime) {
        Ok(context) => Ok(context),
        Err(e) => Err(e.to_string()),
    }
}

/// Calls `Ctx::eval` on `source` in `context`, asking for no value, and keeps
/// the text of its error. The outcome depends on what earlier scripts left
/// in the context and on what the script reads (the clock, random numbers),
/// so nothing is stated of it.
#[verifier::external_body]
fn eval_unit(context: &Context, source: &str) -> (r: Result<(), String>) {
    context.with(|ctx| match ctx.eval::<(), _>(source) {
        Ok(v) => Ok(v),
        Err(e) => Err(e.to_string()),
    })
}

/// Calls `Ctx::eval` on `source` in `context`, asking for a string, and
/// keeps the text of its error. The outcome depends on what earlier scripts
/// left in the context and on what the script reads (the clock, random
/// numbers), so nothing is stated of it.
#[verifier::external_body]
fn eval_string(context: &Context, source: &str) -> (r: Result<String, String>) {
    context.with(|ctx| match ctx.eval::<String, _>(source) {
        Ok(v) => Ok(v),
        Err(e) => Err(e.to_string()),
    })
}

/// What can go wrong in the sandbox: it could not be started, or a script
/// was refused or failed (the extractor is then taken as banned).
#[derive(Debug, Clone, PartialEq, Eq)]
pub enum JsEngineError {
    InternalPanic(String),
    ExtractorBanned { reason: String },
}

/// A failure to start the sandbox: which step failed, and the engine's
/// message.
pub open spec fn is_startup_failure(m: Seq<char>) -> bool {
    ||| starts_with_spec(m, "Failed to spawn QuickJS thread: "@)
    ||| starts_with_spec(m, "Context setup failed: "@)
}

/// A QuickJS runtime with one context, in which deciphering scripts run.
pub struct SandboxJsEngine {
    _runtime: Runtime,
    context: Context,
}

impl SandboxJsEngine {
    /// Starts a runtime and a context with the standard globals; a failure
    /// names the step that failed (see [`is_startup_failure`]).
    pub fn new() -> (r: Result<Self, JsEngineError>)
        ensures
            r matches Err(e) ==> (e matches JsEngineError::InternalPanic(m) && is_startup_failure(m@)),
    {
        let runtime = match new_runtime() {
            Ok(runtime) => runtime,
            Err(e) => {
                let m = String::from_str("Failed to spawn QuickJS thread: ").concat(e.as_str());
                assert(m@.take("Failed to spawn QuickJS thread: "@.len() as int) =~= "Failed to spawn QuickJS thread: "@);
                return Err(JsEngineError::InternalPanic(m));
            },
        };
        let context = match full_context(&runtime) {
            Ok(context) => context,
            Err(e) => {
                let m = String::from_str("Context setup failed: ").concat(e.as_str());
                assert(m@.take("Context setup failed: "@.len() as int) =~= "Context setup failed: "@);
                return Err(JsEngineError::InternalPanic(m));
            },
        };
        Ok(SandboxJsEngine { _runtime: runtime, context })
    }

    /// Runs `script` in the sandbox, then the call `target_fn("argument");`
    /// (see [`execution_call`]), and gives the string it returns. Every
    /// failure is reported as a banned extractor: an error of the sandbox's
    /// setup with the engine's message, one of the script after
    /// `Compilation failed: `, one of the call after `Execution failed: `.
    /// What the engine computes is not stated.
    pub fn execute_decipher(&self, script: &str, argument: &str, target_fn: &str) -> (r: Result<
        String,
        JsEngineError,
    >)
        ensures
            r matches Err(e) ==> e is ExtractorBanned,
    {
        match eval_unit(&self.context, "var window = {}; var global = {};") {
            Ok(()) => {},
            Err(e) => return Err(JsEngineError::ExtractorBanned { reason: e }),
        }
        match eval_unit(&self.context, script) {
            Ok(()) => {},
            Err(e) => {
                return Err(
                    JsEngineError::ExtractorBanned {
                        reason: String::from_str("Compilation failed: ").concat(e.as_str()),
                    },
                )
            },
        }
        let call = execution_call(target_fn, argument);
        match eval_string(&self.context, call.as_str()) {
            Ok(s) => Ok(s),
            Err(e) => Err(
                JsEngineError::ExtractorBanned {
                    reason: String::from_str("Execution failed: ").concat(e.as_str()),
                },
            ),
        }
    }
}

} // verus!
