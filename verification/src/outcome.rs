//! The data model of one invocation: what evaluation reported, the failure
//! taxonomy, and the externally visible result structure.

use vstd::prelude::*;

verus! {

/// One structural diagnostic reported while parsing the program text:
/// a message located at a byte span of the source.
#[derive(Debug, PartialEq)]
pub struct ParseDiagnostic {
    pub message: String,
    pub span_start: u64,
    pub span_end: u64,
}

/// An error payload of the result structure: either a plain text message
/// written by this pipeline, or a structured JSON detail handed over from
/// the interpreter.
#[derive(Debug, PartialEq)]
pub enum ErrorPayload {
    Text(String),
    Detail(serde_json::Value),
}

/// The failure taxonomy of one invocation.
#[derive(Debug, PartialEq)]
pub enum Failure {
    /// The program text has structural syntax errors. The first diagnostic
    /// is surfaced as `rendered`; the full list is retained.
    Parse { rendered: String, diagnostics: Vec<ParseDiagnostic> },
    /// Symbols declared by parsing could not be merged into the live context.
    ContextMerge { rendered: String },
    /// Evaluation failed; the detail is preserved as structured data where
    /// the interpreter's report parsed as JSON, and as text otherwise.
    Runtime { detail: ErrorPayload },
    /// The context has no JSON-conversion capability.
    MissingCapability,
    /// The JSON-conversion capability yielded a value that is not text;
    /// `observed` names the type that was seen.
    UnexpectedType { observed: String },
    /// The text yielded by the JSON-conversion capability is not valid JSON.
    JsonDecode { rendered: String },
}

/// The classified outcome of evaluating one parsed program: an ordinary
/// value, an early return (treated like a value downstream), an explicit
/// exit request, or a failure. `V` is the interpreter's value type, which
/// the pipeline carries through without inspecting it.
#[derive(Debug, PartialEq)]
pub enum EvaluationOutcome<V> {
    Value(V),
    EarlyReturn(V),
    ExitRequested(i32),
    Failure(Failure),
}

/// The externally visible result of one invocation. `None` stands for the
/// JSON `null` of the printed document.
#[derive(Debug, PartialEq)]
pub struct EvalResult {
    pub output: Option<serde_json::Value>,
    pub exit_code: i32,
    pub error: Option<ErrorPayload>,
}

impl EvalResult {
    /// The shape every classified result has: a computed output appears
    /// only with exit code zero and no error, and an error only without
    /// an output.
    pub open spec fn well_formed(self) -> bool {
        &&& (self.output is Some ==> self.exit_code == 0 && self.error is None)
        &&& (self.error is Some ==> self.output is None)
    }
}

} // verus!
