//! The exit classifier: the pure mapping from a classified outcome, and
//! from what the serialization step yielded, to the externally visible
//! result structure.
//!
//! Exit code 2 is reserved for parse-time structural errors; every other
//! failure maps to 1; an explicit exit request keeps its own code; only a
//! successfully serialized value, or an exit request for code 0, yields 0.

use vstd::prelude::*;
use crate::digits::i32_to_dec;
use crate::digits::int_dec_str;
use crate::json::json_parse_ok;
use crate::json::parse_json;
use crate::outcome::ErrorPayload;
use crate::outcome::EvalResult;
use crate::outcome::EvaluationOutcome;
use crate::outcome::Failure;

verus! {

/// The exit code of a failure: 2 for a structural parse error, 1 for
/// everything else.
pub open spec fn failure_code(f: Failure) -> int {
    if f is Parse {
        2
    } else {
        1
    }
}

/// The text surfaced when the context has no JSON-conversion capability.
pub open spec fn missing_capability_text() -> Seq<char> {
    "Could not find 'to json' command"@
}

/// The text surfaced when the JSON-conversion capability yielded a value
/// that is not text.
pub open spec fn unexpected_type_text(observed: Seq<char>) -> Seq<char> {
    "Expected JSON string, got "@ + observed
}

/// The text surfaced when invoking the JSON-conversion capability failed.
pub open spec fn convert_error_text(detail: Seq<char>) -> Seq<char> {
    "JSON conversion error: "@ + detail
}

/// The text surfaced for an explicit exit request with a code other
/// than 0.
pub open spec fn exit_error_text(code: int) -> Seq<char> {
    "Exit requested with code "@ + int_dec_str(code)
}

/// How the result structure of a failure relates to the failure: no
/// output, the failure's exit code, and an error payload that carries the
/// failure's own detail.
pub open spec fn failure_result(f: Failure, r: EvalResult) -> bool {
    &&& r.output is None
    &&& r.exit_code == failure_code(f)
    &&& r.error is Some
    &&& (f matches Failure::Parse { rendered, .. } ==> (r.error matches Some(
        ErrorPayload::Text(t),
    ) && t == rendered))
    &&& (f matches Failure::ContextMerge { rendered } ==> (r.error matches Some(
        ErrorPayload::Text(t),
    ) && t == rendered))
    &&& (f matches Failure::Runtime { detail } ==> r.error == Some(detail))
    &&& (f is MissingCapability ==> (r.error matches Some(ErrorPayload::Text(t)) && t@
        == missing_capability_text()))
    &&& (f matches Failure::UnexpectedType { observed } ==> (r.error matches Some(
        ErrorPayload::Text(t),
    ) && t@ == unexpected_type_text(observed@)))
    &&& (f matches Failure::JsonDecode { rendered } ==> (r.error matches Some(
        ErrorPayload::Text(t),
    ) && t == rendered))
}

/// Maps a failure to its result structure.
pub fn classify_failure(f: Failure) -> (r: EvalResult)
    ensures
        failure_result(f, r),
        r.well_formed(),
{
    let exit_code: i32 = match &f {
        Failure::Parse { .. } => 2,
        _ => 1,
    };
    let error = match f {
        Failure::Parse { rendered, .. } => ErrorPayload::Text(rendered),
        Failure::ContextMerge { rendered } => ErrorPayload::Text(rendered),
        Failure::Runtime { detail } => detail,
        Failure::MissingCapability => {
            let t = String::from_str("Could not find 'to json' command");
            ErrorPayload::Text(t)
        },
        Failure::UnexpectedType { observed } => {
            let mut t = String::from_str("Expected JSON string, got ");
            t.append(observed.as_str());
            ErrorPayload::Text(t)
        },
        Failure::JsonDecode { rendered } => ErrorPayload::Text(rendered),
    };
    EvalResult { output: None, exit_code, error: Some(error) }
}

/// What the pipeline must do next after classifying an evaluation
/// outcome: hand the computed value to the JSON-conversion capability,
/// or finish with a fully classified result.
#[derive(Debug, PartialEq)]
pub enum Step<V> {
    Serialize(V),
    Done(EvalResult),
}

/// Classifies an evaluation outcome. An ordinary value and an early
/// return both proceed to serialization; an exit request and a failure
/// finish at once. An exit request keeps its code; a request for a code
/// other than 0 surfaces the request itself as the error detail, a
/// request for 0 surfaces none.
pub fn begin_classify<V>(outcome: EvaluationOutcome<V>) -> (r: Step<V>)
    ensures
        (outcome matches EvaluationOutcome::Value(v) ==> r == Step::<V>::Serialize(v)),
        (outcome matches EvaluationOutcome::EarlyReturn(v) ==> r == Step::<V>::Serialize(v)),
        (outcome matches EvaluationOutcome::ExitRequested(code) ==> {
            &&& r matches Step::Done(res)
            &&& res.output is None
            &&& res.exit_code == code
            &&& code == 0 ==> (r matches Step::Done(res) && res.error is None)
            &&& code != 0 ==> (r matches Step::Done(res) && (res.error matches Some(
                ErrorPayload::Text(t),
            ) && t@ == exit_error_text(code as int)))
        }),
        (outcome matches EvaluationOutcome::Failure(f) ==> (r matches Step::Done(res)
            && failure_result(f, res))),
        (r matches Step::Done(res) ==> res.well_formed()),
{
    match outcome {
        EvaluationOutcome::Value(v) => Step::Serialize(v),
        EvaluationOutcome::EarlyReturn(v) => Step::Serialize(v),
        EvaluationOutcome::ExitRequested(code) => {
            if code == 0 {
                Step::Done(EvalResult { output: None, exit_code: 0, error: None })
            } else {
                let mut t = String::from_str("Exit requested with code ");
                let digits = i32_to_dec(code);
                t.append(digits.as_str());
                Step::Done(
                    EvalResult {
                        output: None,
                        exit_code: code,
                        error: Some(ErrorPayload::Text(t)),
                    },
                )
            }
        },
        EvaluationOutcome::Failure(f) => Step::Done(classify_failure(f)),
    }
}

/// What invoking the JSON-conversion capability on the computed value
/// yielded, as handed over by the embedding host.
#[derive(Debug, PartialEq)]
pub enum SerializeEvent {
    /// The context has no such capability.
    MissingCapability,
    /// The capability yielded a text value.
    Text(String),
    /// The capability yielded a value of some other type, named here.
    OtherType { observed: String },
    /// Invoking the capability failed; `detail` is the report.
    CallFailed { detail: String },
}

/// Finishes the success path: the text yielded by the JSON-conversion
/// capability becomes the output exactly when it is valid JSON; every
/// other event is a failure of the serialization step, with exit code 1.
pub fn finish_serialize(event: SerializeEvent) -> (r: EvalResult)
    ensures
        (event matches SerializeEvent::Text(s) ==> {
            &&& json_parse_ok(s@) ==> (r.output is Some && r.exit_code == 0 && r.error is None)
            &&& !json_parse_ok(s@) ==> (r.output is None && r.exit_code == 1 && (
            r.error matches Some(ErrorPayload::Text(_))))
        }),
        (event is MissingCapability ==> failure_result(Failure::MissingCapability, r)),
        (event matches SerializeEvent::OtherType { observed } ==> {
            &&& r.output is None
            &&& r.exit_code == 1
            &&& (r.error matches Some(ErrorPayload::Text(t)) && t@ == unexpected_type_text(
                observed@,
            ))
        }),
        (event matches SerializeEvent::CallFailed { detail } ==> {
            &&& r.output is None
            &&& r.exit_code == 1
            &&& (r.error matches Some(ErrorPayload::Text(t)) && t@ == convert_error_text(detail@))
        }),
        r.well_formed(),
{
    match event {
        SerializeEvent::MissingCapability => classify_failure(Failure::MissingCapability),
        SerializeEvent::OtherType { observed } => classify_failure(
            Failure::UnexpectedType { observed },
        ),
        SerializeEvent::CallFailed { detail } => {
            let mut rendered = String::from_str("JSON conversion error: ");
            rendered.append(detail.as_str());
            classify_failure(Failure::Runtime { detail: ErrorPayload::Text(rendered) })
        },
        SerializeEvent::Text(s) => {
            match parse_json(s.as_str()) {
                Ok(v) => EvalResult { output: Some(v), exit_code: 0, error: None },
                Err(message) => classify_failure(Failure::JsonDecode { rendered: message }),
            }
        },
    }
}

} // verus!
