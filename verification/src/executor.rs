//! Classification of what one parse-and-evaluate pass reported.
//!
//! Parsing, symbol merging and evaluation themselves run in the embedding
//! host; the functions here turn their reports into the typed
//! [`EvaluationOutcome`] of the pipeline, rendering the diagnostic texts
//! that the result structure surfaces.

use vstd::prelude::*;
use crate::digits::dec_str;
use crate::digits::u64_to_dec;
use crate::json::json_parse_ok;
use crate::json::parse_json;
use crate::outcome::ErrorPayload;
use crate::outcome::EvaluationOutcome;
use crate::outcome::Failure;
use crate::outcome::ParseDiagnostic;

verus! {

/// The text surfaced for a structural parse error: the diagnostic's own
/// message, followed by its source span.
pub open spec fn parse_error_text(message: Seq<char>, start: nat, end: nat) -> Seq<char> {
    "Parse error: "@ + message + " at Span { start: "@ + dec_str(start) + ", end: "@ + dec_str(
        end,
    ) + " }"@
}

/// The text surfaced when declared symbols cannot be merged into the
/// live context.
pub open spec fn merge_error_text(detail: Seq<char>) -> Seq<char> {
    "Delta merge error: "@ + detail
}

/// The text surfaced when evaluation succeeded but its data could not be
/// collected into one value.
pub open spec fn extract_error_text(detail: Seq<char>) -> Seq<char> {
    "Value extraction error: "@ + detail
}

/// What one evaluation of a parsed program reported, as handed over by
/// the embedding host. `V` is the interpreter's value type.
#[derive(Debug, PartialEq)]
pub enum EvalSignal<V> {
    /// Evaluation finished and its data collected into one value.
    Completed(V),
    /// Evaluation finished but collecting its data failed; `detail` is the
    /// report of that failure.
    ExtractFailed { detail: String },
    /// Evaluation was cut short by an early-return signal carrying a value.
    Returned(V),
    /// Evaluation was cut short by an explicit exit request.
    Exited { code: i32 },
    /// Evaluation failed; `detail_json` is the failure's structured detail,
    /// serialized as JSON text.
    Failed { detail_json: String },
}

/// Renders one parse diagnostic as the text surfaced to the caller.
pub fn render_parse_error(d: &ParseDiagnostic) -> (r: String)
    ensures
        r@ == parse_error_text(d.message@, d.span_start as nat, d.span_end as nat),
{
    let mut text = String::from_str("Parse error: ");
    text.append(d.message.as_str());
    text.append(" at Span { start: ");
    let start = u64_to_dec(d.span_start);
    text.append(start.as_str());
    text.append(", end: ");
    let end = u64_to_dec(d.span_end);
    text.append(end.as_str());
    text.append(" }");
    text
}

/// The outcome of a program whose text has structural syntax errors: the
/// first diagnostic is surfaced, the full list retained. Evaluation does
/// not proceed past this point.
pub fn parse_failure<V>(diagnostics: Vec<ParseDiagnostic>) -> (r: EvaluationOutcome<V>)
    requires
        diagnostics@.len() > 0,
    ensures
        ({
            &&& r matches EvaluationOutcome::Failure(Failure::Parse { rendered, diagnostics: kept })
            &&& rendered@ == parse_error_text(
                diagnostics@[0].message@,
                diagnostics@[0].span_start as nat,
                diagnostics@[0].span_end as nat,
            )
            &&& kept@ == diagnostics@
        }),
{
    let rendered = render_parse_error(&diagnostics[0]);
    EvaluationOutcome::Failure(Failure::Parse { rendered, diagnostics })
}

/// The outcome of a program whose declared symbols could not be merged
/// into the live context; `detail` is the report of the collision.
pub fn merge_failure<V>(detail: String) -> (r: EvaluationOutcome<V>)
    ensures
        ({
            &&& r matches EvaluationOutcome::Failure(Failure::ContextMerge { rendered })
            &&& rendered@ == merge_error_text(detail@)
        }),
{
    let mut rendered = String::from_str("Delta merge error: ");
    rendered.append(detail.as_str());
    EvaluationOutcome::Failure(Failure::ContextMerge { rendered })
}

/// Classifies what evaluation reported: an ordinary value, an early
/// return, an explicit exit request, or a failure. A failure's structured
/// detail is preserved as parsed JSON where it parses, and as its text
/// otherwise.
pub fn classify_eval<V>(signal: EvalSignal<V>) -> (r: EvaluationOutcome<V>)
    ensures
        (signal matches EvalSignal::Completed(v) ==> r == EvaluationOutcome::<V>::Value(v)),
        (signal matches EvalSignal::Returned(v) ==> r == EvaluationOutcome::<V>::EarlyReturn(v)),
        (signal matches EvalSignal::Exited { code } ==> r == EvaluationOutcome::<
            V,
        >::ExitRequested(code)),
        (signal matches EvalSignal::ExtractFailed { detail } ==> {
            &&& r matches EvaluationOutcome::Failure(
                Failure::Runtime { detail: ErrorPayload::Text(t) },
            )
            &&& t@ == extract_error_text(detail@)
        }),
        (signal matches EvalSignal::Failed { detail_json } ==> {
            &&& r matches EvaluationOutcome::Failure(Failure::Runtime { detail })
            &&& json_parse_ok(detail_json@) ==> detail is Detail
            &&& !json_parse_ok(detail_json@) ==> (detail matches ErrorPayload::Text(t) && t@
                == detail_json@)
        }),
{
    match signal {
        EvalSignal::Completed(v) => EvaluationOutcome::Value(v),
        EvalSignal::Returned(v) => EvaluationOutcome::EarlyReturn(v),
        EvalSignal::Exited { code } => EvaluationOutcome::ExitRequested(code),
        EvalSignal::ExtractFailed { detail } => {
            let mut rendered = String::from_str("Value extraction error: ");
            rendered.append(detail.as_str());
            EvaluationOutcome::Failure(
                Failure::Runtime { detail: ErrorPayload::Text(rendered) },
            )
        },
        EvalSignal::Failed { detail_json } => {
            match parse_json(detail_json.as_str()) {
                Ok(v) => EvaluationOutcome::Failure(
                    Failure::Runtime { detail: ErrorPayload::Detail(v) },
                ),
                Err(_) => EvaluationOutcome::Failure(
                    Failure::Runtime { detail: ErrorPayload::Text(detail_json) },
                ),
            }
        },
    }
}

} // verus!
