//! One-shot evaluation pipeline for an embedded shell interpreter.
//!
//! The interpreter itself (context construction, parsing, evaluation,
//! the `to json` capability) runs outside this crate; this library holds
//! the verified decision logic of the pipeline: classifying what the
//! interpreter reported into a typed outcome, driving the serialization
//! step, and mapping every outcome to the externally visible result
//! structure with its exit code and error payload.

mod classify;
mod cli;
mod context;
mod custom_exit;
mod digits;
mod executor;
mod json;
mod laws;
mod outcome;
mod registry;

pub use classify::begin_classify;
pub use classify::classify_failure;
pub use classify::convert_error_text;
pub use classify::exit_error_text;
pub use classify::failure_code;
pub use classify::failure_result;
pub use classify::finish_serialize;
pub use classify::missing_capability_text;
pub use classify::unexpected_type_text;
pub use classify::SerializeEvent;
pub use classify::Step;
pub use cli::flag_pos;
pub use cli::read_cli_request;
pub use cli::CliRequest;
pub use context::build_context;
pub use context::built_context;
pub use context::law_build_context_idempotent;
pub use context::spec_merge;
pub use context::InterpreterContext;
pub use custom_exit::exit_range_text;
pub use custom_exit::CustomExit;
pub use custom_exit::ExitDecision;
pub use custom_exit::SignatureModel;
pub use digits::dec_str;
pub use digits::i32_to_dec;
pub use digits::i64_to_dec;
pub use digits::int_dec_str;
pub use digits::u64_to_dec;
pub use executor::classify_eval;
pub use executor::extract_error_text;
pub use executor::merge_error_text;
pub use executor::merge_failure;
pub use executor::parse_error_text;
pub use executor::parse_failure;
pub use executor::render_parse_error;
pub use executor::EvalSignal;
pub use json::json_parse_ok;
pub use json::parse_json;
pub use laws::law_exit_code_two_reserved;
pub use laws::law_failure_classification_deterministic;
pub use laws::law_parse_error_text_marked;
pub use outcome::ErrorPayload;
pub use outcome::EvalResult;
pub use outcome::EvaluationOutcome;
pub use outcome::Failure;
pub use outcome::ParseDiagnostic;
pub use registry::log_lookup;
pub use registry::log_map;
pub use registry::CapabilityRegistry;
