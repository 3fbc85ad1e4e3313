//! Properties of the pipeline that relate several of its functions.

use vstd::prelude::*;
use crate::classify::failure_result;
use crate::classify::failure_code;
use crate::executor::parse_error_text;
use crate::outcome::ErrorPayload;
use crate::outcome::EvalResult;
use crate::outcome::Failure;

verus! {

/// The text surfaced for a structural parse error is never empty and
/// always announces itself: its first characters are `Parse error`.
pub proof fn law_parse_error_text_marked(message: Seq<char>, start: nat, end: nat)
    ensures
        parse_error_text(message, start, end).len() > 0,
        parse_error_text(message, start, end).subrange(0, 11) == "Parse error"@,
{
    reveal_strlit("Parse error: ");
    reveal_strlit("Parse error");
    let t = parse_error_text(message, start, end);
    assert(t.subrange(0, 11) =~= "Parse error"@);
}

/// Classifying a failure decides everything the caller can see from the
/// failure alone: two results of classifying the same failure carry the
/// same exit code, the same (absent) output, and error texts that read
/// the same.
pub proof fn law_failure_classification_deterministic(f: Failure, r1: EvalResult, r2: EvalResult)
    requires
        failure_result(f, r1),
        failure_result(f, r2),
    ensures
        r1.exit_code == r2.exit_code,
        r1.output == r2.output,
        r1.error is Some && r2.error is Some,
        (r1.error matches Some(ErrorPayload::Text(t1)) ==> (r2.error matches Some(
            ErrorPayload::Text(t2),
        ) && t1@ == t2@)),
{
}

/// Exit code 2 marks exactly the structural parse errors: no other
/// failure is classified to it.
pub proof fn law_exit_code_two_reserved(f: Failure, r: EvalResult)
    requires
        failure_result(f, r),
    ensures
        r.exit_code == 2 <==> f is Parse,
        f !is Parse ==> r.exit_code == 1,
{
    assert(r.exit_code == failure_code(f));
}

} // verus!
