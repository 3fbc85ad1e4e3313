//! The replacement `exit` built-in: its descriptive surface and the
//! decision it makes from its optional argument.
//!
//! The exit request is a typed outcome with a plain `i32` code, so a
//! request for code 0 is represented exactly like any other and cannot be
//! confused with "no exit requested", which only the absence of the
//! request expresses.

use vstd::prelude::*;
use crate::digits::i64_to_dec;
use crate::digits::int_dec_str;

verus! {

/// The replacement `exit` command.
#[derive(Debug, Clone, Copy, PartialEq)]
pub struct CustomExit;

/// What the `exit` command decides from its argument list: a termination
/// request with a definite code, or a rejection of an argument that no
/// exit code can hold.
#[derive(Debug, PartialEq)]
pub enum ExitDecision {
    Request { code: i32 },
    BadArgument { message: String },
}

/// The descriptive surface of the command: its name and its one optional
/// integer positional argument.
#[derive(Debug, PartialEq)]
pub struct SignatureModel {
    pub name: String,
    pub positional_name: String,
    pub positional_desc: String,
    pub positional_required: bool,
}

/// The text rejecting an argument outside the exit-code range.
pub open spec fn exit_range_text(requested: int) -> Seq<char> {
    "Exit code out of range: "@ + int_dec_str(requested)
}

impl CustomExit {
    /// The command's name; it overrides any previously registered command
    /// of the same name.
    pub fn name(&self) -> (r: String)
        ensures
            r@ == "exit"@,
    {
        String::from_str("exit")
    }

    pub fn description(&self) -> (r: String)
        ensures
            r@ == "Exit with a status code (custom implementation)"@,
    {
        String::from_str("Exit with a status code (custom implementation)")
    }

    /// The command's signature: `exit` with one optional integer
    /// positional argument named `code`.
    pub fn signature(&self) -> (r: SignatureModel)
        ensures
            r.name@ == "exit"@,
            r.positional_name@ == "code"@,
            r.positional_desc@ == "Exit code (defaults to 0)"@,
            !r.positional_required,
    {
        SignatureModel {
            name: String::from_str("exit"),
            positional_name: String::from_str("code"),
            positional_desc: String::from_str("Exit code (defaults to 0)"),
            positional_required: false,
        }
    }

    /// Decides the exit request from the optional argument: no argument
    /// requests code 0; an argument in range requests exactly that code;
    /// one out of range is rejected.
    pub fn run(&self, arg: Option<i64>) -> (r: ExitDecision)
        ensures
            arg is None ==> r == (ExitDecision::Request { code: 0i32 }),
            (arg matches Some(requested) ==> (i32::MIN <= requested <= i32::MAX ==> r == (
            ExitDecision::Request { code: requested as i32 }))),
            (arg matches Some(requested) ==> (!(i32::MIN <= requested <= i32::MAX) ==> (
            r matches ExitDecision::BadArgument { message } && message@ == exit_range_text(
                requested as int,
            )))),
    {
        match arg {
            None => ExitDecision::Request { code: 0 },
            Some(requested) => {
                if i32::MIN as i64 <= requested && requested <= i32::MAX as i64 {
                    ExitDecision::Request { code: requested as i32 }
                } else {
                    let mut message = String::from_str("Exit code out of range: ");
                    let digits = i64_to_dec(requested);
                    message.append(digits.as_str());
                    ExitDecision::BadArgument { message }
                }
            },
        }
    }
}

} // verus!
