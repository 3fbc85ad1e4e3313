//! The command-line adapter's one decision: reading the program text
//! that follows the `-c` flag out of the argument list.

use vstd::prelude::*;

verus! {

/// The position of the first `-c` among the arguments at or after
/// `from`, if any.
pub open spec fn flag_pos(args: Seq<String>, from: int) -> Option<int>
    decreases args.len() - from,
{
    if from < 0 || from >= args.len() {
        None
    } else if args[from]@ == "-c"@ {
        Some(from)
    } else {
        flag_pos(args, from + 1)
    }
}

/// What the argument list asks for: a program to run, or one of the two
/// ways it can fail to name one.
#[derive(Debug, PartialEq)]
pub enum CliRequest {
    /// `-c` followed by a program text.
    Run { program: String },
    /// `-c` stands last, with no program after it.
    MissingProgram,
    /// No `-c` anywhere.
    NoFlag,
}

/// Reads the request out of the argument list: the argument after the
/// first `-c` is the program text; a `-c` without one, or no `-c` at
/// all, is refused.
pub fn read_cli_request(args: &Vec<String>) -> (r: CliRequest)
    ensures
        (flag_pos(args@, 0) matches Some(pos) ==> (pos + 1 < args@.len() ==> (
        r matches CliRequest::Run { program } && program == args@[pos + 1]))),
        (flag_pos(args@, 0) matches Some(pos) ==> (pos + 1 == args@.len()
            ==> r is MissingProgram)),
        flag_pos(args@, 0) is None ==> r is NoFlag,
{
    let flag = String::from_str("-c");
    let n = args.len();
    let mut i: usize = 0;
    while i < n
        invariant
            i <= n,
            n == args@.len(),
            flag@ == "-c"@,
            flag_pos(args@, 0) == flag_pos(args@, i as int),
        decreases n - i,
    {
        if args[i] == flag {
            assert(flag_pos(args@, i as int) == Some(i as int));
            if i + 1 < n {
                return CliRequest::Run { program: args[i + 1].clone() };
            } else {
                return CliRequest::MissingProgram;
            }
        }
        i = i + 1;
    }
    CliRequest::NoFlag
}

} // verus!
