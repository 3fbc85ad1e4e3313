use nushell_runner::begin_classify;
use nushell_runner::classify_eval;
use nushell_runner::CustomExit;
use nushell_runner::ErrorPayload;
use nushell_runner::EvalSignal;
use nushell_runner::EvaluationOutcome;
use nushell_runner::ExitDecision;
use nushell_runner::Step;

#[test]
fn exit_command_surface() {
    let cmd = CustomExit;
    assert_eq!(cmd.name(), "exit");
    assert_eq!(cmd.description(), "Exit with a status code (custom implementation)");
    let sig = cmd.signature();
    assert_eq!(sig.name, "exit");
    assert_eq!(sig.positional_name, "code");
    assert_eq!(sig.positional_desc, "Exit code (defaults to 0)");
    assert!(!sig.positional_required);
}

#[test]
fn exit_without_argument_requests_zero() {
    let cmd = CustomExit;
    assert_eq!(cmd.run(None), ExitDecision::Request { code: 0 });
}

#[test]
fn exit_seven_requests_seven() {
    let cmd = CustomExit;
    assert_eq!(cmd.run(Some(7)), ExitDecision::Request { code: 7 });
}

#[test]
fn explicit_exit_zero_is_representable() {
    // A requested code 0 is carried exactly like any other code, and the
    // whole chain classifies it without a crash: code 0, no error.
    let cmd = CustomExit;
    let decision = cmd.run(Some(0));
    assert_eq!(decision, ExitDecision::Request { code: 0 });
    let code = match decision {
        ExitDecision::Request { code } => code,
        ExitDecision::BadArgument { .. } => panic!("argument 0 must be accepted"),
    };
    let outcome = classify_eval::<()>(EvalSignal::Exited { code });
    match begin_classify(outcome) {
        Step::Done(res) => {
            assert_eq!(res.exit_code, 0);
            assert!(res.output.is_none());
            assert!(res.error.is_none());
        }
        Step::Serialize(_) => panic!("an exit request does not serialize"),
    }
}

#[test]
fn exit_negative_code_kept() {
    let cmd = CustomExit;
    assert_eq!(cmd.run(Some(-3)), ExitDecision::Request { code: -3 });
}

#[test]
fn exit_code_out_of_range_rejected() {
    let cmd = CustomExit;
    match cmd.run(Some(5_000_000_000)) {
        ExitDecision::BadArgument { message } => {
            assert_eq!(message, "Exit code out of range: 5000000000");
        }
        ExitDecision::Request { .. } => panic!("a code beyond i32 cannot be requested"),
    }
}

#[test]
fn exit_five_classified() {
    // The shape of running `exit 5`: no output, exit code 5, an error
    // payload naming the request.
    let outcome = classify_eval::<()>(EvalSignal::Exited { code: 5 });
    assert_eq!(outcome, EvaluationOutcome::ExitRequested(5));
    match begin_classify(outcome) {
        Step::Done(res) => {
            assert!(res.output.is_none());
            assert_eq!(res.exit_code, 5);
            match res.error {
                Some(ErrorPayload::Text(t)) => {
                    assert_eq!(t, "Exit requested with code 5");
                }
                other => panic!("expected a text error payload, got {:?}", other),
            }
        }
        Step::Serialize(_) => panic!("an exit request does not serialize"),
    }
}

#[test]
fn exit_nonzero_negative_classified() {
    let outcome = classify_eval::<()>(EvalSignal::Exited { code: -7 });
    match begin_classify(outcome) {
        Step::Done(res) => {
            assert_eq!(res.exit_code, -7);
            match res.error {
                Some(ErrorPayload::Text(t)) => {
                    assert_eq!(t, "Exit requested with code -7");
                }
                other => panic!("expected a text error payload, got {:?}", other),
            }
        }
        Step::Serialize(_) => panic!("an exit request does not serialize"),
    }
}
