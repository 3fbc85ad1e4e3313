use nushell_runner::read_cli_request;
use nushell_runner::CliRequest;

fn args(list: &[&str]) -> Vec<String> {
    list.iter().map(|s| s.to_string()).collect()
}

#[test]
fn program_after_flag_is_run() {
    let r = read_cli_request(&args(&["runner", "-c", "1 + 2"]));
    assert_eq!(r, CliRequest::Run { program: "1 + 2".to_string() });
}

#[test]
fn first_flag_wins() {
    let r = read_cli_request(&args(&["runner", "-c", "exit 5", "-c", "other"]));
    assert_eq!(r, CliRequest::Run { program: "exit 5".to_string() });
}

#[test]
fn flag_without_program_is_refused() {
    let r = read_cli_request(&args(&["runner", "-c"]));
    assert_eq!(r, CliRequest::MissingProgram);
}

#[test]
fn missing_flag_is_refused() {
    let r = read_cli_request(&args(&["runner", "1 + 2"]));
    assert_eq!(r, CliRequest::NoFlag);
}

#[test]
fn empty_arguments_are_refused() {
    let r = read_cli_request(&args(&[]));
    assert_eq!(r, CliRequest::NoFlag);
}
