use wsl_headless_dev::runner::split_whitespace;
use wsl_headless_dev::Args;

fn strings(xs: &[&str]) -> Vec<String> {
    xs.iter().map(|s| s.to_string()).collect()
}

#[test]
fn parse_defaults_when_no_arguments() {
    let args = Args::parse(&strings(&[]));
    assert_eq!(args.launch_command, "/usr/sbin/sshd -D -f ~/.ssh/sshd/sshd_config");
    assert_eq!(args.shutdown_command, "kill $(cat ~/.ssh/sshd.pid); rm ~/.ssh/sshd.pid");
}

#[test]
fn parse_overrides_launch_command() {
    let args = Args::parse(&strings(&["proxy.exe", "--launch-command=echo hi"]));
    assert_eq!(args.launch_command, "echo hi");
    assert_eq!(args.shutdown_command, "kill $(cat ~/.ssh/sshd.pid); rm ~/.ssh/sshd.pid");
}

#[test]
fn parse_overrides_both_commands() {
    let args = Args::parse(&strings(&[
        "--launch-command=start",
        "--shutdown-command=stop",
    ]));
    assert_eq!(args.launch_command, "start");
    assert_eq!(args.shutdown_command, "stop");
}

#[test]
fn parse_last_override_wins() {
    let args = Args::parse(&strings(&[
        "--launch-command=first",
        "--launch-command=second",
    ]));
    assert_eq!(args.launch_command, "second");
}

#[test]
fn parse_ignores_arguments_without_equals_sign() {
    let args = Args::parse(&strings(&["--launch-command", "stray"]));
    assert_eq!(args.launch_command, "/usr/sbin/sshd -D -f ~/.ssh/sshd/sshd_config");
}

#[test]
fn parse_ignores_unknown_names() {
    let args = Args::parse(&strings(&["--verbose=yes", "path=/tmp"]));
    assert_eq!(args.launch_command, "/usr/sbin/sshd -D -f ~/.ssh/sshd/sshd_config");
    assert_eq!(args.shutdown_command, "kill $(cat ~/.ssh/sshd.pid); rm ~/.ssh/sshd.pid");
}

#[test]
fn parse_value_keeps_further_equals_signs() {
    let args = Args::parse(&strings(&["--launch-command=env A=1 run"]));
    assert_eq!(args.launch_command, "env A=1 run");
}

#[test]
fn parse_empty_value_overrides() {
    let args = Args::parse(&strings(&["--launch-command="]));
    assert_eq!(args.launch_command, "");
}

#[test]
fn split_whitespace_default_addresses() {
    let tokens = split_whitespace("0.0.0.0:22 :::22");
    assert_eq!(tokens, vec!["0.0.0.0:22".to_string(), ":::22".to_string()]);
}

#[test]
fn split_whitespace_empty_string_has_no_tokens() {
    let tokens = split_whitespace("");
    assert!(tokens.is_empty());
}

#[test]
fn split_whitespace_only_spaces_has_no_tokens() {
    let tokens = split_whitespace("   \t \n ");
    assert!(tokens.is_empty());
}

#[test]
fn split_whitespace_collapses_runs_and_trims() {
    let tokens = split_whitespace("  a \t b  c ");
    assert_eq!(tokens, vec!["a".to_string(), "b".to_string(), "c".to_string()]);
}

#[test]
fn split_whitespace_single_token() {
    let tokens = split_whitespace("localhost:2022");
    assert_eq!(tokens, vec!["localhost:2022".to_string()]);
}
