use selfci::duct_util::{write_shell_escaped, Cmd};
use selfci::script::Invocation;

#[test]
fn test_simple_command() {
    let cmd = Cmd::new("git").arg("status");
    assert_eq!(cmd.display(), "git status");
}

#[test]
fn test_command_with_multiple_args() {
    let cmd = Cmd::new("git").args(&["rebase", "main"]);
    assert_eq!(cmd.display(), "git rebase main");
}

#[test]
fn test_command_with_flags() {
    let cmd = Cmd::new("git").args(&["log", "--oneline", "-n", "5"]);
    assert_eq!(cmd.display(), "git log --oneline -n 5");
}

#[test]
fn test_command_with_path_arg() {
    let cmd = Cmd::new("git").args(&["worktree", "add", "--detach", "/tmp/foo", "abc123"]);
    assert_eq!(cmd.display(), "git worktree add --detach /tmp/foo abc123");
}

#[test]
fn test_command_with_special_chars() {
    let cmd = Cmd::new("jj").args(&["log", "-T", r#"change_id ++ "\n""#]);
    assert_eq!(cmd.display(), r#"jj log -T 'change_id ++ "\n"'"#);
}

#[test]
fn test_command_with_dir() {
    let cmd = Cmd::new("git").arg("status").dir("/some/path");
    assert_eq!(cmd.display(), "git status  # in /some/path");
}

#[test]
fn test_command_with_env() {
    let cmd = Cmd::new("cargo").arg("build").env("RUSTFLAGS", "-Awarnings");
    assert_eq!(cmd.display(), "RUSTFLAGS=-Awarnings cargo build");
}

#[test]
fn test_command_with_env_and_dir() {
    let cmd = Cmd::new("cargo").arg("build").env("RUSTFLAGS", "-Awarnings").dir("/project");
    assert_eq!(cmd.display(), "RUSTFLAGS=-Awarnings cargo build  # in /project");
}

#[test]
fn test_command_with_spaces_in_arg() {
    let cmd = Cmd::new("echo").arg("hello world");
    assert_eq!(cmd.display(), "echo 'hello world'");
}

#[test]
fn test_command_with_single_quotes_in_arg() {
    let cmd = Cmd::new("echo").arg("it's working");
    assert_eq!(cmd.display(), r#"echo "it's working""#);
}

#[test]
fn test_empty_arg() {
    let cmd = Cmd::new("echo").arg("");
    assert_eq!(cmd.display(), "echo ''");
}

#[test]
fn test_arg_with_equals() {
    let cmd = Cmd::new("git").args(&["config", "user.name=Test"]);
    assert_eq!(cmd.display(), "git config user.name=Test");
}

#[test]
fn test_multiple_env_vars() {
    let cmd = Cmd::new("cargo")
        .arg("build")
        .env("RUSTFLAGS", "-Awarnings")
        .env("CARGO_TERM_COLOR", "always");
    assert_eq!(cmd.display(), "RUSTFLAGS=-Awarnings CARGO_TERM_COLOR=always cargo build");
}

#[test]
fn test_to_expression_executes() {
    let cmd = Cmd::new("echo").arg("hello");
    let expr = cmd.to_expression();
    assert!(format!("{:?}", expr).contains("echo"));
}

#[test]
fn test_log_line() {
    let cmd = Cmd::new("git").args(&["status", "-s"]);
    assert_eq!(cmd.log_line().display(), "> git status -s\n");
}

#[test]
fn test_log_line_with_dir() {
    let cmd = Cmd::new("git").arg("rebase").dir("/repo");
    assert_eq!(cmd.log_line().display(), "> git rebase  # in /repo\n");
}

#[test]
fn test_log_line_write_to_string() {
    let cmd = Cmd::new("cargo").arg("build");
    let mut log = String::new();
    log.push_str(&cmd.log_line().display());
    assert_eq!(log, "> cargo build\n");
}

#[test]
fn double_quotes_escape_what_a_shell_reads_inside_them() {
    let mut out = String::new();
    write_shell_escaped(&mut out, "a'b\"c\\d$e`f");
    assert_eq!(out, "\"a'b\\\"c\\\\d\\$e\\`f\"");
}

#[test]
fn quoted_words_read_back_in_a_shell() {
    for word in ["plain", "two words", "it's", "a'b\"c\\d$HOME`x`", "", "*?[x]", "~", "a\tb", "#c"] {
        let mut line = String::from("printf %s ");
        write_shell_escaped(&mut line, word);
        let read = duct::cmd("sh", ["-c", line.as_str()]).read().unwrap();
        assert_eq!(read, word, "{}", line);
    }
}

#[test]
fn expressions_carry_arguments_environment_and_directory() {
    let cmd = Cmd::new("sh").args(&["-c", "printf '%s %s' \"$SELFCI_A\" \"$PWD\""]).env(
        "SELFCI_A",
        "value",
    ).dir("/");
    assert_eq!(Invocation::read(cmd).to_expression().read().unwrap(), "value /");
}

#[test]
fn invocations_wire_standard_error_as_they_say() {
    let both = || Cmd::new("sh").args(&["-c", "printf out; printf err >&2"]);
    assert_eq!(Invocation::read_all(both()).to_expression().read().unwrap(), "outerr");
    assert_eq!(Invocation::read(both()).to_expression().read().unwrap(), "out");

    let quiet = Invocation::run_quiet(Cmd::new("sh").args(&["-c", "printf err >&2"]));
    assert!(format!("{:?}", quiet.to_expression()).contains("StderrNull"));

    let no_input = Invocation::read_all_no_input(Cmd::new("cat"));
    assert_eq!(no_input.to_expression().read().unwrap(), "");
}

#[test]
fn captures_do_not_fail_on_an_exit_code() {
    let inv = Invocation::capture(Cmd::new("sh").args(&["-c", "printf out; exit 3"]));
    let done = inv.to_expression().run().unwrap();
    assert_eq!(done.status.code(), Some(3));
    assert_eq!(done.stdout, b"out".to_vec());

    let checked = Invocation::read(Cmd::new("sh").args(&["-c", "exit 3"]));
    assert!(checked.to_expression().read().is_err());
}

#[test]
fn clones_are_the_same_command() {
    let cmd = Cmd::new("git").args(&["commit", "-m", "a message"]).env("LANG", "C").dir("/repo");
    let copy = cmd.clone();
    assert_eq!(copy.display(), cmd.display());
    assert!(copy.display().contains("LANG"), "{}", copy.display());
}
