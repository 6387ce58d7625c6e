use lk::assemble::assemble_command;

fn tokens(ts: &[&str]) -> Vec<String> {
    ts.iter().map(|t| t.to_string()).collect()
}

#[test]
fn round_trip_simple_command() {
    let r = assemble_command(&tokens(&["lk", "echo", "hi"]));
    assert_eq!(r, Some("echo hi".to_string()));
}

#[test]
fn piped_command_passes_through_verbatim() {
    let r = assemble_command(&tokens(&["lk", "echo", "a", "|", "grep", "a"]));
    assert_eq!(r, Some("echo a | grep a".to_string()));
}

#[test]
fn program_token_with_path_prefix() {
    let r = assemble_command(&tokens(&["/usr/bin/lk", "ls", "-l"]));
    assert_eq!(r, Some("ls -l".to_string()));
}

#[test]
fn no_command_supplied_fails() {
    assert_eq!(assemble_command(&tokens(&["lk"])), None);
}

#[test]
fn no_tokens_at_all_fails() {
    assert_eq!(assemble_command(&tokens(&[])), None);
}

#[test]
fn single_trailing_argument() {
    let r = assemble_command(&tokens(&["lk", "make"]));
    assert_eq!(r, Some("make".to_string()));
}
