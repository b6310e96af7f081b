use flix::launch::split_command;

#[test]
fn splits_program_and_args() {
    let (exe, args) = split_command("foo --bar baz").unwrap();
    assert_eq!(exe, "foo");
    assert_eq!(args, vec!["--bar".to_string(), "baz".to_string()]);
}

#[test]
fn empty_command_yields_none() {
    assert!(split_command("").is_none());
}

#[test]
fn single_token_has_no_args() {
    let (exe, args) = split_command("mpv").unwrap();
    assert_eq!(exe, "mpv");
    assert!(args.is_empty());
}

#[test]
fn consecutive_spaces_keep_empty_tokens() {
    let (exe, args) = split_command("a  b").unwrap();
    assert_eq!(exe, "a");
    assert_eq!(args, vec!["".to_string(), "b".to_string()]);
}

#[test]
fn trailing_space_keeps_empty_argument() {
    let (exe, args) = split_command("a ").unwrap();
    assert_eq!(exe, "a");
    assert_eq!(args, vec!["".to_string()]);
}

#[test]
fn leading_space_gives_empty_executable() {
    let (exe, args) = split_command(" x").unwrap();
    assert_eq!(exe, "");
    assert_eq!(args, vec!["x".to_string()]);
}
