use flix::paths::{join_path, parent_dir};

#[test]
fn join_resolves_relative_against_base() {
    assert_eq!(join_path("/etc/flix", "icon.png"), "/etc/flix/icon.png");
}

#[test]
fn join_keeps_absolute_path() {
    assert_eq!(join_path("/etc/flix", "/usr/share/icon.png"), "/usr/share/icon.png");
}

#[test]
fn join_does_not_double_the_separator() {
    assert_eq!(join_path("/etc/flix/", "icon.png"), "/etc/flix/icon.png");
}

#[test]
fn parent_of_config_file() {
    assert_eq!(parent_dir("/etc/flix/flix.toml"), "/etc/flix");
}

#[test]
fn parent_at_root_keeps_the_root() {
    assert_eq!(parent_dir("/flix.toml"), "/");
}

#[test]
fn parent_without_separator_is_empty() {
    assert_eq!(parent_dir("flix.toml"), "");
}
