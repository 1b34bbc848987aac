use mlw::filter::{should_ignore_path, IgnorePattern};
use mlw::logger::{is_shown, LogLevel};

#[test]
fn git_paths_are_ignored() {
    assert!(should_ignore_path("/repo/.git/HEAD", Some(".*\\.git.*")));
}

#[test]
fn source_paths_are_not_ignored() {
    assert!(!should_ignore_path("/repo/src/main.x", Some(".*\\.git.*")));
}

#[test]
fn malformed_pattern_ignores_nothing() {
    assert!(!should_ignore_path("/repo/.git/HEAD", Some("foo(bar")));
    assert!(!should_ignore_path("foo(bar", Some("foo(bar")));
    assert!(!should_ignore_path("", Some("[")));
}

#[test]
fn no_pattern_ignores_nothing() {
    assert!(!should_ignore_path("/repo/.git/HEAD", None));
}

#[test]
fn pattern_searches_anywhere_in_path() {
    assert!(should_ignore_path("/a/b/target/debug/x", Some("target")));
    assert!(!should_ignore_path("/a/b/src/x", Some("^target")));
    assert!(should_ignore_path("/a/b/notes.tmp", Some("\\.tmp$")));
}

#[test]
fn compiled_pattern_reports_validity() {
    assert!(IgnorePattern::compile("(").is_none());
    let p = IgnorePattern::compile("\\.git").unwrap();
    assert!(p.is_match("/repo/.git/config"));
    assert!(!p.is_match("/repo/src/lib.rs"));
}

#[test]
fn debug_messages_need_verbosity() {
    assert!(!is_shown(LogLevel::Debug, None));
    assert!(!is_shown(LogLevel::Debug, Some(false)));
    assert!(is_shown(LogLevel::Debug, Some(true)));
}

#[test]
fn info_and_error_always_shown() {
    for v in [None, Some(false), Some(true)] {
        assert!(is_shown(LogLevel::Info, v));
        assert!(is_shown(LogLevel::Error, v));
    }
}
