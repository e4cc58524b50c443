use pore::error::IndexError;
use pore::walk::{entry_admitted, match_globs, whitelist_admits, MatchOutcome};

fn over(path: &str) -> MatchOutcome {
    // override list: exclude *.log, nothing else
    match_globs(".", &vec![String::from("!*.log")], false, path, false).unwrap()
}

fn whitelist(path: &str) -> MatchOutcome {
    // whitelist list: only *.txt
    match_globs(".", &vec![String::from("*.txt")], false, path, false).unwrap()
}

#[test]
fn discovery_composition() {
    // a.log is excluded by the override, whatever the whitelist says
    let a_over = over("a.log");
    assert_eq!(a_over, MatchOutcome::Ignore);
    assert!(!entry_admitted(a_over, Some(whitelist("a.log")), false));

    // b.md passes the overrides but fails the whitelist
    let b_over = over("b.md");
    assert_eq!(b_over, MatchOutcome::NoMatch);
    assert_eq!(whitelist("b.md"), MatchOutcome::Ignore);
    assert!(!entry_admitted(b_over, Some(whitelist("b.md")), false));

    // c.txt passes both
    let c_over = over("c.txt");
    assert_eq!(whitelist("c.txt"), MatchOutcome::Whitelist);
    assert!(entry_admitted(c_over, Some(whitelist("c.txt")), false));
}

#[test]
fn directories_always_pass_the_whitelist() {
    assert!(whitelist_admits(true, false));
    assert!(!whitelist_admits(false, false));
    assert!(whitelist_admits(false, true));
    // a directory passes even though it matches no whitelist glob, so
    // traversal can descend into it
    let d = match_globs(".", &vec![String::from("*.txt")], false, "subdir", true).unwrap();
    assert!(entry_admitted(MatchOutcome::NoMatch, Some(d), true));
}

#[test]
fn case_insensitive_globs_match_either_case() {
    let m = match_globs(".", &vec![String::from("*.TXT")], true, "c.txt", false).unwrap();
    assert_eq!(m, MatchOutcome::Whitelist);
    let m = match_globs(".", &vec![String::from("*.TXT")], false, "c.txt", false).unwrap();
    assert_ne!(m, MatchOutcome::Whitelist);
}

#[test]
fn invalid_glob_fails_fast() {
    let r = match_globs(".", &vec![String::from("a[")], false, "a", false);
    assert!(matches!(r, Err(IndexError::InvalidGlob(_))));
}

#[test]
fn whitelist_only_matcher_rejects_nonmatching_files() {
    let m = match_globs(".", &vec![String::from("*.rs")], false, "x.py", false).unwrap();
    // a matcher with only whitelist rules marks non-matching files as
    // ignored
    assert_eq!(m, MatchOutcome::Ignore);
}
