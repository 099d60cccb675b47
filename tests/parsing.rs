use vcsql::providers::config::parse_config_name;
use vcsql::providers::hooks::is_valid_hook_name;
use vcsql::providers::reflog::extract_action;
use vcsql::providers::stashes::extract_branch_from_message;
use vcsql::query::extract_table_names;
use vcsql::timefmt::{format_git_time, format_utc_time, plain_time, with_zone};

fn parts(name: &str) -> (String, Option<String>, String) {
    parse_config_name(name)
}

#[test]
fn config_key_two_parts() {
    assert_eq!(parts("user.name"), ("user".to_string(), None, "name".to_string()));
}

#[test]
fn config_key_three_parts() {
    assert_eq!(
        parts("remote.origin.url"),
        ("remote".to_string(), Some("origin".to_string()), "url".to_string())
    );
}

#[test]
fn config_key_four_parts_joins_middle() {
    assert_eq!(parts("a.b.c.d"), ("a".to_string(), Some("b.c".to_string()), "d".to_string()));
}

#[test]
fn config_key_one_part() {
    assert_eq!(parts("core"), ("core".to_string(), None, String::new()));
}

#[test]
fn config_key_empty_segments() {
    assert_eq!(parts("a..b"), ("a".to_string(), Some(String::new()), "b".to_string()));
}

#[test]
fn stash_branch_wip() {
    assert_eq!(extract_branch_from_message("WIP on feature-x: 1234abc fix bug"), "feature-x");
}

#[test]
fn stash_branch_on() {
    assert_eq!(extract_branch_from_message("On main: saved work"), "main");
}

#[test]
fn stash_branch_unknown() {
    assert_eq!(extract_branch_from_message("random text"), "unknown");
    assert_eq!(extract_branch_from_message("WIP on no colon here"), "unknown");
    assert_eq!(extract_branch_from_message(""), "unknown");
}

#[test]
fn reflog_actions() {
    assert_eq!(extract_action("commit: add file"), "commit");
    assert_eq!(extract_action("commit (initial): first"), "commit");
    assert_eq!(extract_action("commit (amend): fix"), "commit");
    assert_eq!(extract_action("checkout: moving from main to dev"), "checkout");
    assert_eq!(extract_action("merge dev: Fast-forward"), "merge");
    assert_eq!(extract_action("rebase (finish): returning"), "rebase");
    assert_eq!(extract_action("reset: moving to HEAD~1"), "reset");
    assert_eq!(extract_action("pull: Fast-forward"), "pull");
    assert_eq!(extract_action("push"), "push");
    assert_eq!(extract_action("branch: Created from HEAD"), "branch");
    assert_eq!(extract_action("clone: from https://example.com/r.git"), "clone");
    assert_eq!(extract_action("cherry-pick: pick one"), "cherry-pick");
    assert_eq!(extract_action("revert: undo"), "revert");
    assert_eq!(extract_action("something else"), "other");
}

#[test]
fn reflog_actions_ignore_case() {
    assert_eq!(extract_action("CHECKOUT: moving"), "checkout");
    assert_eq!(extract_action("Merge branch x"), "merge");
    assert_eq!(extract_action("commit"), "other");
}

#[test]
fn hook_names() {
    assert!(is_valid_hook_name("pre-commit"));
    assert!(is_valid_hook_name("post-index-change"));
    assert!(is_valid_hook_name("update"));
    assert!(!is_valid_hook_name("pre-commit.sample"));
    assert!(!is_valid_hook_name("my-hook"));
    assert!(!is_valid_hook_name(""));
}

#[test]
fn zoned_time_text() {
    assert_eq!(format_git_time(0, 0), "1970-01-01 00:00:00 +0000");
    assert_eq!(format_git_time(1700000000, -300), "2023-11-14 22:13:20 -0500");
    assert_eq!(format_git_time(1700000000, 330), "2023-11-14 22:13:20 +0530");
    assert_eq!(format_git_time(86399, -45), "1970-01-01 23:59:59 -0045");
}

#[test]
fn utc_time_text() {
    assert_eq!(format_utc_time(86400), "1970-01-02 00:00:00");
    assert_eq!(format_utc_time(-1), "1969-12-31 23:59:59");
}

#[test]
fn time_out_of_range_falls_back_to_seconds() {
    assert_eq!(format_utc_time(i64::MAX), i64::MAX.to_string());
    assert_eq!(format_git_time(i64::MIN, 60), i64::MIN.to_string());
}

#[test]
fn table_names_from_join_query() {
    let names = extract_table_names("SELECT c.summary FROM commits c JOIN branches b ON b.target_id = c.id");
    assert_eq!(names, vec!["commits".to_string(), "branches".to_string()]);
}

#[test]
fn table_names_any_case() {
    assert_eq!(extract_table_names("select * from COMMITS"), vec!["commits".to_string()]);
    assert_eq!(extract_table_names("SELECT * FROM Diff_Files"), vec!["diff_files".to_string()]);
}

#[test]
fn table_names_whole_words_only() {
    assert!(extract_table_names("SELECT * FROM commitsx").is_empty());
    assert_eq!(extract_table_names("SELECT * FROM commit_parents"), vec!["commit_parents".to_string()]);
    assert!(extract_table_names("SELECT 1").is_empty());
    assert!(extract_table_names("").is_empty());
}

#[test]
fn table_names_in_subqueries_and_literals() {
    let names = extract_table_names("SELECT * FROM tags WHERE name IN (SELECT name FROM refs) AND x = 'status'");
    assert_eq!(names, vec!["tags".to_string(), "refs".to_string(), "status".to_string()]);
}

#[test]
fn zone_suffix_from_given_utc_text() {
    let utc = || Some("2001-02-03 04:05:06".to_string());
    assert_eq!(with_zone(utc(), 0, 0), "2001-02-03 04:05:06 +0000");
    assert_eq!(with_zone(utc(), 0, -61), "2001-02-03 04:05:06 -0101");
    assert_eq!(with_zone(utc(), 0, 600), "2001-02-03 04:05:06 +1000");
    assert_eq!(with_zone(utc(), 0, 6000), "2001-02-03 04:05:06 +10000");
    assert_eq!(with_zone(None, -42, 60), "-42");
    assert_eq!(plain_time(utc(), 5), "2001-02-03 04:05:06");
    assert_eq!(plain_time(None, 1234567), "1234567");
    assert_eq!(plain_time(None, i64::MIN), "-9223372036854775808");
}

#[test]
fn table_names_unicode_word_boundaries() {
    assert!(extract_table_names("SELECT * FROM commitsé").is_empty());
    assert!(extract_table_names("SELECT * FROM écommits").is_empty());
    assert_eq!(extract_table_names("select * from Tags t"), vec!["tags".to_string()]);
}
