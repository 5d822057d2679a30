use pmon::data_providers::github::split_repo_name;
use pmon::data_providers::transport::FetchError;
use pmon::text::{concat2, find_first, same_text};

#[test]
fn same_text_compares_characters() {
    assert!(same_text("", ""));
    assert!(same_text("completed", "completed"));
    assert!(!same_text("completed", "complete"));
    assert!(!same_text("completed", "Completed"));
    assert!(!same_text("", "x"));
    assert!(same_text("d\u{e9}v", "d\u{e9}v"));
    assert!(!same_text("d\u{e9}v", "dev"));
}

#[test]
fn find_first_counts_characters() {
    assert_eq!(find_first("org/repo", '/'), Some(3));
    assert_eq!(find_first("/repo", '/'), Some(0));
    assert_eq!(find_first("a/b/c", '/'), Some(1));
    assert_eq!(find_first("repo", '/'), None);
    assert_eq!(find_first("", '/'), None);
    assert_eq!(find_first("\u{e9}\u{e9}/x", '/'), Some(2));
}

#[test]
fn concat2_joins() {
    assert_eq!(concat2("Bearer ", "abc"), "Bearer abc");
    assert_eq!(concat2("", ""), "");
}

#[test]
fn split_repo_name_encodes_both_parts() {
    assert_eq!(split_repo_name("org/repo"), Ok(("org".to_string(), "repo".to_string())));
    assert_eq!(split_repo_name("a b/c+d"), Ok(("a%20b".to_string(), "c%2Bd".to_string())));
    assert_eq!(split_repo_name("/"), Ok(("".to_string(), "".to_string())));
    assert_eq!(
        split_repo_name("\u{e9}t\u{e9}/caf\u{e9}"),
        Ok(("%C3%A9t%C3%A9".to_string(), "caf%C3%A9".to_string()))
    );
    assert_eq!(
        split_repo_name("A-Z_a.z~0/9"),
        Ok(("A-Z_a.z~0".to_string(), "9".to_string()))
    );
    assert_eq!(
        split_repo_name("repo"),
        Err(FetchError::InvalidRepoName { name: "repo".to_string() })
    );
    assert_eq!(split_repo_name(""), Err(FetchError::InvalidRepoName { name: "".to_string() }));
}
