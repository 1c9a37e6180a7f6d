use reflectub::database;
use reflectub::github;
use reflectub::timestamp::{earlier, effective_timestamp, lex_before};

fn remote(updated_at: &str, pushed_at: &str) -> github::Repo {
    github::Repo {
        id: 1,
        name: "proj".to_string(),
        description: None,
        fork: false,
        clone_url: "https://example.com/proj.git".to_string(),
        default_branch: "main".to_string(),
        size: 10,
        updated_at: updated_at.to_string(),
        pushed_at: pushed_at.to_string(),
    }
}

#[test]
fn effective_time_is_later_push_time() {
    let r = effective_timestamp(
        &"2021-01-01T00:00:00Z".to_string(),
        &"2021-06-01T00:00:00Z".to_string(),
    );
    assert_eq!(r, "2021-06-01T00:00:00Z");
}

#[test]
fn effective_time_falls_back_to_update_time_on_bad_push_time() {
    let r = effective_timestamp(&"2021-01-01T00:00:00Z".to_string(), &"not a time".to_string());
    assert_eq!(r, "2021-01-01T00:00:00Z");
}

#[test]
fn effective_time_falls_back_to_push_time_on_bad_update_time() {
    let r = effective_timestamp(&"garbage".to_string(), &"2021-06-01T00:00:00Z".to_string());
    assert_eq!(r, "2021-06-01T00:00:00Z");
}

#[test]
fn effective_time_keeps_update_time_when_neither_parses() {
    let r = effective_timestamp(&"garbage".to_string(), &"junk".to_string());
    assert_eq!(r, "garbage");
}

#[test]
fn effective_time_keeps_later_update_time() {
    let r = effective_timestamp(
        &"2022-03-01T00:00:00Z".to_string(),
        &"2021-06-01T00:00:00Z".to_string(),
    );
    assert_eq!(r, "2022-03-01T00:00:00Z");
}

#[test]
fn effective_time_compares_across_offsets() {
    // 01:00 at +02:00 is 23:00 the day before in UTC, earlier than 00:30 UTC.
    let r = effective_timestamp(
        &"2021-01-02T01:00:00+02:00".to_string(),
        &"2021-01-02T00:30:00Z".to_string(),
    );
    assert_eq!(r, "2021-01-02T00:30:00Z");
}

#[test]
fn earlier_is_strict() {
    assert!(earlier("2021-01-01T00:00:00Z", "2021-01-01T00:00:01Z"));
    assert!(!earlier("2021-01-01T00:00:01Z", "2021-01-01T00:00:00Z"));
    assert!(!earlier("2021-01-01T00:00:00Z", "2021-01-01T00:00:00Z"));
    assert!(!earlier("2021-01-01T02:00:00+02:00", "2021-01-01T00:00:00Z"));
    assert!(earlier("2021-01-01T00:00:00.1Z", "2021-01-01T00:00:00.2Z"));
}

#[test]
fn earlier_falls_back_to_text_order() {
    assert!(earlier("abc", "abd"));
    assert!(earlier("ab", "abc"));
    assert!(!earlier("abc", "abc"));
    assert!(earlier("2021-01-01T00:00:00Z", "zzz"));
}

#[test]
fn lex_order() {
    assert!(lex_before("", "a"));
    assert!(!lex_before("a", ""));
    assert!(lex_before("a", "b"));
    assert!(!lex_before("b", "a"));
}

#[test]
fn record_from_remote_uses_effective_time() {
    let mut r = remote("2021-01-01T00:00:00Z", "2021-06-01T00:00:00Z");
    r.description = Some("desc".to_string());
    let rec = database::Repo::from_remote(&r);
    assert_eq!(rec.id, 1);
    assert_eq!(rec.name, "proj");
    assert_eq!(rec.description(), "desc");
    assert_eq!(rec.default_branch, Some("main".to_string()));
    assert_eq!(rec.updated_at, "2021-06-01T00:00:00Z");
}

#[test]
fn descriptions_default_to_empty() {
    let r = remote("2021-01-01T00:00:00Z", "2021-06-01T00:00:00Z");
    assert_eq!(r.description(), "");
    let rec = database::Repo::from_remote(&r);
    assert_eq!(rec.description(), "");
}
