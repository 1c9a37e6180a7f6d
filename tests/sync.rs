use reflectub::catalog::{Catalog, CatalogError};
use reflectub::database;
use reflectub::github;
use reflectub::multi_error::MultiError;
use reflectub::sync::{complete, is_repo_oversize, plan, Outcome, Plan, SkipReason};

fn remote(id: i64, name: &str, updated_at: &str, pushed_at: &str) -> github::Repo {
    github::Repo {
        id,
        name: name.to_string(),
        description: Some("a project".to_string()),
        fork: false,
        clone_url: format!("https://example.com/{}.git", name),
        default_branch: "main".to_string(),
        size: 100,
        updated_at: updated_at.to_string(),
        pushed_at: pushed_at.to_string(),
    }
}

fn stored(id: i64, name: &str, updated_at: &str) -> database::Repo {
    database::Repo {
        id,
        name: name.to_string(),
        description: Some("a project".to_string()),
        default_branch: Some("main".to_string()),
        updated_at: updated_at.to_string(),
    }
}

fn sync_ok(cat: &mut Catalog, r: &github::Repo, max: Option<u64>) -> Outcome {
    let p = plan(cat, r, max);
    complete(cat, r, p, Ok(()))
}

#[test]
fn oversize_threshold() {
    assert!(is_repo_oversize(2, 1999));
    assert!(!is_repo_oversize(2, 2000));
    assert!(!is_repo_oversize(0, 0));
    assert!(is_repo_oversize(u64::MAX, u64::MAX));
    assert!(is_repo_oversize(u64::MAX / 1000 + 1, u64::MAX));
}

#[test]
fn new_repo_is_created() {
    let mut cat = Catalog::new();
    let r = remote(7, "alpha", "2021-01-01T00:00:00Z", "2021-06-01T00:00:00Z");
    assert_eq!(plan(&cat, &r, None), Plan::Create);
    let o = complete(&mut cat, &r, Plan::Create, Ok(()));
    assert!(matches!(o, Outcome::Created));
    let rec = cat.get(7).unwrap();
    assert_eq!(rec.name, "alpha");
    assert_eq!(rec.updated_at, "2021-06-01T00:00:00Z");
    assert!(!cat.contains(8));
}

#[test]
fn newer_repo_is_refreshed() {
    let mut cat = Catalog::new();
    cat.put(stored(7, "alpha", "2021-01-01T00:00:00Z")).unwrap();
    let mut r = remote(7, "alpha", "2021-01-01T00:00:00Z", "2021-06-01T00:00:00Z");
    r.description = Some("new words".to_string());
    r.default_branch = "trunk".to_string();
    let p = plan(&cat, &r, None);
    assert_eq!(p, Plan::Refresh { update_description: true, change_branch: true });
    let o = complete(&mut cat, &r, p, Ok(()));
    assert!(matches!(o, Outcome::Refreshed));
    let rec = cat.get(7).unwrap();
    assert_eq!(rec.updated_at, "2021-06-01T00:00:00Z");
    assert_eq!(rec.description(), "new words");
    assert_eq!(rec.default_branch, Some("trunk".to_string()));
}

#[test]
fn refresh_keeps_branch_and_description_when_same() {
    let mut cat = Catalog::new();
    cat.put(stored(7, "alpha", "2021-01-01T00:00:00Z")).unwrap();
    let r = remote(7, "alpha", "2021-02-01T00:00:00Z", "2021-01-01T00:00:00Z");
    assert_eq!(plan(&cat, &r, None), Plan::Refresh { update_description: false, change_branch: false });
}

#[test]
fn untracked_branch_is_not_switched() {
    let mut cat = Catalog::new();
    let mut rec = stored(7, "alpha", "2021-01-01T00:00:00Z");
    rec.default_branch = None;
    rec.description = None;
    cat.put(rec).unwrap();
    let mut r = remote(7, "alpha", "2021-02-01T00:00:00Z", "2021-01-01T00:00:00Z");
    r.description = Some(String::new());
    r.default_branch = "trunk".to_string();
    assert_eq!(plan(&cat, &r, None), Plan::Refresh { update_description: false, change_branch: false });
}

#[test]
fn equal_time_is_unchanged() {
    let mut cat = Catalog::new();
    cat.put(stored(7, "alpha", "2021-06-01T00:00:00Z")).unwrap();
    let r = remote(7, "alpha", "2021-01-01T00:00:00Z", "2021-06-01T00:00:00Z");
    let p = plan(&cat, &r, None);
    assert_eq!(p, Plan::Unchanged);
    let o = complete(&mut cat, &r, p, Ok(()));
    assert!(matches!(o, Outcome::Unchanged));
    assert_eq!(cat.get(7).unwrap().updated_at, "2021-06-01T00:00:00Z");
}

#[test]
fn older_time_is_unchanged() {
    let mut cat = Catalog::new();
    cat.put(stored(7, "alpha", "2022-01-01T00:00:00Z")).unwrap();
    let r = remote(7, "alpha", "2021-01-01T00:00:00Z", "2021-06-01T00:00:00Z");
    assert_eq!(plan(&cat, &r, None), Plan::Unchanged);
}

#[test]
fn oversize_is_skipped_new_or_known() {
    let mut cat = Catalog::new();
    let mut r = remote(7, "alpha", "2021-01-01T00:00:00Z", "2021-06-01T00:00:00Z");
    r.size = 5000;
    assert_eq!(plan(&cat, &r, Some(4_999_999)), Plan::Skip);
    let o = complete(&mut cat, &r, Plan::Skip, Ok(()));
    assert!(matches!(o, Outcome::Skipped(SkipReason::Oversize)));
    assert!(!cat.contains(7));
    cat.put(stored(7, "alpha", "2020-01-01T00:00:00Z")).unwrap();
    assert_eq!(plan(&cat, &r, Some(4_999_999)), Plan::Skip);
    assert_eq!(plan(&cat, &r, Some(5_000_000)), Plan::Refresh { update_description: false, change_branch: false });
}

#[test]
fn second_pass_is_unchanged() {
    let mut cat = Catalog::new();
    cat.put(stored(2, "beta", "2020-01-01T00:00:00Z")).unwrap();
    let repos = vec![
        remote(1, "alpha", "2021-01-01T00:00:00Z", "2021-06-01T00:00:00Z"),
        remote(2, "beta", "2021-01-01T00:00:00Z", "2021-02-01T00:00:00Z"),
        remote(3, "gamma", "bad", "worse"),
    ];
    let first: Vec<Outcome> = repos.iter().map(|r| sync_ok(&mut cat, r, None)).collect();
    assert!(matches!(first[0], Outcome::Created));
    assert!(matches!(first[1], Outcome::Refreshed));
    assert!(matches!(first[2], Outcome::Created));
    for r in &repos {
        assert_eq!(plan(&cat, r, None), Plan::Unchanged);
    }
}

#[test]
fn racing_creates_insert_once() {
    let mut cat = Catalog::new();
    let r = remote(9, "dup", "2021-01-01T00:00:00Z", "2021-06-01T00:00:00Z");
    let first_plan = plan(&cat, &r, None);
    let second_plan = plan(&cat, &r, None);
    assert_eq!(first_plan, Plan::Create);
    assert_eq!(second_plan, Plan::Create);
    let o1 = complete(&mut cat, &r, first_plan, Ok(()));
    let o2 = complete(&mut cat, &r, second_plan, Ok(()));
    assert!(matches!(o1, Outcome::Created));
    assert!(matches!(o2, Outcome::Skipped(SkipReason::Race)));
    assert!(cat.contains(9));
}

#[test]
fn failed_mirror_is_labelled_and_not_recorded() {
    let mut cat = Catalog::new();
    let r = remote(4, "delta", "2021-01-01T00:00:00Z", "2021-06-01T00:00:00Z");
    let o = complete(&mut cat, &r, Plan::Create, Err("fetch failed".to_string()));
    match o {
        Outcome::Failed(m) => assert_eq!(m, "delta: fetch failed"),
        _ => panic!("expected a failure"),
    }
    assert!(!cat.contains(4));
}

#[test]
fn refresh_of_missing_record_fails() {
    let mut cat = Catalog::new();
    let r = remote(4, "delta", "2021-01-01T00:00:00Z", "2021-06-01T00:00:00Z");
    let p = Plan::Refresh { update_description: false, change_branch: false };
    match complete(&mut cat, &r, p, Ok(())) {
        Outcome::Failed(m) => assert_eq!(m, "delta: catalog record not found"),
        _ => panic!("expected a failure"),
    }
}

#[test]
fn one_failure_among_five() {
    let mut cat = Catalog::new();
    cat.put(stored(2, "b", "2020-01-01T00:00:00Z")).unwrap();
    cat.put(stored(3, "c", "2030-01-01T00:00:00Z")).unwrap();
    let repos = vec![
        remote(1, "a", "2021-01-01T00:00:00Z", "2021-06-01T00:00:00Z"),
        remote(2, "b", "2021-01-01T00:00:00Z", "2021-06-01T00:00:00Z"),
        remote(3, "c", "2021-01-01T00:00:00Z", "2021-06-01T00:00:00Z"),
        remote(4, "d", "2021-01-01T00:00:00Z", "2021-06-01T00:00:00Z"),
        remote(5, "e", "2021-01-01T00:00:00Z", "2021-06-01T00:00:00Z"),
    ];
    let mut outs = Vec::new();
    for r in &repos {
        let p = plan(&cat, r, None);
        let result = if r.id == 4 { Err("remote hung up".to_string()) } else { Ok(()) };
        outs.push(complete(&mut cat, r, p, result));
    }
    assert!(matches!(outs[0], Outcome::Created));
    assert!(matches!(outs[1], Outcome::Refreshed));
    assert!(matches!(outs[2], Outcome::Unchanged));
    assert!(matches!(outs[3], Outcome::Failed(_)));
    assert!(matches!(outs[4], Outcome::Created));
    let report = MultiError::from_outcomes(&outs);
    assert_eq!(report.len(), 1);
    assert!(!report.is_empty());
    assert_eq!(report.message(), "d: remote hung up");
    assert!(!cat.contains(4));
    assert!(cat.contains(5));
}

#[test]
fn catalog_put_and_replace_errors() {
    let mut cat = Catalog::new();
    assert_eq!(cat.replace(stored(1, "a", "x")), Err(CatalogError::NotFound));
    assert_eq!(cat.put(stored(1, "a", "x")), Ok(()));
    assert_eq!(cat.put(stored(1, "a", "y")), Err(CatalogError::AlreadyExists));
    assert_eq!(cat.get(1).unwrap().updated_at, "x");
    assert_eq!(cat.replace(stored(1, "a", "z")), Ok(()));
    assert_eq!(cat.get(1).unwrap().updated_at, "z");
    assert!(cat.get(2).is_none());
}

#[test]
fn catalog_newer_than() {
    let mut cat = Catalog::new();
    cat.put(stored(1, "a", "2021-01-01T00:00:00Z")).unwrap();
    assert!(cat.is_newer_than(1, "2021-01-01T00:00:01Z"));
    assert!(!cat.is_newer_than(1, "2021-01-01T00:00:00Z"));
    assert!(!cat.is_newer_than(1, "2020-12-31T23:59:59Z"));
    assert!(!cat.is_newer_than(2, "2030-01-01T00:00:00Z"));
}

#[test]
fn report_joins_lines() {
    let report = MultiError::from_errors(vec!["a: one".to_string(), "b: two".to_string()]);
    assert_eq!(report.message(), "a: one\nb: two");
    assert_eq!(report.errors().len(), 2);
    let empty = MultiError::from_outcomes(&vec![Outcome::Created, Outcome::Unchanged]);
    assert!(empty.is_empty());
    assert_eq!(empty.message(), "");
}

#[test]
fn second_pass_keeps_oversize_skipped() {
    let mut cat = Catalog::new();
    let mut big = remote(1, "big", "2021-01-01T00:00:00Z", "2021-06-01T00:00:00Z");
    big.size = 10_000;
    let small = remote(2, "small", "2021-01-01T00:00:00Z", "2021-06-01T00:00:00Z");
    let max = Some(1_000_000);
    assert!(matches!(sync_ok(&mut cat, &big, max), Outcome::Skipped(SkipReason::Oversize)));
    assert!(matches!(sync_ok(&mut cat, &small, max), Outcome::Created));
    assert!(matches!(sync_ok(&mut cat, &big, max), Outcome::Skipped(SkipReason::Oversize)));
    assert!(matches!(sync_ok(&mut cat, &small, max), Outcome::Unchanged));
    assert!(!cat.contains(1));
}

#[test]
fn catalog_remove() {
    let mut cat = Catalog::new();
    cat.put(stored(1, "a", "x")).unwrap();
    assert_eq!(cat.remove(1).unwrap().updated_at, "x");
    assert!(!cat.contains(1));
    assert!(cat.remove(1).is_none());
}
