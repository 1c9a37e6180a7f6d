//! The per-repository decision: skip, create, refresh or leave alone, and
//! how the catalog records the result.

use vstd::prelude::*;
use vstd::string::*;
use crate::catalog::{Catalog, CatalogError};
use crate::database;
use crate::database::is_record_of;
use crate::github;
use crate::github::text_or_empty;
use crate::timestamp::{effective_spec, effective_timestamp, is_earlier};

verus! {

/// Why a repository was left alone.
#[derive(Debug, Clone, Copy, PartialEq, Eq, Structural)]
pub enum SkipReason {
    /// It is larger than the configured threshold.
    Oversize,
    /// A concurrent sync of the same identifier created it first.
    Race,
}

/// The work that one repository needs.
#[derive(Debug, Clone, Copy, PartialEq, Eq, Structural)]
pub enum Plan {
    /// Too large: no catalog access and no mirror work.
    Skip,
    /// Not in the catalog: create the mirror, then insert its record.
    Create,
    /// Changed since it was last seen: fetch into the mirror, rewrite the
    /// description file and switch the default branch where these changed,
    /// reset the mirror's time, then replace its record.
    Refresh { update_description: bool, change_branch: bool },
    /// Not changed since it was last seen: nothing to do.
    Unchanged,
}

/// What became of one repository.
#[derive(Debug, Clone)]
pub enum Outcome {
    Created,
    Refreshed,
    Unchanged,
    Skipped(SkipReason),
    /// The error, prefixed with the repository's name.
    Failed(String),
}

/// Whether `size_kilobytes` is larger than `max_bytes` bytes.
pub open spec fn oversize(size_kilobytes: u64, max_bytes: u64) -> bool {
    size_kilobytes * 1000 > max_bytes
}

/// A message labelled with the name it concerns: `name: msg`.
pub open spec fn labelled(name: Seq<char>, msg: Seq<char>) -> Seq<char> {
    name + seq![':', ' '] + msg
}

/// The text reported when a record to replace has gone missing.
pub open spec fn missing_record_text() -> Seq<char> {
    seq!['c', 'a', 't', 'a', 'l', 'o', 'g', ' ', 'r', 'e', 'c', 'o', 'r', 'd', ' ', 'n', 'o', 't', ' ', 'f', 'o', 'u', 'n', 'd']
}

/// The work that `repo` needs, given what the catalog holds and the size
/// threshold, if any.
pub open spec fn plan_spec(
    cat: Map<i64, database::Repo>,
    repo: github::Repo,
    max_repo_size_bytes: Option<u64>,
) -> Plan {
    if max_repo_size_bytes is Some && oversize(repo.size, max_repo_size_bytes->0) {
        Plan::Skip
    } else if !cat.contains_key(repo.id) {
        Plan::Create
    } else if is_earlier(cat[repo.id].updated_at@, effective_spec(repo.updated_at@, repo.pushed_at@)) {
        Plan::Refresh {
            update_description: text_or_empty(cat[repo.id].description) != text_or_empty(
                repo.description,
            ),
            change_branch: match cat[repo.id].default_branch {
                Some(b) => b@ != repo.default_branch@,
                None => false,
            },
        }
    } else {
        Plan::Unchanged
    }
}

/// Return `true` if `size_kilobytes` is larger than `max_repo_size_bytes`.
pub fn is_repo_oversize(size_kilobytes: u64, max_repo_size_bytes: u64) -> (r: bool)
    ensures
        r == oversize(size_kilobytes, max_repo_size_bytes),
{
    match size_kilobytes.checked_mul(1000) {
        Some(size_bytes) => size_bytes > max_repo_size_bytes,
        None => true,
    }
}

/// Whether two optional descriptions read the same, an absent one reading
/// as empty.
pub fn same_description(a: &Option<String>, b: &Option<String>) -> (r: bool)
    ensures
        r == (text_or_empty(*a) == text_or_empty(*b)),
{
    match (a, b) {
        (Some(x), Some(y)) => *x == *y,
        (None, None) => true,
        (Some(x), None) => {
            proof {
                if x@.len() == 0 {
                    assert(x@ =~= Seq::<char>::empty());
                }
            }
            x.as_str().is_empty()
        },
        (None, Some(y)) => {
            proof {
                if y@.len() == 0 {
                    assert(y@ =~= Seq::<char>::empty());
                }
            }
            y.as_str().is_empty()
        },
    }
}

/// Decides the work that `repo` needs. Reads the catalog only when the
/// repository is within the size threshold.
pub fn plan(catalog: &Catalog, repo: &github::Repo, max_repo_size_bytes: Option<u64>) -> (p: Plan)
    ensures
        p == plan_spec(catalog@, *repo, max_repo_size_bytes),
{
    if let Some(max) = max_repo_size_bytes {
        if is_repo_oversize(repo.size, max) {
            return Plan::Skip;
        }
    }
    match catalog.get(repo.id) {
        None => Plan::Create,
        Some(current) => {
            let effective = effective_timestamp(&repo.updated_at, &repo.pushed_at);
            if catalog.is_newer_than(repo.id, effective.as_str()) {
                let update_description = !same_description(&current.description, &repo.description);
                let change_branch = match &current.default_branch {
                    Some(b) => !(*b == repo.default_branch),
                    None => false,
                };
                Plan::Refresh { update_description, change_branch }
            } else {
                Plan::Unchanged
            }
        },
    }
}

/// `msg` labelled with `name`.
pub fn label(name: &String, msg: &str) -> (r: String)
    ensures
        r@ == labelled(name@, msg@),
{
    let mut r = name.clone();
    r.append(": ");
    r.append(msg);
    proof {
        reveal_strlit(": ");
        assert(r@ =~= labelled(name@, msg@));
    }
    r
}

/// Whether the catalog, having held `before`, now holds `after` with the
/// record of `repo` in place and every other record as it was.
pub open spec fn recorded(
    before: Map<i64, database::Repo>,
    after: Map<i64, database::Repo>,
    repo: github::Repo,
) -> bool {
    &&& after.contains_key(repo.id)
    &&& is_record_of(after[repo.id], repo)
    &&& after == before.insert(repo.id, after[repo.id])
}

/// What the catalog and the outcome become once the mirror work that `plan`
/// asked for for `repo` has ended with `result`.
pub open spec fn completes(
    before: Map<i64, database::Repo>,
    after: Map<i64, database::Repo>,
    repo: github::Repo,
    plan: Plan,
    result: Result<(), String>,
    o: Outcome,
) -> bool {
    match plan {
        Plan::Skip => o == Outcome::Skipped(SkipReason::Oversize) && after == before,
        Plan::Unchanged => o == Outcome::Unchanged && after == before,
        Plan::Create => match result {
            Err(e) => o is Failed && o->Failed_0@ == labelled(repo.name@, e@) && after == before,
            Ok(_) => if before.contains_key(repo.id) {
                o == Outcome::Skipped(SkipReason::Race) && after == before
            } else {
                o == Outcome::Created && recorded(before, after, repo)
            },
        },
        Plan::Refresh { .. } => match result {
            Err(e) => o is Failed && o->Failed_0@ == labelled(repo.name@, e@) && after == before,
            Ok(_) => if before.contains_key(repo.id) {
                o == Outcome::Refreshed && recorded(before, after, repo)
            } else {
                o is Failed && o->Failed_0@ == labelled(repo.name@, missing_record_text())
                    && after == before
            },
        },
    }
}

/// Records in the catalog what the mirror work for `repo` came to, and
/// returns the repository's outcome. A record that another sync of the same
/// identifier inserted first turns a creation into a skip, not a failure.
pub fn complete(
    catalog: &mut Catalog,
    repo: &github::Repo,
    plan: Plan,
    result: Result<(), String>,
) -> (o: Outcome)
    requires
        old(catalog).well_formed(),
    ensures
        final(catalog).well_formed(),
        completes(old(catalog)@, final(catalog)@, *repo, plan, result, o),
{
    match plan {
        Plan::Skip => Outcome::Skipped(SkipReason::Oversize),
        Plan::Unchanged => Outcome::Unchanged,
        Plan::Create => match result {
            Err(e) => Outcome::Failed(label(&repo.name, e.as_str())),
            Ok(()) => match catalog.put(database::Repo::from_remote(repo)) {
                Ok(()) => Outcome::Created,
                Err(_) => Outcome::Skipped(SkipReason::Race),
            },
        },
        Plan::Refresh { .. } => match result {
            Err(e) => Outcome::Failed(label(&repo.name, e.as_str())),
            Ok(()) => match catalog.replace(database::Repo::from_remote(repo)) {
                Ok(()) => Outcome::Refreshed,
                Err(_) => {
                    let msg = "catalog record not found";
                    proof {
                        reveal_strlit("catalog record not found");
                        assert(msg@ =~= missing_record_text());
                    }
                    Outcome::Failed(label(&repo.name, msg))
                },
            },
        },
    }
}

} // verus!
