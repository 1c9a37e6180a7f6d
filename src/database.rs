//! Catalog records: what was last seen of each mirrored repository.

use vstd::prelude::*;
use crate::github;
use crate::github::text_or_empty;
use crate::timestamp::{effective_spec, effective_timestamp};

verus! {

/// Repository metadata as the catalog keeps it.
#[derive(Debug, Clone)]
pub struct Repo {
    pub id: i64,
    pub name: String,
    pub description: Option<String>,
    pub default_branch: Option<String>,
    /// The effective last-changed time.
    pub updated_at: String,
}

/// Whether `rec` is the catalog record of the remote repository `remote`:
/// the same identifier, name, description and default branch, and the
/// remote's effective time as its last-changed time.
pub open spec fn is_record_of(rec: Repo, remote: github::Repo) -> bool {
    &&& rec.id == remote.id
    &&& rec.name@ == remote.name@
    &&& rec.description == remote.description
    &&& rec.default_branch is Some
    &&& rec.default_branch->0@ == remote.default_branch@
    &&& rec.updated_at@ == effective_spec(remote.updated_at@, remote.pushed_at@)
}

impl Repo {
    /// Get the repository description or an empty string if `None`.
    pub fn description(&self) -> (r: &str)
        ensures
            r@ == text_or_empty(self.description),
    {
        match &self.description {
            Some(d) => d.as_str(),
            None => {
                proof {
                    reveal_strlit("");
                }
                ""
            },
        }
    }

    /// The record that the catalog keeps for a remote repository.
    pub fn from_remote(repo: &github::Repo) -> (r: Repo)
        ensures
            is_record_of(r, *repo),
    {
        Repo {
            id: repo.id,
            name: repo.name.clone(),
            description: repo.description.clone(),
            default_branch: Some(repo.default_branch.clone()),
            updated_at: effective_timestamp(&repo.updated_at, &repo.pushed_at),
        }
    }
}

} // verus!
