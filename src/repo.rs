//! A lighter repository listing record.

use vstd::prelude::*;

verus! {

/// A repository as a listing names it, with the address to fetch it from.
#[derive(Debug, Clone)]
pub struct Repo {
    pub id: usize,
    pub name: String,
    pub description: Option<String>,
    pub fork: bool,
    pub git_url: String,
    pub default_branch: String,
    pub updated_at: String,
}

} // verus!
