//! Repository descriptors as the remote account lists them.

use vstd::prelude::*;

verus! {

/// The text of an optional description, empty when there is none.
pub open spec fn text_or_empty(d: Option<String>) -> Seq<char> {
    match d {
        Some(s) => s@,
        None => Seq::empty(),
    }
}

/// One repository of the remote account, as listed there.
#[derive(Debug, Clone)]
pub struct Repo {
    pub id: i64,
    pub name: String,
    pub description: Option<String>,
    pub fork: bool,
    pub clone_url: String,
    pub default_branch: String,
    /// Size in kilobytes.
    pub size: u64,
    pub updated_at: String,
    pub pushed_at: String,
}

impl Repo {
    /// Get the repository description or an empty string if `None`.
    pub fn description(&self) -> (r: &str)
        ensures
            r@ == text_or_empty(self.description),
    {
        match &self.description {
            Some(d) => d.as_str(),
            None => {
                proof {
                    reveal_strlit("");
                }
                ""
            },
        }
    }
}

/// Adds one page of a paginated listing to what was gathered so far, and
/// says whether another page should be requested: the listing ends with
/// the first empty page.
pub fn extend_with_page(repos: &mut Vec<Repo>, page: Vec<Repo>) -> (more: bool)
    ensures
        final(repos)@ == old(repos)@ + page@,
        more == (page@.len() > 0),
{
    let more = page.len() > 0;
    let mut page = page;
    repos.append(&mut page);
    more
}

} // verus!
