//! Where things live inside the mirror root and inside each mirror, and
//! the text written into a mirror's side files.

use vstd::prelude::*;
use vstd::string::*;
use crate::github;

verus! {

/// `base` and `part` joined by one separator; no separator is added after
/// an empty base or one that already ends with `/`. The part is always
/// taken as relative to the base, even when it starts with `/`.
pub open spec fn joined(base: Seq<char>, part: Seq<char>) -> Seq<char> {
    if base.len() == 0 || base.last() == '/' {
        base + part
    } else {
        base + seq!['/'] + part
    }
}

pub open spec fn git_suffix() -> Seq<char> {
    seq!['.', 'g', 'i', 't']
}

pub open spec fn fork_dir() -> Seq<char> {
    seq!['f', 'o', 'r', 'k']
}

/// The mirror directory of `repo` under `base`: `<base>/<name>.git`, or
/// `<base>/fork/<name>.git` for a fork.
pub open spec fn clone_path_spec(base: Seq<char>, repo: github::Repo) -> Seq<char> {
    if repo.fork {
        joined(joined(base, fork_dir()), repo.name@ + git_suffix())
    } else {
        joined(base, repo.name@ + git_suffix())
    }
}

/// The text of the description file for `description`: empty for an empty
/// description, otherwise the description as one line.
pub open spec fn description_text(description: Seq<char>) -> Seq<char> {
    if description.len() == 0 {
        Seq::empty()
    } else {
        description + seq!['\n']
    }
}

/// `base` joined with `part`, the part taken as relative.
pub fn join(base: &str, part: &str) -> (r: String)
    ensures
        r@ == joined(base@, part@),
{
    let mut r = String::from_str(base);
    let n = base.unicode_len();
    if n > 0 && base.get_char(n - 1) != '/' {
        r.append("/");
        proof {
            reveal_strlit("/");
        }
    }
    r.append(part);
    assert(r@ =~= joined(base@, part@));
    r
}

/// Get the clone path for a repository.
///
/// If `repo` is a fork, add `/fork/` to `base_path`.
pub fn clone_path(base_path: &str, repo: &github::Repo) -> (r: String)
    ensures
        r@ == clone_path_spec(base_path@, *repo),
{
    let mut git_dir = repo.name.clone();
    git_dir.append(".git");
    proof {
        reveal_strlit(".git");
        assert(git_dir@ =~= repo.name@ + git_suffix());
    }
    if repo.fork {
        let fork = join(base_path, "fork");
        proof {
            reveal_strlit("fork");
            assert("fork"@ =~= fork_dir());
        }
        join(fork.as_str(), git_dir.as_str())
    } else {
        join(base_path, git_dir.as_str())
    }
}

/// The text that the description file of a mirror holds for `description`.
pub fn description_file_contents(description: &str) -> (r: String)
    ensures
        r@ == description_text(description@),
{
    if description.is_empty() {
        proof {
            assert(description@ =~= Seq::<char>::empty());
        }
        String::new()
    } else {
        let mut r = String::from_str(description);
        r.append("\n");
        proof {
            reveal_strlit("\n");
            assert(r@ =~= description_text(description@));
        }
        r
    }
}

/// The line that sets `default_branch` as the browser's default branch in a
/// mirror's sidecar config: `defbranch=<branch>`.
pub fn repo_cgitrc_set_defbranch(default_branch: &str) -> (r: String)
    ensures
        r@ == seq!['d', 'e', 'f', 'b', 'r', 'a', 'n', 'c', 'h', '='] + default_branch@,
{
    let mut r = String::from_str("defbranch=");
    r.append(default_branch);
    proof {
        reveal_strlit("defbranch=");
        assert(r@ =~= seq!['d', 'e', 'f', 'b', 'r', 'a', 'n', 'c', 'h', '='] + default_branch@);
    }
    r
}

/// The full name of the branch reference `branch`: `refs/heads/<branch>`.
pub fn head_ref(branch: &str) -> (r: String)
    ensures
        r@ == seq!['r', 'e', 'f', 's', '/', 'h', 'e', 'a', 'd', 's', '/'] + branch@,
{
    let mut r = String::from_str("refs/heads/");
    r.append(branch);
    proof {
        reveal_strlit("refs/heads/");
        assert(r@ =~= seq!['r', 'e', 'f', 's', '/', 'h', 'e', 'a', 'd', 's', '/'] + branch@);
    }
    r
}

/// Whether a new mirror's HEAD must be pointed at `default_branch`: the
/// repository library starts it at `master`.
pub fn needs_head_switch(default_branch: &String) -> (r: bool)
    ensures
        r == (default_branch@ != seq!['m', 'a', 's', 't', 'e', 'r']),
{
    let master = String::from_str("master");
    proof {
        reveal_strlit("master");
        assert(master@ =~= seq!['m', 'a', 's', 't', 'e', 'r']);
    }
    !(*default_branch == master)
}

} // verus!
