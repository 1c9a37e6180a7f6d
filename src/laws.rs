//! Properties of the synchronizer that hold for every repository and every
//! catalog.

use vstd::prelude::*;
use crate::database;
use crate::database::is_record_of;
use crate::github;
use crate::multi_error::failed_messages;
use crate::sync::{completes, labelled, oversize, plan_spec, Outcome, Plan, SkipReason};
use crate::timestamp::{
    effective_spec,
    is_earlier,
    lemma_is_earlier_asymmetric,
    lemma_is_earlier_irreflexive,
};

verus! {

/// A repository within the size threshold.
pub open spec fn within_size(repo: github::Repo, max_repo_size_bytes: Option<u64>) -> bool {
    !(max_repo_size_bytes is Some && oversize(repo.size, max_repo_size_bytes->0))
}

/// A repository absent from the catalog, once its mirror is made, comes out
/// `Created`, and the catalog gains exactly one record: its own.
pub proof fn lemma_absent_is_created(
    before: Map<i64, database::Repo>,
    after: Map<i64, database::Repo>,
    repo: github::Repo,
    max_repo_size_bytes: Option<u64>,
    o: Outcome,
)
    requires
        within_size(repo, max_repo_size_bytes),
        !before.contains_key(repo.id),
        completes(before, after, repo, plan_spec(before, repo, max_repo_size_bytes), Ok(()), o),
    ensures
        o == Outcome::Created,
        after.dom() == before.dom().insert(repo.id),
        is_record_of(after[repo.id], repo),
        forall|k: i64| k != repo.id && #[trigger] before.contains_key(k) ==> after[k] == before[k],
{
    assert(after.dom() =~= before.dom().insert(repo.id));
}

/// A catalogued repository whose effective time is strictly after the
/// stored one comes out `Refreshed`, and its record then carries that
/// effective time.
pub proof fn lemma_newer_is_refreshed(
    before: Map<i64, database::Repo>,
    after: Map<i64, database::Repo>,
    repo: github::Repo,
    max_repo_size_bytes: Option<u64>,
    o: Outcome,
)
    requires
        within_size(repo, max_repo_size_bytes),
        before.contains_key(repo.id),
        is_earlier(before[repo.id].updated_at@, effective_spec(repo.updated_at@, repo.pushed_at@)),
        completes(before, after, repo, plan_spec(before, repo, max_repo_size_bytes), Ok(()), o),
    ensures
        o == Outcome::Refreshed,
        after.dom() == before.dom(),
        after[repo.id].updated_at@ == effective_spec(repo.updated_at@, repo.pushed_at@),
        is_record_of(after[repo.id], repo),
{
    assert(after.dom() =~= before.dom());
}

/// A catalogued repository whose effective time equals or precedes the
/// stored one comes out `Unchanged`, whatever the mirror work would have
/// returned, and the catalog stays exactly as it was.
pub proof fn lemma_not_newer_is_unchanged(
    before: Map<i64, database::Repo>,
    after: Map<i64, database::Repo>,
    repo: github::Repo,
    max_repo_size_bytes: Option<u64>,
    result: Result<(), String>,
    o: Outcome,
)
    requires
        within_size(repo, max_repo_size_bytes),
        before.contains_key(repo.id),
        ({
            let eff = effective_spec(repo.updated_at@, repo.pushed_at@);
            eff == before[repo.id].updated_at@ || is_earlier(eff, before[repo.id].updated_at@)
        }),
        completes(before, after, repo, plan_spec(before, repo, max_repo_size_bytes), result, o),
    ensures
        o == Outcome::Unchanged,
        after == before,
{
    let eff = effective_spec(repo.updated_at@, repo.pushed_at@);
    if eff == before[repo.id].updated_at@ {
        lemma_is_earlier_irreflexive(eff);
    } else {
        lemma_is_earlier_asymmetric(eff, before[repo.id].updated_at@);
    }
}

/// A repository larger than the threshold is skipped whether or not the
/// catalog knows it, and the catalog is left exactly as it was.
pub proof fn lemma_oversize_is_skipped(
    before: Map<i64, database::Repo>,
    after: Map<i64, database::Repo>,
    repo: github::Repo,
    max_repo_size_bytes: u64,
    result: Result<(), String>,
    o: Outcome,
)
    requires
        oversize(repo.size, max_repo_size_bytes),
        completes(before, after, repo, plan_spec(before, repo, Some(max_repo_size_bytes)), result, o),
    ensures
        plan_spec(before, repo, Some(max_repo_size_bytes)) == Plan::Skip,
        o == Outcome::Skipped(SkipReason::Oversize),
        after == before,
{
}

/// Two syncs that both set out to create the same new identifier insert
/// one record between them: the first comes out `Created`, the second
/// `Skipped`, never `Failed`.
pub proof fn lemma_racing_creates(
    before: Map<i64, database::Repo>,
    middle: Map<i64, database::Repo>,
    after: Map<i64, database::Repo>,
    first: github::Repo,
    second: github::Repo,
    o1: Outcome,
    o2: Outcome,
)
    requires
        first.id == second.id,
        !before.contains_key(first.id),
        completes(before, middle, first, Plan::Create, Ok(()), o1),
        completes(middle, after, second, Plan::Create, Ok(()), o2),
    ensures
        o1 == Outcome::Created,
        o2 == Outcome::Skipped(SkipReason::Race),
        after.dom() == before.dom().insert(first.id),
        after == middle,
        is_record_of(after[first.id], first),
{
    assert(middle.dom() =~= before.dom().insert(first.id));
}

/// A repository that has just been synced without failure needs no work on
/// an immediate second sync.
pub proof fn lemma_resync_is_unchanged(
    before: Map<i64, database::Repo>,
    after: Map<i64, database::Repo>,
    repo: github::Repo,
    max_repo_size_bytes: Option<u64>,
    o: Outcome,
)
    requires
        within_size(repo, max_repo_size_bytes),
        completes(before, after, repo, plan_spec(before, repo, max_repo_size_bytes), Ok(()), o),
    ensures
        plan_spec(after, repo, max_repo_size_bytes) == Plan::Unchanged,
{
    lemma_is_earlier_irreflexive(effective_spec(repo.updated_at@, repo.pushed_at@));
}

/// Whether `cats` is the succession of catalog states of one pass over
/// `repos`, each repository planned against the catalog as its turn comes,
/// with `results` as the outcomes of the mirror work and `outs` as the
/// repositories' outcomes.
pub open spec fn is_pass(
    cats: Seq<Map<i64, database::Repo>>,
    repos: Seq<github::Repo>,
    max_repo_size_bytes: Option<u64>,
    results: Seq<Result<(), String>>,
    outs: Seq<Outcome>,
) -> bool {
    &&& cats.len() == repos.len() + 1
    &&& results.len() == repos.len()
    &&& outs.len() == repos.len()
    &&& forall|i: int|
        0 <= i < repos.len() ==> #[trigger] completes(
            cats[i],
            cats[i + 1],
            repos[i],
            plan_spec(cats[i], repos[i], max_repo_size_bytes),
            results[i],
            outs[i],
        )
}

/// The catalog holds a record for `repo` that is not older than it.
pub open spec fn settled(cat: Map<i64, database::Repo>, repo: github::Repo) -> bool {
    &&& cat.contains_key(repo.id)
    &&& !is_earlier(cat[repo.id].updated_at@, effective_spec(repo.updated_at@, repo.pushed_at@))
}

proof fn lemma_pass_settles(
    cats: Seq<Map<i64, database::Repo>>,
    repos: Seq<github::Repo>,
    max_repo_size_bytes: Option<u64>,
    results: Seq<Result<(), String>>,
    outs: Seq<Outcome>,
    j: int,
)
    requires
        is_pass(cats, repos, max_repo_size_bytes, results, outs),
        0 <= j <= repos.len(),
        forall|i: int| 0 <= i < repos.len() ==> !(#[trigger] outs[i] is Failed),
        forall|a: int, b: int|
            0 <= a < b < repos.len() ==> #[trigger] repos[a].id != #[trigger] repos[b].id,
    ensures
        forall|i: int|
            0 <= i < j && within_size(repos[i], max_repo_size_bytes) ==> settled(
                cats[j],
                #[trigger] repos[i],
            ),
    decreases j,
{
    if j > 0 {
        let k = j - 1;
        lemma_pass_settles(cats, repos, max_repo_size_bytes, results, outs, k);
        assert(completes(
            cats[k],
            cats[k + 1],
            repos[k],
            plan_spec(cats[k], repos[k], max_repo_size_bytes),
            results[k],
            outs[k],
        ));
        assert(!(outs[k] is Failed));
        lemma_is_earlier_irreflexive(effective_spec(repos[k].updated_at@, repos[k].pushed_at@));
        assert forall|i: int|
            0 <= i < j && within_size(repos[i], max_repo_size_bytes) implies settled(
            cats[j],
            #[trigger] repos[i],
        ) by {
            if i < k {
                assert(settled(cats[k], repos[i]));
                assert(repos[i].id != repos[k].id);
            }
        }
    }
}

/// Idempotence: after a pass over repositories with distinct identifiers
/// in which no repository failed, a second pass over the same repositories
/// plans no work for any of them: each one within the size threshold comes
/// out `Unchanged` and each one above it stays `Skipped`, whatever its
/// mirror work would have returned, and the catalog is left as the first
/// pass left it.
pub proof fn lemma_second_pass_unchanged(
    cats: Seq<Map<i64, database::Repo>>,
    repos: Seq<github::Repo>,
    max_repo_size_bytes: Option<u64>,
    results: Seq<Result<(), String>>,
    outs: Seq<Outcome>,
    cats2: Seq<Map<i64, database::Repo>>,
    results2: Seq<Result<(), String>>,
    outs2: Seq<Outcome>,
)
    requires
        is_pass(cats, repos, max_repo_size_bytes, results, outs),
        is_pass(cats2, repos, max_repo_size_bytes, results2, outs2),
        cats2[0] == cats[repos.len() as int],
        forall|i: int| 0 <= i < repos.len() ==> !(#[trigger] outs[i] is Failed),
        forall|a: int, b: int|
            0 <= a < b < repos.len() ==> #[trigger] repos[a].id != #[trigger] repos[b].id,
    ensures
        forall|i: int|
            0 <= i < repos.len() ==> (if within_size(repos[i], max_repo_size_bytes) {
                #[trigger] outs2[i] == Outcome::Unchanged && plan_spec(
                    cats2[i],
                    repos[i],
                    max_repo_size_bytes,
                ) == Plan::Unchanged
            } else {
                outs2[i] == Outcome::Skipped(SkipReason::Oversize) && plan_spec(
                    cats2[i],
                    repos[i],
                    max_repo_size_bytes,
                ) == Plan::Skip
            }),
        forall|i: int| 0 <= i <= repos.len() ==> #[trigger] cats2[i] == cats[repos.len() as int],
{
    let n = repos.len() as int;
    lemma_pass_settles(cats, repos, max_repo_size_bytes, results, outs, n);
    lemma_second_pass_prefix(cats, repos, max_repo_size_bytes, results, outs, cats2, results2, outs2, n);
}

proof fn lemma_second_pass_prefix(
    cats: Seq<Map<i64, database::Repo>>,
    repos: Seq<github::Repo>,
    max_repo_size_bytes: Option<u64>,
    results: Seq<Result<(), String>>,
    outs: Seq<Outcome>,
    cats2: Seq<Map<i64, database::Repo>>,
    results2: Seq<Result<(), String>>,
    outs2: Seq<Outcome>,
    j: int,
)
    requires
        is_pass(cats, repos, max_repo_size_bytes, results, outs),
        is_pass(cats2, repos, max_repo_size_bytes, results2, outs2),
        cats2[0] == cats[repos.len() as int],
        0 <= j <= repos.len(),
        forall|i: int|
            0 <= i < repos.len() && within_size(repos[i], max_repo_size_bytes) ==> settled(
                cats[repos.len() as int],
                #[trigger] repos[i],
            ),
    ensures
        forall|i: int|
            0 <= i < j ==> (if within_size(repos[i], max_repo_size_bytes) {
                #[trigger] outs2[i] == Outcome::Unchanged && plan_spec(
                    cats2[i],
                    repos[i],
                    max_repo_size_bytes,
                ) == Plan::Unchanged
            } else {
                outs2[i] == Outcome::Skipped(SkipReason::Oversize) && plan_spec(
                    cats2[i],
                    repos[i],
                    max_repo_size_bytes,
                ) == Plan::Skip
            }),
        forall|i: int| 0 <= i <= j ==> #[trigger] cats2[i] == cats[repos.len() as int],
    decreases j,
{
    if j > 0 {
        let k = j - 1;
        lemma_second_pass_prefix(cats, repos, max_repo_size_bytes, results, outs, cats2, results2, outs2, k);
        assert(completes(
            cats2[k],
            cats2[k + 1],
            repos[k],
            plan_spec(cats2[k], repos[k], max_repo_size_bytes),
            results2[k],
            outs2[k],
        ));
        if within_size(repos[k], max_repo_size_bytes) {
            assert(settled(cats[repos.len() as int], repos[k]));
        }
    }
}

/// In a pass, a repository whose mirror work succeeded never fails.
pub proof fn lemma_success_never_fails(
    cats: Seq<Map<i64, database::Repo>>,
    repos: Seq<github::Repo>,
    max_repo_size_bytes: Option<u64>,
    results: Seq<Result<(), String>>,
    outs: Seq<Outcome>,
    i: int,
)
    requires
        is_pass(cats, repos, max_repo_size_bytes, results, outs),
        0 <= i < repos.len(),
        results[i] is Ok,
    ensures
        !(outs[i] is Failed),
{
    assert(completes(
        cats[i],
        cats[i + 1],
        repos[i],
        plan_spec(cats[i], repos[i], max_repo_size_bytes),
        results[i],
        outs[i],
    ));
}

proof fn lemma_single_failed_prefix(outs: Seq<Outcome>, f: int, msg: Seq<char>, j: int)
    requires
        0 <= f < outs.len(),
        0 <= j <= outs.len(),
        outs[f] is Failed && outs[f]->Failed_0@ == msg,
        forall|i: int| 0 <= i < outs.len() && i != f ==> !(#[trigger] outs[i] is Failed),
    ensures
        failed_messages(outs.take(j)) == (if j > f {
            seq![msg]
        } else {
            Seq::<Seq<char>>::empty()
        }),
    decreases j,
{
    if j > 0 {
        lemma_single_failed_prefix(outs, f, msg, j - 1);
        assert(outs.take(j).drop_last() =~= outs.take(j - 1));
        assert(outs.take(j).last() == outs[j - 1]);
        if j - 1 == f {
            assert(Seq::<Seq<char>>::empty().push(msg) =~= seq![msg]);
        }
    } else {
        assert(outs.take(0).len() == 0);
    }
}

/// Partial failure: when exactly one repository's mirror work fails in a
/// pass, the run reports exactly that one error, labelled with its name,
/// and no other repository fails.
pub proof fn lemma_one_failure_one_error(
    cats: Seq<Map<i64, database::Repo>>,
    repos: Seq<github::Repo>,
    max_repo_size_bytes: Option<u64>,
    results: Seq<Result<(), String>>,
    outs: Seq<Outcome>,
    f: int,
)
    requires
        is_pass(cats, repos, max_repo_size_bytes, results, outs),
        0 <= f < repos.len(),
        results[f] is Err,
        forall|i: int| 0 <= i < repos.len() && i != f ==> #[trigger] results[i] is Ok,
        plan_spec(cats[f], repos[f], max_repo_size_bytes) is Create || plan_spec(
            cats[f],
            repos[f],
            max_repo_size_bytes,
        ) is Refresh,
    ensures
        failed_messages(outs) == seq![labelled(repos[f].name@, results[f]->Err_0@)],
        forall|i: int| 0 <= i < repos.len() && i != f ==> !(#[trigger] outs[i] is Failed),
{
    assert(completes(
        cats[f],
        cats[f + 1],
        repos[f],
        plan_spec(cats[f], repos[f], max_repo_size_bytes),
        results[f],
        outs[f],
    ));
    assert forall|i: int| 0 <= i < repos.len() && i != f implies !(#[trigger] outs[i] is Failed) by {
        lemma_success_never_fails(cats, repos, max_repo_size_bytes, results, outs, i);
    }
    let msg = labelled(repos[f].name@, results[f]->Err_0@);
    lemma_single_failed_prefix(outs, f, msg, outs.len() as int);
    assert(outs.take(outs.len() as int) =~= outs);
}

} // verus!
