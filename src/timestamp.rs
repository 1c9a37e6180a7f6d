//! RFC 3339 timestamps: parsing into instants, the effective last-changed
//! time of a remote repository, and the ordering used to detect changes.

use vstd::prelude::*;

verus! {

/// The instant that an RFC 3339 string denotes, as whole seconds since the
/// Unix epoch and the nanoseconds past that second (one billion or more
/// during a leap second); `None` when the text is not a valid RFC 3339
/// timestamp.
pub uninterp spec fn rfc3339_instant(s: Seq<char>) -> Option<(i64, u32)>;

/// Relies on chrono's `DateTime::parse_from_rfc3339`, together with
/// `timestamp` and `timestamp_subsec_nanos` on its result: the parsed
/// instant, or `None` when parsing fails.
#[verifier::external_body]
pub(crate) fn parse_rfc3339(s: &str) -> (r: Option<(i64, u32)>)
    ensures
        r == rfc3339_instant(s@),
{
    match chrono::DateTime::parse_from_rfc3339(s) {
        Ok(t) => Some((t.timestamp(), t.timestamp_subsec_nanos())),
        Err(_) => None,
    }
}

/// Strict order on instants: the earlier second, or the same second and
/// fewer nanoseconds.
pub open spec fn instant_lt(a: (i64, u32), b: (i64, u32)) -> bool {
    a.0 < b.0 || (a.0 == b.0 && a.1 < b.1)
}

/// Lexicographic strict order on character sequences, from position `i` on.
pub open spec fn lex_lt_from(a: Seq<char>, b: Seq<char>, i: int) -> bool
    decreases a.len() - i,
{
    if i < 0 || i >= b.len() {
        false
    } else if i >= a.len() {
        true
    } else if a[i] != b[i] {
        (a[i] as u32) < (b[i] as u32)
    } else {
        lex_lt_from(a, b, i + 1)
    }
}

/// Lexicographic strict order on character sequences.
pub open spec fn lex_lt(a: Seq<char>, b: Seq<char>) -> bool {
    lex_lt_from(a, b, 0)
}

/// Whether timestamp `a` is strictly earlier than timestamp `b`: by instant
/// when both parse, and lexicographically otherwise.
pub open spec fn is_earlier(a: Seq<char>, b: Seq<char>) -> bool {
    match (rfc3339_instant(a), rfc3339_instant(b)) {
        (Some(x), Some(y)) => instant_lt(x, y),
        _ => lex_lt(a, b),
    }
}

/// Which of the two remote times is the effective one, given how each parsed.
pub open spec fn pick_effective(
    updated: Seq<char>,
    pushed: Seq<char>,
    u: Option<(i64, u32)>,
    p: Option<(i64, u32)>,
) -> Seq<char> {
    match (u, p) {
        (Some(x), Some(y)) => if instant_lt(x, y) {
            pushed
        } else {
            updated
        },
        (None, Some(_)) => pushed,
        _ => updated,
    }
}

/// The effective last-changed time of a remote repository: the later of its
/// update time and its push time, the one that parses when only one does,
/// and the update time as given when neither does.
pub open spec fn effective_spec(updated: Seq<char>, pushed: Seq<char>) -> Seq<char> {
    pick_effective(updated, pushed, rfc3339_instant(updated), rfc3339_instant(pushed))
}

pub proof fn lemma_lex_lt_from_irreflexive(a: Seq<char>, i: int)
    ensures
        !lex_lt_from(a, a, i),
    decreases a.len() - i,
{
    if 0 <= i < a.len() {
        lemma_lex_lt_from_irreflexive(a, i + 1);
    }
}

/// No timestamp is earlier than itself.
pub proof fn lemma_is_earlier_irreflexive(a: Seq<char>)
    ensures
        !is_earlier(a, a),
{
    lemma_lex_lt_from_irreflexive(a, 0);
}

pub proof fn lemma_lex_lt_from_asymmetric(a: Seq<char>, b: Seq<char>, i: int)
    requires
        lex_lt_from(a, b, i),
    ensures
        !lex_lt_from(b, a, i),
    decreases a.len() - i,
{
    if 0 <= i < a.len() && i < b.len() && a[i] == b[i] {
        lemma_lex_lt_from_asymmetric(a, b, i + 1);
    }
}

/// If `a` is earlier than `b`, then `b` is not earlier than `a`.
pub proof fn lemma_is_earlier_asymmetric(a: Seq<char>, b: Seq<char>)
    requires
        is_earlier(a, b),
    ensures
        !is_earlier(b, a),
{
    if !(rfc3339_instant(a) is Some && rfc3339_instant(b) is Some) {
        lemma_lex_lt_from_asymmetric(a, b, 0);
    }
}

/// Instant comparison.
pub fn instant_before(a: (i64, u32), b: (i64, u32)) -> (r: bool)
    ensures
        r == instant_lt(a, b),
{
    a.0 < b.0 || (a.0 == b.0 && a.1 < b.1)
}

/// Lexicographic comparison of two strings by character code.
pub fn lex_before(a: &str, b: &str) -> (r: bool)
    ensures
        r == lex_lt(a@, b@),
{
    let a_len = a.unicode_len();
    let b_len = b.unicode_len();
    let mut i: usize = 0;
    while i < a_len && i < b_len
        invariant
            a_len == a@.len(),
            b_len == b@.len(),
            i <= a_len,
            i <= b_len,
            lex_lt(a@, b@) == lex_lt_from(a@, b@, i as int),
        decreases a_len - i,
    {
        let ca = a.get_char(i);
        let cb = b.get_char(i);
        if ca != cb {
            return (ca as u32) < (cb as u32);
        }
        i = i + 1;
    }
    i < b_len
}

/// Whether timestamp `a` is strictly earlier than `b`, given how each parsed.
pub fn earlier_given(a: &str, b: &str, pa: Option<(i64, u32)>, pb: Option<(i64, u32)>) -> (r: bool)
    ensures
        r == (match (pa, pb) {
            (Some(x), Some(y)) => instant_lt(x, y),
            _ => lex_lt(a@, b@),
        }),
{
    match (pa, pb) {
        (Some(x), Some(y)) => instant_before(x, y),
        _ => lex_before(a, b),
    }
}

/// Whether timestamp `a` is strictly earlier than timestamp `b`.
pub fn earlier(a: &str, b: &str) -> (r: bool)
    ensures
        r == is_earlier(a@, b@),
{
    let pa = parse_rfc3339(a);
    let pb = parse_rfc3339(b);
    earlier_given(a, b, pa, pb)
}

/// The effective time of a remote repository, given how its update time and
/// its push time parsed.
pub fn effective_given(
    updated: &String,
    pushed: &String,
    u: Option<(i64, u32)>,
    p: Option<(i64, u32)>,
) -> (r: String)
    ensures
        r@ == pick_effective(updated@, pushed@, u, p),
{
    match (u, p) {
        (Some(x), Some(y)) => if instant_before(x, y) {
            pushed.clone()
        } else {
            updated.clone()
        },
        (None, Some(_)) => pushed.clone(),
        _ => updated.clone(),
    }
}

/// The effective last-changed time of a remote repository.
pub fn effective_timestamp(updated: &String, pushed: &String) -> (r: String)
    ensures
        r@ == effective_spec(updated@, pushed@),
{
    let u = parse_rfc3339(updated.as_str());
    let p = parse_rfc3339(pushed.as_str());
    effective_given(updated, pushed, u, p)
}

} // verus!
