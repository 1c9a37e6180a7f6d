//! Run options given as text.

use vstd::prelude::*;
use vstd::string::*;
use crate::sync::{label, labelled};

verus! {

#[verifier::external_type_specification]
#[verifier::external_body]
pub struct ExParseSizeError(parse_size::Error);

/// The number of bytes that a human-readable size such as `1.5 GiB`
/// denotes, for a text of at most `MAX_SIZE_DIGITS` digits; `None` when the
/// text is no such size or the number does not fit in 64 bits.
pub uninterp spec fn size_in_bytes(s: Seq<char>) -> Option<u64>;

/// The most decimal digits that a size may be written with. The parser
/// rounds its mantissa up on the first digit that no longer fits in 64
/// bits, which overflows once twenty digits have reached the largest value.
pub const MAX_SIZE_DIGITS: usize = 20;

/// The number of ASCII decimal digits in `s`.
pub open spec fn digit_count(s: Seq<char>) -> nat
    decreases s.len(),
{
    if s.len() == 0 {
        0
    } else {
        digit_count(s.drop_last()) + if '0' <= s.last() && s.last() <= '9' {
            1nat
        } else {
            0nat
        }
    }
}

/// The number of ASCII decimal digits in `s`.
pub fn count_digits(s: &str) -> (r: usize)
    ensures
        r == digit_count(s@),
{
    let n = s.unicode_len();
    let mut count: usize = 0;
    let mut i: usize = 0;
    while i < n
        invariant
            n == s@.len(),
            i <= n,
            count == digit_count(s@.take(i as int)),
            count <= i,
        decreases n - i,
    {
        proof {
            assert(s@.take(i as int + 1).drop_last() =~= s@.take(i as int));
        }
        let c = s.get_char(i);
        if '0' <= c && c <= '9' {
            count = count + 1;
        }
        i = i + 1;
    }
    proof {
        assert(s@.take(n as int) =~= s@);
    }
    count
}

/// Relies on `parse_size::parse_size`: the number of bytes that the text
/// denotes, or an error when it denotes none. Texts with more digits than
/// `MAX_SIZE_DIGITS` are left out: on some of them the parser overflows.
#[verifier::external_body]
fn parse_size_bytes(s: &str) -> (r: Result<u64, parse_size::Error>)
    requires
        digit_count(s@) <= MAX_SIZE_DIGITS,
    ensures
        r is Ok <==> size_in_bytes(s@) is Some,
        r is Ok ==> r->Ok_0 == size_in_bytes(s@)->0,
{
    parse_size::parse_size(s)
}

/// The text that prefixes a size that cannot be read.
pub open spec fn bad_size_text() -> Seq<char> {
    seq![
        'u', 'n', 'a', 'b', 'l', 'e', ' ', 't', 'o', ' ', 'p', 'a', 'r', 's', 'e', ' ', 'm', 'a',
        'x', ' ', 'f', 'i', 'l', 'e', ' ', 's', 'i', 'z', 'e',
    ]
}

/// The size threshold in bytes from the text given for it, if any: no
/// threshold when none is given, and an error naming the text when it is
/// not a size or is written with more than `MAX_SIZE_DIGITS` digits.
pub fn parse_max_size(arg: &Option<String>) -> (r: Result<Option<u64>, String>)
    ensures
        arg is None ==> r == Ok::<Option<u64>, String>(None),
        arg is Some && digit_count(arg->0@) > MAX_SIZE_DIGITS ==> r is Err && r->Err_0@
            == labelled(bad_size_text(), arg->0@),
        arg is Some && digit_count(arg->0@) <= MAX_SIZE_DIGITS && size_in_bytes(arg->0@) is Some
            ==> r == Ok::<Option<u64>, String>(
            Some(size_in_bytes(arg->0@)->0),
        ),
        arg is Some && digit_count(arg->0@) <= MAX_SIZE_DIGITS && size_in_bytes(arg->0@) is None
            ==> r is Err && r->Err_0@ == labelled(
            bad_size_text(),
            arg->0@,
        ),
{
    match arg {
        None => Ok(None),
        Some(s) => {
            let parsed = if count_digits(s.as_str()) <= MAX_SIZE_DIGITS {
                parse_size_bytes(s.as_str()).ok()
            } else {
                None
            };
            match parsed {
                Some(n) => Ok(Some(n)),
                None => {
                    let what = String::from_str("unable to parse max file size");
                    proof {
                        reveal_strlit("unable to parse max file size");
                        assert(what@ =~= bad_size_text());
                    }
                    Err(label(&what, s.as_str()))
                },
            }
        },
    }
}

} // verus!
