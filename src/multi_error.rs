//! A run's report: every per-repository error, not only the first.

use vstd::prelude::*;
use vstd::string::*;
use crate::sync::Outcome;

verus! {

/// The error messages of the failed outcomes among `outs`, in order.
pub open spec fn failed_messages(outs: Seq<Outcome>) -> Seq<Seq<char>>
    decreases outs.len(),
{
    if outs.len() == 0 {
        Seq::empty()
    } else {
        let prev = failed_messages(outs.drop_last());
        match outs.last() {
            Outcome::Failed(m) => prev.push(m@),
            _ => prev,
        }
    }
}

/// The messages joined into lines, one per message.
pub open spec fn joined_lines(msgs: Seq<Seq<char>>) -> Seq<char>
    decreases msgs.len(),
{
    if msgs.len() == 0 {
        Seq::empty()
    } else if msgs.len() == 1 {
        msgs[0]
    } else {
        joined_lines(msgs.drop_last()) + seq!['\n'] + msgs.last()
    }
}

/// Wraps a list of errors.
#[derive(Debug, Clone)]
pub struct MultiError {
    errors: Vec<String>,
}

impl View for MultiError {
    type V = Seq<Seq<char>>;

    closed spec fn view(&self) -> Seq<Seq<char>> {
        self.errors@.map_values(|e: String| e@)
    }
}

impl MultiError {
    /// A report holding the given messages.
    pub fn from_errors(errors: Vec<String>) -> (r: MultiError)
        ensures
            r@ == errors@.map_values(|e: String| e@),
    {
        MultiError { errors }
    }

    /// The report of a run: the message of each failed outcome, in order.
    pub fn from_outcomes(outs: &Vec<Outcome>) -> (r: MultiError)
        ensures
            r@ == failed_messages(outs@),
    {
        let mut errors: Vec<String> = Vec::new();
        let mut i: usize = 0;
        while i < outs.len()
            invariant
                i <= outs@.len(),
                errors@.map_values(|e: String| e@) == failed_messages(outs@.take(i as int)),
            decreases outs@.len() - i,
        {
            proof {
                assert(outs@.take(i as int + 1).drop_last() =~= outs@.take(i as int));
            }
            match &outs[i] {
                Outcome::Failed(m) => {
                    errors.push(m.clone());
                    proof {
                        assert(errors@.map_values(|e: String| e@) =~= failed_messages(
                            outs@.take(i as int + 1),
                        ));
                    }
                },
                _ => {},
            }
            i = i + 1;
        }
        proof {
            assert(outs@.take(outs@.len() as int) =~= outs@);
        }
        MultiError { errors }
    }

    /// Whether the report holds no error.
    pub fn is_empty(&self) -> (r: bool)
        ensures
            r == (self@.len() == 0),
    {
        self.errors.len() == 0
    }

    /// The number of errors in the report.
    pub fn len(&self) -> (r: usize)
        ensures
            r == self@.len(),
    {
        self.errors.len()
    }

    /// The messages, one per error.
    pub fn errors(&self) -> (r: &Vec<String>)
        ensures
            r@.map_values(|e: String| e@) == self@,
    {
        &self.errors
    }

    /// The report as text: one line per error.
    pub fn message(&self) -> (r: String)
        ensures
            r@ == joined_lines(self@),
    {
        let mut r = String::new();
        let mut i: usize = 0;
        while i < self.errors.len()
            invariant
                i <= self.errors@.len(),
                r@ == joined_lines(self@.take(i as int)),
            decreases self.errors@.len() - i,
        {
            proof {
                assert(self@.take(i as int + 1).drop_last() =~= self@.take(i as int));
            }
            if i > 0 {
                r.append("\n");
                proof {
                    reveal_strlit("\n");
                }
            }
            r.append(self.errors[i].as_str());
            proof {
                assert(r@ =~= joined_lines(self@.take(i as int + 1)));
            }
            i = i + 1;
        }
        proof {
            assert(self@.take(self@.len() as int) =~= self@);
        }
        r
    }
}

} // verus!
