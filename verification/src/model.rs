//! Mathematical model of the poll state machine.
//!
//! The stored record is modelled by [`PollModel`]; the three operations are
//! modelled by the transition functions [`create_transition`], [`vote_next`]
//! with [`vote_result`], and [`results_outcome`]. The executable code in
//! [`crate::poll`] is proved to follow these transitions exactly.

use vstd::prelude::*;

verus! {

/// Why an operation on the poll failed.
///
/// `MissingRecord`: the operation needs a stored record, but `create_poll`
/// was never called. `InvalidOption`: a vote targeted an option outside the
/// set the poll was created with.
#[derive(Clone, Copy, Debug, PartialEq, Eq, Structural)]
pub enum PollError {
    MissingRecord,
    InvalidOption,
}

/// Model of the stored poll record: the question label, the ordered option
/// names, and one running count per option entry.
#[verifier::ext_equal]
pub ghost struct PollModel {
    pub question: Seq<char>,
    pub options: Seq<Seq<char>>,
    pub counts: Seq<u32>,
}

/// A model is well formed when it carries exactly one count per option entry.
pub open spec fn model_wf(m: PollModel) -> bool {
    m.counts.len() == m.options.len()
}

/// Index of the first entry of `names` equal to `needle`, or -1 when absent.
pub open spec fn first_index(names: Seq<Seq<char>>, needle: Seq<char>) -> int
    decreases names.len(),
{
    if names.len() == 0 {
        -1
    } else if names[0] == needle {
        0
    } else if first_index(names.drop_first(), needle) == -1 {
        -1
    } else {
        1 + first_index(names.drop_first(), needle)
    }
}

/// What `first_index` returns: -1 exactly when `needle` is absent, and
/// otherwise the position of its first occurrence.
pub proof fn lemma_first_index_spec(names: Seq<Seq<char>>, needle: Seq<char>)
    ensures
        first_index(names, needle) == -1 ==> forall|k: int|
            0 <= k < names.len() ==> names[k] != needle,
        first_index(names, needle) != -1 ==> {
            let i = first_index(names, needle);
            &&& 0 <= i < names.len()
            &&& names[i] == needle
            &&& forall|k: int| 0 <= k < i ==> names[k] != needle
        },
    decreases names.len(),
{
    if names.len() == 0 {
    } else if names[0] == needle {
    } else {
        let rest = names.drop_first();
        lemma_first_index_spec(rest, needle);
        assert(forall|k: int| 1 <= k < names.len() ==> names[k] == rest[k - 1]);
    }
}

/// The all-zero tally with one slot per option entry.
pub open spec fn zero_counts(n: nat) -> Seq<u32> {
    Seq::new(n, |i: int| 0u32)
}

/// The record produced by creating a poll. It is built from the new question
/// and options alone: no part of any previously stored record enters it.
pub open spec fn create_transition(question: Seq<char>, options: Seq<Seq<char>>) -> PollModel {
    PollModel { question, options, counts: zero_counts(options.len()) }
}

/// The stored state after a vote: the first matching option's count is raised
/// by one; a failed vote (no record, or an unknown option) changes nothing.
pub open spec fn vote_next(state: Option<PollModel>, choice: Seq<char>) -> Option<PollModel> {
    match state {
        None => None,
        Some(m) => {
            let i = first_index(m.options, choice);
            if i == -1 {
                Some(m)
            } else {
                Some(
                    PollModel {
                        question: m.question,
                        options: m.options,
                        counts: m.counts.update(i, (m.counts[i] + 1) as u32),
                    },
                )
            }
        },
    }
}

/// The outcome a vote reports: `Ok` exactly when a record is stored and the
/// chosen option is one of its entries.
pub open spec fn vote_result(state: Option<PollModel>, choice: Seq<char>) -> Result<
    (),
    PollError,
> {
    match state {
        None => Err(PollError::MissingRecord),
        Some(m) => if first_index(m.options, choice) == -1 {
            Err(PollError::InvalidOption)
        } else {
            Ok(())
        },
    }
}

/// Machine limit on a vote: the count it would raise must still fit in `u32`.
pub open spec fn vote_fits(state: Option<PollModel>, choice: Seq<char>) -> bool {
    match state {
        None => true,
        Some(m) => {
            let i = first_index(m.options, choice);
            i == -1 || m.counts[i] < u32::MAX
        },
    }
}

/// The tally read back from a record: each option name paired with its count,
/// in the order the options were given at creation.
pub open spec fn results_of(m: PollModel) -> Seq<(Seq<char>, u32)> {
    Seq::new(m.options.len(), |i: int| (m.options[i], m.counts[i]))
}

/// The outcome of reading results in a given state: the tally when a record
/// is stored, and `MissingRecord` when none is.
pub open spec fn results_outcome(state: Option<PollModel>) -> Result<
    Seq<(Seq<char>, u32)>,
    PollError,
> {
    match state {
        None => Err(PollError::MissingRecord),
        Some(m) => Ok(results_of(m)),
    }
}

} // verus!
