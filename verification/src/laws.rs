//! General laws of the poll state machine, proved over the model in
//! [`crate::model`]. The executable operations in [`crate::poll`] are each
//! proved to follow those transitions exactly, so every law here carries over
//! to the executable code.

use vstd::prelude::*;

use crate::model::PollError;
use crate::model::PollModel;
use crate::model::create_transition;
use crate::model::first_index;
use crate::model::lemma_first_index_spec;
use crate::model::model_wf;
use crate::model::results_outcome;
use crate::model::vote_fits;
use crate::model::vote_next;
use crate::model::vote_result;

verus! {

/// Initialization: a freshly created poll keeps the question and options it
/// was given, is well formed, and tallies every option at zero.
pub proof fn lemma_create_initializes(question: Seq<char>, options: Seq<Seq<char>>)
    ensures
        model_wf(create_transition(question, options)),
        create_transition(question, options).question == question,
        create_transition(question, options).options == options,
        forall|i: int|
            0 <= i < options.len() ==> create_transition(question, options).counts[i] == 0u32,
{
}

/// Reset on recreate: whatever record was stored before, the state after a
/// create is built from the new question and options alone, and reading it
/// shows every option paired with zero — prior tallies are fully discarded.
pub proof fn lemma_create_resets(
    prior: Option<PollModel>,
    question: Seq<char>,
    options: Seq<Seq<char>>,
)
    ensures
        results_outcome(Some(create_transition(question, options))) is Ok,
        results_outcome(Some(create_transition(question, options)))->Ok_0.len() == options.len(),
        forall|i: int|
            0 <= i < options.len() ==> results_outcome(
                Some(create_transition(question, options)),
            )->Ok_0[i] == (options[i], 0u32),
{
}

/// Increment: a vote for a configured option succeeds and raises exactly the
/// count of that option's first entry by one; the question, the options, and
/// every other count stay as they were.
pub proof fn lemma_vote_increments(m: PollModel, choice: Seq<char>)
    requires
        model_wf(m),
        m.options.contains(choice),
        vote_fits(Some(m), choice),
    ensures
        vote_result(Some(m), choice) == Ok::<(), PollError>(()),
        vote_next(Some(m), choice) is Some,
        ({
            let i = first_index(m.options, choice);
            let m2 = vote_next(Some(m), choice)->Some_0;
            &&& model_wf(m2)
            &&& m2.question == m.question
            &&& m2.options == m.options
            &&& 0 <= i < m.options.len()
            &&& m.options[i] == choice
            &&& m2.counts[i] == m.counts[i] + 1
            &&& forall|j: int| 0 <= j < m.counts.len() && j != i ==> m2.counts[j] == m.counts[j]
        }),
{
    lemma_first_index_spec(m.options, choice);
}

/// Missing record: with no record stored, voting and reading both fail with
/// `MissingRecord`, and voting stores nothing.
pub proof fn lemma_missing_record(choice: Seq<char>)
    ensures
        vote_result(None, choice) == Err::<(), PollError>(PollError::MissingRecord),
        vote_next(None, choice) == None::<PollModel>,
        results_outcome(None) == Err::<Seq<(Seq<char>, u32)>, PollError>(PollError::MissingRecord),
{
}

/// Membership: a vote for an option outside the configured set fails with
/// `InvalidOption` and leaves the record exactly as it was.
pub proof fn lemma_vote_invalid_option(m: PollModel, choice: Seq<char>)
    requires
        !m.options.contains(choice),
    ensures
        vote_result(Some(m), choice) == Err::<(), PollError>(PollError::InvalidOption),
        vote_next(Some(m), choice) == Some(m),
{
    lemma_first_index_spec(m.options, choice);
}

/// Monotonicity: a vote never lowers any count, and never adds or removes a
/// tally slot; counts only grow until a create resets them.
pub proof fn lemma_vote_monotonic(m: PollModel, choice: Seq<char>)
    requires
        model_wf(m),
        vote_fits(Some(m), choice),
    ensures
        vote_next(Some(m), choice) is Some,
        ({
            let m2 = vote_next(Some(m), choice)->Some_0;
            &&& m2.counts.len() == m.counts.len()
            &&& forall|j: int| 0 <= j < m.counts.len() ==> m2.counts[j] >= m.counts[j]
        }),
{
    lemma_first_index_spec(m.options, choice);
}

/// Idempotent reads: reading results is pure — the outcome is a function of
/// the stored state alone, so two reads with no intervening mutation return
/// equal values.
pub proof fn lemma_results_idempotent(s1: Option<PollModel>, s2: Option<PollModel>)
    requires
        s1 == s2,
    ensures
        results_outcome(s1) == results_outcome(s2),
{
}

} // verus!
