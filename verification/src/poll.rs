//! The executable poll state machine.
//!
//! [`PollContract`] owns the single record slot and offers the three
//! operations: `create_poll` builds a fresh all-zero tally and unconditionally
//! replaces any stored record, `vote` raises the count of one configured
//! option, and `get_results` reads the tally back. Each operation is proved
//! to follow the corresponding transition of [`crate::model`].

use vstd::prelude::*;

use crate::model::PollError;
use crate::model::PollModel;
use crate::model::create_transition;
use crate::model::first_index;
use crate::model::lemma_first_index_spec;
use crate::model::model_wf;
use crate::model::results_of;
use crate::model::results_outcome;
use crate::model::vote_fits;
use crate::model::vote_next;
use crate::model::vote_result;
use crate::model::zero_counts;

verus! {

/// The stored poll record: a question, the ordered option names fixed at
/// creation, and the tally. `votes` holds one count per entry of `options`,
/// in the same order.
pub struct Poll {
    pub question: String,
    pub options: Vec<String>,
    pub votes: Vec<u32>,
}

impl Poll {
    /// The record carries exactly one count per option entry.
    pub open spec fn wf(&self) -> bool {
        self.votes@.len() == self.options@.len()
    }
}

impl View for Poll {
    type V = PollModel;

    open spec fn view(&self) -> PollModel {
        PollModel {
            question: self.question@,
            options: self.options.deep_view(),
            counts: self.votes@,
        }
    }
}

/// The poll state machine: a single slot that is empty until `create_poll`
/// stores a record, and afterwards holds the one live record.
pub struct PollContract {
    slot: Option<Poll>,
}

impl View for PollContract {
    type V = Option<PollModel>;

    closed spec fn view(&self) -> Option<PollModel> {
        match self.slot {
            None => None,
            Some(p) => Some(p@),
        }
    }
}

/// The value an exec read reports agrees with the modelled outcome: the same
/// error, or a pair vector whose deep view is the modelled tally.
pub open spec fn results_agree(
    r: Result<Vec<(String, u32)>, PollError>,
    out: Result<Seq<(Seq<char>, u32)>, PollError>,
) -> bool {
    match (r, out) {
        (Ok(pairs), Ok(s)) => pairs.deep_view() == s,
        (Err(e1), Err(e2)) => e1 == e2,
        _ => false,
    }
}

/// First position in `options` whose text equals `needle`, scanning in order.
fn find_first(options: &Vec<String>, needle: &String) -> (r: Option<usize>)
    ensures
        match r {
            Some(i) => i < options@.len() && first_index(options.deep_view(), needle@) == i as int,
            None => first_index(options.deep_view(), needle@) == -1,
        },
{
    let n: usize = options.len();
    let mut i: usize = 0;
    while i < n
        invariant
            i <= n,
            n == options@.len(),
            forall|k: int| 0 <= k < i ==> options.deep_view()[k] != needle@,
        decreases n - i,
    {
        if options[i] == *needle {
            proof {
                lemma_first_index_spec(options.deep_view(), needle@);
                assert(options.deep_view()[i as int] == options@[i as int]@);
            }
            return Some(i);
        }
        i += 1;
    }
    proof {
        lemma_first_index_spec(options.deep_view(), needle@);
    }
    None
}

impl PollContract {
    /// The stored record, if any, is well formed.
    pub closed spec fn wf(&self) -> bool {
        match self.slot {
            None => true,
            Some(p) => p.wf(),
        }
    }

    /// A well-formed state views to a well-formed model.
    pub proof fn lemma_wf_view(&self)
        requires
            self.wf(),
        ensures
            self@ is Some ==> model_wf(self@->Some_0),
    {
    }

    /// A state machine with no record stored yet.
    pub fn new() -> (c: PollContract)
        ensures
            c.wf(),
            c@ is None,
    {
        PollContract { slot: None }
    }

    /// Builds a fresh record with every option's count at zero and stores it,
    /// unconditionally replacing any prior record. The new state depends only
    /// on the arguments: nothing of the prior record survives.
    pub fn create_poll(&mut self, question: String, options: Vec<String>)
        ensures
            final(self).wf(),
            final(self)@ == Some(create_transition(question@, options.deep_view())),
    {
        let ghost q_v: Seq<char> = question@;
        let ghost opts_v: Seq<Seq<char>> = options.deep_view();
        let n: usize = options.len();
        let mut votes: Vec<u32> = Vec::new();
        let mut i: usize = 0;
        while i < n
            invariant
                i <= n,
                votes@.len() == i as int,
                forall|k: int| 0 <= k < i ==> votes@[k] == 0u32,
            decreases n - i,
        {
            votes.push(0);
            i += 1;
        }
        proof {
            assert(votes@ =~= zero_counts(opts_v.len()));
        }
        self.slot = Some(Poll { question, options, votes });
        proof {
            assert(self@->Some_0 =~= create_transition(q_v, opts_v));
        }
    }

    /// Casts one vote: the count of the first option entry equal to `option`
    /// is raised by one and the record is stored back. Fails with
    /// `MissingRecord` when no record is stored and with `InvalidOption` when
    /// the option is not one of the poll's entries; a failed vote leaves the
    /// record unchanged. Membership is enforced: a vote for an unknown option
    /// is rejected rather than admitted as a fresh tally entry.
    pub fn vote(&mut self, option: String) -> (r: Result<(), PollError>)
        requires
            old(self).wf(),
            vote_fits(old(self)@, option@),
        ensures
            final(self).wf(),
            final(self)@ == vote_next(old(self)@, option@),
            r == vote_result(old(self)@, option@),
    {
        match &mut self.slot {
            None => Err(PollError::MissingRecord),
            Some(poll) => {
                match find_first(&poll.options, &option) {
                    None => Err(PollError::InvalidOption),
                    Some(i) => {
                        let c: u32 = poll.votes[i];
                        poll.votes[i] = c + 1;
                        proof {
                            assert(poll@ =~= vote_next(old(self)@, option@)->Some_0);
                        }
                        Ok(())
                    },
                }
            },
        }
    }

    /// Reads the tally back: one `(option, count)` pair per option entry, in
    /// creation order. Fails with `MissingRecord` when no record is stored.
    /// A pure read: `self` is not mutated.
    pub fn get_results(&self) -> (r: Result<Vec<(String, u32)>, PollError>)
        requires
            self.wf(),
        ensures
            results_agree(r, results_outcome(self@)),
    {
        match &self.slot {
            None => Err(PollError::MissingRecord),
            Some(poll) => {
                let n: usize = poll.options.len();
                let mut pairs: Vec<(String, u32)> = Vec::new();
                let mut i: usize = 0;
                while i < n
                    invariant
                        i <= n,
                        n == poll.options@.len(),
                        poll.wf(),
                        pairs@.len() == i as int,
                        forall|k: int| #![trigger pairs@[k]]
                            0 <= k < i ==> pairs@[k].0@ == poll.options@[k]@ && pairs@[k].1
                                == poll.votes@[k],
                    decreases n - i,
                {
                    let name: String = poll.options[i].clone();
                    let count: u32 = poll.votes[i];
                    pairs.push((name, count));
                    i += 1;
                }
                proof {
                    assert forall|k: int| 0 <= k < pairs@.len() implies pairs.deep_view()[k]
                        == results_of(poll@)[k] by {
                        assert(pairs.deep_view()[k] == (pairs@[k].0@, pairs@[k].1));
                    }
                    assert(pairs.deep_view() =~= results_of(poll@));
                }
                Ok(pairs)
            },
        }
    }
}

} // verus!
