//! Batch dispatch bookkeeping and first-failure-wins aggregation.
//!
//! One batch fans out one concurrent runner per job; each runner reports a
//! single outcome. The aggregator accumulates successful (name, text) pairs
//! and latches the first failure it is handed: once a failure is recorded it
//! is never overwritten, later successes are still recorded but discarded
//! from the final result, and the batch's result is either that one failure
//! or the full success mapping.

use vstd::prelude::*;

verus! {

/// What one job's runner reports back to the dispatcher.
pub enum JobOutcome {
    /// The job's display name and its transcribed text.
    Success { name: String, text: String },
    /// The job's display name and a human-readable cause.
    Failure { name: String, cause: String },
}

/// The aggregate over one batch: either the full mapping from display name
/// to transcribed text, or the first recorded failure.
pub enum BatchResult {
    Success { entries: Vec<(String, String)> },
    Failure { name: String, cause: String },
}

/// The (name, text) views of a sequence of string pairs.
pub open spec fn entries_view(v: Seq<(String, String)>) -> Seq<(Seq<char>, Seq<char>)> {
    v.map_values(|p: (String, String)| (p.0@, p.1@))
}

/// The first failure among the outcomes, in the order they were recorded.
pub open spec fn first_failure(s: Seq<JobOutcome>) -> Option<JobOutcome>
    decreases s.len(),
{
    if s.len() == 0 {
        None
    } else {
        match first_failure(s.drop_last()) {
            Some(f) => Some(f),
            None => if s.last() is Failure {
                Some(s.last())
            } else {
                None
            },
        }
    }
}

/// The (name, text) views of the successful outcomes, in recording order.
pub open spec fn success_entries(s: Seq<JobOutcome>) -> Seq<(Seq<char>, Seq<char>)>
    decreases s.len(),
{
    if s.len() == 0 {
        Seq::empty()
    } else {
        success_entries(s.drop_last()) + (match s.last() {
            JobOutcome::Success { name, text } => seq![(name@, text@)],
            JobOutcome::Failure { .. } => Seq::<(Seq<char>, Seq<char>)>::empty(),
        })
    }
}

/// Accumulates one batch's outcomes: successful pairs in recording order,
/// and a record-once failure latch.
pub struct ResultAggregator {
    entries: Vec<(String, String)>,
    failure: Option<(String, String)>,
}

impl ResultAggregator {
    /// The (name, text) views of the successes recorded so far.
    pub closed spec fn successes(&self) -> Seq<(Seq<char>, Seq<char>)> {
        entries_view(self.entries@)
    }

    /// The (name, cause) views of the latched failure, if one was recorded.
    pub closed spec fn latched(&self) -> Option<(Seq<char>, Seq<char>)> {
        match self.failure {
            None => None,
            Some(p) => Some((p.0@, p.1@)),
        }
    }

    /// An empty aggregator: no successes, no failure latched.
    pub fn new() -> (r: Self)
        ensures
            r.successes() == Seq::<(Seq<char>, Seq<char>)>::empty(),
            r.latched() is None,
    {
        let r = ResultAggregator { entries: Vec::new(), failure: None };
        proof {
            assert(r.successes() =~= Seq::<(Seq<char>, Seq<char>)>::empty());
        }
        r
    }

    /// Records one outcome: a success is appended to the success pairs, a
    /// failure is latched only if no failure is latched yet — the first
    /// recorded failure wins and is never overwritten.
    pub fn record(&mut self, outcome: JobOutcome)
        ensures
            match outcome {
                JobOutcome::Success { name, text } => final(self).successes() == old(
                    self,
                ).successes().push((name@, text@)) && final(self).latched() == old(self).latched(),
                JobOutcome::Failure { name, cause } => final(self).successes() == old(
                    self,
                ).successes() && final(self).latched() == (if old(self).latched() is Some {
                    old(self).latched()
                } else {
                    Some((name@, cause@))
                }),
            },
    {
        match outcome {
            JobOutcome::Success { name, text } => {
                self.entries.push((name, text));
                proof {
                    assert(self.successes() =~= old(self).successes().push(
                        (outcome->Success_name@, outcome->Success_text@),
                    ));
                }
            },
            JobOutcome::Failure { name, cause } => {
                if self.failure.is_none() {
                    self.failure = Some((name, cause));
                }
            },
        }
    }

    /// Closes the batch: the latched failure if one was recorded, else the
    /// full success mapping.
    pub fn finish(self) -> (r: BatchResult)
        ensures
            self.latched() is Some ==> (r matches BatchResult::Failure { name, cause } && (name@,
            cause@) == self.latched()->0),
            self.latched() is None ==> (r matches BatchResult::Success { entries }
                && entries_view(entries@) == self.successes()),
    {
        match self.failure {
            Some(p) => BatchResult::Failure { name: p.0, cause: p.1 },
            None => BatchResult::Success { entries: self.entries },
        }
    }
}

/// Aggregates a whole batch's outcomes, in the order they were recorded,
/// under first-failure-wins: if any outcome failed, the result is the first
/// such failure and no success mapping; if every outcome succeeded — in
/// particular for an empty batch — the result is the full (name, text)
/// mapping, one entry per successful outcome, in order.
pub fn aggregate_outcomes(outcomes: Vec<JobOutcome>) -> (r: BatchResult)
    ensures
        first_failure(outcomes@) matches Some(f) ==> (r matches BatchResult::Failure {
            name,
            cause,
        } && name@ == f->Failure_name@ && cause@ == f->Failure_cause@),
        first_failure(outcomes@) is None ==> (r matches BatchResult::Success { entries }
            && entries_view(entries@) == success_entries(outcomes@)),
        outcomes@.len() == 0 ==> (r matches BatchResult::Success { entries } && entries@.len()
            == 0),
{
    let ghost all = outcomes@;
    let mut rest = outcomes;
    let mut agg = ResultAggregator::new();
    proof {
        assert(all.take(0) =~= Seq::<JobOutcome>::empty());
    }
    while rest.len() > 0
        invariant
            rest@.len() <= all.len(),
            rest@ == all.skip(all.len() - rest@.len()),
            agg.successes() == success_entries(all.take(all.len() - rest@.len())),
            agg.latched() == (match first_failure(all.take(all.len() - rest@.len())) {
                None => None::<(Seq<char>, Seq<char>)>,
                Some(f) => Some((f->Failure_name@, f->Failure_cause@)),
            }),
        decreases rest@.len(),
    {
        let ghost done = all.len() - rest@.len();
        let outcome = rest.remove(0);
        proof {
            assert(all.take(done + 1).drop_last() =~= all.take(done));
            assert(all.take(done + 1).last() == all[done]);
            assert(outcome == all[done]);
            assert(rest@ =~= all.skip(all.len() - rest@.len()));
        }
        agg.record(outcome);
    }
    proof {
        assert(all.take(all.len() as int) =~= all);
    }
    agg.finish()
}

/// First-failure-wins determinism under a single failure: a batch holding
/// exactly one failing outcome yields that outcome as its first failure, so
/// the batch's result identifies that job and carries no success mapping.
pub proof fn lemma_single_failure(s: Seq<JobOutcome>, i: int)
    requires
        0 <= i < s.len(),
        s[i] is Failure,
        forall|j: int| 0 <= j < s.len() && j != i ==> s[j] is Success,
    ensures
        first_failure(s) == Some(s[i]),
    decreases s.len(),
{
    if i == s.len() - 1 {
        lemma_full_success(s.drop_last());
    } else {
        lemma_single_failure(s.drop_last(), i);
    }
}

/// Full success: a batch whose outcomes all succeed latches no failure, and
/// its success mapping has exactly one entry per outcome, in order, carrying
/// each job's name and text.
pub proof fn lemma_full_success(s: Seq<JobOutcome>)
    requires
        forall|j: int| 0 <= j < s.len() ==> s[j] is Success,
    ensures
        first_failure(s) is None,
        success_entries(s).len() == s.len(),
        forall|j: int|
            0 <= j < s.len() ==> success_entries(s)[j] == (s[j]->Success_name@,
            s[j]->Success_text@),
    decreases s.len(),
{
    if s.len() > 0 {
        lemma_full_success(s.drop_last());
    }
}

} // verus!
