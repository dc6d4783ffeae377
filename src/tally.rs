//! The tally of a run: each input is attempted once, failures are counted and
//! the run continues; at the end the run fails if any input failed.
use vstd::prelude::*;

verus! {

/// How many of a run's inputs were attempted and how many of those failed.
#[derive(Debug, Clone, Copy, PartialEq, Eq, Structural)]
pub struct Tally {
    pub total: usize,
    pub attempted: usize,
    pub failed: usize,
}

/// A run in which `failed` of `total` inputs could not be signed.
#[derive(Debug, Clone, Copy, PartialEq, Eq, Structural)]
pub struct RunFailure {
    pub failed: usize,
    pub total: usize,
}

impl Tally {
    pub open spec fn wf(&self) -> bool {
        self.failed <= self.attempted <= self.total
    }

    /// A tally for a run of `total` inputs, none attempted yet.
    pub fn new(total: usize) -> (r: Tally)
        ensures
            r.wf(),
            r == (Tally { total, attempted: 0, failed: 0 }),
    {
        Tally { total, attempted: 0, failed: 0 }
    }

    /// Records the outcome of the next input.
    pub fn record(&mut self, succeeded: bool)
        requires
            old(self).wf(),
            old(self).attempted < old(self).total,
        ensures
            final(self).wf(),
            final(self).total == old(self).total,
            final(self).attempted == old(self).attempted + 1,
            final(self).failed == old(self).failed + (if succeeded { 0int } else { 1int }),
    {
        self.attempted = self.attempted + 1;
        if !succeeded {
            self.failed = self.failed + 1;
        }
    }

    /// The verdict of a run whose inputs were all attempted: success where nothing failed, else the count of
    /// failures out of all inputs.
    pub fn finish(&self) -> (r: Result<(), RunFailure>)
        requires
            self.wf(),
            self.attempted == self.total,
        ensures
            self.failed == 0 ==> r is Ok,
            self.failed > 0 ==> r == Err::<(), RunFailure>(RunFailure { failed: self.failed, total: self.total }),
    {
        if self.failed == 0 {
            Ok(())
        } else {
            Err(RunFailure { failed: self.failed, total: self.total })
        }
    }
}

/// How many of the outcomes are failures.
pub open spec fn failures(outcomes: Seq<bool>) -> nat
    decreases outcomes.len(),
{
    if outcomes.len() == 0 {
        0
    } else {
        failures(outcomes.drop_last()) + (if outcomes.last() { 0nat } else { 1nat })
    }
}

/// The tally of a run whose inputs had these outcomes, in order: a failure
/// stops nothing, every input is attempted and every failure is counted.
pub fn tally_of(outcomes: &Vec<bool>) -> (r: Tally)
    ensures
        r.wf(),
        r.total == outcomes@.len(),
        r.attempted == r.total,
        r.failed == failures(outcomes@),
{
    let mut t = Tally::new(outcomes.len());
    let mut i: usize = 0;
    while i < outcomes.len()
        invariant
            i <= outcomes@.len(),
            t.wf(),
            t.total == outcomes@.len(),
            t.attempted == i,
            t.failed == failures(outcomes@.subrange(0, i as int)),
        decreases outcomes@.len() - i,
    {
        assert(outcomes@.subrange(0, i + 1).drop_last() == outcomes@.subrange(0, i as int));
        t.record(outcomes[i]);
        i = i + 1;
    }
    assert(outcomes@.subrange(0, outcomes@.len() as int) == outcomes@);
    t
}

/// A run fails exactly when one of its inputs failed, and then reports the
/// number of failures out of all inputs.
pub proof fn lemma_run_verdict(outcomes: Seq<bool>, t: Tally)
    requires
        t.wf(),
        t.total == outcomes.len(),
        t.failed == failures(outcomes),
    ensures
        (t.failed == 0) <==> (forall|i: int| 0 <= i < outcomes.len() ==> #[trigger] outcomes[i]),
{
    lemma_failures_all(outcomes);
}

proof fn lemma_failures_all(outcomes: Seq<bool>)
    ensures
        (failures(outcomes) == 0) <==> (forall|i: int| 0 <= i < outcomes.len() ==> #[trigger] outcomes[i]),
    decreases outcomes.len(),
{
    if outcomes.len() > 0 {
        let init = outcomes.drop_last();
        lemma_failures_all(init);
        if failures(outcomes) == 0 {
            assert forall|i: int| 0 <= i < outcomes.len() implies #[trigger] outcomes[i] by {
                if i < outcomes.len() - 1 {
                    assert(init[i] == outcomes[i]);
                }
            }
        }
        if forall|i: int| 0 <= i < outcomes.len() ==> #[trigger] outcomes[i] {
            assert forall|i: int| 0 <= i < init.len() implies #[trigger] init[i] by {
                assert(outcomes[i] == init[i]);
            }
            assert(outcomes[outcomes.len() - 1]);
        }
    }
}

} // verus!
