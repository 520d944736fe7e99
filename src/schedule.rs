use vstd::prelude::*;

verus! {

/// What a chain does with one transition.
#[derive(Clone, Copy, Debug, PartialEq, Eq, Structural)]
pub enum Phase {
    /// The transition runs and its state is discarded.
    BurnIn,
    /// The transition runs and its state is appended to the chain.
    Record,
}

/// `b` burn-in transitions followed by `s` recorded ones.
pub open spec fn phases(b: nat, s: nat) -> Seq<Phase> {
    Seq::new(b, |i: int| Phase::BurnIn) + Seq::new(s, |i: int| Phase::Record)
}

/// How many entries of `p` are recorded transitions.
pub open spec fn count_recorded(p: Seq<Phase>) -> nat
    decreases p.len(),
{
    if p.len() == 0 {
        0
    } else {
        count_recorded(p.drop_last()) + if p.last() == Phase::Record { 1nat } else { 0nat }
    }
}

/// The order in which one sampler run performs its transitions: all of the
/// burn-in first, then the recorded ones.
pub struct RunSchedule {
    burn_in_left: usize,
    samples_left: usize,
}

impl RunSchedule {
    /// The transitions still to come, in order.
    pub closed spec fn remaining(&self) -> Seq<Phase> {
        phases(self.burn_in_left as nat, self.samples_left as nat)
    }

    /// A run of `n_burnin` discarded transitions, then `n_samples` recorded.
    pub fn new(n_burnin: usize, n_samples: usize) -> (r: RunSchedule)
        ensures
            r.remaining() == phases(n_burnin as nat, n_samples as nat),
    {
        RunSchedule { burn_in_left: n_burnin, samples_left: n_samples }
    }

    /// The next transition of the run, and none once the run is over.
    pub fn next_phase(&mut self) -> (r: Option<Phase>)
        ensures
            old(self).remaining().len() == 0 ==> r is None && final(self).remaining() == old(
                self,
            ).remaining(),
            old(self).remaining().len() > 0 ==> r == Some(old(self).remaining()[0])
                && final(self).remaining() == old(self).remaining().drop_first(),
    {
        let ghost before = self.remaining();
        if self.burn_in_left > 0 {
            self.burn_in_left = self.burn_in_left - 1;
            assert(self.remaining() =~= before.drop_first());
            Some(Phase::BurnIn)
        } else if self.samples_left > 0 {
            self.samples_left = self.samples_left - 1;
            assert(self.remaining() =~= before.drop_first());
            Some(Phase::Record)
        } else {
            None
        }
    }

    /// How many transitions are left to perform.
    pub fn steps_left(&self) -> (r: u128)
        ensures
            r == self.remaining().len(),
    {
        self.burn_in_left as u128 + self.samples_left as u128
    }
}

/// A run with `n_samples` recorded transitions appends exactly `n_samples`
/// states to its chain, after exactly `n_burnin` discarded transitions.
pub proof fn lemma_run_records_n_samples(n_burnin: nat, n_samples: nat)
    ensures
        phases(n_burnin, n_samples).len() == n_burnin + n_samples,
        count_recorded(phases(n_burnin, n_samples)) == n_samples,
        forall|i: int|
            0 <= i < n_burnin ==> #[trigger] phases(n_burnin, n_samples)[i] == Phase::BurnIn,
    decreases n_samples,
{
    let p = phases(n_burnin, n_samples);
    if n_samples == 0 {
        lemma_burn_in_records_nothing(n_burnin);
        assert(p =~= phases(n_burnin, 0));
    } else {
        lemma_run_records_n_samples(n_burnin, (n_samples - 1) as nat);
        assert(p.drop_last() =~= phases(n_burnin, (n_samples - 1) as nat));
    }
}

/// Burn-in alone records nothing.
proof fn lemma_burn_in_records_nothing(n_burnin: nat)
    ensures
        count_recorded(phases(n_burnin, 0)) == 0,
    decreases n_burnin,
{
    if n_burnin > 0 {
        lemma_burn_in_records_nothing((n_burnin - 1) as nat);
        assert(phases(n_burnin, 0).drop_last() =~= phases((n_burnin - 1) as nat, 0));
    }
}

} // verus!
