use vstd::prelude::*;

verus! {

/// The parameters of one allocation benchmark: a corpus copied into every
/// inner buffer, the number of outer containers, and the number of inner
/// buffers in each.
pub struct WorkloadDescriptor {
    pub corpus: String,
    pub iterations: usize,
    pub fanout: usize,
}

impl WorkloadDescriptor {
    pub open spec fn wf(&self) -> bool {
        self.fanout >= 1
    }

    /// How many inner buffers a faithful replay of this workload produces.
    pub open spec fn spec_total_buffers(&self) -> int {
        self.iterations * self.fanout
    }

    /// The number of inner buffers that a replay produces, or `None` where it
    /// does not fit in a `usize`.
    pub fn total_buffers(&self) -> (r: Option<usize>)
        ensures
            match r {
                Some(n) => n == self.spec_total_buffers(),
                None => self.spec_total_buffers() > usize::MAX,
            },
    {
        self.iterations.checked_mul(self.fanout)
    }
}

/// Builds the descriptor of an allocation benchmark.
pub fn generate(corpus: &str, iterations: usize, fanout: usize) -> (w: WorkloadDescriptor)
    requires
        fanout >= 1,
    ensures
        w.wf(),
        w.corpus@ == corpus@,
        w.iterations == iterations,
        w.fanout == fanout,
        w.spec_total_buffers() == iterations * fanout,
{
    WorkloadDescriptor { corpus: corpus.to_owned(), iterations, fanout }
}

} // verus!
