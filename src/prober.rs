use crate::args::{Configuration, Interval};
use crate::job::{payload_of, Job};
use vstd::prelude::*;

verus! {

/// The scheduler: the tick period and one job per target, fixed at
/// construction.
///
/// On every tick each job is dispatched, whether or not its probe of an
/// earlier tick is still running: overlapping probes of one job only compete
/// for the send slot of the family's socket. What a probe returns never
/// reaches the scheduler.
pub struct Prober {
    interval: Interval,
    jobs: Vec<Job>,
}

impl View for Prober {
    type V = (Interval, Seq<(Seq<char>, Seq<u8>)>);

    closed spec fn view(&self) -> (Interval, Seq<(Seq<char>, Seq<u8>)>) {
        (self.interval, self.jobs@.map_values(|j: Job| j@))
    }
}

impl Prober {
    /// One job per target of `configuration`, in order: the job of a target
    /// keeps its address and sends the counter increment of its statsd key.
    pub fn new(configuration: Configuration) -> (r: Prober)
        ensures
            r@.0 == configuration.interval,
            r@.1.len() == configuration.targets@.len(),
            forall|i: int|
                0 <= i < r@.1.len() ==> (#[trigger] r@.1[i]).0 == configuration.targets@[i].address@
                    && r@.1[i].1 == payload_of(configuration.targets@[i].statsd_key@),
    {
        let targets = &configuration.targets;
        let mut jobs: Vec<Job> = Vec::new();
        let mut i: usize = 0;
        while i < targets.len()
            invariant
                i <= targets@.len(),
                targets@ == configuration.targets@,
                jobs@.len() == i,
                forall|j: int|
                    0 <= j < i ==> (#[trigger] jobs@[j])@.0 == targets@[j].address@ && jobs@[j]@.1
                        == payload_of(targets@[j].statsd_key@),
            decreases targets@.len() - i,
        {
            let target = &targets[i];
            jobs.push(Job::new(target.address.clone(), target.statsd_key.as_str()));
            i = i + 1;
        }
        let r = Prober { interval: configuration.interval, jobs };
        assert(r@.1.len() == jobs@.len());
        r
    }

    pub fn interval(&self) -> (r: Interval)
        ensures
            r == self@.0,
    {
        self.interval
    }

    pub fn len(&self) -> (r: usize)
        ensures
            r == self@.1.len(),
    {
        self.jobs.len()
    }

    pub fn job(&self, index: usize) -> (r: &Job)
        requires
            index < self@.1.len(),
        ensures
            r@ == self@.1[index as int],
    {
        &self.jobs[index]
    }

    /// The jobs to launch on a tick: every job, each once, in order. It
    /// depends on nothing that a probe returns, so a job that fails on every
    /// tick keeps no other job, and no later tick, from running.
    pub fn dispatch(&self) -> (r: Vec<usize>)
        ensures
            r@.len() == self@.1.len(),
            forall|i: int| 0 <= i < r@.len() ==> #[trigger] r@[i] == i,
    {
        let n = self.jobs.len();
        let mut launched: Vec<usize> = Vec::new();
        let mut i: usize = 0;
        while i < n
            invariant
                i <= n,
                n == self@.1.len(),
                launched@.len() == i,
                forall|j: int| 0 <= j < i ==> #[trigger] launched@[j] == j,
            decreases n - i,
        {
            launched.push(i);
            i = i + 1;
        }
        launched
    }
}

} // verus!
