//! The scheduler's lifecycle: when a trigger may start a run of a job, and
//! when the scheduler may release its resources.
//!
//! Each job is idle or running; a tick for a job that is still running starts
//! no second run of it. Jobs are independent of one another.

use vstd::prelude::*;

verus! {

/// The global state of the scheduler.
#[derive(Clone, Copy, Debug, PartialEq, Eq, Structural)]
pub enum Phase {
    Stopped,
    Starting,
    Running,
    Stopping,
}

/// Registration of a trigger failed at startup; the scheduler stays stopped.
#[derive(Clone, Copy, Debug, PartialEq, Eq, Structural)]
pub struct SchedulerInitError;

/// The lifecycle of a fixed set of jobs, numbered from zero.
#[derive(Debug)]
pub struct Scheduler {
    phase: Phase,
    running: Vec<bool>,
}

impl Scheduler {
    /// The global state.
    pub closed spec fn phase(&self) -> Phase {
        self.phase
    }

    /// For each job, whether a run of it is in flight.
    pub closed spec fn busy(&self) -> Seq<bool> {
        self.running@
    }

    /// A stopped scheduler of `jobs` idle jobs.
    pub fn new(jobs: usize) -> (r: Scheduler)
        ensures
            r.phase() == Phase::Stopped,
            r.busy() == Seq::new(jobs as nat, |i: int| false),
    {
        let mut running: Vec<bool> = Vec::new();
        let mut i: usize = 0;
        while i < jobs
            invariant
                i <= jobs,
                running@ == Seq::new(i as nat, |k: int| false),
            decreases jobs - i,
        {
            running.push(false);
            i += 1;
            assert(running@ =~= Seq::new(i as nat, |k: int| false));
        }
        Scheduler { phase: Phase::Stopped, running }
    }

    /// The current global state.
    pub fn current(&self) -> (r: Phase)
        ensures
            r == self.phase(),
    {
        self.phase
    }

    /// Whether a run of `job` is in flight.
    pub fn is_running(&self, job: usize) -> (r: bool)
        requires
            job < self.busy().len(),
        ensures
            r == self.busy()[job as int],
    {
        self.running[job]
    }

    /// Begins startup: a stopped scheduler starts registering its triggers;
    /// in any other state nothing changes.
    pub fn begin_start(&mut self)
        ensures
            final(self).busy() == old(self).busy(),
            old(self).phase() == Phase::Stopped ==> final(self).phase() == Phase::Starting,
            old(self).phase() != Phase::Stopped ==> final(self).phase() == old(self).phase(),
    {
        if let Phase::Stopped = self.phase {
            self.phase = Phase::Starting;
        }
    }

    /// Ends startup: with every trigger registered the scheduler runs;
    /// otherwise it is stopped again and the failure is returned.
    pub fn finish_start(&mut self, registered: bool) -> (r: Result<(), SchedulerInitError>)
        requires
            old(self).phase() == Phase::Starting,
        ensures
            final(self).busy() == old(self).busy(),
            registered ==> r is Ok && final(self).phase() == Phase::Running,
            !registered ==> r is Err && final(self).phase() == Phase::Stopped,
    {
        if registered {
            self.phase = Phase::Running;
            Ok(())
        } else {
            self.phase = Phase::Stopped;
            Err(SchedulerInitError)
        }
    }

    /// A trigger of `job` fired: a run starts only while the scheduler runs
    /// and no run of that job is in flight. Returns whether it started.
    pub fn on_tick(&mut self, job: usize) -> (r: bool)
        requires
            job < old(self).busy().len(),
        ensures
            final(self).phase() == old(self).phase(),
            r == (old(self).phase() == Phase::Running && !old(self).busy()[job as int]),
            r ==> final(self).busy() == old(self).busy().update(job as int, true),
            !r ==> final(self).busy() == old(self).busy(),
    {
        let start = match self.phase {
            Phase::Running => !self.running[job],
            _ => false,
        };
        if start {
            self.running.set(job, true);
        }
        start
    }

    /// The run of `job` ended, successfully or not: the job is idle again.
    pub fn on_finish(&mut self, job: usize)
        requires
            job < old(self).busy().len(),
        ensures
            final(self).phase() == old(self).phase(),
            final(self).busy() == old(self).busy().update(job as int, false),
    {
        self.running.set(job, false);
    }

    /// Begins shutdown: a running scheduler accepts no new ticks.
    pub fn begin_stop(&mut self)
        ensures
            final(self).busy() == old(self).busy(),
            old(self).phase() == Phase::Running ==> final(self).phase() == Phase::Stopping,
            old(self).phase() != Phase::Running ==> final(self).phase() == old(self).phase(),
    {
        if let Phase::Running = self.phase {
            self.phase = Phase::Stopping;
        }
    }

    /// Ends shutdown once no run is in flight, or once the grace period is
    /// over. Returns whether the scheduler is stopped.
    pub fn finish_stop(&mut self, grace_over: bool) -> (r: bool)
        requires
            old(self).phase() == Phase::Stopping,
        ensures
            final(self).busy() == old(self).busy(),
            r == (grace_over || forall|i: int| 0 <= i < old(self).busy().len() ==> !old(self).busy()[i]),
            r ==> final(self).phase() == Phase::Stopped,
            !r ==> final(self).phase() == Phase::Stopping,
    {
        let mut idle = true;
        let mut i: usize = 0;
        while i < self.running.len()
            invariant
                i <= self.running.len(),
                idle == forall|k: int| 0 <= k < i ==> !self.running@[k],
            decreases self.running.len() - i,
        {
            if self.running[i] {
                idle = false;
            }
            i += 1;
        }
        if grace_over || idle {
            self.phase = Phase::Stopped;
            true
        } else {
            false
        }
    }
}

} // verus!
