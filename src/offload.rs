use crate::cache::{CacheStatus, FetchError};
use crate::cacher::ComputeOutcome;
use vstd::prelude::*;

verus! {

/// How long a symcache conversion may run before it is abandoned: twenty minutes.
pub const SYMCACHE_TIMEOUT_SECS: u64 = 1200;

/// What happens to a job handed to the worker pool.
#[derive(Clone, Copy, Debug, PartialEq, Eq, Structural)]
pub enum Submission {
    /// A worker is free: the job runs now.
    Run,
    /// Every worker is busy: the job waits its turn.
    Queue,
    /// The pool is shutting down (or its queue cannot count one more job).
    Reject,
}

/// How a job handed to the worker pool came back.
#[derive(Clone, Copy, Debug, PartialEq, Eq, Structural)]
pub enum JobEvent {
    /// The job returned this status after running for this many seconds.
    Done(CacheStatus, u64),
    /// The job returned an error of the infrastructure.
    Errored(FetchError),
    /// The ceiling passed before the job returned.
    Deadline,
    /// The pool dropped the job before it returned.
    Dropped,
}

/// The bounded worker pool that runs blocking conversions: at most `capacity` jobs
/// run at once, the others queue.
pub struct ThreadPool {
    capacity: u64,
    running: u64,
    queued: u64,
    shutting_down: bool,
}

impl ThreadPool {
    pub closed spec fn capacity_spec(&self) -> u64 {
        self.capacity
    }

    pub closed spec fn running_spec(&self) -> u64 {
        self.running
    }

    pub closed spec fn queued_spec(&self) -> u64 {
        self.queued
    }

    pub closed spec fn shutting_down_spec(&self) -> bool {
        self.shutting_down
    }

    /// No more jobs run than there are workers, and jobs queue only while every
    /// worker is busy.
    pub closed spec fn wf(&self) -> bool {
        &&& self.capacity > 0
        &&& self.running <= self.capacity
        &&& self.queued > 0 ==> self.running == self.capacity
    }

    /// A pool of `capacity` workers (at least one), all idle.
    pub fn new(capacity: u64) -> (r: ThreadPool)
        ensures
            r.wf(),
            r.capacity_spec() == if capacity == 0 { 1 } else { capacity },
            r.running_spec() == 0,
            r.queued_spec() == 0,
            !r.shutting_down_spec(),
    {
        ThreadPool {
            capacity: if capacity == 0 { 1 } else { capacity },
            running: 0,
            queued: 0,
            shutting_down: false,
        }
    }

    pub fn capacity(&self) -> (r: u64)
        ensures
            r == self.capacity_spec(),
    {
        self.capacity
    }

    pub fn running(&self) -> (r: u64)
        ensures
            r == self.running_spec(),
    {
        self.running
    }

    pub fn queued(&self) -> (r: u64)
        ensures
            r == self.queued_spec(),
    {
        self.queued
    }

    /// Hands a job to the pool: it runs at once on a free worker, queues while all
    /// are busy, and is refused once the pool is shutting down.
    pub fn submit(&mut self) -> (r: Submission)
        requires
            old(self).wf(),
        ensures
            final(self).wf(),
            final(self).capacity_spec() == old(self).capacity_spec(),
            final(self).shutting_down_spec() == old(self).shutting_down_spec(),
            old(self).shutting_down_spec() ==> r == Submission::Reject && *final(self) == *old(self),
            !old(self).shutting_down_spec() && old(self).running_spec() < old(self).capacity_spec()
                ==> r == Submission::Run && final(self).running_spec() == old(self).running_spec() + 1
                && final(self).queued_spec() == old(self).queued_spec(),
            !old(self).shutting_down_spec() && old(self).running_spec() == old(self).capacity_spec()
                && old(self).queued_spec() < u64::MAX ==> r == Submission::Queue
                && final(self).running_spec() == old(self).running_spec()
                && final(self).queued_spec() == old(self).queued_spec() + 1,
            !old(self).shutting_down_spec() && old(self).running_spec() == old(self).capacity_spec()
                && old(self).queued_spec() == u64::MAX ==> r == Submission::Reject && *final(self) == *old(self),
    {
        if self.shutting_down {
            Submission::Reject
        } else if self.running < self.capacity {
            self.running = self.running + 1;
            Submission::Run
        } else if self.queued < u64::MAX {
            self.queued = self.queued + 1;
            Submission::Queue
        } else {
            Submission::Reject
        }
    }

    /// A running job ended (or was dropped). Returns whether a queued job takes the
    /// freed worker.
    pub fn release(&mut self) -> (r: bool)
        requires
            old(self).wf(),
            old(self).running_spec() > 0,
        ensures
            final(self).wf(),
            final(self).capacity_spec() == old(self).capacity_spec(),
            final(self).shutting_down_spec() == old(self).shutting_down_spec(),
            r == (old(self).queued_spec() > 0),
            r ==> final(self).running_spec() == old(self).running_spec()
                && final(self).queued_spec() == old(self).queued_spec() - 1,
            !r ==> final(self).running_spec() == old(self).running_spec() - 1
                && final(self).queued_spec() == 0,
    {
        if self.queued > 0 {
            self.queued = self.queued - 1;
            true
        } else {
            self.running = self.running - 1;
            false
        }
    }

    /// Stops the pool from taking new jobs; those already handed over go on.
    pub fn shut_down(&mut self)
        requires
            old(self).wf(),
        ensures
            final(self).wf(),
            final(self).shutting_down_spec(),
            final(self).capacity_spec() == old(self).capacity_spec(),
            final(self).running_spec() == old(self).running_spec(),
            final(self).queued_spec() == old(self).queued_spec(),
    {
        self.shutting_down = true;
    }
}

pub open spec fn job_outcome_spec(event: JobEvent, ceiling_secs: u64) -> ComputeOutcome {
    match event {
        JobEvent::Done(status, elapsed) => if elapsed > ceiling_secs {
            ComputeOutcome::Failed(FetchError::Timeout)
        } else {
            ComputeOutcome::Finished(status)
        },
        JobEvent::Errored(e) => ComputeOutcome::Failed(e),
        JobEvent::Deadline => ComputeOutcome::Failed(FetchError::Timeout),
        JobEvent::Dropped => ComputeOutcome::Failed(FetchError::Canceled),
    }
}

/// What a job's return amounts to under a ceiling: a status that came back in time
/// stands; one that came back late, or none before the deadline, is a timeout; a job
/// dropped by the pool is a cancellation. Only a status that stands is persisted.
pub fn job_outcome(event: JobEvent, ceiling_secs: u64) -> (r: ComputeOutcome)
    ensures
        r == job_outcome_spec(event, ceiling_secs),
{
    match event {
        JobEvent::Done(status, elapsed) => {
            if elapsed > ceiling_secs {
                ComputeOutcome::Failed(FetchError::Timeout)
            } else {
                ComputeOutcome::Finished(status)
            }
        },
        JobEvent::Errored(e) => ComputeOutcome::Failed(e),
        JobEvent::Deadline => ComputeOutcome::Failed(FetchError::Timeout),
        JobEvent::Dropped => ComputeOutcome::Failed(FetchError::Canceled),
    }
}

} // verus!
