use vstd::prelude::*;

verus! {

/// A message on the queue that the workers of a pool share.
#[derive(Clone, Copy, Debug, PartialEq, Eq, Structural)]
pub enum Message {
    /// Run the job with this ticket.
    NewJob(usize),
    /// Stop after the current job.
    Terminate,
}

/// What a worker that asks the queue for work is told.
#[derive(Clone, Copy, Debug, PartialEq, Eq, Structural)]
pub enum Dispatch {
    /// Run the job with this ticket, then ask again.
    Run(usize),
    /// Exit.
    Stop,
    /// Nothing is queued yet: wait and ask again.
    Wait,
}

/// Why a pool cannot be made.
#[derive(Clone, Copy, Debug, PartialEq, Eq, Structural)]
pub enum PoolError {
    /// A pool needs at least one worker.
    NoWorkers,
}

/// The shared queue of a pool of `workers` workers: jobs are queued in the
/// order of submission, each handed to exactly one worker; on shutdown each
/// worker gets one stop message behind every queued job.
pub struct JobQueue {
    workers: usize,
    messages: Vec<Message>,
    head: usize,
    submitted: usize,
    closed: bool,
    stopped: usize,
}

impl JobQueue {
    /// The number of workers of the pool.
    pub closed spec fn spec_workers(&self) -> nat {
        self.workers as nat
    }

    /// The number of jobs submitted.
    pub closed spec fn spec_submitted(&self) -> nat {
        self.submitted as nat
    }

    /// The number of jobs handed to a worker.
    pub closed spec fn spec_dispatched(&self) -> nat {
        if self.head <= self.submitted {
            self.head as nat
        } else {
            self.submitted as nat
        }
    }

    /// The number of workers that were told to stop.
    pub closed spec fn spec_stopped(&self) -> nat {
        self.stopped as nat
    }

    /// Whether the pool was shut down.
    pub closed spec fn spec_closed(&self) -> bool {
        self.closed
    }

    /// The queue's invariant: jobs first, ticketed by position, then, once
    /// shut down, one stop message per worker; a worker stops only on a stop
    /// message.
    pub closed spec fn wf(&self) -> bool {
        &&& self.workers >= 1
        &&& self.head <= self.messages@.len()
        &&& self.submitted <= self.messages@.len()
        &&& forall|i: int| 0 <= i < self.submitted ==> self.messages@[i] == Message::NewJob(i as usize)
        &&& forall|i: int|
            self.submitted <= i < self.messages@.len() ==> self.messages@[i] == Message::Terminate
        &&& self.messages@.len() == if self.closed {
            self.submitted + self.workers
        } else {
            self.submitted as int
        }
        &&& self.stopped == if self.head <= self.submitted {
            0
        } else {
            self.head - self.submitted
        }
    }

    /// The queue of a pool of `size` workers.
    pub fn new(size: usize) -> (r: Result<JobQueue, PoolError>)
        ensures
            size == 0 ==> r == Err::<JobQueue, PoolError>(PoolError::NoWorkers),
            size > 0 ==> (r matches Ok(q) && q.wf() && q.spec_workers() == size
                && q.spec_submitted() == 0 && q.spec_dispatched() == 0 && q.spec_stopped() == 0
                && !q.spec_closed()),
    {
        if size == 0 {
            return Err(PoolError::NoWorkers);
        }
        Ok(JobQueue { workers: size, messages: Vec::new(), head: 0, submitted: 0, closed: false, stopped: 0 })
    }

    /// The number of workers of the pool.
    pub fn workers(&self) -> (r: usize)
        ensures
            r == self.spec_workers(),
    {
        self.workers
    }

    /// Whether every worker was told to stop.
    pub fn all_stopped(&self) -> (r: bool)
        requires
            self.wf(),
        ensures
            r == (self.spec_stopped() == self.spec_workers()),
    {
        self.stopped == self.workers
    }

    /// Queues a job and gives its ticket: the number of jobs submitted before
    /// it. A pool that was shut down takes no more jobs.
    pub fn submit(&mut self) -> (r: Option<usize>)
        requires
            old(self).wf(),
        ensures
            final(self).wf(),
            final(self).spec_workers() == old(self).spec_workers(),
            final(self).spec_closed() == old(self).spec_closed(),
            final(self).spec_dispatched() == old(self).spec_dispatched(),
            final(self).spec_stopped() == old(self).spec_stopped(),
            old(self).spec_closed() ==> r is None && final(self).spec_submitted()
                == old(self).spec_submitted(),
            !old(self).spec_closed() ==> r == Some(old(self).spec_submitted() as usize)
                && final(self).spec_submitted() == old(self).spec_submitted() + 1,
    {
        if self.closed {
            return None;
        }
        let ticket = self.submitted;
        self.messages.push(Message::NewJob(ticket));
        self.submitted = self.messages.len();
        Some(ticket)
    }

    /// Shuts the pool down: queues one stop message per worker, behind every
    /// queued job.
    pub fn shutdown(&mut self)
        requires
            old(self).wf(),
        ensures
            final(self).wf(),
            final(self).spec_closed(),
            final(self).spec_workers() == old(self).spec_workers(),
            final(self).spec_submitted() == old(self).spec_submitted(),
            final(self).spec_dispatched() == old(self).spec_dispatched(),
            final(self).spec_stopped() == old(self).spec_stopped(),
    {
        if self.closed {
            return;
        }
        let mut i: usize = 0;
        while i < self.workers
            invariant
                i <= self.workers,
                !self.closed,
                self.workers == old(self).workers,
                self.head == old(self).head,
                self.submitted == old(self).submitted,
                self.stopped == old(self).stopped,
                old(self).wf(),
                self.messages@.len() == self.submitted + i,
                self.messages@.subrange(0, self.submitted as int) == old(self).messages@,
                forall|j: int|
                    self.submitted <= j < self.messages@.len() ==> self.messages@[j]
                        == Message::Terminate,
            decreases self.workers - i,
        {
            self.messages.push(Message::Terminate);
            proof {
                assert(self.messages@.subrange(0, self.submitted as int) =~= old(self).messages@.subrange(
                    0,
                    self.submitted as int,
                ).subrange(0, self.submitted as int));
            }
            i = i + 1;
        }
        proof {
            assert forall|j: int| 0 <= j < self.submitted implies self.messages@[j] == Message::NewJob(
                j as usize,
            ) by {
                assert(self.messages@[j] == self.messages@.subrange(0, self.submitted as int)[j]);
            }
        }
        self.closed = true;
    }

    /// A worker asks for work: the oldest message that no worker took.
    pub fn take(&mut self) -> (r: Dispatch)
        requires
            old(self).wf(),
        ensures
            final(self).wf(),
            final(self).spec_workers() == old(self).spec_workers(),
            final(self).spec_closed() == old(self).spec_closed(),
            final(self).spec_submitted() == old(self).spec_submitted(),
            r matches Dispatch::Run(t) ==> t == old(self).spec_dispatched()
                && final(self).spec_dispatched() == old(self).spec_dispatched() + 1
                && final(self).spec_stopped() == old(self).spec_stopped(),
            r == Dispatch::Stop ==> old(self).spec_closed() && old(self).spec_dispatched()
                == old(self).spec_submitted() && old(self).spec_stopped() < old(self).spec_workers()
                && final(self).spec_dispatched() == old(self).spec_dispatched()
                && final(self).spec_stopped() == old(self).spec_stopped() + 1,
            r == Dispatch::Wait ==> *final(self) == *old(self) && old(self).spec_dispatched()
                == old(self).spec_submitted() && (!old(self).spec_closed()
                || old(self).spec_stopped() == old(self).spec_workers()),
            old(self).spec_dispatched() < old(self).spec_submitted() ==> r is Run,
            old(self).spec_closed() && old(self).spec_dispatched() == old(self).spec_submitted()
                && old(self).spec_stopped() < old(self).spec_workers() ==> r == Dispatch::Stop,
    {
        if self.head >= self.messages.len() {
            return Dispatch::Wait;
        }
        let m = self.messages[self.head];
        self.head = self.head + 1;
        match m {
            Message::NewJob(t) => Dispatch::Run(t),
            Message::Terminate => {
                self.stopped = self.stopped + 1;
                Dispatch::Stop
            },
        }
    }
}

/// A pool drains fully: once shut down, it tells its last worker to stop only
/// after every submitted job was handed out, each once, whatever the number of
/// jobs and workers.
pub proof fn law_pool_drains(q: JobQueue)
    requires
        q.wf(),
        q.spec_stopped() > 0,
    ensures
        q.spec_closed(),
        q.spec_dispatched() == q.spec_submitted(),
{
}

} // verus!
