use std::collections::VecDeque;
use vstd::prelude::*;

verus! {

/// How many jobs each channel's queue holds.
pub const QUEUE_CAPACITY: usize = 100;

/// One text message to send.
#[derive(Debug, Clone)]
pub struct SmsJob {
    pub to: String,
    pub body: String,
}

/// One email to send.
#[derive(Debug)]
pub struct EmailJob {
    pub to: String,
    pub subject: String,
    pub body: String,
}

pub struct SmsJobView {
    pub to: Seq<char>,
    pub body: Seq<char>,
}

impl View for SmsJob {
    type V = SmsJobView;

    open spec fn view(&self) -> SmsJobView {
        SmsJobView { to: self.to@, body: self.body@ }
    }
}

pub struct EmailJobView {
    pub to: Seq<char>,
    pub subject: Seq<char>,
    pub body: Seq<char>,
}

impl View for EmailJob {
    type V = EmailJobView;

    open spec fn view(&self) -> EmailJobView {
        EmailJobView { to: self.to@, subject: self.subject@, body: self.body@ }
    }
}

/// Why a job was not taken. The job comes back with the error: a queue
/// never drops one silently.
#[derive(Debug)]
pub enum QueueError<T> {
    /// The queue holds as many jobs as it may. The producer waits for a
    /// slot and tries again.
    Full(T),
    /// The queue was closed and takes no more jobs.
    Closed(T),
}

/// What the worker of a queue does next.
#[derive(Debug)]
pub enum WorkerStep<T> {
    /// Hand this job to the transport, once, whatever comes of it.
    Deliver(T),
    /// Nothing is waiting: suspend until a job arrives or the queue closes.
    Wait,
    /// The queue is closed and drained: the worker ends.
    Stop,
}

/// The state of a queue: the waiting jobs, oldest first, the number it may
/// hold, and whether it was closed.
pub struct QueueView<T> {
    pub jobs: Seq<T>,
    pub capacity: nat,
    pub closed: bool,
}

impl<T> QueueView<T> {
    pub open spec fn wf(self) -> bool {
        0 < self.capacity && self.jobs.len() <= self.capacity
    }

    pub open spec fn is_full(self) -> bool {
        self.jobs.len() >= self.capacity
    }

    /// Whether a job offered now is taken.
    pub open spec fn accepts(self) -> bool {
        !self.closed && !self.is_full()
    }

    /// The queue after `job` was offered: at the tail if it was taken,
    /// nowhere if it was not.
    pub open spec fn push(self, job: T) -> QueueView<T> {
        if self.accepts() {
            QueueView { jobs: self.jobs.push(job), ..self }
        } else {
            self
        }
    }

    /// The queue after its worker asked for a job.
    pub open spec fn pop(self) -> QueueView<T> {
        if self.jobs.len() > 0 {
            QueueView { jobs: self.jobs.drop_first(), ..self }
        } else {
            self
        }
    }

    pub open spec fn close(self) -> QueueView<T> {
        QueueView { closed: true, ..self }
    }

    /// The queue after each of `jobs` was offered in turn.
    pub open spec fn push_all(self, jobs: Seq<T>) -> QueueView<T>
        decreases jobs.len(),
    {
        if jobs.len() == 0 {
            self
        } else {
            self.push(jobs[0]).push_all(jobs.drop_first())
        }
    }

    /// The jobs that the worker delivers, in the order of its attempts, if
    /// it runs until nothing is waiting.
    pub open spec fn drain(self) -> Seq<T>
        decreases self.jobs.len(),
    {
        if self.jobs.len() == 0 {
            Seq::empty()
        } else {
            seq![self.jobs[0]] + self.pop().drain()
        }
    }
}

/// A bounded first-in, first-out queue of jobs.
pub struct BoundedQueue<T> {
    jobs: VecDeque<T>,
    capacity: usize,
    closed: bool,
}

impl<T> View for BoundedQueue<T> {
    type V = QueueView<T>;

    closed spec fn view(&self) -> QueueView<T> {
        QueueView { jobs: self.jobs@, capacity: self.capacity as nat, closed: self.closed }
    }
}

impl<T> BoundedQueue<T> {
    /// An open, empty queue that holds up to `capacity` jobs.
    pub fn new(capacity: usize) -> (queue: Self)
        requires
            capacity > 0,
        ensures
            queue@ == (QueueView::<T> { jobs: Seq::empty(), capacity: capacity as nat, closed: false }),
            queue@.wf(),
    {
        BoundedQueue { jobs: VecDeque::new(), capacity, closed: false }
    }

    pub fn capacity(&self) -> (capacity: usize)
        ensures
            capacity == self@.capacity,
    {
        self.capacity
    }

    pub fn len(&self) -> (len: usize)
        ensures
            len == self@.jobs.len(),
    {
        self.jobs.len()
    }

    pub fn is_empty(&self) -> (empty: bool)
        ensures
            empty == (self@.jobs.len() == 0),
    {
        self.jobs.len() == 0
    }

    pub fn is_full(&self) -> (full: bool)
        ensures
            full == self@.is_full(),
    {
        self.jobs.len() >= self.capacity
    }

    pub fn is_closed(&self) -> (closed: bool)
        ensures
            closed == self@.closed,
    {
        self.closed
    }

    /// Offers `job`. An open queue with a free slot takes it at the tail.
    /// Otherwise the queue stays as it was and the job comes back.
    pub fn enqueue(&mut self, job: T) -> (taken: Result<(), QueueError<T>>)
        requires
            old(self)@.wf(),
        ensures
            final(self)@.wf(),
            final(self)@ == old(self)@.push(job),
            match taken {
                Ok(()) => old(self)@.accepts(),
                Err(QueueError::Closed(back)) => old(self)@.closed && back == job,
                Err(QueueError::Full(back)) => !old(self)@.closed && old(self)@.is_full() && back
                    == job,
            },
    {
        if self.closed {
            return Err(QueueError::Closed(job));
        }
        if self.jobs.len() >= self.capacity {
            return Err(QueueError::Full(job));
        }
        self.jobs.push_back(job);
        Ok(())
    }

    /// Takes the oldest waiting job.
    pub fn dequeue(&mut self) -> (job: Option<T>)
        requires
            old(self)@.wf(),
        ensures
            final(self)@.wf(),
            final(self)@ == old(self)@.pop(),
            match job {
                Some(job) => old(self)@.jobs.len() > 0 && job == old(self)@.jobs[0],
                None => old(self)@.jobs.len() == 0,
            },
    {
        let job = self.jobs.pop_front();
        proof {
            if job is Some {
                assert(self.jobs@ =~= old(self).jobs@.drop_first());
            }
        }
        job
    }

    /// Closes the queue: it takes no more jobs, and its worker ends once
    /// the waiting ones are delivered.
    pub fn close(&mut self)
        ensures
            old(self)@.wf() ==> final(self)@.wf(),
            final(self)@ == old(self)@.close(),
    {
        self.closed = true;
    }

    /// Takes every waiting job, oldest first.
    pub fn drain(&mut self) -> (jobs: Vec<T>)
        requires
            old(self)@.wf(),
        ensures
            jobs@ == old(self)@.drain(),
            final(self)@ == (QueueView { jobs: Seq::empty(), ..old(self)@ }),
    {
        let ghost before = self@;
        let mut jobs: Vec<T> = Vec::new();
        loop
            invariant
                self@.wf(),
                jobs@ + self@.jobs == before.jobs,
                self@.capacity == before.capacity,
                self@.closed == before.closed,
            ensures
                self@.jobs.len() == 0,
            decreases self@.jobs.len(),
        {
            let ghost waiting = self@.jobs;
            match self.dequeue() {
                Some(job) => {
                    jobs.push(job);
                    proof {
                        assert(jobs@ + self@.jobs =~= before.jobs) by {
                            assert(seq![waiting[0]] + waiting.drop_first() =~= waiting);
                        }
                    }
                },
                None => {
                    break ;
                },
            }
        }
        proof {
            lemma_drain_in_order(before);
            assert(jobs@ =~= before.jobs);
            assert(self@.jobs =~= Seq::empty());
        }
        jobs
    }

    /// What the worker does next: deliver the oldest job, wait, or end.
    pub fn next_step(&mut self) -> (step: WorkerStep<T>)
        requires
            old(self)@.wf(),
        ensures
            final(self)@.wf(),
            final(self)@ == old(self)@.pop(),
            match step {
                WorkerStep::Deliver(job) => old(self)@.jobs.len() > 0 && job == old(self)@.jobs[0],
                WorkerStep::Wait => old(self)@.jobs.len() == 0 && !old(self)@.closed,
                WorkerStep::Stop => old(self)@.jobs.len() == 0 && old(self)@.closed,
            },
    {
        match self.dequeue() {
            Some(job) => WorkerStep::Deliver(job),
            None => if self.closed {
                WorkerStep::Stop
            } else {
                WorkerStep::Wait
            },
        }
    }
}

/// The queue of text messages.
pub struct SmsQueue {
    pub queue: BoundedQueue<SmsJob>,
}

impl SmsQueue {
    pub fn new() -> (queue: Self)
        ensures
            queue.queue@ == (QueueView::<SmsJob> {
                jobs: Seq::empty(),
                capacity: QUEUE_CAPACITY as nat,
                closed: false,
            }),
            queue.queue@.wf(),
    {
        SmsQueue { queue: BoundedQueue::new(QUEUE_CAPACITY) }
    }
}

/// The queue of emails.
pub struct EmailQueue {
    pub queue: BoundedQueue<EmailJob>,
}

impl EmailQueue {
    pub fn new() -> (queue: Self)
        ensures
            queue.queue@ == (QueueView::<EmailJob> {
                jobs: Seq::empty(),
                capacity: QUEUE_CAPACITY as nat,
                closed: false,
            }),
            queue.queue@.wf(),
    {
        EmailQueue { queue: BoundedQueue::new(QUEUE_CAPACITY) }
    }
}

/// Offering jobs to an open queue with room for all of them puts them
/// behind the waiting ones, in the order they were offered.
pub proof fn lemma_push_all_appends<T>(queue: QueueView<T>, jobs: Seq<T>)
    requires
        !queue.closed,
        queue.jobs.len() + jobs.len() <= queue.capacity,
    ensures
        queue.push_all(jobs) == (QueueView { jobs: queue.jobs + jobs, ..queue }),
    decreases jobs.len(),
{
    if jobs.len() == 0 {
        assert(queue.jobs + jobs =~= queue.jobs);
    } else {
        lemma_push_all_appends(queue.push(jobs[0]), jobs.drop_first());
        assert(queue.jobs.push(jobs[0]) + jobs.drop_first() =~= queue.jobs + jobs);
    }
}

/// A worker that runs until nothing is waiting delivers the waiting jobs,
/// oldest first.
pub proof fn lemma_drain_in_order<T>(queue: QueueView<T>)
    ensures
        queue.drain() == queue.jobs,
    decreases queue.jobs.len(),
{
    if queue.jobs.len() > 0 {
        lemma_drain_in_order(queue.pop());
        assert(seq![queue.jobs[0]] + queue.jobs.drop_first() =~= queue.jobs);
    }
}

/// First in, first out: jobs offered to an empty, open queue, no more of
/// them than it holds, are all taken, and a worker that drains the queue
/// attempts them in the order they were offered.
pub proof fn lemma_fifo<T>(queue: QueueView<T>, jobs: Seq<T>)
    requires
        queue.jobs.len() == 0,
        !queue.closed,
        jobs.len() <= queue.capacity,
    ensures
        queue.push_all(jobs).jobs == jobs,
        queue.push_all(jobs).drain() == jobs,
{
    lemma_push_all_appends(queue, jobs);
    assert(queue.jobs + jobs =~= jobs);
    lemma_drain_in_order(queue.push_all(jobs));
}

/// A full queue takes nothing and loses nothing; as soon as its worker
/// has taken one job, an open queue takes the next one offered, behind all
/// that still wait.
pub proof fn lemma_full_until_slot_frees<T>(queue: QueueView<T>, job: T)
    requires
        queue.wf(),
        queue.is_full(),
    ensures
        queue.push(job) == queue,
        !queue.closed ==> queue.pop().push(job).jobs == queue.jobs.drop_first().push(job),
{
}

} // verus!
