//! The worker pool: a fixed set of workers that take jobs from one queue.
//!
//! The pool here is the bookkeeping of such a pool: the queue, whether it is
//! still open, and what each worker is doing. The threads that run the jobs
//! hold it behind a lock, ask it for their next task, and release the lock
//! before they run a job.

use std::collections::VecDeque;
use vstd::prelude::*;
use vstd::string::*;
use crate::error::{IoError, IoErrorKind, IoErrorView};

verus! {

/// What a worker is doing.
#[derive(Clone, Copy, Debug, PartialEq, Eq, Structural)]
pub enum WorkerState {
    /// Waiting for a job.
    Idle,
    /// Running a job.
    Busy,
    /// Gone: it found the queue closed and empty.
    Exited,
}

/// What a worker does next.
#[derive(Debug, PartialEq, Eq)]
pub enum Task<J> {
    /// Run this job, then ask again.
    Run(J),
    /// Nothing is queued: wait for the queue to change, then ask again.
    Wait,
    /// The queue is closed and empty: stop.
    Exit,
}

/// How a job ended.
#[derive(Clone, Debug, PartialEq, Eq)]
pub enum Outcome {
    /// It returned without error.
    Completed,
    /// It returned an error.
    Failed(IoError),
    /// It panicked, and the panic was caught.
    Panicked,
}

/// The bookkeeping of a worker pool over jobs of type `J`.
pub struct ThreadPool<J> {
    states: Vec<WorkerState>,
    queue: VecDeque<J>,
    open: bool,
}

/// The mathematical value of a [`ThreadPool`]: the state of each worker, by
/// its number; the queued jobs, oldest first; whether the queue is open.
pub struct PoolView<J> {
    pub states: Seq<WorkerState>,
    pub queue: Seq<J>,
    pub open: bool,
}

impl<J> PoolView<J> {
    /// A pool that has just been made: `size` idle workers, nothing queued.
    pub open spec fn fresh(size: nat) -> PoolView<J> {
        PoolView { states: Seq::new(size, |i: int| WorkerState::Idle), queue: Seq::empty(), open: true }
    }

    /// The pool after a job was handed in: the job is queued last, unless the
    /// queue is closed.
    pub open spec fn execute(self, job: J) -> PoolView<J> {
        if self.open {
            PoolView { queue: self.queue.push(job), ..self }
        } else {
            self
        }
    }

    /// What a worker that asks now is told: the oldest job; to wait, where
    /// nothing is queued; to stop, where the queue is closed as well.
    pub open spec fn task(self) -> Task<J> {
        if self.queue.len() > 0 {
            Task::Run(self.queue[0])
        } else if self.open {
            Task::Wait
        } else {
            Task::Exit
        }
    }

    /// The pool after the worker asked: a job it was given has left the queue
    /// and the worker is busy; a worker told to stop is gone.
    pub open spec fn take(self, worker: int) -> PoolView<J> {
        match self.task() {
            Task::Run(_) => PoolView {
                states: self.states.update(worker, WorkerState::Busy),
                queue: self.queue.drop_first(),
                ..self
            },
            Task::Wait => self,
            Task::Exit => PoolView {
                states: self.states.update(worker, WorkerState::Exited),
                ..self
            },
        }
    }

    /// The pool after the worker's job ended: the worker is idle again,
    /// however the job ended.
    pub open spec fn finish(self, worker: int, outcome: Outcome) -> PoolView<J> {
        PoolView { states: self.states.update(worker, WorkerState::Idle), ..self }
    }

    /// The pool after shutdown began: the queue is closed; what is queued
    /// stays, for the workers to drain.
    pub open spec fn shutdown(self) -> PoolView<J> {
        PoolView { open: false, ..self }
    }

    /// The pool after one job went through one worker: handed in, taken, run
    /// to the given end.
    pub open spec fn serve(self, worker: int, job: J, outcome: Outcome) -> PoolView<J> {
        self.execute(job).take(worker).finish(worker, outcome)
    }

    /// The pool after the jobs went through one worker, one after the other.
    pub open spec fn serve_all(self, worker: int, jobs: Seq<(J, Outcome)>) -> PoolView<J>
        decreases jobs.len(),
    {
        if jobs.len() == 0 {
            self
        } else {
            self.serve_all(worker, jobs.drop_last()).serve(worker, jobs.last().0, jobs.last().1)
        }
    }
}

/// The decimal digit for a number below ten.
pub open spec fn digit(d: int) -> char {
    if d == 0 {
        '0'
    } else if d == 1 {
        '1'
    } else if d == 2 {
        '2'
    } else if d == 3 {
        '3'
    } else if d == 4 {
        '4'
    } else if d == 5 {
        '5'
    } else if d == 6 {
        '6'
    } else if d == 7 {
        '7'
    } else if d == 8 {
        '8'
    } else {
        '9'
    }
}

/// A number in decimal, without leading zeros.
pub open spec fn decimal(n: nat) -> Seq<char>
    decreases n,
{
    if n < 10 {
        seq![digit(n as int)]
    } else {
        decimal(n / 10).push(digit((n % 10) as int))
    }
}

/// The name of the thread that runs the worker: `worker-thread-` and the
/// worker's number.
pub open spec fn worker_name_of(worker: nat) -> Seq<char> {
    "worker-thread-"@ + decimal(worker)
}

/// What is logged when a job ended: nothing for a job that completed;
/// `Worker N failed a job: MESSAGE.` for one that failed; `Worker N caught a
/// panic.` for one that panicked.
pub open spec fn report_of(worker: nat, outcome: Outcome) -> Option<Seq<char>> {
    match outcome {
        Outcome::Completed => None,
        Outcome::Failed(e) => Some(
            "Worker "@ + decimal(worker) + " failed a job: "@ + e.message@ + "."@,
        ),
        Outcome::Panicked => Some("Worker "@ + decimal(worker) + " caught a panic."@),
    }
}

fn digit_text(d: usize) -> (text: &'static str)
    requires
        d < 10,
    ensures
        text@ == seq![digit(d as int)],
{
    proof {
        reveal_strlit("0");
        reveal_strlit("1");
        reveal_strlit("2");
        reveal_strlit("3");
        reveal_strlit("4");
        reveal_strlit("5");
        reveal_strlit("6");
        reveal_strlit("7");
        reveal_strlit("8");
        reveal_strlit("9");
    }
    let text = if d == 0 {
        "0"
    } else if d == 1 {
        "1"
    } else if d == 2 {
        "2"
    } else if d == 3 {
        "3"
    } else if d == 4 {
        "4"
    } else if d == 5 {
        "5"
    } else if d == 6 {
        "6"
    } else if d == 7 {
        "7"
    } else if d == 8 {
        "8"
    } else {
        "9"
    };
    assert(text@ =~= seq![digit(d as int)]);
    text
}

/// Writes a number in decimal.
pub fn to_decimal(n: usize) -> (text: String)
    ensures
        text@ == decimal(n as nat),
    decreases n,
{
    if n < 10 {
        String::from_str(digit_text(n))
    } else {
        let mut text = to_decimal(n / 10);
        text.append(digit_text(n % 10));
        assert(text@ =~= decimal((n / 10) as nat).push(digit((n % 10) as int)));
        text
    }
}

/// The name of the thread that runs the worker.
pub fn worker_name(worker: usize) -> (name: String)
    ensures
        name@ == worker_name_of(worker as nat),
{
    let mut name = String::from_str("worker-thread-");
    name.append(to_decimal(worker).as_str());
    name
}

/// The line to log when a worker's job ended, if there is one.
pub fn report(worker: usize, outcome: &Outcome) -> (line: Option<String>)
    ensures
        crate::interface::text_of(line) == report_of(worker as nat, *outcome),
{
    match outcome {
        Outcome::Completed => None,
        Outcome::Failed(e) => {
            let mut line = String::from_str("Worker ");
            line.append(to_decimal(worker).as_str());
            line.append(" failed a job: ");
            line.append(e.message.as_str());
            line.append(".");
            Some(line)
        },
        Outcome::Panicked => {
            let mut line = String::from_str("Worker ");
            line.append(to_decimal(worker).as_str());
            line.append(" caught a panic.");
            Some(line)
        },
    }
}

/// The message of the failure that a closed queue answers with.
pub open spec fn closed_queue() -> Seq<char> {
    "sending on a closed channel"@
}

impl<J> View for ThreadPool<J> {
    type V = PoolView<J>;

    closed spec fn view(&self) -> PoolView<J> {
        PoolView { states: self.states@, queue: self.queue@, open: self.open }
    }
}

impl<J> ThreadPool<J> {
    /// A pool of `size` workers, all idle, with an open and empty queue.
    pub fn new(size: usize) -> (pool: ThreadPool<J>)
        requires
            size > 0,
        ensures
            pool@ == PoolView::<J>::fresh(size as nat),
    {
        let mut states: Vec<WorkerState> = Vec::new();
        let mut id: usize = 0;
        while id < size
            invariant
                id <= size,
                states@ == Seq::new(id as nat, |i: int| WorkerState::Idle),
            decreases size - id,
        {
            states.push(WorkerState::Idle);
            id += 1;
            assert(states@ =~= Seq::new(id as nat, |i: int| WorkerState::Idle));
        }
        ThreadPool { states, queue: VecDeque::new(), open: true }
    }

    /// The number of workers.
    pub fn size(&self) -> (n: usize)
        ensures
            n == self@.states.len(),
    {
        self.states.len()
    }

    /// The number of jobs that wait in the queue.
    pub fn queued(&self) -> (n: usize)
        ensures
            n == self@.queue.len(),
    {
        self.queue.len()
    }

    /// Whether the queue still takes jobs.
    pub fn is_open(&self) -> (open: bool)
        ensures
            open == self@.open,
    {
        self.open
    }

    /// What the worker is doing.
    pub fn state(&self, worker: usize) -> (state: Option<WorkerState>)
        ensures
            state == if worker < self@.states.len() {
                Some(self@.states[worker as int])
            } else {
                None
            },
    {
        if worker < self.states.len() {
            Some(self.states[worker])
        } else {
            None
        }
    }

    /// Hands in a job. It is queued behind the jobs that wait; once the pool
    /// is shutting down, the job is refused with a broken pipe.
    pub fn execute(&mut self, job: J) -> (r: Result<(), IoError>)
        ensures
            final(self)@ == old(self)@.execute(job),
            old(self)@.open ==> r is Ok,
            !old(self)@.open ==> (r matches Err(e) && e@ == (IoErrorView {
                kind: IoErrorKind::BrokenPipe,
                message: closed_queue(),
            })),
    {
        if self.open {
            self.queue.push_back(job);
            Ok(())
        } else {
            Err(IoError::new(IoErrorKind::BrokenPipe, String::from_str("sending on a closed channel")))
        }
    }

    /// Tells an idle worker what to do next, and books it.
    pub fn take(&mut self, worker: usize) -> (task: Task<J>)
        requires
            worker < old(self)@.states.len(),
            old(self)@.states[worker as int] == WorkerState::Idle,
        ensures
            task == old(self)@.task(),
            final(self)@ == old(self)@.take(worker as int),
    {
        match self.queue.pop_front() {
            Some(job) => {
                self.states.set(worker, WorkerState::Busy);
                assert(self.queue@ =~= old(self).queue@.drop_first());
                Task::Run(job)
            },
            None => if self.open {
                Task::Wait
            } else {
                self.states.set(worker, WorkerState::Exited);
                Task::Exit
            },
        }
    }

    /// Books the end of the job that a busy worker ran. The worker is idle
    /// again, whether the job completed, failed or panicked.
    pub fn finish(&mut self, worker: usize, outcome: Outcome)
        requires
            worker < old(self)@.states.len(),
            old(self)@.states[worker as int] == WorkerState::Busy,
        ensures
            final(self)@ == old(self)@.finish(worker as int, outcome),
            final(self)@.states[worker as int] == WorkerState::Idle,
    {
        self.states.set(worker, WorkerState::Idle);
    }

    /// Begins shutdown: closes the queue, and names the workers to join, in
    /// the order in which they were made.
    pub fn shutdown(&mut self) -> (workers: Vec<usize>)
        ensures
            final(self)@ == old(self)@.shutdown(),
            workers@ == Seq::new(old(self)@.states.len(), |i: int| i as usize),
    {
        self.open = false;
        let mut workers: Vec<usize> = Vec::new();
        let mut id: usize = 0;
        while id < self.states.len()
            invariant
                id <= self.states@.len(),
                workers@ == Seq::new(id as nat, |i: int| i as usize),
            decreases self.states@.len() - id,
        {
            workers.push(id);
            id += 1;
            assert(workers@ =~= Seq::new(id as nat, |i: int| i as usize));
        }
        workers
    }
}

/// A worker outlives its jobs: after any number of jobs went through an idle
/// worker of an open pool with nothing queued, however each of them ended, the
/// pool is as it was, and the worker is given the next job that is handed in.
pub proof fn lemma_worker_outlives_jobs<J>(
    pool: PoolView<J>,
    worker: int,
    jobs: Seq<(J, Outcome)>,
    next: J,
)
    requires
        0 <= worker < pool.states.len(),
        pool.states[worker] == WorkerState::Idle,
        pool.open,
        pool.queue.len() == 0,
    ensures
        pool.serve_all(worker, jobs) == pool,
        pool.serve_all(worker, jobs).execute(next).task() == Task::Run(next),
    decreases jobs.len(),
{
    if jobs.len() > 0 {
        lemma_worker_outlives_jobs(pool, worker, jobs.drop_last(), next);
        let job = jobs.last().0;
        let after = pool.serve(worker, job, jobs.last().1);
        assert(pool.execute(job).queue.drop_first() =~= pool.queue);
        assert(after.states =~= pool.states);
        assert(after.queue =~= pool.queue);
    }
}

/// Jobs leave the queue in the order in which they were handed in: with
/// nothing queued before, the first of two jobs is the one that is taken
/// first, and the second the one that is taken next.
pub proof fn lemma_first_in_first_out<J>(pool: PoolView<J>, worker: int, first: J, second: J)
    requires
        0 <= worker < pool.states.len(),
        pool.open,
        pool.queue.len() == 0,
    ensures
        pool.execute(first).execute(second).task() == Task::Run(first),
        pool.execute(first).execute(second).take(worker).task() == Task::Run(second),
{
}

/// A closed pool hands out what is queued before it lets a worker go.
pub proof fn lemma_shutdown_drains<J>(pool: PoolView<J>)
    ensures
        pool.shutdown().task() is Exit <==> pool.queue.len() == 0,
        pool.queue.len() > 0 ==> pool.shutdown().task() == Task::Run(pool.queue[0]),
{
}

} // verus!
