//! The jobs: scoring candidates, building metadata and paths, and the queue
//! that drives the scans.

use vstd::prelude::*;

pub mod fix_job;
pub mod rank;
pub mod scan;
pub mod scan_job;
pub mod score;
pub mod utils;

verus! {

/// How many tasks may run at the same time.
pub const MAX_RUNNING: usize = 1;

/// A unit of work.
#[derive(Debug)]
pub enum JobTask {
    /// Identify the file at `path` and move it into the library.
    Scan { path: String, retry_count: u8 },
    /// Tag the file at `path` as the given recording on the given release.
    Fix { path: String, release_id: String, recording_id: String, copy_to_target: bool },
}

impl Clone for JobTask {
    fn clone(&self) -> (r: Self)
        ensures
            r == *self,
    {
        match self {
            JobTask::Scan { path, retry_count } => JobTask::Scan {
                path: path.clone(),
                retry_count: *retry_count,
            },
            JobTask::Fix { path, release_id, recording_id, copy_to_target } => JobTask::Fix {
                path: path.clone(),
                release_id: release_id.clone(),
                recording_id: recording_id.clone(),
                copy_to_target: *copy_to_target,
            },
        }
    }
}

/// What the rest of the program asks of the job runner.
#[derive(Debug)]
pub enum JobCommand {
    Scan { path: String, retry_count: u8 },
    ScanAll,
    ClearQueue,
    GetQueueInfo,
    Fix { target_path: String, release_id: String, recording_id: String },
    FixFailed { source_path: String, release_id: String, recording_id: String },
}

/// The tasks that wait and the number of tasks that run.
#[derive(Debug)]
pub struct QueueInfo {
    pub tasks: Vec<JobTask>,
    pub running_count: usize,
}

/// The tasks that wait, the one enqueued last first.
#[derive(Debug)]
pub struct Queue {
    queue: Vec<JobTask>,
}

impl View for Queue {
    type V = Seq<JobTask>;

    /// The waiting tasks in the order in which they were enqueued.
    closed spec fn view(&self) -> Seq<JobTask> {
        self.queue@
    }
}

impl Queue {
    /// An empty queue.
    pub fn new() -> (q: Queue)
        ensures
            q@ == Seq::<JobTask>::empty(),
    {
        Queue { queue: Vec::new() }
    }

    /// Adds a task.
    pub fn enqueue(&mut self, item: JobTask)
        ensures
            final(self)@ == old(self)@.push(item),
    {
        self.queue.push(item);
    }

    /// Takes out the task that was enqueued last, if there is one.
    pub fn dequeue(&mut self) -> (r: Option<JobTask>)
        ensures
            old(self)@.len() == 0 ==> r is None && final(self)@ == old(self)@,
            old(self)@.len() > 0 ==> r == Some(old(self)@.last()) && final(self)@ == old(
                self,
            )@.drop_last(),
    {
        self.queue.pop()
    }

    /// Removes every waiting task.
    pub fn clear(&mut self)
        ensures
            final(self)@ == Seq::<JobTask>::empty(),
    {
        self.queue.clear();
    }

    /// The number of waiting tasks.
    pub fn len(&self) -> (n: usize)
        ensures
            n == self@.len(),
    {
        self.queue.len()
    }

    /// A copy of the waiting tasks, in the order in which they were
    /// enqueued.
    pub fn tasks(&self) -> (r: Vec<JobTask>)
        ensures
            r@ == self@,
    {
        let mut r: Vec<JobTask> = Vec::new();
        let mut i: usize = 0;
        while i < self.queue.len()
            invariant
                i <= self.queue.len(),
                r@ == self.queue@.subrange(0, i as int),
            decreases self.queue.len() - i,
        {
            r.push(self.queue[i].clone());
            i = i + 1;
        }
        r
    }
}

/// A task that is enqueued is the next to be dequeued, and taking it out
/// leaves the queue as it was: the queue is a stack.
pub proof fn lemma_queue_is_stack(before: Seq<JobTask>, item: JobTask)
    ensures
        before.push(item).len() > 0,
        before.push(item).last() == item,
        before.push(item).drop_last() == before,
{
}

/// What the job runner has to do about a command.
#[derive(Debug)]
pub enum CommandEffect {
    /// A task was enqueued: the dispatcher should look at the queue.
    Enqueued,
    /// Every file below the source directory is to be sent in as a scan
    /// command, with no retry behind it.
    WalkSourceDir,
    /// The queue was emptied.
    Cleared,
    /// The state of the queue, for whoever asked.
    Info(QueueInfo),
}

/// The task that a command enqueues, if it enqueues one.
pub open spec fn task_of(command: JobCommand) -> Option<JobTask> {
    match command {
        JobCommand::Scan { path, retry_count } => Some(JobTask::Scan { path, retry_count }),
        JobCommand::Fix { target_path, release_id, recording_id } => Some(
            JobTask::Fix { path: target_path, release_id, recording_id, copy_to_target: false },
        ),
        JobCommand::FixFailed { source_path, release_id, recording_id } => Some(
            JobTask::Fix { path: source_path, release_id, recording_id, copy_to_target: true },
        ),
        _ => None,
    }
}

/// The queue together with the permit that lets one task run at a time.
///
/// A task is taken from the queue first and given the permit second. Between the two it is `next`: no longer in the queue, not yet
/// running.
#[derive(Debug)]
pub struct Dispatcher {
    queue: Queue,
    next: Option<JobTask>,
    busy: bool,
}

impl Dispatcher {
    /// The waiting tasks in the order in which they were enqueued.
    pub closed spec fn waiting(self) -> Seq<JobTask> {
        self.queue@
    }

    /// The task that was taken from the queue and waits for the permit.
    pub closed spec fn next(self) -> Option<JobTask> {
        self.next
    }

    /// The number of running tasks.
    pub closed spec fn running(self) -> nat {
        if self.busy {
            1
        } else {
            0
        }
    }

    /// A dispatcher with nothing to do.
    pub fn new() -> (d: Dispatcher)
        ensures
            d.waiting() == Seq::<JobTask>::empty(),
            d.next() is None,
            d.running() == 0,
    {
        Dispatcher { queue: Queue::new(), next: None, busy: false }
    }

    /// The number of running tasks, which never exceeds `MAX_RUNNING`.
    pub fn running_count(&self) -> (n: usize)
        ensures
            n == self.running(),
            n <= MAX_RUNNING,
    {
        if self.busy {
            1
        } else {
            0
        }
    }

    /// Adds a task to the queue. The effect says that there is something to
    /// dispatch.
    pub fn enqueue(&mut self, task: JobTask) -> (effect: CommandEffect)
        ensures
            effect is Enqueued,
            final(self).waiting() == old(self).waiting().push(task),
            final(self).next() == old(self).next(),
            final(self).running() == old(self).running(),
    {
        self.queue.enqueue(task);
        CommandEffect::Enqueued
    }

    /// The waiting tasks and the number of running ones.
    pub fn info(&self) -> (r: QueueInfo)
        ensures
            r.tasks@ == self.waiting(),
            r.running_count == self.running(),
    {
        QueueInfo { tasks: self.queue.tasks(), running_count: self.running_count() }
    }

    /// Carries out a command.
    ///
    /// A scan or a fix is enqueued; a fix of a file that is already in the
    /// library works in place, a fix of a file that failed copies it there.
    /// Clearing empties the queue and touches neither the task that waits
    /// for the permit nor the one that runs.
    pub fn handle(&mut self, command: JobCommand) -> (effect: CommandEffect)
        ensures
            final(self).next() == old(self).next(),
            final(self).running() == old(self).running(),
            match command {
                JobCommand::ScanAll => effect is WalkSourceDir && final(self).waiting() == old(
                    self,
                ).waiting(),
                JobCommand::ClearQueue => effect is Cleared && final(self).waiting() == Seq::<
                    JobTask,
                >::empty(),
                JobCommand::GetQueueInfo => {
                    &&& final(self).waiting() == old(self).waiting()
                    &&& effect matches CommandEffect::Info(info)
                    &&& info.tasks@ == old(self).waiting()
                    &&& info.running_count == old(self).running()
                },
                _ => effect is Enqueued && final(self).waiting() == old(self).waiting().push(
                    task_of(command).unwrap(),
                ),
            },
    {
        match command {
            JobCommand::Scan { path, retry_count } => {
                self.queue.enqueue(JobTask::Scan { path, retry_count });
                CommandEffect::Enqueued
            },
            JobCommand::ScanAll => CommandEffect::WalkSourceDir,
            JobCommand::ClearQueue => {
                self.queue.clear();
                CommandEffect::Cleared
            },
            JobCommand::GetQueueInfo => CommandEffect::Info(self.info()),
            JobCommand::Fix { target_path, release_id, recording_id } => {
                self.queue.enqueue(
                    JobTask::Fix {
                        path: target_path,
                        release_id,
                        recording_id,
                        copy_to_target: false,
                    },
                );
                CommandEffect::Enqueued
            },
            JobCommand::FixFailed { source_path, release_id, recording_id } => {
                self.queue.enqueue(
                    JobTask::Fix {
                        path: source_path,
                        release_id,
                        recording_id,
                        copy_to_target: true,
                    },
                );
                CommandEffect::Enqueued
            },
        }
    }

    /// Starts the next task, if one may start.
    ///
    /// Where no task waits for the permit, the task enqueued last is taken
    /// from the queue to wait for it. Where the permit is free, the task that
    /// waits for it is handed out and counts as running from then on.
    pub fn dispatch(&mut self) -> (r: Option<JobTask>)
        ensures
            final(self).waiting() == dispatch_queue(*old(self)),
            r == if old(self).running() < MAX_RUNNING {
                dispatch_candidate(*old(self))
            } else {
                None
            },
            final(self).next() == if old(self).running() < MAX_RUNNING {
                None
            } else {
                dispatch_candidate(*old(self))
            },
            final(self).running() == old(self).running() + if r is Some {
                1nat
            } else {
                0nat
            },
    {
        if self.next.is_none() {
            self.next = self.queue.dequeue();
        }
        if self.busy {
            None
        } else {
            let task = self.next.take();
            self.busy = task.is_some();
            task
        }
    }

    /// Notes that a running task has ended, which frees the permit. Does
    /// nothing where no task runs.
    pub fn finished(&mut self)
        ensures
            final(self).waiting() == old(self).waiting(),
            final(self).next() == old(self).next(),
            final(self).running() == if old(self).running() > 0 {
                (old(self).running() - 1) as nat
            } else {
                0nat
            },
    {
        self.busy = false;
    }
}

/// At most `MAX_RUNNING` tasks run, whatever has happened before.
pub proof fn lemma_running_bound(d: Dispatcher)
    ensures
        d.running() <= MAX_RUNNING,
{
}

/// The task that is next in line for the permit: the one that already waits
/// for it, else the one enqueued last.
pub open spec fn dispatch_candidate(d: Dispatcher) -> Option<JobTask> {
    match d.next() {
        Some(task) => Some(task),
        None => if d.waiting().len() > 0 {
            Some(d.waiting().last())
        } else {
            None
        },
    }
}

/// The queue once the next in line has been taken from it.
pub open spec fn dispatch_queue(d: Dispatcher) -> Seq<JobTask> {
    if d.next() is None && d.waiting().len() > 0 {
        d.waiting().drop_last()
    } else {
        d.waiting()
    }
}

/// A task as a sequence of one, and no task as the empty sequence.
pub open spec fn in_line(task: Option<JobTask>) -> Seq<JobTask> {
    match task {
        Some(t) => seq![t],
        None => Seq::empty(),
    }
}

/// Dispatching loses no task and makes none: the tasks that wait in the
/// queue or for the permit afterwards, together with the one that was next
/// in line, are those that waited before.
pub proof fn lemma_dispatch_keeps_tasks(d: Dispatcher)
    ensures
        dispatch_queue(d) + in_line(dispatch_candidate(d)) == d.waiting() + in_line(d.next()),
{
}

} // verus!
