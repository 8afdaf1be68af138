//! Commands: batchable descriptions of deferred asynchronous effects.
//!
//! A command is an ordered collection of zero or more tasks. Each task is an
//! opaque unit of asynchronous work that resolves exactly once to an optional
//! message; a `None` result is silently dropped by the runtime driver.
//! Building or combining commands performs no work: tasks are only started
//! when the driver extracts and schedules them.
//!
//! Every task carries a ghost model of its resolution: for a task built from
//! a concrete message the model pins the exact result; for one built from
//! arbitrary outside work it records that outside work decides.

use vstd::prelude::*;

use futures::FutureExt;
use futures::future::BoxFuture;
use std::sync::Arc;

verus! {

/// The opaque asynchronous work of one task. Nothing of its behaviour is
/// visible to contracts; the `Task` wrapper carries the ghost model.
#[verifier::external_body]
#[verifier::reject_recursive_types(Message)]
pub(crate) struct TaskWork<Message: 'static> {
    pub(crate) fut: BoxFuture<'static, Option<Message>>,
}

/// One deferred unit of asynchronous work, resolving once to an optional
/// message, together with the ghost model of that resolution.
#[verifier::reject_recursive_types(Message)]
pub struct Task<Message: 'static> {
    pub(crate) work: TaskWork<Message>,
    known: Ghost<Option<Option<Message>>>,
}

impl<Message: 'static> Task<Message> {
    /// The ghost record of the task's eventual outcome: `Some(r)` when the
    /// task settles to `r` and nothing else; `None` when that outcome rests
    /// on outside asynchronous work.
    pub closed spec fn resolution(&self) -> Option<Option<Message>> {
        self.known@
    }
}

impl<Message: Send + 'static> Task<Message> {
    /// Relies on futures::executor::block_on: runs the task on the calling
    /// thread until it resolves, and returns its optional message. Blocks for
    /// as long as the underlying work takes.
    #[verifier::external_body]
    pub fn resolve_blocking(self) -> (result: Option<Message>)
        ensures
            self.resolution() matches Some(r) ==> result == r,
    {
        futures::executor::block_on(self.work.fut)
    }
}

/// Relies on futures::future::ready: the task resolves immediately, to
/// exactly the given message.
#[verifier::external_body]
fn task_ready<Message: Send + 'static>(message: Message) -> (r: Task<Message>)
    ensures
        r.resolution() == Some(Some(message)),
{
    let known = Ghost(Some(Some(message)));
    Task { work: TaskWork { fut: Box::pin(futures::future::ready(Some(message))) }, known }
}

/// Relies on Box::pin: the future itself becomes the task's work, its
/// optional result the task's payload; outside work decides the result.
#[verifier::external_body]
fn task_from_future<Message, Fut>(future: Fut) -> (r: Task<Message>)
    where
        Message: Send + 'static,
        Fut: core::future::Future<Output = Option<Message>> + Send + 'static,
    ensures
        r.resolution() is None,
{
    Task { work: TaskWork { fut: Box::pin(future) }, known: Ghost(None) }
}

/// Relies on futures::FutureExt::map: the task performs the future's work and
/// always yields its result as a message; outside work decides the result.
#[verifier::external_body]
fn task_from_message_future<Message, Fut>(future: Fut) -> (r: Task<Message>)
    where
        Message: Send + 'static,
        Fut: core::future::Future<Output = Message> + Send + 'static,
    ensures
        r.resolution() is None,
{
    Task { work: TaskWork { fut: Box::pin(future.map(Some)) }, known: Ghost(None) }
}

/// Relies on futures::future::lazy: the closure runs once, when the task is
/// first polled, and its result is the task's message; the closure decides
/// the result.
#[verifier::external_body]
fn task_from_fn<Message, F>(op: F) -> (r: Task<Message>)
    where
        Message: Send + 'static,
        F: FnOnce() -> Message + Send + 'static,
    ensures
        r.resolution() is None,
{
    Task {
        work: TaskWork { fut: Box::pin(futures::future::lazy(move |_| Some(op()))) },
        known: Ghost(None),
    }
}

/// The resolution of `mapped` is that of `source` passed through `f`: a known
/// message becomes a possible `f` output of it, a known empty resolution
/// stays empty, and a resolution decided by outside work stays so.
pub open spec fn maps_resolution<Message, Output, F: Fn(Message) -> Output>(
    source: Task<Message>,
    mapped: Task<Output>,
    f: F,
) -> bool {
    &&& (source.resolution() matches Some(s) ==> match s {
        Some(m) => exists|o: Output|
            #[trigger] call_ensures(f, (m,), o) && mapped.resolution() == Some(Some(o)),
        None => mapped.resolution() == Some(Option::<Output>::None),
    })
    &&& (source.resolution() is None ==> mapped.resolution() is None)
}

/// Relies on futures::FutureExt::map, Option::map and Arc::clone: the
/// returned task does the same work, then passes a resolved message through
/// `f`; so its resolution is the source's, mapped through `f`. `f` must
/// accept every message, or nothing can be promised of applying it.
#[verifier::external_body]
fn task_map<Message, Output, F>(task: Task<Message>, f: &Arc<F>) -> (r: Task<Output>)
    where
        Message: Send + 'static,
        Output: Send + 'static,
        F: Fn(Message) -> Output + Send + Sync + 'static,
    requires
        forall|m: Message| #[trigger] call_requires(**f, (m,)),
    ensures
        maps_resolution(task, r, **f),
{
    let f = f.clone();
    Task {
        work: TaskWork { fut: Box::pin(task.work.fut.map(move |opt| opt.map(|m| (*f)(m)))) },
        known: Ghost(None),
    }
}

/// Asynchronous work to be performed by the runtime, as an ordered collection
/// of tasks.
#[verifier::reject_recursive_types(Message)]
pub struct Command<Message: 'static> {
    tasks: Vec<Task<Message>>,
}

impl<Message> View for Command<Message> {
    type V = Seq<Task<Message>>;

    closed spec fn view(&self) -> Seq<Task<Message>> {
        self.tasks@
    }
}

/// The tasks of a sequence of commands, concatenated in input order.
pub open spec fn tasks_of<Message>(cmds: Seq<Command<Message>>) -> Seq<Task<Message>>
    decreases cmds.len(),
{
    if cmds.len() == 0 {
        Seq::empty()
    } else {
        tasks_of(cmds.drop_last()) + cmds.last()@
    }
}

/// The sum of the task counts of a sequence of commands.
pub open spec fn task_count<Message>(cmds: Seq<Command<Message>>) -> int
    decreases cmds.len(),
{
    if cmds.len() == 0 {
        0
    } else {
        task_count(cmds.drop_last()) + cmds.last()@.len()
    }
}

/// Law: batching loses and duplicates nothing, so the number of tasks of a
/// batch equals the sum of the inputs' task counts. (That no resolution is
/// lost or changed is already the ensures of `batch` itself: the task
/// sequence, each task carrying its resolution model, is exactly the
/// concatenation of the inputs'.)
pub proof fn lemma_batch_task_count<Message>(cmds: Seq<Command<Message>>)
    ensures
        tasks_of(cmds).len() == task_count(cmds),
    decreases cmds.len(),
{
    if cmds.len() > 0 {
        lemma_batch_task_count(cmds.drop_last());
    }
}

proof fn lemma_tasks_of_step<Message>(cmds: Seq<Command<Message>>, k: int)
    requires
        0 <= k < cmds.len(),
    ensures
        tasks_of(cmds.take(k + 1)) == tasks_of(cmds.take(k)) + cmds[k]@,
{
    assert(cmds.take(k + 1).drop_last() =~= cmds.take(k));
    assert(cmds.take(k + 1).last() == cmds[k]);
}

impl<Message: Send + 'static> Command<Message> {
    /// A command that performs no work.
    pub fn none() -> (r: Self)
        ensures
            r@ =~= Seq::<Task<Message>>::empty(),
    {
        Command { tasks: Vec::new() }
    }

    /// A command whose single task resolves immediately to exactly the given
    /// message.
    pub fn message(message: Message) -> (r: Self)
        ensures
            r@.len() == 1,
            r@[0].resolution() == Some(Some(message)),
    {
        Command { tasks: vec![task_ready(message)] }
    }

    /// A command whose single task performs the future's work and delivers
    /// its result as a message; the outside work decides the result.
    pub fn async_<Fut>(future: Fut) -> (r: Self)
        where
            Fut: core::future::Future<Output = Message> + Send + 'static,
        ensures
            r@.len() == 1,
            r@[0].resolution() is None,
    {
        Command { tasks: vec![task_from_message_future(future)] }
    }

    /// The primitive constructor: a command whose single task performs the
    /// future's work; a `None` result delivers no message. The outside work
    /// decides the result.
    pub fn from_optional_future<Fut>(future: Fut) -> (r: Self)
        where
            Fut: core::future::Future<Output = Option<Message>> + Send + 'static,
        ensures
            r@.len() == 1,
            r@[0].resolution() is None,
    {
        Command { tasks: vec![task_from_future(future)] }
    }

    /// A command whose single task runs a synchronous computation and
    /// delivers its result as a message; the computation decides the result.
    pub fn perform<F>(op: F) -> (r: Self)
        where
            F: FnOnce() -> Message + Send + 'static,
        ensures
            r@.len() == 1,
            r@[0].resolution() is None,
    {
        Command { tasks: vec![task_from_fn(op)] }
    }

    /// Concatenates the tasks of all given commands, in input order. Nothing
    /// is executed, lost or duplicated: the resulting task sequence, each
    /// task carrying its resolution model, is exactly the concatenation.
    pub fn batch(commands: Vec<Command<Message>>) -> (r: Self)
        ensures
            r@ == tasks_of(commands@),
    {
        let ghost orig: Seq<Command<Message>> = commands@;
        let mut commands = commands;
        let mut tasks: Vec<Task<Message>> = Vec::new();
        let ghost mut k: int = 0;
        while commands.len() > 0
            invariant
                0 <= k <= orig.len(),
                commands@ =~= orig.skip(k),
                tasks@ == tasks_of(orig.take(k)),
            decreases commands@.len(),
        {
            let mut command = commands.remove(0);
            tasks.append(&mut command.tasks);
            proof {
                lemma_tasks_of_step(orig, k);
                k = k + 1;
                assert(commands@ =~= orig.skip(k));
            }
        }
        proof {
            assert(orig.take(k) =~= orig);
        }
        Command { tasks }
    }

    /// Transforms the message type: every eventual `Some` result is passed
    /// through `f` when the task resolves, not now. Task for task, the
    /// resolution model is mapped through `f`.
    pub fn map<Output, F>(self, f: F) -> (r: Command<Output>)
        where
            Output: Send + 'static,
            F: Fn(Message) -> Output + Send + Sync + 'static,
        requires
            forall|m: Message| #[trigger] call_requires(f, (m,)),
        ensures
            r@.len() == self@.len(),
            forall|i: int|
                0 <= i < self@.len() ==> #[trigger] maps_resolution(self@[i], r@[i], f),
    {
        let ghost n = self@.len();
        let ghost source: Seq<Task<Message>> = self@;
        let arc = Arc::new(f);
        let Command { tasks: mut tasks_in } = self;
        let mut tasks: Vec<Task<Output>> = Vec::new();
        while tasks_in.len() > 0
            invariant
                tasks@.len() + tasks_in@.len() == n,
                source.len() == n,
                tasks_in@ =~= source.skip(tasks@.len() as int),
                arc == f,
                forall|m: Message| #[trigger] call_requires(f, (m,)),
                forall|i: int|
                    0 <= i < tasks@.len() ==> #[trigger] maps_resolution(
                        source[i],
                        tasks@[i],
                        f,
                    ),
            decreases tasks_in@.len(),
        {
            let ghost done = tasks@.len() as int;
            let task = tasks_in.remove(0);
            proof {
                assert(task == source[done]);
            }
            tasks.push(task_map(task, &arc));
            proof {
                assert(tasks_in@ =~= source.skip(tasks@.len() as int));
            }
        }
        Command { tasks }
    }

    /// Hands out the tasks, in order, for the driver to schedule.
    pub fn into_futures(self) -> (r: Vec<Task<Message>>)
        ensures
            r@ == self@,
    {
        self.tasks
    }
}

impl<Message: Send + 'static> Default for Command<Message> {
    /// The default command performs no work.
    fn default() -> (r: Self)
        ensures
            r@.len() == 0,
    {
        Command::none()
    }
}

} // verus!
