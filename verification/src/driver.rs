//! The runtime driver: owns the model, the mailbox, the asynchronous
//! execution substrate and the running subscription task, and drives one
//! frame of the host toolkit's redraw loop.
//!
//! Per frame: drain the mailbox without blocking, folding each message
//! through `update` strictly in dequeue order; schedule every task of each
//! returned command; after each message, re-derive the subscription and run
//! the identity diff, restarting the stream only when the identity changed;
//! finally invoke `view` with a fresh view context.

use vstd::prelude::*;

use futures::channel::mpsc::{UnboundedReceiver, UnboundedSender};
use futures::{FutureExt, StreamExt};

use crate::command::{Command, Task};
use crate::mailbox::{mailbox_channel, mailbox_send, mailbox_try_next, sender_clone};
use crate::program::{Program, lemma_steps_snoc};
use crate::subscription::{
    IntoSubscription, MessageStream, StreamKind, same_identity, should_restart,
};
use crate::token::{SubscriptionToken, TokenView, opt_token_view};
use crate::view::ViewContext;

verus! {

/// At most this many messages are folded in one frame, so a single redraw
/// tick always takes bounded work; whatever is left is drained on the next
/// tick, which the driver requests unconditionally.
pub const FRAME_DRAIN_LIMIT: usize = 512;

#[verifier::external_type_specification]
#[verifier::external_body]
pub struct ExRuntime(tokio::runtime::Runtime);

#[verifier::external_type_specification]
#[verifier::external_body]
pub struct ExHandle(tokio::runtime::Handle);

#[verifier::external_type_specification]
#[verifier::external_body]
#[verifier::reject_recursive_types(T)]
pub struct ExJoinHandle<T>(tokio::task::JoinHandle<T>);

#[verifier::external_type_specification]
#[verifier::external_body]
pub struct ExJoinError(tokio::task::JoinError);

/// Relies on tokio::runtime::Handle::try_current: yields a handle onto the
/// ambient runtime when the caller already lives inside one, and `None`
/// otherwise.
#[verifier::external_body]
fn ambient_handle() -> Option<tokio::runtime::Handle> {
    tokio::runtime::Handle::try_current().ok()
}

/// Relies on tokio::runtime::Runtime::new: creates a private multi-threaded
/// runtime; the error is the one fatal startup condition, rendered as text.
#[verifier::external_body]
fn new_runtime() -> Result<tokio::runtime::Runtime, String> {
    match tokio::runtime::Runtime::new() {
        Ok(runtime) => Ok(runtime),
        Err(e) => Err(format!("{e}")),
    }
}

/// Relies on tokio::runtime::Runtime::handle and Handle::clone: a handle onto
/// the same runtime.
#[verifier::external_body]
fn runtime_handle(runtime: &tokio::runtime::Runtime) -> tokio::runtime::Handle {
    runtime.handle().clone()
}

/// Applied to each completed command task's result: a `Some` message is
/// enqueued onto the mailbox, a `None` result delivers nothing. The driver's
/// drop rule for empty resolutions, in verified code.
pub(crate) fn forward_resolution<Message: Send + 'static>(
    sender: &UnboundedSender<Message>,
    result: Option<Message>,
) {
    match result {
        Some(message) => mailbox_send(sender, message),
        None => (),
    }
}

/// Relies on tokio::runtime::Handle::spawn and futures::FutureExt::map: runs
/// the task on the substrate and hands its eventual result to
/// `forward_resolution`, which enqueues a `Some` message and drops a `None`;
/// a delivery failure (consumer gone) is silently swallowed.
#[verifier::external_body]
fn spawn_forwarding_task<Message: Send + 'static>(
    handle: &tokio::runtime::Handle,
    task: Task<Message>,
    sender: UnboundedSender<Message>,
) {
    handle.spawn(task.work.fut.map(move |result| forward_resolution(&sender, result)));
}

/// Relies on tokio::runtime::Handle::spawn and futures::StreamExt::for_each:
/// forwards every value the stream yields to the mailbox, in stream order,
/// until the stream ends or the task is aborted; delivery failures are
/// silently swallowed by the send.
#[verifier::external_body]
fn spawn_stream_task<Message: Send + 'static>(
    handle: &tokio::runtime::Handle,
    stream: MessageStream<Message>,
    sender: UnboundedSender<Message>,
) -> tokio::task::JoinHandle<()> {
    handle.spawn(stream.work.stream.for_each(move |message| {
        mailbox_send(&sender, message);
        futures::future::ready(())
    }))
}

/// Relies on tokio::task::JoinHandle::abort: cancels the task promptly,
/// best-effort; items already enqueued past the cancellation point stay in
/// the mailbox.
#[verifier::external_body]
fn abort_task(handle: tokio::task::JoinHandle<()>) {
    handle.abort();
}

/// The asynchronous execution substrate: either a handle adopted from the
/// ambient runtime of the embedding process, or a privately owned runtime
/// that lives and dies with the driver. Adopting avoids double-initializing a
/// process-wide substrate.
pub struct TokioRuntime {
    owned: Option<tokio::runtime::Runtime>,
    handle: tokio::runtime::Handle,
}

impl TokioRuntime {
    /// True when the substrate was adopted from the ambient runtime rather
    /// than privately created and owned.
    pub closed spec fn spec_adopted(&self) -> bool {
        self.owned is None
    }

    /// Whether the substrate was adopted rather than privately created.
    pub fn adopted(&self) -> (b: bool)
        ensures
            b == self.spec_adopted(),
    {
        self.owned.is_none()
    }

    /// Detects and adopts an ambient runtime; failing that, creates a private
    /// one. `Err` is the one fatal startup condition: no substrate could be
    /// acquired, and the run must abort before any frame executes.
    pub fn try_current_or_new() -> Result<TokioRuntime, String> {
        match ambient_handle() {
            Some(handle) => Ok(TokioRuntime { owned: None, handle }),
            None => match new_runtime() {
                Ok(runtime) => {
                    let handle = runtime_handle(&runtime);
                    Ok(TokioRuntime { owned: Some(runtime), handle })
                },
                Err(e) => Err(e),
            },
        }
    }
}

/// The runtime driver. Owns exactly one model, one mailbox, one execution
/// substrate and at most one running subscription task.
#[verifier::reject_recursive_types(Message)]
pub struct ElmApp<Model, Message: Send + 'static, Ctx, Sub, FInit, FUpdate, FView, FSub> {
    program: Program<Model, Message, Ctx, Sub, FInit, FUpdate, FView, FSub>,
    model: Model,
    runtime: TokioRuntime,
    mailbox_sender: UnboundedSender<Message>,
    mailbox_receiver: UnboundedReceiver<Message>,
    subscription_task: Option<tokio::task::JoinHandle<()>>,
    subscription_token: Option<SubscriptionToken>,
    running_kind: Ghost<Option<StreamKind>>,
    scheduled: Ghost<Seq<Task<Message>>>,
}

impl<Model, Message, Ctx, Sub, FInit, FUpdate, FView, FSub> ElmApp<
    Model,
    Message,
    Ctx,
    Sub,
    FInit,
    FUpdate,
    FView,
    FSub,
> where
    Message: Send + 'static,
    Sub: IntoSubscription<Message>,
    FInit: Fn(&Ctx) -> (Model, Command<Message>),
    FUpdate: Fn(&Model, Message) -> (Model, Command<Message>),
    FView: Fn(&Model, &Ctx, &ViewContext<Message>),
    FSub: Fn(&Model) -> Sub,
 {
    /// The program being run.
    pub closed spec fn spec_program(&self) -> Program<
        Model,
        Message,
        Ctx,
        Sub,
        FInit,
        FUpdate,
        FView,
        FSub,
    > {
        self.program
    }

    /// The current model.
    pub closed spec fn spec_model(&self) -> Model {
        self.model
    }

    /// The identity of the running subscription, if any.
    pub closed spec fn spec_token(&self) -> Option<TokenView> {
        opt_token_view(self.subscription_token)
    }

    /// The running subscription task handle, if any; contracts use it to
    /// state that the running stream was kept untouched.
    pub closed spec fn spec_task(&self) -> Option<tokio::task::JoinHandle<()>> {
        self.subscription_task
    }

    /// The shape of the stream the running subscription task is forwarding,
    /// if a task is running.
    pub closed spec fn spec_running_kind(&self) -> Option<StreamKind> {
        self.running_kind@
    }

    /// The log of every command task handed to the substrate so far, in
    /// scheduling order, each carrying its resolution model.
    pub closed spec fn spec_scheduled(&self) -> Seq<Task<Message>> {
        self.scheduled@
    }

    /// The outcome of one identity diff, taken against model `model` with the
    /// previous bookkeeping `prev_*`: for some subscription `s` the program
    /// may derive from `model`, the stored token is `s`'s identity; when it
    /// matched the previous token, token, task handle and running stream were
    /// all left untouched; otherwise a task forwarding exactly `s`'s stream
    /// is running.
    pub open spec fn diff_outcome(
        program: Program<Model, Message, Ctx, Sub, FInit, FUpdate, FView, FSub>,
        model: Model,
        prev_token: Option<TokenView>,
        prev_task: Option<tokio::task::JoinHandle<()>>,
        prev_running: Option<StreamKind>,
        post: Self,
    ) -> bool {
        exists|s: Sub|
            {
                &&& #[trigger] program.derives(model, s)
                &&& post.spec_token() == s.identity_spec()
                &&& (same_identity(prev_token, s.identity_spec()) ==> post.spec_token()
                    == prev_token && post.spec_task() == prev_task && post.spec_running_kind()
                    == prev_running)
                &&& (!same_identity(prev_token, s.identity_spec()) ==> post.spec_task() is Some
                    && post.spec_running_kind() == Some(s.stream_spec().spec_kind()))
            }
    }

    /// The stored token is the identity of a subscription the program may
    /// derive from `model`.
    pub open spec fn token_derived(
        program: Program<Model, Message, Ctx, Sub, FInit, FUpdate, FView, FSub>,
        model: Model,
        post: Self,
    ) -> bool {
        exists|s: Sub|
            #[trigger] program.derives(model, s) && post.spec_token() == s.identity_spec()
    }

    /// A driver whose program accepts every input the frame protocol hands
    /// it.
    pub open spec fn wf(&self) -> bool {
        self.spec_program().wf()
    }

    /// Builds the driver: creates the mailbox, schedules the initial
    /// command's tasks, and starts the initial subscription.
    pub fn new(
        program: Program<Model, Message, Ctx, Sub, FInit, FUpdate, FView, FSub>,
        model: Model,
        initial_command: Command<Message>,
        runtime: TokioRuntime,
    ) -> (r: Self)
        requires
            program.wf(),
        ensures
            r.wf(),
            r.spec_program() == program,
            r.spec_model() == model,
            r.spec_scheduled() == initial_command@,
            exists|s: Sub|
                {
                    &&& #[trigger] program.derives(model, s)
                    &&& r.spec_token() == s.identity_spec()
                    &&& r.spec_task() is Some
                    &&& r.spec_running_kind() == Some(s.stream_spec().spec_kind())
                },
    {
        let (mailbox_sender, mailbox_receiver) = mailbox_channel();
        let mut app = ElmApp {
            program,
            model,
            runtime,
            mailbox_sender,
            mailbox_receiver,
            subscription_task: None,
            subscription_token: None,
            running_kind: Ghost(None),
            scheduled: Ghost(Seq::empty()),
        };
        app.enqueue_command(initial_command);
        proof {
            assert(app.spec_scheduled() =~= initial_command@);
        }
        app.restart_subscription();
        app
    }

    /// Reads the current model.
    pub fn model(&self) -> (r: &Model)
        ensures
            *r == self.spec_model(),
    {
        &self.model
    }

    /// Mutable access to the model, for the host's persistence and exit
    /// hooks, which are pass-through calls with no runtime-owned logic.
    pub fn model_mut(&mut self) -> (r: &mut Model)
        ensures
            *r == old(self).spec_model(),
            final(self).spec_model() == *final(r),
            final(self).spec_program() == old(self).spec_program(),
            final(self).spec_token() == old(self).spec_token(),
            final(self).spec_task() == old(self).spec_task(),
            final(self).spec_running_kind() == old(self).spec_running_kind(),
            final(self).spec_scheduled() == old(self).spec_scheduled(),
    {
        &mut self.model
    }

    /// Reads the identity of the running subscription.
    pub fn current_identity(&self) -> (r: &Option<SubscriptionToken>)
        ensures
            opt_token_view(*r) == self.spec_token(),
    {
        &self.subscription_token
    }

    /// Extracts the command's tasks and schedules each onto the substrate
    /// exactly once, in order, wrapped so that an eventual `Some` message
    /// lands in the mailbox; the command is consumed and never persisted, and
    /// the call never awaits a task. The scheduled log grows by exactly the
    /// command's tasks. Returns how many tasks were scheduled.
    pub fn enqueue_command(&mut self, command: Command<Message>) -> (n: usize)
        ensures
            n == command@.len(),
            final(self).spec_scheduled() == old(self).spec_scheduled() + command@,
            final(self).spec_program() == old(self).spec_program(),
            final(self).spec_model() == old(self).spec_model(),
            final(self).spec_token() == old(self).spec_token(),
            final(self).spec_task() == old(self).spec_task(),
            final(self).spec_running_kind() == old(self).spec_running_kind(),
    {
        let ghost source: Seq<Task<Message>> = command@;
        let mut tasks = command.into_futures();
        let total_tasks = tasks.len();
        let ghost total: int = total_tasks as int;
        let mut n: usize = 0;
        while tasks.len() > 0
            invariant
                n + tasks@.len() == total,
                total <= usize::MAX,
                source.len() == total,
                tasks@ =~= source.skip(n as int),
                self.spec_scheduled() == old(self).spec_scheduled() + source.take(n as int),
                self.spec_program() == old(self).spec_program(),
                self.spec_model() == old(self).spec_model(),
                self.spec_token() == old(self).spec_token(),
                self.spec_task() == old(self).spec_task(),
                self.spec_running_kind() == old(self).spec_running_kind(),
            decreases tasks@.len(),
        {
            let task = tasks.remove(0);
            let ghost handed = task;
            spawn_forwarding_task(&self.runtime.handle, task, sender_clone(&self.mailbox_sender));
            self.scheduled = Ghost(self.scheduled@.push(handed));
            n = n + 1;
            proof {
                assert(handed == source[n - 1]);
                assert(source.take(n - 1).push(handed) =~= source.take(n as int));
                assert(tasks@ =~= source.skip(n as int));
            }
        }
        proof {
            assert(source.take(n as int) =~= source);
        }
        n
    }

    /// Re-derives the subscription from the current model and runs the
    /// identity diff, one atomic decision: when both the stored and the newly
    /// derived identity are present and equal, the running stream is left
    /// untouched; otherwise the running task (if any) is cancelled, the new
    /// stream started, and the stored identity replaced.
    pub fn restart_subscription(&mut self)
        requires
            old(self).wf(),
        ensures
            final(self).wf(),
            final(self).spec_program() == old(self).spec_program(),
            final(self).spec_model() == old(self).spec_model(),
            final(self).spec_scheduled() == old(self).spec_scheduled(),
            Self::diff_outcome(
                old(self).spec_program(),
                old(self).spec_model(),
                old(self).spec_token(),
                old(self).spec_task(),
                old(self).spec_running_kind(),
                *final(self),
            ),
    {
        let subscription = (self.program.subscription)(&self.model);
        let ghost derived = subscription;
        let identity = subscription.identity();
        if !should_restart(&self.subscription_token, &identity) {
            proof {
                assert(old(self).spec_program().derives(old(self).spec_model(), derived));
            }
            return ;
        }
        let previous = self.subscription_task.take();
        if let Some(handle) = previous {
            abort_task(handle);
        }
        let stream = subscription.into_stream();
        self.running_kind = Ghost(Some(stream.spec_kind()));
        let task = spawn_stream_task(
            &self.runtime.handle,
            stream,
            sender_clone(&self.mailbox_sender),
        );
        self.subscription_task = Some(task);
        self.subscription_token = identity;
        proof {
            assert(old(self).spec_program().derives(old(self).spec_model(), derived));
        }
    }

    /// Folds one message into the model through `update`, schedules every
    /// task of the returned command (the scheduled log grows by exactly that
    /// command's tasks), and re-runs the subscription diff.
    pub fn handle_message(&mut self, message: Message)
        requires
            old(self).wf(),
        ensures
            final(self).wf(),
            final(self).spec_program() == old(self).spec_program(),
            old(self).spec_program().transitions(
                old(self).spec_model(),
                message,
                final(self).spec_model(),
            ),
            exists|c: Command<Message>|
                {
                    &&& #[trigger] old(self).spec_program().step(
                        old(self).spec_model(),
                        message,
                        final(self).spec_model(),
                        c,
                    )
                    &&& final(self).spec_scheduled() == old(self).spec_scheduled() + c@
                },
            Self::diff_outcome(
                old(self).spec_program(),
                final(self).spec_model(),
                old(self).spec_token(),
                old(self).spec_task(),
                old(self).spec_running_kind(),
                *final(self),
            ),
    {
        let (model, command) = (self.program.update)(&self.model, message);
        let ghost step_command = command;
        self.model = model;
        self.enqueue_command(command);
        self.restart_subscription();
        proof {
            assert(old(self).spec_program().step(
                old(self).spec_model(),
                message,
                final(self).spec_model(),
                step_command,
            ) && final(self).spec_scheduled() == old(self).spec_scheduled() + step_command@);
        }
    }

    /// Drains the mailbox without blocking: pops messages one at a time and
    /// folds each through `update`, strictly in dequeue order, until the
    /// mailbox reports empty or the per-frame bound is reached. The bound is
    /// deliberate: one redraw tick must never block nor do unbounded work,
    /// and whatever remains is drained on the next tick, which the host
    /// requests unconditionally. Returns how many messages were applied.
    pub fn drain_mailbox(&mut self) -> (n: usize)
        requires
            old(self).wf(),
        ensures
            final(self).wf(),
            final(self).spec_program() == old(self).spec_program(),
            exists|msgs: Seq<Message>|
                msgs.len() == n && #[trigger] old(self).spec_program().steps(
                    old(self).spec_model(),
                    msgs,
                    final(self).spec_model(),
                ),
            final(self).spec_model() == old(self).spec_model() || Self::token_derived(
                old(self).spec_program(),
                final(self).spec_model(),
                *final(self),
            ),
            n == 0 ==> {
                &&& final(self).spec_token() == old(self).spec_token()
                &&& final(self).spec_task() == old(self).spec_task()
                &&& final(self).spec_running_kind() == old(self).spec_running_kind()
                &&& final(self).spec_scheduled() == old(self).spec_scheduled()
            },
    {
        let ghost program0 = self.spec_program();
        let ghost model0 = self.spec_model();
        let ghost token0 = self.spec_token();
        let ghost task0 = self.spec_task();
        let ghost running0 = self.spec_running_kind();
        let ghost scheduled0 = self.spec_scheduled();
        let ghost mut msgs: Seq<Message> = Seq::empty();
        let mut n: usize = 0;
        let mut empty = false;
        while n < FRAME_DRAIN_LIMIT && !empty
            invariant
                n <= FRAME_DRAIN_LIMIT,
                msgs.len() == n,
                self.wf(),
                self.spec_program() == program0,
                program0.steps(model0, msgs, self.spec_model()),
                n == 0 ==> self.spec_token() == token0 && self.spec_task() == task0
                    && self.spec_running_kind() == running0 && self.spec_model() == model0
                    && self.spec_scheduled() == scheduled0,
                n > 0 ==> Self::token_derived(program0, self.spec_model(), *self),
            decreases FRAME_DRAIN_LIMIT - n, if empty { 0int } else { 1int },
        {
            match mailbox_try_next(&mut self.mailbox_receiver) {
                Some(message) => {
                    let ghost before = self.spec_model();
                    self.handle_message(message);
                    proof {
                        lemma_steps_snoc(
                            program0,
                            model0,
                            msgs,
                            before,
                            message,
                            self.spec_model(),
                        );
                        msgs = msgs.push(message);
                    }
                    n = n + 1;
                },
                None => {
                    empty = true;
                },
            }
        }
        n
    }

    /// Runs one frame of the per-frame protocol: drains the mailbox, then
    /// invokes `view` on the current model with a fresh view context bound to
    /// a clone of the mailbox producer. The host requests the next redraw
    /// tick itself, unconditionally. Returns how many messages were applied.
    pub fn run_frame(&mut self, ctx: &Ctx) -> (n: usize)
        requires
            old(self).wf(),
        ensures
            final(self).wf(),
            final(self).spec_program() == old(self).spec_program(),
            exists|msgs: Seq<Message>|
                msgs.len() == n && #[trigger] old(self).spec_program().steps(
                    old(self).spec_model(),
                    msgs,
                    final(self).spec_model(),
                ),
            final(self).spec_model() == old(self).spec_model() || Self::token_derived(
                old(self).spec_program(),
                final(self).spec_model(),
                *final(self),
            ),
    {
        let n = self.drain_mailbox();
        let view_context = ViewContext::new(sender_clone(&self.mailbox_sender));
        (self.program.view)(&self.model, ctx, &view_context);
        n
    }

    /// Teardown: cancels the running subscription task, if any. Everything
    /// else is released by ownership.
    pub fn shutdown(&mut self)
        ensures
            final(self).spec_task() is None,
            final(self).spec_running_kind() is None,
            final(self).spec_program() == old(self).spec_program(),
            final(self).spec_model() == old(self).spec_model(),
            final(self).spec_scheduled() == old(self).spec_scheduled(),
    {
        let previous = self.subscription_task.take();
        if let Some(handle) = previous {
            abort_task(handle);
        }
        self.running_kind = Ghost(None);
    }
}

} // verus!
