//! Tasks are lightweight, isolated, pre-emptively scheduled JavaScript
//! execution threads.
//!
//! This module holds the decisions that drive a task from creation to
//! completion: a state machine that is handed what happened (an event) and
//! answers with what to do next (an action). Errors are caught and
//! propagated to, in this order, the task's children, its parent (if any),
//! and the Starling supervisor.
use vstd::prelude::*;
use vstd::string::*;
use crate::decimal::{decimal, decimal_string};
use crate::error::{Error, ErrorKind};
use crate::task_table::{TaskTable, ids_of, lookup, removed};

verus! {

/// A unique identifier for some task.
#[derive(Clone, Copy, Debug, PartialEq, Eq, Hash, Structural)]
pub struct TaskId {
    /// The number that identifies the task's thread.
    pub id: u64,
}

/// Messages that can be sent to a task.
#[derive(Debug)]
pub enum TaskMessage {
    /// A shutdown request sent from a parent task to its child.
    Shutdown,
    /// A notification that a child task finished OK. Sent from a child task to
    /// its parent.
    ChildTaskFinished {
        /// The ID of the child task that finished OK.
        child: TaskId,
    },
    /// A notification that a child task failed. Sent from the failed child task
    /// to its parent.
    ChildTaskErrored {
        /// The ID of the child task that failed.
        child: TaskId,
        /// The error that the child task failed with.
        error: Error,
    },
    /// A notification of an unhandled rejected promise. Sent from a future in
    /// the receiving task's own thread.
    UnhandledRejectedPromise {
        /// The rejection error value that was not handled.
        error: Error,
    },
}

/// What came of reading and evaluating the task's JavaScript file.
#[derive(Debug)]
pub enum ModuleOutcome {
    /// The file has not been read yet.
    NotReady,
    /// Reading or evaluating the file failed.
    Failed(Error),
    /// The file was evaluated, and it has no `main` returning a promise.
    NoPromise,
    /// The file was evaluated, and its `main` returned a promise to wait on.
    Promise,
}

/// What happened since the last step of a task.
#[derive(Debug)]
pub enum TaskEvent {
    /// The task is polled for the first time.
    Start,
    /// The task's JavaScript file was polled.
    Module(ModuleOutcome),
    /// No message is waiting in the task's channel.
    MessageNotReady,
    /// Reading the task's channel failed.
    MessageChannelError,
    /// The task's channel was closed.
    MessageChannelClosed,
    /// A message arrived on the task's channel.
    Message(TaskMessage),
    /// The `main` promise has not settled yet.
    PromiseNotReady,
    /// Waiting on the `main` promise failed.
    PromiseFailed(Error),
    /// The `main` promise was rejected with the given error.
    PromiseRejected(Error),
    /// The `main` promise was resolved.
    PromiseResolved,
    /// A child's error was sent to the promise that waits on it: `true` if
    /// the promise was still there to receive it.
    ChildResultSent(bool),
    /// The micro-task queue was drained, with the given result.
    MicroTasksDrained(Result<(), Error>),
    /// The shutdown requests to the children have been sent.
    ShutdownsSent,
    /// The notification to the parent has been sent (or failed to be).
    ParentNotified,
    /// The notification to the Starling supervisor has been sent.
    StarlingNotified,
}

/// What the task must do next.
#[derive(Debug)]
pub enum TaskAction<C> {
    /// Start reading the task's JavaScript file on the synchronous IO pool.
    ReadJsModule,
    /// Keep waiting on the JavaScript file.
    AwaitModule,
    /// Poll the `main` promise.
    PollPromise,
    /// Nothing is ready: wait to be woken up, then poll the channel again.
    Park,
    /// Poll the channel again right away.
    Continue,
    /// Tell the promise waiting on this child that it finished OK (ignoring
    /// whether anyone still listens), then drain the micro-task queue.
    ResolveChild(C),
    /// Tell the promise waiting on this child that it failed with this error,
    /// and report whether that promise was still there to hear it.
    RejectChild(C, Error),
    /// Drain the micro-task queue.
    DrainMicroTasks,
    /// Send a shutdown request to each of these children.
    ShutdownChildren(Vec<(u64, C)>),
    /// Send this message to the parent task.
    NotifyParent(TaskMessage),
    /// Tell the Starling supervisor that the task finished OK.
    NotifyStarlingFinished(TaskId),
    /// Tell the Starling supervisor that the task failed with this error.
    NotifyStarlingErrored(TaskId, Error),
    /// The task is complete.
    Done,
}

/// Where a task is in its life.
#[derive(Debug)]
pub enum TaskPhase {
    /// Created, but no JavaScript evaluated yet.
    Created,
    /// Waiting on the JavaScript source text.
    ReadingJsModule,
    /// Waiting on the `main` promise, handling incoming messages meanwhile.
    WaitingOnPromise,
    /// No message was waiting; the `main` promise is being polled.
    PollingPromise,
    /// A child's error is being handed to the promise that waits on it.
    DeliveringChildError {
        /// The child's error.
        error: Error,
    },
    /// The micro-task queue is being drained after a child's result.
    DrainingMicroTasks,
    /// Finished OK; the children are being shut down.
    ShutdownChildrenFinished,
    /// Finished OK; the parent is being notified.
    NotifyParentFinished,
    /// Finished OK; the Starling supervisor is being notified.
    NotifyStarlingFinished,
    /// Failed; the children are being shut down.
    ShutdownChildrenErrored {
        /// The error the task failed with.
        error: Error,
    },
    /// Failed; the parent is being notified.
    NotifyParentErrored {
        /// The error the task failed with.
        error: Error,
    },
    /// Failed; the Starling supervisor is being notified.
    NotifyStarlingErrored,
    /// Done notifying everyone.
    Finished,
}

/// The abstract state of a task.
pub ghost struct TaskView<C> {
    /// The task's ID.
    pub id: TaskId,
    /// Whether the task still has a parent to notify.
    pub has_parent: bool,
    /// Where the task is in its life.
    pub phase: TaskPhase,
    /// The task's children, by ID, in the order they were spawned.
    pub children: Seq<(u64, C)>,
}

/// The text of the error for a message about a task that is not a child.
pub open spec fn not_a_child_message(child: TaskId) -> Seq<char> {
    "task received message for child that isn't actually a child: TaskId("@ + decimal(
        child.id as nat,
    ) + ")"@
}

/// Which events a task in the given phase is waiting for.
pub open spec fn accepts(phase: TaskPhase, event: TaskEvent) -> bool {
    match phase {
        TaskPhase::Created => event is Start,
        TaskPhase::ReadingJsModule => event is Module,
        TaskPhase::WaitingOnPromise => {
            ||| event is MessageNotReady
            ||| event is MessageChannelError
            ||| event is MessageChannelClosed
            ||| event is Message
        },
        TaskPhase::PollingPromise => {
            ||| event is PromiseNotReady
            ||| event is PromiseFailed
            ||| event is PromiseRejected
            ||| event is PromiseResolved
        },
        TaskPhase::DeliveringChildError { .. } => event is ChildResultSent,
        TaskPhase::DrainingMicroTasks => event is MicroTasksDrained,
        TaskPhase::ShutdownChildrenFinished => event is ShutdownsSent,
        TaskPhase::ShutdownChildrenErrored { .. } => event is ShutdownsSent,
        TaskPhase::NotifyParentFinished => event is ParentNotified,
        TaskPhase::NotifyParentErrored { .. } => event is ParentNotified,
        TaskPhase::NotifyStarlingFinished => event is StarlingNotified,
        TaskPhase::NotifyStarlingErrored => event is StarlingNotified,
        TaskPhase::Finished => false,
    }
}

/// The task keeps its ID, its parent and its children, and moves to `phase`.
pub open spec fn moves_to<C>(pre: TaskView<C>, post: TaskView<C>, phase: TaskPhase) -> bool {
    post == TaskView { phase, ..pre }
}

/// The task fails with an error whose text is `message`: every child is
/// handed to a shutdown request, and the task starts shutting down.
pub open spec fn propagates<C>(
    pre: TaskView<C>,
    post: TaskView<C>,
    action: TaskAction<C>,
    message: Seq<char>,
) -> bool {
    &&& post.id == pre.id
    &&& post.has_parent == pre.has_parent
    &&& post.children == Seq::<(u64, C)>::empty()
    &&& post.phase matches TaskPhase::ShutdownChildrenErrored { error } && error.spec_message()
        == message
    &&& action matches TaskAction::ShutdownChildren(all) && all@ == pre.children
}

/// The task fails with exactly this error.
pub open spec fn propagates_error<C>(
    pre: TaskView<C>,
    post: TaskView<C>,
    action: TaskAction<C>,
    error: Error,
) -> bool {
    &&& propagates(pre, post, action, error.spec_message())
    &&& post.phase == TaskPhase::ShutdownChildrenErrored { error }
}

/// The task fails because its channel could not be read.
pub open spec fn propagates_channel_failure<C>(
    pre: TaskView<C>,
    post: TaskView<C>,
    action: TaskAction<C>,
) -> bool {
    &&& propagates(pre, post, action, "Could not read a value from a channel"@)
    &&& post.phase matches TaskPhase::ShutdownChildrenErrored { error } && error.spec_kind()
        == ErrorKind::CouldNotReadValueFromChannel
}

/// The task finishes OK, keeping or dropping its parent as `has_parent`
/// says: every child is handed to a shutdown request, and the task starts
/// shutting down.
pub open spec fn finishes<C>(
    pre: TaskView<C>,
    post: TaskView<C>,
    action: TaskAction<C>,
    has_parent: bool,
) -> bool {
    &&& post.id == pre.id
    &&& post.has_parent == has_parent
    &&& post.children == Seq::<(u64, C)>::empty()
    &&& post.phase == TaskPhase::ShutdownChildrenFinished
    &&& action matches TaskAction::ShutdownChildren(all) && all@ == pre.children
}

/// One step of a task: from `pre`, on `event`, the task reaches `post` and
/// must perform `action`.
pub open spec fn step_spec<C>(
    pre: TaskView<C>,
    event: TaskEvent,
    post: TaskView<C>,
    action: TaskAction<C>,
) -> bool {
    match pre.phase {
        TaskPhase::Created => moves_to(pre, post, TaskPhase::ReadingJsModule) && action
            is ReadJsModule,
        TaskPhase::ReadingJsModule => match event {
            TaskEvent::Module(ModuleOutcome::NotReady) => post == pre && action is AwaitModule,
            TaskEvent::Module(ModuleOutcome::Failed(e)) => propagates_error(pre, post, action, e),
            TaskEvent::Module(ModuleOutcome::NoPromise) => finishes(
                pre,
                post,
                action,
                pre.has_parent,
            ),
            TaskEvent::Module(ModuleOutcome::Promise) => moves_to(
                pre,
                post,
                TaskPhase::WaitingOnPromise,
            ) && action is Continue,
            _ => false,
        },
        TaskPhase::WaitingOnPromise => match event {
            TaskEvent::MessageNotReady => moves_to(pre, post, TaskPhase::PollingPromise) && action
                is PollPromise,
            TaskEvent::MessageChannelError => propagates_channel_failure(pre, post, action),
            TaskEvent::MessageChannelClosed => propagates_channel_failure(pre, post, action),
            TaskEvent::Message(TaskMessage::UnhandledRejectedPromise { error }) => propagates_error(
                pre,
                post,
                action,
                error,
            ),
            TaskEvent::Message(TaskMessage::Shutdown) => finishes(pre, post, action, false),
            TaskEvent::Message(TaskMessage::ChildTaskFinished { child }) => {
                if ids_of(pre.children).contains(child.id) {
                    &&& post == TaskView {
                        phase: TaskPhase::DrainingMicroTasks,
                        children: removed(pre.children, child.id),
                        ..pre
                    }
                    &&& action matches TaskAction::ResolveChild(c) && Some(c) == lookup(
                        pre.children,
                        child.id,
                    )
                } else {
                    propagates(pre, post, action, not_a_child_message(child))
                }
            },
            TaskEvent::Message(TaskMessage::ChildTaskErrored { child, error }) => {
                if ids_of(pre.children).contains(child.id) {
                    &&& post == TaskView {
                        phase: TaskPhase::DeliveringChildError { error },
                        children: removed(pre.children, child.id),
                        ..pre
                    }
                    &&& action matches TaskAction::RejectChild(c, e) && Some(c) == lookup(
                        pre.children,
                        child.id,
                    ) && e.spec_message() == error.spec_message()
                } else {
                    propagates(pre, post, action, not_a_child_message(child))
                }
            },
            _ => false,
        },
        TaskPhase::PollingPromise => match event {
            TaskEvent::PromiseNotReady => moves_to(pre, post, TaskPhase::WaitingOnPromise)
                && action is Park,
            TaskEvent::PromiseFailed(e) => propagates_error(pre, post, action, e),
            TaskEvent::PromiseRejected(e) => propagates_error(pre, post, action, e),
            TaskEvent::PromiseResolved => finishes(pre, post, action, pre.has_parent),
            _ => false,
        },
        TaskPhase::DeliveringChildError { error } => match event {
            TaskEvent::ChildResultSent(true) => moves_to(pre, post, TaskPhase::DrainingMicroTasks)
                && action is DrainMicroTasks,
            TaskEvent::ChildResultSent(false) => propagates_error(pre, post, action, error),
            _ => false,
        },
        TaskPhase::DrainingMicroTasks => match event {
            TaskEvent::MicroTasksDrained(Ok(())) => moves_to(
                pre,
                post,
                TaskPhase::WaitingOnPromise,
            ) && action is Continue,
            TaskEvent::MicroTasksDrained(Err(e)) => propagates_error(pre, post, action, e),
            _ => false,
        },
        TaskPhase::ShutdownChildrenFinished => if pre.has_parent {
            &&& moves_to(pre, post, TaskPhase::NotifyParentFinished)
            &&& action matches TaskAction::NotifyParent(TaskMessage::ChildTaskFinished { child })
                && child == pre.id
        } else {
            &&& moves_to(pre, post, TaskPhase::NotifyStarlingFinished)
            &&& action == TaskAction::<C>::NotifyStarlingFinished(pre.id)
        },
        TaskPhase::NotifyParentFinished => {
            &&& moves_to(pre, post, TaskPhase::NotifyStarlingFinished)
            &&& action == TaskAction::<C>::NotifyStarlingFinished(pre.id)
        },
        TaskPhase::NotifyStarlingFinished => moves_to(pre, post, TaskPhase::Finished) && action
            is Done,
        TaskPhase::ShutdownChildrenErrored { error } => if pre.has_parent {
            &&& moves_to(pre, post, TaskPhase::NotifyParentErrored { error })
            &&& action matches TaskAction::NotifyParent(
                TaskMessage::ChildTaskErrored { child, error: e },
            ) && child == pre.id && e.spec_message() == error.spec_message()
        } else {
            &&& moves_to(pre, post, TaskPhase::NotifyStarlingErrored)
            &&& action == TaskAction::<C>::NotifyStarlingErrored(pre.id, error)
        },
        TaskPhase::NotifyParentErrored { error } => {
            &&& moves_to(pre, post, TaskPhase::NotifyStarlingErrored)
            &&& action == TaskAction::<C>::NotifyStarlingErrored(pre.id, error)
        },
        TaskPhase::NotifyStarlingErrored => moves_to(pre, post, TaskPhase::Finished) && action
            is Done,
        TaskPhase::Finished => false,
    }
}

/// The error for a message about a task that is not a child of this one.
fn not_a_child_error(child: TaskId) -> (e: Error)
    ensures
        e.spec_message() == not_a_child_message(child),
        e.spec_kind() is Msg,
{
    let mut msg = String::from_str(
        "task received message for child that isn't actually a child: TaskId(",
    );
    let digits = decimal_string(child.id);
    msg.append(digits.as_str());
    msg.append(")");
    Error::from_msg(msg)
}

/// The decisions of a task: its ID, whether it has a parent, where it is in
/// its life, and its children.
#[derive(Debug)]
pub struct TaskMachine<C> {
    id: TaskId,
    has_parent: bool,
    phase: TaskPhase,
    children: TaskTable<C>,
}

impl<C> TaskMachine<C> {
    /// The abstract state of the task.
    pub closed spec fn view(&self) -> TaskView<C> {
        TaskView {
            id: self.id,
            has_parent: self.has_parent,
            phase: self.phase,
            children: self.children.spec_entries(),
        }
    }

    /// The task's children table is well formed.
    pub closed spec fn wf(&self) -> bool {
        self.children.wf()
    }

    /// A freshly created task, with or without a parent, and no children.
    pub fn new(id: TaskId, has_parent: bool) -> (t: Self)
        ensures
            t.wf(),
            t@ == (TaskView::<C> {
                id,
                has_parent,
                phase: TaskPhase::Created,
                children: Seq::empty(),
            }),
    {
        TaskMachine { id, has_parent, phase: TaskPhase::Created, children: TaskTable::new() }
    }

    /// The ID of the task.
    pub fn id(&self) -> (id: TaskId)
        ensures
            id == self@.id,
    {
        self.id
    }

    /// Whether the task still has a parent to notify.
    pub fn has_parent(&self) -> (b: bool)
        ensures
            b == self@.has_parent,
    {
        self.has_parent
    }

    /// Where the task is in its life.
    pub fn phase(&self) -> (p: &TaskPhase)
        ensures
            *p == self@.phase,
    {
        &self.phase
    }

    /// Whether the task is complete.
    pub fn is_finished(&self) -> (b: bool)
        ensures
            b == (self@.phase is Finished),
    {
        match self.phase {
            TaskPhase::Finished => true,
            _ => false,
        }
    }

    /// Record a newly spawned child under its ID.
    pub fn add_child(&mut self, child: TaskId, entry: C)
        requires
            old(self).wf(),
        ensures
            final(self).wf(),
            final(self)@ == (TaskView {
                children: crate::task_table::inserted(old(self)@.children, child.id, entry),
                ..old(self)@
            }),
    {
        self.children.insert(child.id, entry);
    }

    /// Whether the task, where it is now, is waiting for `event`.
    pub fn accepts(&self, event: &TaskEvent) -> (b: bool)
        ensures
            b == accepts(self@.phase, *event),
    {
        match (&self.phase, event) {
            (TaskPhase::Created, TaskEvent::Start) => true,
            (TaskPhase::ReadingJsModule, TaskEvent::Module(_)) => true,
            (TaskPhase::WaitingOnPromise, TaskEvent::MessageNotReady) => true,
            (TaskPhase::WaitingOnPromise, TaskEvent::MessageChannelError) => true,
            (TaskPhase::WaitingOnPromise, TaskEvent::MessageChannelClosed) => true,
            (TaskPhase::WaitingOnPromise, TaskEvent::Message(_)) => true,
            (TaskPhase::PollingPromise, TaskEvent::PromiseNotReady) => true,
            (TaskPhase::PollingPromise, TaskEvent::PromiseFailed(_)) => true,
            (TaskPhase::PollingPromise, TaskEvent::PromiseRejected(_)) => true,
            (TaskPhase::PollingPromise, TaskEvent::PromiseResolved) => true,
            (TaskPhase::DeliveringChildError { .. }, TaskEvent::ChildResultSent(_)) => true,
            (TaskPhase::DrainingMicroTasks, TaskEvent::MicroTasksDrained(_)) => true,
            (TaskPhase::ShutdownChildrenFinished, TaskEvent::ShutdownsSent) => true,
            (TaskPhase::ShutdownChildrenErrored { .. }, TaskEvent::ShutdownsSent) => true,
            (TaskPhase::NotifyParentFinished, TaskEvent::ParentNotified) => true,
            (TaskPhase::NotifyParentErrored { .. }, TaskEvent::ParentNotified) => true,
            (TaskPhase::NotifyStarlingFinished, TaskEvent::StarlingNotified) => true,
            (TaskPhase::NotifyStarlingErrored, TaskEvent::StarlingNotified) => true,
            _ => false,
        }
    }

    /// Catch an error: shut down every child, then move on to notifying the
    /// parent and the supervisor.
    fn propagate(&mut self, error: Error) -> (action: TaskAction<C>)
        requires
            old(self).wf(),
        ensures
            final(self).wf(),
            propagates_error(old(self)@, final(self)@, action, error),
    {
        let children = self.children.drain();
        self.phase = TaskPhase::ShutdownChildrenErrored { error };
        TaskAction::ShutdownChildren(children)
    }

    /// Finish OK: shut down every child, then move on to notifying the parent
    /// and the supervisor.
    fn finished(&mut self) -> (action: TaskAction<C>)
        requires
            old(self).wf(),
        ensures
            final(self).wf(),
            finishes(old(self)@, final(self)@, action, old(self)@.has_parent),
    {
        let children = self.children.drain();
        self.phase = TaskPhase::ShutdownChildrenFinished;
        TaskAction::ShutdownChildren(children)
    }

    /// Take one step: hand the task what happened, and learn what to do next.
    pub fn step(&mut self, event: TaskEvent) -> (action: TaskAction<C>)
        requires
            old(self).wf(),
            accepts(old(self)@.phase, event),
        ensures
            final(self).wf(),
            step_spec(old(self)@, event, final(self)@, action),
    {
        let mut phase = TaskPhase::Finished;
        core::mem::swap(&mut phase, &mut self.phase);
        match phase {
            TaskPhase::Created => {
                self.phase = TaskPhase::ReadingJsModule;
                TaskAction::ReadJsModule
            },
            TaskPhase::ReadingJsModule => match event {
                TaskEvent::Module(ModuleOutcome::NotReady) => {
                    self.phase = TaskPhase::ReadingJsModule;
                    TaskAction::AwaitModule
                },
                TaskEvent::Module(ModuleOutcome::Failed(e)) => self.propagate(e),
                TaskEvent::Module(ModuleOutcome::NoPromise) => self.finished(),
                _ => {
                    self.phase = TaskPhase::WaitingOnPromise;
                    TaskAction::Continue
                },
            },
            TaskPhase::WaitingOnPromise => match event {
                TaskEvent::MessageNotReady => {
                    self.phase = TaskPhase::PollingPromise;
                    TaskAction::PollPromise
                },
                TaskEvent::Message(TaskMessage::UnhandledRejectedPromise { error }) => {
                    self.propagate(error)
                },
                TaskEvent::Message(TaskMessage::Shutdown) => {
                    self.has_parent = false;
                    self.finished()
                },
                TaskEvent::Message(TaskMessage::ChildTaskFinished { child }) => {
                    match self.children.remove(child.id) {
                        Some(entry) => {
                            self.phase = TaskPhase::DrainingMicroTasks;
                            TaskAction::ResolveChild(entry)
                        },
                        None => self.propagate(not_a_child_error(child)),
                    }
                },
                TaskEvent::Message(TaskMessage::ChildTaskErrored { child, error }) => {
                    match self.children.remove(child.id) {
                        Some(entry) => {
                            let sent = error.clone();
                            self.phase = TaskPhase::DeliveringChildError { error };
                            TaskAction::RejectChild(entry, sent)
                        },
                        None => self.propagate(not_a_child_error(child)),
                    }
                },
                _ => self.propagate(Error::from_kind(ErrorKind::CouldNotReadValueFromChannel)),
            },
            TaskPhase::PollingPromise => match event {
                TaskEvent::PromiseNotReady => {
                    self.phase = TaskPhase::WaitingOnPromise;
                    TaskAction::Park
                },
                TaskEvent::PromiseFailed(e) => self.propagate(e),
                TaskEvent::PromiseRejected(e) => self.propagate(e),
                _ => self.finished(),
            },
            TaskPhase::DeliveringChildError { error } => match event {
                TaskEvent::ChildResultSent(true) => {
                    self.phase = TaskPhase::DrainingMicroTasks;
                    TaskAction::DrainMicroTasks
                },
                _ => self.propagate(error),
            },
            TaskPhase::DrainingMicroTasks => match event {
                TaskEvent::MicroTasksDrained(Err(e)) => self.propagate(e),
                _ => {
                    self.phase = TaskPhase::WaitingOnPromise;
                    TaskAction::Continue
                },
            },
            TaskPhase::ShutdownChildrenFinished => {
                if self.has_parent {
                    self.phase = TaskPhase::NotifyParentFinished;
                    TaskAction::NotifyParent(TaskMessage::ChildTaskFinished { child: self.id })
                } else {
                    self.phase = TaskPhase::NotifyStarlingFinished;
                    TaskAction::NotifyStarlingFinished(self.id)
                }
            },
            TaskPhase::NotifyParentFinished => {
                self.phase = TaskPhase::NotifyStarlingFinished;
                TaskAction::NotifyStarlingFinished(self.id)
            },
            TaskPhase::NotifyStarlingFinished => {
                self.phase = TaskPhase::Finished;
                TaskAction::Done
            },
            TaskPhase::ShutdownChildrenErrored { error } => {
                if self.has_parent {
                    let sent = error.clone();
                    self.phase = TaskPhase::NotifyParentErrored { error };
                    TaskAction::NotifyParent(
                        TaskMessage::ChildTaskErrored { child: self.id, error: sent },
                    )
                } else {
                    self.phase = TaskPhase::NotifyStarlingErrored;
                    TaskAction::NotifyStarlingErrored(self.id, error)
                }
            },
            TaskPhase::NotifyParentErrored { error } => {
                self.phase = TaskPhase::NotifyStarlingErrored;
                TaskAction::NotifyStarlingErrored(self.id, error)
            },
            TaskPhase::NotifyStarlingErrored => {
                self.phase = TaskPhase::Finished;
                TaskAction::Done
            },
            TaskPhase::Finished => {
                self.phase = TaskPhase::Finished;
                TaskAction::Done
            },
        }
    }
}

/// Whether the task has stopped running and is notifying the parties that
/// care about it.
pub open spec fn is_shutting_down(phase: TaskPhase) -> bool {
    ||| phase is ShutdownChildrenFinished
    ||| phase is ShutdownChildrenErrored
    ||| phase is NotifyParentFinished
    ||| phase is NotifyParentErrored
    ||| phase is NotifyStarlingFinished
    ||| phase is NotifyStarlingErrored
}

/// How many steps at most remain before a shutting-down task is done.
pub open spec fn shutdown_rank(phase: TaskPhase) -> nat {
    match phase {
        TaskPhase::ShutdownChildrenFinished => 3,
        TaskPhase::ShutdownChildrenErrored { .. } => 3,
        TaskPhase::NotifyParentFinished => 2,
        TaskPhase::NotifyParentErrored { .. } => 2,
        TaskPhase::NotifyStarlingFinished => 1,
        TaskPhase::NotifyStarlingErrored => 1,
        _ => 0,
    }
}

/// Whenever a task stops running, for success or failure, its first act is to
/// send a shutdown request to every one of its children, and it keeps none.
pub proof fn law_children_are_shut_down_first<C>(
    pre: TaskView<C>,
    event: TaskEvent,
    post: TaskView<C>,
    action: TaskAction<C>,
)
    requires
        accepts(pre.phase, event),
        step_spec(pre, event, post, action),
        post.phase is ShutdownChildrenFinished || post.phase is ShutdownChildrenErrored,
    ensures
        !is_shutting_down(pre.phase),
        action matches TaskAction::ShutdownChildren(all) && all@ == pre.children,
        post.children == Seq::<(u64, C)>::empty(),
{
}

/// Once a task shuts down, every step brings it closer to being done, and it
/// never runs JavaScript again: it is done after at most three steps.
pub proof fn law_shutdown_makes_progress<C>(
    pre: TaskView<C>,
    event: TaskEvent,
    post: TaskView<C>,
    action: TaskAction<C>,
)
    requires
        is_shutting_down(pre.phase),
        accepts(pre.phase, event),
        step_spec(pre, event, post, action),
    ensures
        shutdown_rank(post.phase) < shutdown_rank(pre.phase),
        is_shutting_down(post.phase) || post.phase is Finished,
        post.phase is Finished ==> action is Done,
        post.children == pre.children,
{
}

/// A failed task with a parent tells the parent (with the error's text), then
/// the supervisor (with the very error), and is then done.
pub proof fn law_failure_with_parent_notifies_parent_then_supervisor<C>(
    pre: TaskView<C>,
    error: Error,
    s1: TaskView<C>,
    a1: TaskAction<C>,
    s2: TaskView<C>,
    a2: TaskAction<C>,
    s3: TaskView<C>,
    a3: TaskAction<C>,
)
    requires
        pre.phase == (TaskPhase::ShutdownChildrenErrored { error }),
        pre.has_parent,
        step_spec(pre, TaskEvent::ShutdownsSent, s1, a1),
        step_spec(s1, TaskEvent::ParentNotified, s2, a2),
        step_spec(s2, TaskEvent::StarlingNotified, s3, a3),
    ensures
        a1 matches TaskAction::NotifyParent(TaskMessage::ChildTaskErrored { child, error: e })
            && child == pre.id && e.spec_message() == error.spec_message(),
        a2 == TaskAction::<C>::NotifyStarlingErrored(pre.id, error),
        a3 is Done,
        s3.phase is Finished,
{
}

/// A failed task without a parent tells the supervisor the very error, and is
/// then done.
pub proof fn law_failure_without_parent_notifies_supervisor<C>(
    pre: TaskView<C>,
    error: Error,
    s1: TaskView<C>,
    a1: TaskAction<C>,
    s2: TaskView<C>,
    a2: TaskAction<C>,
)
    requires
        pre.phase == (TaskPhase::ShutdownChildrenErrored { error }),
        !pre.has_parent,
        step_spec(pre, TaskEvent::ShutdownsSent, s1, a1),
        step_spec(s1, TaskEvent::StarlingNotified, s2, a2),
    ensures
        a1 == TaskAction::<C>::NotifyStarlingErrored(pre.id, error),
        a2 is Done,
        s2.phase is Finished,
{
}

/// A task that finishes OK with a parent tells the parent, then the
/// supervisor, and is then done.
pub proof fn law_success_with_parent_notifies_parent_then_supervisor<C>(
    pre: TaskView<C>,
    s1: TaskView<C>,
    a1: TaskAction<C>,
    s2: TaskView<C>,
    a2: TaskAction<C>,
    s3: TaskView<C>,
    a3: TaskAction<C>,
)
    requires
        pre.phase is ShutdownChildrenFinished,
        pre.has_parent,
        step_spec(pre, TaskEvent::ShutdownsSent, s1, a1),
        step_spec(s1, TaskEvent::ParentNotified, s2, a2),
        step_spec(s2, TaskEvent::StarlingNotified, s3, a3),
    ensures
        a1 matches TaskAction::NotifyParent(TaskMessage::ChildTaskFinished { child }) && child
            == pre.id,
        a2 == TaskAction::<C>::NotifyStarlingFinished(pre.id),
        a3 is Done,
        s3.phase is Finished,
{
}

/// A rejected `main` promise of a task without a parent makes the supervisor
/// learn exactly the rejection error, after the children were shut down.
pub proof fn law_rejection_reaches_supervisor<C>(
    pre: TaskView<C>,
    error: Error,
    s1: TaskView<C>,
    a1: TaskAction<C>,
    s2: TaskView<C>,
    a2: TaskAction<C>,
)
    requires
        pre.phase is PollingPromise,
        !pre.has_parent,
        step_spec(pre, TaskEvent::PromiseRejected(error), s1, a1),
        step_spec(s1, TaskEvent::ShutdownsSent, s2, a2),
    ensures
        a1 matches TaskAction::ShutdownChildren(all) && all@ == pre.children,
        a2 == TaskAction::<C>::NotifyStarlingErrored(pre.id, error),
{
}

/// A shutdown request from the parent makes the task finish OK without
/// notifying the parent: the supervisor is told right after the children.
pub proof fn law_shutdown_request_skips_parent<C>(
    pre: TaskView<C>,
    s1: TaskView<C>,
    a1: TaskAction<C>,
    s2: TaskView<C>,
    a2: TaskAction<C>,
)
    requires
        pre.phase is WaitingOnPromise,
        step_spec(pre, TaskEvent::Message(TaskMessage::Shutdown), s1, a1),
        step_spec(s1, TaskEvent::ShutdownsSent, s2, a2),
    ensures
        !s1.has_parent,
        a1 matches TaskAction::ShutdownChildren(all) && all@ == pre.children,
        a2 == TaskAction::<C>::NotifyStarlingFinished(pre.id),
{
}

/// A message about a task that is not a child makes the task fail with an
/// error naming that task.
pub proof fn law_stranger_child_message_fails<C>(
    pre: TaskView<C>,
    child: TaskId,
    post: TaskView<C>,
    action: TaskAction<C>,
)
    requires
        pre.phase is WaitingOnPromise,
        !ids_of(pre.children).contains(child.id),
        step_spec(pre, TaskEvent::Message(TaskMessage::ChildTaskFinished { child }), post, action),
    ensures
        post.phase matches TaskPhase::ShutdownChildrenErrored { error } && error.spec_message()
            == not_a_child_message(child),
{
}

/// The promise that a parent waits on for a child is the one recorded when the
/// child was spawned: when the child reports success, exactly that entry is
/// handed back to be resolved, and the child is no longer recorded.
pub proof fn law_child_result_reaches_its_promise<C>(
    pre: TaskView<C>,
    child: TaskId,
    entry: C,
    post: TaskView<C>,
    action: TaskAction<C>,
)
    requires
        pre.phase is WaitingOnPromise,
        ids_of(pre.children).no_duplicates(),
        !ids_of(pre.children).contains(child.id),
        step_spec(
            TaskView { children: crate::task_table::inserted(pre.children, child.id, entry), ..pre },
            TaskEvent::Message(TaskMessage::ChildTaskFinished { child }),
            post,
            action,
        ),
    ensures
        action == TaskAction::ResolveChild(entry),
        post.children == pre.children,
        post.phase is DrainingMicroTasks,
{
    crate::task_table::law_insert_then_remove(pre.children, child.id, entry);
    let ins = crate::task_table::inserted(pre.children, child.id, entry);
    assert(ids_of(ins) =~= ids_of(pre.children).push(child.id));
    assert(ids_of(ins)[ids_of(pre.children).len() as int] == child.id);
}

/// A run of a task: its successive states, the events it was handed and the
/// actions it answered, each step as `step_spec` says.
pub open spec fn valid_run<C>(
    states: Seq<TaskView<C>>,
    events: Seq<TaskEvent>,
    actions: Seq<TaskAction<C>>,
) -> bool {
    &&& states.len() == events.len() + 1
    &&& actions.len() == events.len()
    &&& forall|i: int|
        0 <= i < events.len() ==> accepts(#[trigger] states[i].phase, events[i]) && step_spec(
            states[i],
            events[i],
            states[i + 1],
            actions[i],
        )
}

/// Whether an action tells the Starling supervisor that the task ended.
pub open spec fn notifies_supervisor<C>(action: TaskAction<C>) -> bool {
    action is NotifyStarlingFinished || action is NotifyStarlingErrored
}

/// Whether the supervisor has been, or is being, told of the task's end.
pub open spec fn supervisor_told(phase: TaskPhase) -> bool {
    phase is NotifyStarlingFinished || phase is NotifyStarlingErrored || phase is Finished
}

proof fn lemma_told_stays_told<C>(
    states: Seq<TaskView<C>>,
    events: Seq<TaskEvent>,
    actions: Seq<TaskAction<C>>,
    i: int,
    j: int,
)
    requires
        valid_run(states, events, actions),
        0 <= i <= j < states.len(),
        supervisor_told(states[i].phase),
    ensures
        supervisor_told(states[j].phase),
        j < actions.len() ==> !notifies_supervisor(actions[j]),
    decreases j - i,
{
    if i < j {
        lemma_told_stays_told(states, events, actions, i, j - 1);
        assert(accepts(states[j - 1].phase, events[j - 1]));
    }
    if j < actions.len() {
        assert(accepts(states[j].phase, events[j]));
    }
}

/// In any run, the Starling supervisor is told of the task's end at most
/// once.
pub proof fn law_supervisor_told_at_most_once<C>(
    states: Seq<TaskView<C>>,
    events: Seq<TaskEvent>,
    actions: Seq<TaskAction<C>>,
    i: int,
    j: int,
)
    requires
        valid_run(states, events, actions),
        0 <= i < actions.len(),
        0 <= j < actions.len(),
        notifies_supervisor(actions[i]),
        notifies_supervisor(actions[j]),
    ensures
        i == j,
{
    assert(accepts(states[i].phase, events[i]));
    assert(accepts(states[j].phase, events[j]));
    if i < j {
        lemma_told_stays_told(states, events, actions, i + 1, j);
    } else if j < i {
        lemma_told_stays_told(states, events, actions, j + 1, i);
    }
}

proof fn lemma_running_until_shutdown<C>(
    states: Seq<TaskView<C>>,
    events: Seq<TaskEvent>,
    actions: Seq<TaskAction<C>>,
    j: int,
)
    requires
        valid_run(states, events, actions),
        states[0].phase is Created,
        0 <= j < states.len(),
        forall|k: int| 0 <= k < j ==> !(#[trigger] actions[k] is ShutdownChildren),
    ensures
        !is_shutting_down(states[j].phase),
        !(states[j].phase is Finished),
    decreases j,
{
    if j > 0 {
        lemma_running_until_shutdown(states, events, actions, j - 1);
        assert(accepts(states[j - 1].phase, events[j - 1]));
        assert(!(actions[j - 1] is ShutdownChildren));
    }
}

/// In any run from creation, the task shuts down its children before it
/// tells the Starling supervisor of its end.
pub proof fn law_children_shut_down_before_supervisor_told<C>(
    states: Seq<TaskView<C>>,
    events: Seq<TaskEvent>,
    actions: Seq<TaskAction<C>>,
    j: int,
)
    requires
        valid_run(states, events, actions),
        states[0].phase is Created,
        0 <= j < actions.len(),
        notifies_supervisor(actions[j]),
    ensures
        exists|i: int| 0 <= i < j && #[trigger] actions[i] is ShutdownChildren,
{
    if !exists|i: int| 0 <= i < j && #[trigger] actions[i] is ShutdownChildren {
        lemma_running_until_shutdown(states, events, actions, j);
        assert(accepts(states[j].phase, events[j]));
    }
}

/// A running task fails only for a reason, and with the error of that reason:
/// a failed read or evaluation of its file, an unhandled rejection, a failed
/// or rejected `main` promise, a failed micro-task drain, a child error that
/// nobody received, an unreadable channel, or a message about a task that is
/// not its child. In particular, a child error that its promise received
/// never makes the parent fail.
pub proof fn law_failure_has_a_cause<C>(
    pre: TaskView<C>,
    event: TaskEvent,
    post: TaskView<C>,
    action: TaskAction<C>,
    error: Error,
)
    requires
        accepts(pre.phase, event),
        step_spec(pre, event, post, action),
        !is_shutting_down(pre.phase),
        post.phase == (TaskPhase::ShutdownChildrenErrored { error }),
    ensures
        event == TaskEvent::Module(ModuleOutcome::Failed(error))
            || event == TaskEvent::Message(TaskMessage::UnhandledRejectedPromise { error })
            || event == TaskEvent::PromiseFailed(error)
            || event == TaskEvent::PromiseRejected(error)
            || event == TaskEvent::MicroTasksDrained(Err(error))
            || (event == TaskEvent::ChildResultSent(false)
                && pre.phase == (TaskPhase::DeliveringChildError { error }))
            || ((event is MessageChannelError || event is MessageChannelClosed)
                && error.spec_kind() == ErrorKind::CouldNotReadValueFromChannel)
            || (exists|child: TaskId|
                (event == TaskEvent::Message(TaskMessage::ChildTaskFinished { child })
                    || exists|e: Error|
                    event == TaskEvent::Message(TaskMessage::ChildTaskErrored { child, error: e }))
                    && !ids_of(pre.children).contains(child.id)
                    && error.spec_message() == not_a_child_message(child)),
        action matches TaskAction::ShutdownChildren(all) && all@ == pre.children,
        post.id == pre.id,
        post.has_parent == pre.has_parent,
{
    match event {
        TaskEvent::Message(TaskMessage::ChildTaskFinished { child }) => {
            assert(event == TaskEvent::Message(TaskMessage::ChildTaskFinished { child }));
        },
        TaskEvent::Message(TaskMessage::ChildTaskErrored { child, error: e }) => {
            assert(event == TaskEvent::Message(TaskMessage::ChildTaskErrored { child, error: e }));
        },
        _ => {},
    }
}

/// A running task finishes OK only when its file has no `main` promise, when
/// that promise is resolved, or when its parent asks it to shut down.
pub proof fn law_success_has_a_cause<C>(
    pre: TaskView<C>,
    event: TaskEvent,
    post: TaskView<C>,
    action: TaskAction<C>,
)
    requires
        accepts(pre.phase, event),
        step_spec(pre, event, post, action),
        !is_shutting_down(pre.phase),
        post.phase is ShutdownChildrenFinished,
    ensures
        event == TaskEvent::Module(ModuleOutcome::NoPromise) || event is PromiseResolved
            || event == TaskEvent::Message(TaskMessage::Shutdown),
        action matches TaskAction::ShutdownChildren(all) && all@ == pre.children,
{
}

/// A task keeps its ID, and keeps its parent except when that parent asks it
/// to shut down.
pub proof fn law_parent_kept_unless_shut_down<C>(
    pre: TaskView<C>,
    event: TaskEvent,
    post: TaskView<C>,
    action: TaskAction<C>,
)
    requires
        accepts(pre.phase, event),
        step_spec(pre, event, post, action),
        event != TaskEvent::Message(TaskMessage::Shutdown),
    ensures
        post.id == pre.id,
        post.has_parent == pre.has_parent,
{
}

/// A task with a parent that finishes OK, other than on its parent's request,
/// tells its parent before the supervisor: the first notification after the
/// children are shut down is `ChildTaskFinished` with its own ID.
pub proof fn law_finished_child_tells_its_parent<C>(
    pre: TaskView<C>,
    event: TaskEvent,
    s1: TaskView<C>,
    a1: TaskAction<C>,
    s2: TaskView<C>,
    a2: TaskAction<C>,
)
    requires
        pre.has_parent,
        accepts(pre.phase, event),
        event != TaskEvent::Message(TaskMessage::Shutdown),
        step_spec(pre, event, s1, a1),
        s1.phase is ShutdownChildrenFinished,
        step_spec(s1, TaskEvent::ShutdownsSent, s2, a2),
    ensures
        a2 == TaskAction::<C>::NotifyParent(TaskMessage::ChildTaskFinished { child: pre.id }),
        s2.phase is NotifyParentFinished,
{
    match a2 {
        TaskAction::NotifyParent(TaskMessage::ChildTaskFinished { child }) => {
            assert(child == pre.id);
        },
        _ => {},
    }
}

/// A child's error that its promise received leaves the parent running: the
/// child is forgotten, the promise gets the error's text, the micro-task
/// queue is drained, and the parent goes back to waiting on its own `main`
/// promise, with its ID, parent and other children unchanged.
pub proof fn law_received_child_error_keeps_parent_running<C>(
    pre: TaskView<C>,
    child: TaskId,
    error: Error,
    s1: TaskView<C>,
    a1: TaskAction<C>,
    s2: TaskView<C>,
    a2: TaskAction<C>,
    s3: TaskView<C>,
    a3: TaskAction<C>,
)
    requires
        pre.phase is WaitingOnPromise,
        ids_of(pre.children).contains(child.id),
        step_spec(
            pre,
            TaskEvent::Message(TaskMessage::ChildTaskErrored { child, error }),
            s1,
            a1,
        ),
        step_spec(s1, TaskEvent::ChildResultSent(true), s2, a2),
        step_spec(s2, TaskEvent::MicroTasksDrained(Ok(())), s3, a3),
    ensures
        a1 matches TaskAction::RejectChild(c, e) && Some(c) == lookup(pre.children, child.id)
            && e.spec_message() == error.spec_message(),
        a2 is DrainMicroTasks,
        s2.phase is DrainingMicroTasks,
        a3 is Continue,
        s3.phase is WaitingOnPromise,
        s3.id == pre.id,
        s3.has_parent == pre.has_parent,
        s3.children == removed(pre.children, child.id),
{
}

/// The steps on which nothing fails or finishes: each leaves the task running
/// with its ID, parent and children, and asks for exactly the next piece of
/// work.
pub proof fn law_quiet_steps_keep_running<C>(
    pre: TaskView<C>,
    event: TaskEvent,
    post: TaskView<C>,
    action: TaskAction<C>,
)
    requires
        accepts(pre.phase, event),
        step_spec(pre, event, post, action),
    ensures
        event is Start ==> post.phase is ReadingJsModule && action is ReadJsModule,
        event == TaskEvent::Module(ModuleOutcome::NotReady) ==> post.phase is ReadingJsModule
            && action is AwaitModule,
        event == TaskEvent::Module(ModuleOutcome::Promise) ==> post.phase is WaitingOnPromise
            && action is Continue,
        event is MessageNotReady ==> post.phase is PollingPromise && action is PollPromise,
        event is PromiseNotReady ==> post.phase is WaitingOnPromise && action is Park,
        event == TaskEvent::ChildResultSent(true) ==> post.phase is DrainingMicroTasks
            && action is DrainMicroTasks,
        event == TaskEvent::MicroTasksDrained(Ok(())) ==> post.phase is WaitingOnPromise
            && action is Continue,
        (event is Start || event == TaskEvent::Module(ModuleOutcome::NotReady) || event
            == TaskEvent::Module(ModuleOutcome::Promise) || event is MessageNotReady
            || event is PromiseNotReady || event == TaskEvent::ChildResultSent(true) || event
            == TaskEvent::MicroTasksDrained(Ok(()))) ==> post.id == pre.id && post.has_parent
            == pre.has_parent && post.children == pre.children,
{
}

/// A recorded child's success resolves exactly the promise recorded for it,
/// forgets that child and no other, and then, once the micro-task queue is
/// drained cleanly, the task goes back to waiting.
pub proof fn law_finished_child_resolves_its_promise<C>(
    pre: TaskView<C>,
    child: TaskId,
    s1: TaskView<C>,
    a1: TaskAction<C>,
    s2: TaskView<C>,
    a2: TaskAction<C>,
    other: u64,
)
    requires
        pre.phase is WaitingOnPromise,
        ids_of(pre.children).no_duplicates(),
        ids_of(pre.children).contains(child.id),
        other != child.id,
        step_spec(pre, TaskEvent::Message(TaskMessage::ChildTaskFinished { child }), s1, a1),
        step_spec(s1, TaskEvent::MicroTasksDrained(Ok(())), s2, a2),
    ensures
        a1 matches TaskAction::ResolveChild(c) && Some(c) == lookup(pre.children, child.id),
        s1.phase is DrainingMicroTasks,
        lookup(s1.children, child.id) is None,
        lookup(s1.children, other) == lookup(pre.children, other),
        a2 is Continue,
        s2.phase is WaitingOnPromise,
        s2.has_parent == pre.has_parent,
{
    crate::task_table::law_remove_forgets(pre.children, child.id);
    crate::task_table::law_remove_keeps_others(pre.children, child.id, other);
}

/// A task without a parent that finishes OK tells the supervisor right after
/// its children, and is then done.
pub proof fn law_success_without_parent_notifies_supervisor<C>(
    pre: TaskView<C>,
    s1: TaskView<C>,
    a1: TaskAction<C>,
    s2: TaskView<C>,
    a2: TaskAction<C>,
)
    requires
        pre.phase is ShutdownChildrenFinished,
        !pre.has_parent,
        step_spec(pre, TaskEvent::ShutdownsSent, s1, a1),
        step_spec(s1, TaskEvent::StarlingNotified, s2, a2),
    ensures
        a1 == TaskAction::<C>::NotifyStarlingFinished(pre.id),
        a2 is Done,
        s2.phase is Finished,
{
}

} // verus!
