//! The decisions of the Starling supervisory thread.
//!
//! The supervisor does not do much other than supervise the tasks' threads:
//! it learns of each task's end, joins its thread, and ends the whole system
//! when the main task ends.
use vstd::prelude::*;
use crate::error::{Error, ErrorKind};
use crate::task::TaskId;
use crate::task_table::{TaskTable, ids_of, inserted, lookup, removed};

verus! {

/// Messages that threads can send to the Starling supervisory thread.
#[derive(Debug)]
pub enum StarlingMessage<H, J> {
    /// The task on the given thread completed successfully.
    TaskFinished(TaskId),
    /// The task on the given thread failed with the given error.
    TaskErrored(TaskId, Error),
    /// A new child task was created, with the given handle, running on the
    /// given thread.
    NewTask(TaskId, H, J),
}

/// What the supervisor learned from its channel.
#[derive(Debug)]
pub enum SupervisorEvent<H, J> {
    /// A message arrived.
    Received(StarlingMessage<H, J>),
    /// Reading the channel failed.
    ReadError,
    /// Every sender is gone: the channel is closed.
    Closed,
}

/// What the supervisor must do after an event: first join the thread, if
/// any; then end the system with the result, if any.
#[derive(Debug)]
pub struct SupervisorStep<J> {
    /// The thread of a task that ended, to be joined.
    pub join: Option<J>,
    /// The result to end the whole system with.
    pub exit: Option<Result<(), Error>>,
}

/// The abstract state of the supervisor.
pub ghost struct SupervisorView<H, J> {
    /// The ID of the main task.
    pub main: TaskId,
    /// The running tasks' handles, by task ID.
    pub tasks: Seq<(u64, H)>,
    /// The running tasks' threads, by task ID.
    pub threads: Seq<(u64, J)>,
}

/// Which events the supervisor can take: an ending only for a task it knows
/// of.
pub open spec fn supervisor_accepts<H, J>(s: SupervisorView<H, J>, event: SupervisorEvent<H, J>) -> bool {
    match event {
        SupervisorEvent::Received(StarlingMessage::TaskFinished(id)) => ids_of(s.tasks).contains(
            id.id,
        ),
        SupervisorEvent::Received(StarlingMessage::TaskErrored(id, _)) => ids_of(
            s.tasks,
        ).contains(id.id),
        _ => true,
    }
}

/// A task ended: the supervisor forgets it and joins its thread.
pub open spec fn forgets<H, J>(
    pre: SupervisorView<H, J>,
    post: SupervisorView<H, J>,
    step: SupervisorStep<J>,
    id: TaskId,
) -> bool {
    &&& post.main == pre.main
    &&& post.tasks == removed(pre.tasks, id.id)
    &&& post.threads == removed(pre.threads, id.id)
    &&& step.join == lookup(pre.threads, id.id)
    &&& step.join is Some
}

/// One step of the supervisor.
pub open spec fn supervisor_step_spec<H, J>(
    pre: SupervisorView<H, J>,
    event: SupervisorEvent<H, J>,
    post: SupervisorView<H, J>,
    step: SupervisorStep<J>,
) -> bool {
    match event {
        SupervisorEvent::ReadError => {
            &&& post == pre
            &&& step.join is None
            &&& step.exit matches Some(Err(e)) && e.spec_kind()
                == ErrorKind::CouldNotReadValueFromChannel
        },
        SupervisorEvent::Closed => post == pre && step.join is None && step.exit == Some(
            Ok::<(), Error>(()),
        ),
        SupervisorEvent::Received(StarlingMessage::TaskFinished(id)) => {
            &&& forgets(pre, post, step, id)
            &&& step.exit == if id == pre.main {
                Some(Ok::<(), Error>(()))
            } else {
                None
            }
        },
        SupervisorEvent::Received(StarlingMessage::TaskErrored(id, e)) => {
            &&& forgets(pre, post, step, id)
            &&& step.exit == if id == pre.main {
                Some(Err::<(), Error>(e))
            } else {
                None
            }
        },
        SupervisorEvent::Received(StarlingMessage::NewTask(id, handle, thread)) => {
            &&& post.main == pre.main
            &&& post.tasks == inserted(pre.tasks, id.id, handle)
            &&& post.threads == inserted(pre.threads, id.id, thread)
            &&& step.join is None
            &&& step.exit is None
        },
    }
}

/// The Starling supervisor's bookkeeping: the main task, and each running
/// task's handle and thread.
#[derive(Debug)]
pub struct Supervisor<H, J> {
    main: TaskId,
    tasks: TaskTable<H>,
    threads: TaskTable<J>,
}

impl<H, J> Supervisor<H, J> {
    /// The abstract state of the supervisor.
    pub closed spec fn view(&self) -> SupervisorView<H, J> {
        SupervisorView {
            main: self.main,
            tasks: self.tasks.spec_entries(),
            threads: self.threads.spec_entries(),
        }
    }

    /// Every running task has exactly one thread, recorded in the same order.
    pub closed spec fn wf(&self) -> bool {
        &&& self.tasks.wf()
        &&& self.threads.wf()
        &&& self.tasks.spec_ids() == self.threads.spec_ids()
    }

    /// A supervisor of the just spawned main task.
    pub fn new(main: TaskId, handle: H, thread: J) -> (s: Self)
        ensures
            s.wf(),
            s@ == (SupervisorView { main, tasks: seq![(main.id, handle)], threads: seq![(main.id, thread)] }),
    {
        let mut tasks = TaskTable::new();
        let mut threads = TaskTable::new();
        tasks.insert(main.id, handle);
        threads.insert(main.id, thread);
        proof {
            assert(ids_of(tasks.spec_entries()) =~= seq![main.id]);
            assert(ids_of(threads.spec_entries()) =~= seq![main.id]);
        }
        Supervisor { main, tasks, threads }
    }

    /// The ID of the main task.
    pub fn main(&self) -> (id: TaskId)
        ensures
            id == self@.main,
    {
        self.main
    }

    /// Whether the task with the given ID is running.
    pub fn is_running(&self, id: TaskId) -> (b: bool)
        requires
            self.wf(),
        ensures
            b == ids_of(self@.tasks).contains(id.id),
    {
        self.tasks.contains(id.id)
    }

    /// Whether the supervisor can take the given event.
    pub fn accepts(&self, event: &SupervisorEvent<H, J>) -> (b: bool)
        requires
            self.wf(),
        ensures
            b == supervisor_accepts(self@, *event),
    {
        match event {
            SupervisorEvent::Received(StarlingMessage::TaskFinished(id)) => self.is_running(*id),
            SupervisorEvent::Received(StarlingMessage::TaskErrored(id, _)) => self.is_running(*id),
            _ => true,
        }
    }

    /// Forget an ended task and hand back its thread.
    fn forget(&mut self, id: TaskId) -> (j: J)
        requires
            old(self).wf(),
            ids_of(old(self)@.tasks).contains(id.id),
        ensures
            final(self).wf(),
            final(self)@.main == old(self)@.main,
            final(self)@.tasks == removed(old(self)@.tasks, id.id),
            final(self)@.threads == removed(old(self)@.threads, id.id),
            Some(j) == lookup(old(self)@.threads, id.id),
    {
        let ghost pre_tasks = self.tasks.spec_entries();
        let ghost pre_threads = self.threads.spec_entries();
        let _handle = self.tasks.remove(id.id);
        let thread = self.threads.remove(id.id);
        proof {
            let ids = ids_of(pre_tasks);
            let i = ids.index_of(id.id);
            assert(ids_of(pre_threads) == ids);
            assert(ids_of(pre_tasks.remove(i)) =~= ids.remove(i));
            assert(ids_of(pre_threads.remove(i)) =~= ids.remove(i));
        }
        thread.unwrap()
    }

    /// Record a newly spawned task, its handle and its thread.
    fn record(&mut self, id: TaskId, handle: H, thread: J)
        requires
            old(self).wf(),
        ensures
            final(self).wf(),
            final(self)@.main == old(self)@.main,
            final(self)@.tasks == inserted(old(self)@.tasks, id.id, handle),
            final(self)@.threads == inserted(old(self)@.threads, id.id, thread),
    {
        let ghost pre_tasks = self.tasks.spec_entries();
        let ghost pre_threads = self.threads.spec_entries();
        self.tasks.insert(id.id, handle);
        self.threads.insert(id.id, thread);
        proof {
            let ids = ids_of(pre_tasks);
            assert(ids_of(pre_threads) == ids);
            if ids.contains(id.id) {
                let i = ids.index_of(id.id);
                assert(ids_of(pre_tasks.update(i, (id.id, handle))) =~= ids);
                assert(ids_of(pre_threads.update(i, (id.id, thread))) =~= ids);
            } else {
                assert(ids_of(pre_tasks.push((id.id, handle))) =~= ids.push(id.id));
                assert(ids_of(pre_threads.push((id.id, thread))) =~= ids.push(id.id));
            }
        }
    }

    /// Take one event from the supervisor's channel, and learn what to do.
    pub fn on_event(&mut self, event: SupervisorEvent<H, J>) -> (step: SupervisorStep<J>)
        requires
            old(self).wf(),
            supervisor_accepts(old(self)@, event),
        ensures
            final(self).wf(),
            supervisor_step_spec(old(self)@, event, final(self)@, step),
    {
        match event {
            SupervisorEvent::ReadError => SupervisorStep {
                join: None,
                exit: Some(Err(Error::from_kind(ErrorKind::CouldNotReadValueFromChannel))),
            },
            SupervisorEvent::Closed => SupervisorStep { join: None, exit: Some(Ok(())) },
            SupervisorEvent::Received(StarlingMessage::TaskFinished(id)) => {
                let thread = self.forget(id);
                let exit = if id == self.main {
                    Some(Ok(()))
                } else {
                    None
                };
                SupervisorStep { join: Some(thread), exit }
            },
            SupervisorEvent::Received(StarlingMessage::TaskErrored(id, e)) => {
                let thread = self.forget(id);
                let exit = if id == self.main {
                    Some(Err(e))
                } else {
                    None
                };
                SupervisorStep { join: Some(thread), exit }
            },
            SupervisorEvent::Received(StarlingMessage::NewTask(id, handle, thread)) => {
                self.record(id, handle, thread);
                SupervisorStep { join: None, exit: None }
            },
        }
    }
}

/// The whole system ends exactly when the main task ends, with the main
/// task's own result; other tasks' endings only join their threads.
pub proof fn law_system_ends_with_main<H, J>(
    pre: SupervisorView<H, J>,
    event: SupervisorEvent<H, J>,
    post: SupervisorView<H, J>,
    step: SupervisorStep<J>,
)
    requires
        supervisor_step_spec(pre, event, post, step),
    ensures
        event matches SupervisorEvent::Received(StarlingMessage::TaskFinished(id)) ==> (step.exit
            is Some <==> id == pre.main) && (id == pre.main ==> step.exit == Some(
            Ok::<(), Error>(()),
        )),
        event matches SupervisorEvent::Received(StarlingMessage::TaskErrored(id, e)) ==> (step.exit
            is Some <==> id == pre.main) && (id == pre.main ==> step.exit == Some(
            Err::<(), Error>(e),
        )),
        !(event is Received) ==> step.join is None && step.exit is Some,
{
}

/// A task whose end was taken is no longer running, so it can end only once.
pub proof fn law_ended_task_is_forgotten<H, J>(
    pre: SupervisorView<H, J>,
    id: TaskId,
    post: SupervisorView<H, J>,
    step: SupervisorStep<J>,
)
    requires
        ids_of(pre.tasks).no_duplicates(),
        supervisor_step_spec(pre, SupervisorEvent::Received(StarlingMessage::TaskFinished(id)), post, step),
    ensures
        !ids_of(post.tasks).contains(id.id),
        !supervisor_accepts(post, SupervisorEvent::Received(StarlingMessage::<H, J>::TaskFinished(id))),
{
    crate::task_table::law_remove_forgets(pre.tasks, id.id);
}

/// A task recorded as spawned is running; when it ends, exactly its own
/// thread is joined, and the system ends only if it is the main task.
pub proof fn law_spawned_task_thread_is_joined<H, J>(
    pre: SupervisorView<H, J>,
    id: TaskId,
    handle: H,
    thread: J,
    mid: SupervisorView<H, J>,
    step1: SupervisorStep<J>,
    post: SupervisorView<H, J>,
    step2: SupervisorStep<J>,
)
    requires
        ids_of(pre.tasks).no_duplicates(),
        ids_of(pre.threads).no_duplicates(),
        !ids_of(pre.threads).contains(id.id),
        supervisor_step_spec(
            pre,
            SupervisorEvent::Received(StarlingMessage::NewTask(id, handle, thread)),
            mid,
            step1,
        ),
        supervisor_step_spec(mid, SupervisorEvent::Received(StarlingMessage::TaskFinished(id)), post, step2),
    ensures
        step1.join is None && step1.exit is None,
        step2.join == Some(thread),
        post.threads == pre.threads,
        id != pre.main ==> step2.exit is None,
{
    crate::task_table::law_insert_then_remove(pre.threads, id.id, thread);
}

/// Whenever a running task ends, OK or with an error, main or not, the
/// supervisor joins exactly that task's thread and forgets the task, keeping
/// the main task's ID; the system ends only when the main task ended.
pub proof fn law_ended_task_thread_is_joined<H, J>(
    pre: SupervisorView<H, J>,
    id: TaskId,
    event: SupervisorEvent<H, J>,
    post: SupervisorView<H, J>,
    step: SupervisorStep<J>,
)
    requires
        ids_of(pre.tasks).no_duplicates(),
        ids_of(pre.threads).no_duplicates(),
        event == SupervisorEvent::<H, J>::Received(StarlingMessage::TaskFinished(id)) || exists|
            e: Error,
        | event == SupervisorEvent::<H, J>::Received(StarlingMessage::TaskErrored(id, e)),
        supervisor_accepts(pre, event),
        supervisor_step_spec(pre, event, post, step),
    ensures
        step.join is Some,
        step.join == lookup(pre.threads, id.id),
        !ids_of(post.tasks).contains(id.id),
        !ids_of(post.threads).contains(id.id),
        post.main == pre.main,
        step.exit is Some <==> id == pre.main,
{
    crate::task_table::law_remove_forgets(pre.tasks, id.id);
    crate::task_table::law_remove_forgets(pre.threads, id.id);
}

/// The end of the supervisor's channel ends the system: a read error with
/// `CouldNotReadValueFromChannel`, a closed channel with success; neither
/// joins a thread or changes the bookkeeping.
pub proof fn law_channel_end_ends_system<H, J>(
    pre: SupervisorView<H, J>,
    event: SupervisorEvent<H, J>,
    post: SupervisorView<H, J>,
    step: SupervisorStep<J>,
)
    requires
        supervisor_step_spec(pre, event, post, step),
        event is ReadError || event is Closed,
    ensures
        post == pre,
        step.join is None,
        event is Closed ==> step.exit == Some(Ok::<(), Error>(())),
        event is ReadError ==> (step.exit matches Some(Err(e)) && e.spec_kind()
            == ErrorKind::CouldNotReadValueFromChannel),
{
}

/// Recording a spawned task makes it running with its own thread, ends
/// nothing, and leaves every other task's thread as it was; the end of a task
/// also leaves every other task's thread as it was.
pub proof fn law_steps_touch_only_their_task<H, J>(
    pre: SupervisorView<H, J>,
    id: TaskId,
    event: SupervisorEvent<H, J>,
    post: SupervisorView<H, J>,
    step: SupervisorStep<J>,
    other: u64,
)
    requires
        ids_of(pre.tasks).no_duplicates(),
        ids_of(pre.threads).no_duplicates(),
        other != id.id,
        supervisor_step_spec(pre, event, post, step),
        (exists|h: H, j: J| event == SupervisorEvent::Received(StarlingMessage::NewTask(id, h, j)))
            || event == SupervisorEvent::<H, J>::Received(StarlingMessage::TaskFinished(id))
            || (exists|e: Error| event == SupervisorEvent::<H, J>::Received(StarlingMessage::TaskErrored(id, e))),
    ensures
        lookup(post.threads, other) == lookup(pre.threads, other),
        lookup(post.tasks, other) == lookup(pre.tasks, other),
        post.main == pre.main,
        event matches SupervisorEvent::Received(StarlingMessage::NewTask(i, h, j)) ==> (lookup(post.threads, i.id)
            == Some(j) && lookup(post.tasks, i.id) == Some(h) && step.join is None && step.exit is None),
{
    match event {
        SupervisorEvent::Received(StarlingMessage::NewTask(i, h, j)) => {
            crate::task_table::law_insert_stores_and_keeps_others(pre.threads, id.id, j, other);
            crate::task_table::law_insert_stores_and_keeps_others(pre.tasks, id.id, h, other);
        },
        _ => {
            crate::task_table::law_remove_keeps_others(pre.threads, id.id, other);
            crate::task_table::law_remove_keeps_others(pre.tasks, id.id, other);
        },
    }
}

} // verus!
