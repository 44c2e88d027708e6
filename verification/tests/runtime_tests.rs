use starling::decimal::decimal_string;
use starling::evaluation::{EvalAction, EvalEvent, EvalPhase, Evaluation};
use starling::future_ext::{ignore_results_poll, or_default_poll, Async};
use starling::promise_future_glue::{
    on_reject, on_resolve, promise_to_future_poll, Conversion, Future2Promise,
    Future2PromiseAction, Future2PromiseEvent,
};
use starling::promise_tracker::{
    check_for_unhandled_rejected_promises, PromiseRejectionHandlingState,
    RejectedPromisesTracker,
};
use starling::supervisor::{StarlingMessage, Supervisor, SupervisorEvent};
use starling::task::{ModuleOutcome, TaskAction, TaskEvent, TaskId, TaskMachine, TaskMessage, TaskPhase};
use starling::task_locals::TaskLocals;
use starling::task_table::TaskTable;
use starling::{Error, ErrorKind};

#[test]
fn tracker_tracks_unhandled_and_forgets_handled() {
    let mut t: RejectedPromisesTracker<&str> = RejectedPromisesTracker::new();
    t.unhandled(1, "a");
    t.unhandled(2, "b");
    t.unhandled(1, "a-again");
    assert_eq!(t.len(), 2);
    assert!(t.contains(1) && t.contains(2));
    t.handled(1);
    assert!(!t.contains(1));
    assert!(t.contains(2));
    t.handled(7);
    assert_eq!(t.len(), 1);
}

#[test]
fn tracker_handled_swaps_in_last() {
    let mut t: RejectedPromisesTracker<u32> = RejectedPromisesTracker::new();
    t.unhandled(10, 100);
    t.unhandled(20, 200);
    t.unhandled(30, 300);
    t.handled(10);
    assert_eq!(t.take(), Some(vec![300, 200]));
}

#[test]
fn tracker_take_empties() {
    let mut t: RejectedPromisesTracker<u32> = RejectedPromisesTracker::new();
    assert_eq!(t.take(), None);
    t.on_rejection_state(PromiseRejectionHandlingState::Unhandled, 5, 50);
    t.on_rejection_state(PromiseRejectionHandlingState::Unhandled, 6, 60);
    assert_eq!(t.take(), Some(vec![50, 60]));
    assert_eq!(t.take(), None);
    t.on_rejection_state(PromiseRejectionHandlingState::Unhandled, 5, 50);
    t.on_rejection_state(PromiseRejectionHandlingState::Handled, 5, 0);
    assert_eq!(t.take(), None);
    t.unhandled(8, 80);
    t.clear();
    assert_eq!(t.len(), 0);
}

#[test]
fn check_for_unhandled_rejections_errors_once() {
    let mut t: RejectedPromisesTracker<u32> = RejectedPromisesTracker::new();
    assert!(check_for_unhandled_rejected_promises(&mut t).is_ok());
    t.unhandled(3, 30);
    let r = check_for_unhandled_rejected_promises(&mut t);
    match r {
        Err(e) => assert_eq!(e.message(), "Unhandled, rejected JavaScript promise"),
        Ok(()) => panic!("expected an error"),
    }
    assert!(check_for_unhandled_rejected_promises(&mut t).is_ok());
}

#[test]
fn task_table_insert_remove_drain() {
    let mut t: TaskTable<&str> = TaskTable::new();
    t.insert(1, "one");
    t.insert(2, "two");
    t.insert(1, "uno");
    assert_eq!(t.len(), 2);
    assert_eq!(t.remove(1), Some("uno"));
    assert_eq!(t.remove(1), None);
    assert!(t.contains(2));
    t.insert(3, "three");
    assert_eq!(t.drain(), vec![(2, "two"), (3, "three")]);
    assert_eq!(t.len(), 0);
}

#[test]
fn decimal_rendering() {
    assert_eq!(decimal_string(0), "0");
    assert_eq!(decimal_string(7), "7");
    assert_eq!(decimal_string(1234567890), "1234567890");
    assert_eq!(decimal_string(u64::MAX), "18446744073709551615");
}

fn step(t: &mut TaskMachine<&'static str>, e: TaskEvent) -> TaskAction<&'static str> {
    assert!(t.accepts(&e));
    t.step(e)
}

#[test]
fn task_runs_and_finishes_with_parent() {
    let id = TaskId { id: 4 };
    let mut t: TaskMachine<&'static str> = TaskMachine::new(id, true);
    assert!(matches!(step(&mut t, TaskEvent::Start), TaskAction::ReadJsModule));
    assert!(matches!(step(&mut t, TaskEvent::Module(ModuleOutcome::NotReady)), TaskAction::AwaitModule));
    assert!(matches!(step(&mut t, TaskEvent::Module(ModuleOutcome::Promise)), TaskAction::Continue));
    t.add_child(TaskId { id: 9 }, "child-9");
    assert!(matches!(step(&mut t, TaskEvent::MessageNotReady), TaskAction::PollPromise));
    assert!(matches!(step(&mut t, TaskEvent::PromiseNotReady), TaskAction::Park));
    match step(&mut t, TaskEvent::Message(TaskMessage::ChildTaskFinished { child: TaskId { id: 9 } })) {
        TaskAction::ResolveChild(c) => assert_eq!(c, "child-9"),
        other => panic!("unexpected {:?}", other),
    }
    assert!(matches!(step(&mut t, TaskEvent::MicroTasksDrained(Ok(()))), TaskAction::Continue));
    assert!(matches!(step(&mut t, TaskEvent::MessageNotReady), TaskAction::PollPromise));
    match step(&mut t, TaskEvent::PromiseResolved) {
        TaskAction::ShutdownChildren(all) => assert!(all.is_empty()),
        other => panic!("unexpected {:?}", other),
    }
    match step(&mut t, TaskEvent::ShutdownsSent) {
        TaskAction::NotifyParent(TaskMessage::ChildTaskFinished { child }) => assert_eq!(child, id),
        other => panic!("unexpected {:?}", other),
    }
    match step(&mut t, TaskEvent::ParentNotified) {
        TaskAction::NotifyStarlingFinished(i) => assert_eq!(i, id),
        other => panic!("unexpected {:?}", other),
    }
    assert!(matches!(step(&mut t, TaskEvent::StarlingNotified), TaskAction::Done));
    assert!(t.is_finished());
    assert!(!t.accepts(&TaskEvent::Start));
}

#[test]
fn task_error_shuts_children_then_parent_then_supervisor() {
    let id = TaskId { id: 2 };
    let mut t: TaskMachine<&'static str> = TaskMachine::new(id, true);
    step(&mut t, TaskEvent::Start);
    step(&mut t, TaskEvent::Module(ModuleOutcome::Promise));
    t.add_child(TaskId { id: 5 }, "c5");
    t.add_child(TaskId { id: 6 }, "c6");
    let err = Error::from_kind(ErrorKind::JavaScriptException);
    match step(&mut t, TaskEvent::Message(TaskMessage::UnhandledRejectedPromise { error: err })) {
        TaskAction::ShutdownChildren(all) => assert_eq!(all, vec![(5, "c5"), (6, "c6")]),
        other => panic!("unexpected {:?}", other),
    }
    match step(&mut t, TaskEvent::ShutdownsSent) {
        TaskAction::NotifyParent(TaskMessage::ChildTaskErrored { child, error }) => {
            assert_eq!(child, id);
            assert_eq!(error.message(), "JavaScript exception");
        }
        other => panic!("unexpected {:?}", other),
    }
    match step(&mut t, TaskEvent::ParentNotified) {
        TaskAction::NotifyStarlingErrored(i, e) => {
            assert_eq!(i, id);
            assert!(matches!(e.kind(), ErrorKind::JavaScriptException));
        }
        other => panic!("unexpected {:?}", other),
    }
    assert!(matches!(step(&mut t, TaskEvent::StarlingNotified), TaskAction::Done));
}

#[test]
fn task_shutdown_request_skips_parent() {
    let id = TaskId { id: 3 };
    let mut t: TaskMachine<&'static str> = TaskMachine::new(id, true);
    step(&mut t, TaskEvent::Start);
    step(&mut t, TaskEvent::Module(ModuleOutcome::Promise));
    assert!(matches!(step(&mut t, TaskEvent::Message(TaskMessage::Shutdown)), TaskAction::ShutdownChildren(_)));
    assert!(!t.has_parent());
    match step(&mut t, TaskEvent::ShutdownsSent) {
        TaskAction::NotifyStarlingFinished(i) => assert_eq!(i, id),
        other => panic!("unexpected {:?}", other),
    }
}

#[test]
fn task_message_about_stranger_fails() {
    let mut t: TaskMachine<&'static str> = TaskMachine::new(TaskId { id: 1 }, false);
    step(&mut t, TaskEvent::Start);
    step(&mut t, TaskEvent::Module(ModuleOutcome::Promise));
    step(&mut t, TaskEvent::Message(TaskMessage::ChildTaskFinished { child: TaskId { id: 42 } }));
    match t.phase() {
        TaskPhase::ShutdownChildrenErrored { error } => assert_eq!(
            error.message(),
            "task received message for child that isn't actually a child: TaskId(42)"
        ),
        other => panic!("unexpected {:?}", other),
    }
}

#[test]
fn task_child_error_delivery() {
    let id = TaskId { id: 1 };
    let mut t: TaskMachine<&'static str> = TaskMachine::new(id, false);
    step(&mut t, TaskEvent::Start);
    step(&mut t, TaskEvent::Module(ModuleOutcome::Promise));
    t.add_child(TaskId { id: 8 }, "c8");
    let err = Error::from_msg("child broke".to_string());
    match step(&mut t, TaskEvent::Message(TaskMessage::ChildTaskErrored { child: TaskId { id: 8 }, error: err })) {
        TaskAction::RejectChild(c, e) => {
            assert_eq!(c, "c8");
            assert_eq!(e.message(), "child broke");
        }
        other => panic!("unexpected {:?}", other),
    }
    // Nobody listened: the child's error becomes the parent's error.
    step(&mut t, TaskEvent::ChildResultSent(false));
    match step(&mut t, TaskEvent::ShutdownsSent) {
        TaskAction::NotifyStarlingErrored(i, e) => {
            assert_eq!(i, id);
            assert_eq!(e.message(), "child broke");
        }
        other => panic!("unexpected {:?}", other),
    }
}

#[test]
fn task_channel_errors_and_module_failures() {
    let mut t: TaskMachine<&'static str> = TaskMachine::new(TaskId { id: 1 }, false);
    step(&mut t, TaskEvent::Start);
    step(&mut t, TaskEvent::Module(ModuleOutcome::Promise));
    step(&mut t, TaskEvent::MessageChannelClosed);
    match t.phase() {
        TaskPhase::ShutdownChildrenErrored { error } => {
            assert!(matches!(error.kind(), ErrorKind::CouldNotReadValueFromChannel))
        }
        other => panic!("unexpected {:?}", other),
    }
    let mut t: TaskMachine<&'static str> = TaskMachine::new(TaskId { id: 1 }, false);
    step(&mut t, TaskEvent::Start);
    step(&mut t, TaskEvent::Module(ModuleOutcome::Promise));
    step(&mut t, TaskEvent::MessageChannelError);
    match t.phase() {
        TaskPhase::ShutdownChildrenErrored { error } => {
            assert!(matches!(error.kind(), ErrorKind::CouldNotReadValueFromChannel))
        }
        other => panic!("unexpected {:?}", other),
    }
    let mut t: TaskMachine<&'static str> = TaskMachine::new(TaskId { id: 1 }, false);
    step(&mut t, TaskEvent::Start);
    step(&mut t, TaskEvent::Module(ModuleOutcome::NoPromise));
    assert!(matches!(t.phase(), TaskPhase::ShutdownChildrenFinished));
    let mut t: TaskMachine<&'static str> = TaskMachine::new(TaskId { id: 1 }, false);
    step(&mut t, TaskEvent::Start);
    step(&mut t, TaskEvent::Module(ModuleOutcome::Failed(Error::from_kind(ErrorKind::Io("gone".to_string())))));
    match t.phase() {
        TaskPhase::ShutdownChildrenErrored { error } => assert_eq!(error.message(), "gone"),
        other => panic!("unexpected {:?}", other),
    }
}

#[test]
fn supervisor_ends_with_main() {
    let main = TaskId { id: 1 };
    let mut s: Supervisor<&str, &str> = Supervisor::new(main, "handle", "thread");
    assert!(s.is_running(main));
    assert!(!s.accepts(&SupervisorEvent::Received(StarlingMessage::TaskFinished(TaskId { id: 2 }))));
    assert!(s.accepts(&SupervisorEvent::Received(StarlingMessage::NewTask(TaskId { id: 2 }, "h2", "t2"))));
    let step = s.on_event(SupervisorEvent::Received(StarlingMessage::TaskErrored(
        main,
        Error::from_kind(ErrorKind::JavaScriptException),
    )));
    assert_eq!(step.join, Some("thread"));
    match step.exit {
        Some(Err(e)) => assert!(matches!(e.kind(), ErrorKind::JavaScriptException)),
        other => panic!("unexpected {:?}", other),
    }
    assert!(!s.is_running(main));
}

#[test]
fn supervisor_channel_events() {
    let main = TaskId { id: 1 };
    let mut s: Supervisor<&str, &str> = Supervisor::new(main, "handle", "thread");
    let step = s.on_event(SupervisorEvent::ReadError);
    assert!(step.join.is_none());
    match step.exit {
        Some(Err(e)) => assert!(matches!(e.kind(), ErrorKind::CouldNotReadValueFromChannel)),
        other => panic!("unexpected {:?}", other),
    }
    let step = s.on_event(SupervisorEvent::Closed);
    assert!(matches!(step.exit, Some(Ok(()))));
    let step = s.on_event(SupervisorEvent::Received(StarlingMessage::TaskFinished(main)));
    assert_eq!(step.join, Some("thread"));
    assert!(matches!(step.exit, Some(Ok(()))));
}

#[test]
fn evaluation_paths() {
    let mut ev = Evaluation::new();
    assert!(matches!(ev.step(EvalEvent::ScriptEvaluated(Ok(()))), EvalAction::DrainMicroTasks));
    assert!(matches!(ev.step(EvalEvent::MicroTasksDrained(Ok(()))), EvalAction::CheckForMain));
    assert!(matches!(ev.step(EvalEvent::MainChecked(true)), EvalAction::CallMain));
    assert!(matches!(ev.step(EvalEvent::MainCalled(Ok(true))), EvalAction::DrainMicroTasks));
    assert!(matches!(
        ev.step(EvalEvent::MicroTasksDrained(Ok(()))),
        EvalAction::Finish { run_jobs: false, outcome: ModuleOutcome::Promise }
    ));
    assert_eq!(ev.phase(), EvalPhase::Done);

    let mut ev = Evaluation::new();
    let e = Error::from_kind(ErrorKind::JavaScriptException);
    assert!(matches!(
        ev.step(EvalEvent::ScriptEvaluated(Err(e))),
        EvalAction::Finish { run_jobs: true, outcome: ModuleOutcome::Failed(_) }
    ));

    let mut ev = Evaluation::new();
    ev.step(EvalEvent::ScriptEvaluated(Ok(())));
    ev.step(EvalEvent::MicroTasksDrained(Ok(())));
    assert!(matches!(
        ev.step(EvalEvent::MainChecked(false)),
        EvalAction::Finish { run_jobs: false, outcome: ModuleOutcome::NoPromise }
    ));
}

#[test]
fn poll_adapters() {
    let r: Result<Async<()>, ()> = ignore_results_poll::<u8, &str, ()>(Err("bad"));
    assert_eq!(r, Ok(Async::Ready(())));
    let r: Result<Async<()>, ()> = ignore_results_poll::<u8, &str, ()>(Ok(Async::NotReady));
    assert_eq!(r, Ok(Async::NotReady));
    let r: Result<Async<()>, ()> = ignore_results_poll::<u8, &str, ()>(Ok(Async::Ready(3)));
    assert_eq!(r, Ok(Async::Ready(())));
    let r: Result<Async<u8>, ()> = or_default_poll::<u8, &str, ()>(Err("bad"));
    assert_eq!(r, Ok(Async::Ready(0)));
    let r: Result<Async<String>, ()> = or_default_poll::<String, &str, ()>(Err("bad"));
    assert_eq!(r, Ok(Async::Ready(String::new())));
    let r: Result<Async<u8>, ()> = or_default_poll::<u8, &str, ()>(Ok(Async::NotReady));
    assert_eq!(r, Ok(Async::NotReady));
    let r: Result<Async<u8>, ()> = or_default_poll::<u8, &str, ()>(Ok(Async::Ready(9)));
    assert_eq!(r, Ok(Async::Ready(9)));
}

#[test]
fn promise_glue_decisions() {
    let r = promise_to_future_poll::<u8>(Err(futures::sync::oneshot::Canceled));
    match r {
        Err(e) => assert_eq!(e.message(), "JavaScript Promise collected without settling"),
        Ok(_) => panic!("expected an error"),
    }
    assert!(matches!(promise_to_future_poll::<u8>(Ok(Async::NotReady)), Ok(Async::NotReady)));
    assert!(matches!(promise_to_future_poll::<u8>(Ok(Async::Ready(Ok(5)))), Ok(Async::Ready(5))));
    let r = promise_to_future_poll::<u8>(Ok(Async::Ready(Err(Error::from_msg("x".to_string())))));
    assert!(matches!(r, Err(ref e) if e.message() == "x"));

    let r = on_resolve::<u8, u16>(Conversion::Success(1));
    assert!(matches!(r, Ok(Ok(1))));
    let r = on_reject::<u8, u16>(Conversion::Success(2));
    assert!(matches!(r, Ok(Err(2))));
    let r = on_reject::<u8, u16>(Conversion::Failure("not a number".to_string()));
    assert!(matches!(r, Err(ref e) if e.message() == "not a number"));
    let r = on_resolve::<u8, u16>(Conversion::Exception(Error::from_kind(ErrorKind::JavaScriptException)));
    assert!(matches!(r, Err(ref e) if matches!(e.kind(), ErrorKind::JavaScriptException)));

    let (s, a) = Future2Promise::WaitingOnInner.step(Future2PromiseEvent::InnerNotReady);
    assert!(matches!(s, Future2Promise::WaitingOnInner) && matches!(a, Future2PromiseAction::Park));
    let (s, a) = Future2Promise::WaitingOnInner
        .step(Future2PromiseEvent::Settled(Err(Error::from_msg("drain".to_string()))));
    assert!(matches!(s, Future2Promise::NotifyingOfError));
    match a {
        Future2PromiseAction::NotifyTask(TaskMessage::UnhandledRejectedPromise { error }) => {
            assert_eq!(error.message(), "drain")
        }
        other => panic!("unexpected {:?}", other),
    }
    let (s, a) = s.step(Future2PromiseEvent::NotifyDone);
    assert!(matches!(s, Future2Promise::Finished) && matches!(a, Future2PromiseAction::Done));
}

#[test]
fn task_locals_set_once() {
    let mut l: TaskLocals<&str, u32, char> = TaskLocals::new();
    assert!(!l.has_task() && !l.has_event_loop());
    l.set_event_loop('e');
    l.install_task("main.js".to_string(), 7, "starling");
    assert!(l.has_task());
    assert_eq!(l.this_js_file(), "main.js");
    assert_eq!(*l.this_task(), 7);
    assert_eq!(*l.starling_handle(), "starling");
    assert_eq!(*l.event_loop(), 'e');
}

#[test]
fn supervisor_joins_spawned_task_threads() {
    let main = TaskId { id: 1 };
    let child = TaskId { id: 2 };
    let mut s: Supervisor<&str, &str> = Supervisor::new(main, "handle", "thread");
    let step = s.on_event(SupervisorEvent::Received(StarlingMessage::NewTask(child, "h2", "t2")));
    assert!(step.join.is_none() && step.exit.is_none());
    assert!(s.is_running(child));
    let step = s.on_event(SupervisorEvent::Received(StarlingMessage::TaskFinished(child)));
    assert_eq!(step.join, Some("t2"));
    assert!(step.exit.is_none());
    assert!(!s.is_running(child));
    assert!(s.is_running(main));
}

#[test]
fn starling_message_is_send() {
    fn assert_send<T: Send>() {}
    assert_send::<StarlingMessage<String, Vec<u8>>>();
}

#[test]
fn task_message_is_send() {
    fn assert_send<T: Send>() {}
    assert_send::<TaskMessage>();
}
