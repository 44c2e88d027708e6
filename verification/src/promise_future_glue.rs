//! Gluing Rust's `Future` and JavaScript's `Promise` together.
//!
//! To treat a Rust `Future` as a JavaScript `Promise`, a future combinator
//! settles a fresh promise with the inner future's outcome. To treat a
//! JavaScript `Promise` as a Rust `Future`, callbacks registered on the promise
//! send its settlement over one-shot channels. This module holds the decisions
//! of both directions; the JavaScript engine work happens around them.
use vstd::prelude::*;
use futures::sync::oneshot::Canceled;
use crate::error::{Error, ErrorKind};
use crate::future_ext::Async;
use crate::task::TaskMessage;

verus! {

/// The error of a one-shot channel whose sender was dropped without sending.
#[verifier::external_type_specification]
#[verifier::external_body]
pub struct ExCanceled(Canceled);

/// The outcome of converting a JavaScript value into a Rust value.
#[derive(Debug)]
pub enum Conversion<T> {
    /// The conversion succeeded.
    Success(T),
    /// The conversion failed, with the given description.
    Failure(String),
    /// The conversion threw; the error describes the pending exception.
    Exception(Error),
}

/// What the resolution callback of a promise sends to its future.
pub fn on_resolve<T, E>(conv: Conversion<T>) -> (r: Result<Result<T, E>, Error>)
    ensures
        conv matches Conversion::Success(t) ==> r == Ok::<Result<T, E>, Error>(Ok(t)),
        conv matches Conversion::Failure(s) ==> (r matches Err(e) && e.spec_kind()
            == ErrorKind::Msg(s)),
        conv matches Conversion::Exception(x) ==> r == Err::<Result<T, E>, Error>(x),
{
    match conv {
        Conversion::Success(t) => Ok(Ok(t)),
        Conversion::Failure(s) => Err(Error::from_msg(s)),
        Conversion::Exception(e) => Err(e),
    }
}

/// What the rejection callback of a promise sends to its future.
pub fn on_reject<T, E>(conv: Conversion<E>) -> (r: Result<Result<T, E>, Error>)
    ensures
        conv matches Conversion::Success(e) ==> r == Ok::<Result<T, E>, Error>(Err(e)),
        conv matches Conversion::Failure(s) ==> (r matches Err(e) && e.spec_kind()
            == ErrorKind::Msg(s)),
        conv matches Conversion::Exception(x) ==> r == Err::<Result<T, E>, Error>(x),
{
    match conv {
        Conversion::Success(e) => Ok(Err(e)),
        Conversion::Failure(s) => Err(Error::from_msg(s)),
        Conversion::Exception(x) => Err(x),
    }
}

/// Poll the future of a JavaScript promise, given the poll of whichever of
/// its two one-shot channels (resolution, rejection) answered first.
///
/// A dropped sender means the promise was collected without settling; an
/// error met while converting the settled value is the future's error;
/// otherwise the promise's outcome is the future's item.
pub fn promise_to_future_poll<R>(inner: Result<Async<Result<R, Error>>, Canceled>) -> (r: Result<
    Async<R>,
    Error,
>)
    ensures
        inner is Err ==> (r matches Err(e) && e.spec_kind()
            == ErrorKind::JavaScriptPromiseCollectedWithoutSettling),
        inner == Ok::<Async<Result<R, Error>>, Canceled>(Async::NotReady) ==> r == Ok::<
            Async<R>,
            Error,
        >(Async::NotReady),
        inner matches Ok(Async::Ready(Err(e))) ==> r == Err::<Async<R>, Error>(e),
        inner matches Ok(Async::Ready(Ok(v))) ==> r == Ok::<Async<R>, Error>(Async::Ready(v)),
{
    match inner {
        Err(_) => Err(Error::from_kind(ErrorKind::JavaScriptPromiseCollectedWithoutSettling)),
        Ok(Async::NotReady) => Ok(Async::NotReady),
        Ok(Async::Ready(Err(e))) => Err(e),
        Ok(Async::Ready(Ok(v))) => Ok(Async::Ready(v)),
    }
}

/// Where a future that settles a promise is.
#[derive(Debug)]
pub enum Future2Promise {
    /// Waiting on the inner future to be ready or fail.
    WaitingOnInner,
    /// Sending an error that needs to propagate to the task.
    NotifyingOfError,
    /// All done.
    Finished,
}

/// What happened to a future that settles a promise.
#[derive(Debug)]
pub enum Future2PromiseEvent {
    /// The inner future is not ready.
    InnerNotReady,
    /// The inner future was ready (or failed), the promise was resolved (or
    /// rejected) accordingly, and the micro-task queue was drained with the
    /// given result.
    Settled(Result<(), Error>),
    /// The error notification is still on its way.
    NotifyNotReady,
    /// The error notification was sent, or the task was already gone.
    NotifyDone,
}

/// What a future that settles a promise must do next.
#[derive(Debug)]
pub enum Future2PromiseAction {
    /// Wait to be polled again.
    Park,
    /// Send this message to the task.
    NotifyTask(TaskMessage),
    /// The future is complete.
    Done,
}

/// Which events a future that settles a promise takes in each state.
pub open spec fn future2promise_accepts(state: Future2Promise, event: Future2PromiseEvent) -> bool {
    match state {
        Future2Promise::WaitingOnInner => event is InnerNotReady || event is Settled,
        Future2Promise::NotifyingOfError => event is NotifyNotReady || event is NotifyDone,
        Future2Promise::Finished => false,
    }
}

impl Future2Promise {
    /// Take one step: a failure to drain the micro-task queue after settling
    /// the promise is an unhandled rejection that the task must hear of.
    pub fn step(self, event: Future2PromiseEvent) -> (r: (Future2Promise, Future2PromiseAction))
        requires
            future2promise_accepts(self, event),
        ensures
            event is InnerNotReady ==> r.0 is WaitingOnInner && r.1 is Park,
            event matches Future2PromiseEvent::Settled(Ok(())) ==> r.0 is Finished && r.1 is Done,
            event matches Future2PromiseEvent::Settled(Err(e)) ==> r.0 is NotifyingOfError && r.1
                == Future2PromiseAction::NotifyTask(TaskMessage::UnhandledRejectedPromise { error: e }),
            event is NotifyNotReady ==> r.0 is NotifyingOfError && r.1 is Park,
            event is NotifyDone ==> r.0 is Finished && r.1 is Done,
    {
        match event {
            Future2PromiseEvent::InnerNotReady => (Future2Promise::WaitingOnInner, Future2PromiseAction::Park),
            Future2PromiseEvent::Settled(Ok(())) => (Future2Promise::Finished, Future2PromiseAction::Done),
            Future2PromiseEvent::Settled(Err(error)) => (
                Future2Promise::NotifyingOfError,
                Future2PromiseAction::NotifyTask(TaskMessage::UnhandledRejectedPromise { error }),
            ),
            Future2PromiseEvent::NotifyNotReady => (
                Future2Promise::NotifyingOfError,
                Future2PromiseAction::Park,
            ),
            Future2PromiseEvent::NotifyDone => (Future2Promise::Finished, Future2PromiseAction::Done),
        }
    }
}

} // verus!
