//! Adapters over the result of polling a future.
use vstd::prelude::*;

verus! {

/// Whether a polled value is ready.
#[derive(Debug, Clone, Copy, PartialEq, Eq, Structural)]
pub enum Async<T> {
    /// The value is ready.
    Ready(T),
    /// The value is not ready yet, but may be so later.
    NotReady,
}

/// Poll an inner future whose errors are replaced by the default item: an
/// error becomes a ready value that `T::default` returns, anything else
/// passes through.
pub fn or_default_poll<T: Default, E, E2>(inner: Result<Async<T>, E>) -> (r: Result<Async<T>, E2>)
    ensures
        inner matches Ok(x) ==> r == Ok::<Async<T>, E2>(x),
        inner is Err ==> (r matches Ok(Async::Ready(v)) && call_ensures(T::default, (), v)),
{
    match inner {
        Ok(x) => Ok(x),
        Err(_) => Ok(Async::Ready(T::default())),
    }
}

/// Poll an inner future whose results (both items and errors) are ignored:
/// it is ready once the inner future is ready or failed.
pub fn ignore_results_poll<T, E, E2>(inner: Result<Async<T>, E>) -> (r: Result<Async<()>, E2>)
    ensures
        inner == Ok::<Async<T>, E>(Async::NotReady) ==> r == Ok::<Async<()>, E2>(Async::NotReady),
        inner != Ok::<Async<T>, E>(Async::NotReady) ==> r == Ok::<Async<()>, E2>(Async::Ready(())),
{
    match inner {
        Ok(Async::NotReady) => Ok(Async::NotReady),
        _ => Ok(Async::Ready(())),
    }
}

} // verus!
