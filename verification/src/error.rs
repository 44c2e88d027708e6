//! Errors that can occur in the Starling runtime.
use vstd::prelude::*;
use vstd::string::*;

verus! {

/// The kind of error that occurred.
#[derive(Debug)]
pub enum ErrorKind {
    /// Some other kind of miscellaneous error, described in the given string.
    Msg(String),
    /// An IO error, described by the IO error's own message.
    Io(String),
    /// Tried to send a value on a channel when the receiving half was already
    /// dropped.
    SendError,
    /// Could not create a JavaScript runtime.
    CouldNotCreateJavaScriptRuntime,
    /// Could not read a value from a channel.
    CouldNotReadValueFromChannel,
    /// There was an exception in JavaScript code.
    JavaScriptException,
    /// There was an unhandled, rejected JavaScript promise.
    JavaScriptUnhandledRejectedPromise,
    /// The JavaScript `Promise` that was going to settle a future was
    /// reclaimed by the garbage collector without having been resolved or
    /// rejected.
    JavaScriptPromiseCollectedWithoutSettling,
}

/// The text that an error of the given kind displays.
pub open spec fn kind_message(kind: ErrorKind) -> Seq<char> {
    match kind {
        ErrorKind::Msg(s) => s@,
        ErrorKind::Io(s) => s@,
        ErrorKind::SendError => "send failed because receiver is gone"@,
        ErrorKind::CouldNotCreateJavaScriptRuntime => "Could not create a JavaScript Runtime"@,
        ErrorKind::CouldNotReadValueFromChannel => "Could not read a value from a channel"@,
        ErrorKind::JavaScriptException => "JavaScript exception"@,
        ErrorKind::JavaScriptUnhandledRejectedPromise => "Unhandled, rejected JavaScript promise"@,
        ErrorKind::JavaScriptPromiseCollectedWithoutSettling =>
            "JavaScript Promise collected without settling"@,
    }
}

/// An error: a kind, and the text it displays.
#[derive(Debug)]
pub struct Error {
    kind: ErrorKind,
}

impl Error {
    /// The kind of this error.
    pub closed spec fn spec_kind(&self) -> ErrorKind {
        self.kind
    }

    /// The text this error displays.
    pub open spec fn spec_message(&self) -> Seq<char> {
        kind_message(self.spec_kind())
    }

    /// Construct an error of the given kind.
    pub fn from_kind(kind: ErrorKind) -> (e: Error)
        ensures
            e.spec_kind() == kind,
    {
        Error { kind }
    }

    /// Construct a miscellaneous error with the given description.
    pub fn from_msg(msg: String) -> (e: Error)
        ensures
            e.spec_kind() == ErrorKind::Msg(msg),
            e.spec_message() == msg@,
    {
        Error { kind: ErrorKind::Msg(msg) }
    }

    /// Get the kind of this error.
    pub fn kind(&self) -> (k: &ErrorKind)
        ensures
            *k == self.spec_kind(),
    {
        &self.kind
    }

    /// The text that this error displays.
    pub fn message(&self) -> (s: String)
        ensures
            s@ == self.spec_message(),
    {
        match &self.kind {
            ErrorKind::Msg(s) => s.clone(),
            ErrorKind::Io(s) => s.clone(),
            ErrorKind::SendError => String::from_str("send failed because receiver is gone"),
            ErrorKind::CouldNotCreateJavaScriptRuntime => String::from_str(
                "Could not create a JavaScript Runtime",
            ),
            ErrorKind::CouldNotReadValueFromChannel => String::from_str(
                "Could not read a value from a channel",
            ),
            ErrorKind::JavaScriptException => String::from_str("JavaScript exception"),
            ErrorKind::JavaScriptUnhandledRejectedPromise => String::from_str(
                "Unhandled, rejected JavaScript promise",
            ),
            ErrorKind::JavaScriptPromiseCollectedWithoutSettling => String::from_str(
                "JavaScript Promise collected without settling",
            ),
        }
    }
}

/// Cloning an error keeps only the text it displays: the clone is a
/// miscellaneous error whose description is that text.
impl Clone for Error {
    fn clone(&self) -> (res: Self)
        ensures
            res.spec_kind() matches ErrorKind::Msg(m) && m@ == self.spec_message(),
            res.spec_message() == self.spec_message(),
    {
        Error::from_msg(self.message())
    }
}

} // verus!
