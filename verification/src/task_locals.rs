//! The per-thread state of a task: the JavaScript file it evaluates, a handle
//! to itself, a handle to the Starling supervisor, and its event loop. Each is
//! set once, when the task's thread starts, and read afterwards.
use vstd::prelude::*;

verus! {

/// The per-thread state of a task, generic over the supervisor handle `S`,
/// the task handle `H` and the event loop handle `L`.
#[derive(Debug)]
pub struct TaskLocals<S, H, L> {
    js_file: Option<String>,
    starling: Option<S>,
    this_task: Option<H>,
    event_loop: Option<L>,
}

impl<S, H, L> TaskLocals<S, H, L> {
    /// The JavaScript file of this thread's task, once set.
    pub closed spec fn spec_js_file(&self) -> Option<Seq<char>> {
        match self.js_file {
            Some(f) => Some(f@),
            None => None,
        }
    }

    /// The supervisor handle of this thread's task, once set.
    pub closed spec fn spec_starling(&self) -> Option<S> {
        self.starling
    }

    /// The handle of this thread's task, once set.
    pub closed spec fn spec_this_task(&self) -> Option<H> {
        self.this_task
    }

    /// The event loop of this thread, once set.
    pub closed spec fn spec_event_loop(&self) -> Option<L> {
        self.event_loop
    }

    /// The state of a thread that runs no task yet.
    pub fn new() -> (t: Self)
        ensures
            t.spec_js_file() is None,
            t.spec_starling() is None,
            t.spec_this_task() is None,
            t.spec_event_loop() is None,
    {
        TaskLocals { js_file: None, starling: None, this_task: None, event_loop: None }
    }

    /// Record this thread's event loop; it may be set only once.
    pub fn set_event_loop(&mut self, event_loop: L)
        requires
            old(self).spec_event_loop() is None,
        ensures
            final(self).spec_event_loop() == Some(event_loop),
            final(self).spec_js_file() == old(self).spec_js_file(),
            final(self).spec_starling() == old(self).spec_starling(),
            final(self).spec_this_task() == old(self).spec_this_task(),
    {
        self.event_loop = Some(event_loop);
    }

    /// Record the task that this thread runs; it may be set only once.
    pub fn install_task(&mut self, js_file: String, this_task: H, starling: S)
        requires
            old(self).spec_js_file() is None,
            old(self).spec_this_task() is None,
            old(self).spec_starling() is None,
        ensures
            final(self).spec_js_file() == Some(js_file@),
            final(self).spec_this_task() == Some(this_task),
            final(self).spec_starling() == Some(starling),
            final(self).spec_event_loop() == old(self).spec_event_loop(),
    {
        self.js_file = Some(js_file);
        self.this_task = Some(this_task);
        self.starling = Some(starling);
    }

    /// Whether a task was installed on this thread.
    pub fn has_task(&self) -> (b: bool)
        ensures
            b == (self.spec_js_file() is Some && self.spec_this_task() is Some
                && self.spec_starling() is Some),
    {
        self.js_file.is_some() && self.this_task.is_some() && self.starling.is_some()
    }

    /// Whether no task was installed on this thread yet: neither its file, nor
    /// its handle, nor its supervisor handle.
    pub fn can_install_task(&self) -> (b: bool)
        ensures
            b == (self.spec_js_file() is None && self.spec_this_task() is None
                && self.spec_starling() is None),
    {
        self.js_file.is_none() && self.this_task.is_none() && self.starling.is_none()
    }

    /// Whether this thread's event loop was recorded.
    pub fn has_event_loop(&self) -> (b: bool)
        ensures
            b == self.spec_event_loop() is Some,
    {
        self.event_loop.is_some()
    }

    /// The JavaScript file that this thread's task was spawned to evaluate.
    pub fn this_js_file(&self) -> (f: String)
        requires
            self.spec_js_file() is Some,
        ensures
            Some(f@) == self.spec_js_file(),
    {
        match &self.js_file {
            Some(f) => f.clone(),
            None => String::new(),
        }
    }

    /// A handle to this thread's task.
    pub fn this_task(&self) -> (h: &H)
        requires
            self.spec_this_task() is Some,
        ensures
            Some(*h) == self.spec_this_task(),
    {
        self.this_task.as_ref().unwrap()
    }

    /// A handle to this thread's task's Starling supervisor.
    pub fn starling_handle(&self) -> (s: &S)
        requires
            self.spec_starling() is Some,
        ensures
            Some(*s) == self.spec_starling(),
    {
        self.starling.as_ref().unwrap()
    }

    /// A handle to this thread's event loop.
    pub fn event_loop(&self) -> (l: &L)
        requires
            self.spec_event_loop() is Some,
        ensures
            Some(*l) == self.spec_event_loop(),
    {
        self.event_loop.as_ref().unwrap()
    }
}

} // verus!
