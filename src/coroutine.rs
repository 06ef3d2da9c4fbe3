use vstd::prelude::*;
use crate::stack::{Stack, StackPool, DEFAULT_STACK_SIZE};

verus! {

/// Lifecycle of a coroutine: it only ever moves forward.
#[derive(Clone, Copy, Debug, PartialEq, Eq, Structural)]
pub enum State {
    Created,
    Running,
    Finished,
}

/// Position of a state in the lifecycle order.
pub open spec fn rank(s: State) -> int {
    match s {
        State::Created => 0,
        State::Running => 1,
        State::Finished => 2,
    }
}

/// Cause of a failure captured at the coroutine boundary.
#[derive(Debug)]
pub enum Failure {
    /// A failure carrying an owned text message.
    Owned(String),
    /// A failure carrying a static text message.
    Borrowed(&'static str),
    /// A failure whose payload is not text.
    Opaque,
    /// The deliberate unwind of an abandoned coroutine: not an error.
    ForceUnwind,
}

/// Failure reported to the resumer of a coroutine.
#[derive(Debug)]
pub enum Error {
    /// A failure just captured, still carrying its cause; resumers are only
    /// ever handed `Panicked`.
    Panicking(Failure),
    /// The stable terminal failure of a coroutine that failed or finished.
    Panicked,
}

/// Placeholder that a diagnostic uses for a coroutine without a name.
pub const UNNAMED: &'static str = "<unnamed>";

/// Message that a diagnostic uses for a failure without a text payload.
pub const OPAQUE_MESSAGE: &'static str = "Box<Any>";

/// Message text of a failure cause, if it has one to report.
pub open spec fn message_of(f: Failure) -> Option<Seq<char>> {
    match f {
        Failure::Owned(s) => Some(s@),
        Failure::Borrowed(s) => Some(s@),
        Failure::Opaque => Some(OPAQUE_MESSAGE@),
        Failure::ForceUnwind => None,
    }
}

/// Label under which a coroutine is named in a diagnostic.
pub open spec fn label_of(name: Option<Seq<char>>) -> Seq<char> {
    match name {
        Some(n) => n,
        None => UNNAMED@,
    }
}

/// Message text of a failure cause that is reported: `None` for a forced
/// unwind, which is no error.
pub fn failure_message(f: &Failure) -> (r: Option<String>)
    ensures
        match r {
            Some(m) => message_of(*f) == Some(m@),
            None => message_of(*f) is None,
        },
{
    match f {
        Failure::Owned(s) => Some(s.clone()),
        Failure::Borrowed(s) => Some((*s).to_owned()),
        Failure::Opaque => Some(OPAQUE_MESSAGE.to_owned()),
        Failure::ForceUnwind => None,
    }
}

/// The one log entry emitted when a coroutine body fails.
pub struct Diagnostic {
    pub name: String,
    pub message: String,
}

/// Spawn options: an optional label and the requested stack size.
pub struct Options {
    pub name: Option<String>,
    pub stack_size: usize,
}

impl Default for Options {
    fn default() -> (r: Options)
        ensures
            r.name is None,
            r.stack_size == DEFAULT_STACK_SIZE,
    {
        Options { name: None, stack_size: DEFAULT_STACK_SIZE }
    }
}

/// What the resumer must do after asking a coroutine to resume.
pub enum Transfer<T> {
    /// Activate the body, delivering this input value.
    Enter(Option<T>),
    /// Do not activate anything: this is the result of the resume.
    Done(Result<Option<T>, Error>),
}

/// The transfer is the stable terminal failure.
pub open spec fn is_terminal<T>(t: Transfer<T>) -> bool {
    t matches Transfer::Done(Err(Error::Panicked))
}

/// How an activated body handed control back.
pub enum Suspension<T> {
    /// It yielded a value and can be resumed again.
    Yielded(T),
    /// It returned normally.
    Returned,
    /// It failed with the given cause.
    Failed(Failure),
}

/// The record of one coroutine: its label, lifecycle state, owned stack and
/// whether it failed.
pub struct Coroutine<T> {
    name: Option<String>,
    state: State,
    stack: Stack,
    failed: bool,
    payload: core::marker::PhantomData<T>,
}

impl<T> Coroutine<T> {
    /// The configured label, if any.
    pub closed spec fn spec_name(&self) -> Option<Seq<char>> {
        match self.name {
            Some(s) => Some(s@),
            None => None,
        }
    }

    /// The lifecycle state.
    pub closed spec fn spec_state(&self) -> State {
        self.state
    }

    /// The stack the coroutine owns.
    pub closed spec fn spec_stack(&self) -> Stack {
        self.stack
    }

    /// Whether the body failed.
    pub closed spec fn spec_failed(&self) -> bool {
        self.failed
    }

    /// `self` is `pre` after a resume that activated its body: running, with
    /// the same label and stack.
    pub open spec fn entered_from(&self, pre: &Self) -> bool {
        &&& self.spec_state() == State::Running
        &&& self.spec_name() == pre.spec_name()
        &&& self.spec_stack() == pre.spec_stack()
        &&& !self.spec_failed()
    }

    /// The coroutine failed only if it finished.
    pub open spec fn wf(&self) -> bool {
        self.spec_failed() ==> self.spec_state() == State::Finished
    }

    /// Creates a coroutine in the `Created` state, on a stack of the requested
    /// size taken from `pool`.
    pub fn spawn_opts(opts: Options, pool: &mut StackPool) -> (r: Coroutine<T>)
        requires
            old(pool).spec_allocations() < u64::MAX,
        ensures
            r.wf(),
            r.spec_state() == State::Created,
            !r.spec_failed(),
            r.spec_name() == (match opts.name {
                Some(s) => Some(s@),
                None => None,
            }),
            StackPool::took(old(pool), final(pool), opts.stack_size, r.spec_stack()),
    {
        let stack = pool.take_stack(opts.stack_size);
        Coroutine { name: opts.name, state: State::Created, stack, failed: false, payload: core::marker::PhantomData }
    }

    /// Creates a coroutine with the default options.
    pub fn spawn(pool: &mut StackPool) -> (r: Coroutine<T>)
        requires
            old(pool).spec_allocations() < u64::MAX,
        ensures
            r.wf(),
            r.spec_state() == State::Created,
            !r.spec_failed(),
            r.spec_name() is None,
            StackPool::took(old(pool), final(pool), DEFAULT_STACK_SIZE, r.spec_stack()),
    {
        Coroutine::spawn_opts(Options::default(), pool)
    }

    /// The configured label, if any.
    pub fn name(&self) -> (r: Option<&str>)
        ensures
            match r {
                Some(s) => self.spec_name() == Some(s@),
                None => self.spec_name() is None,
            },
    {
        match &self.name {
            Some(s) => Some(s.as_str()),
            None => None,
        }
    }

    /// The stack the coroutine runs on.
    pub fn stack(&self) -> (r: &Stack)
        ensures
            *r == self.spec_stack(),
    {
        &self.stack
    }

    /// Whether the body began and has not finished, so that its stack must
    /// be unwound before the coroutine is released. A body that never began
    /// left nothing on its stack.
    pub fn needs_unwind(&self) -> (r: bool)
        ensures
            r == (self.spec_state() == State::Running),
    {
        self.state == State::Running
    }

    /// Current lifecycle state.
    pub fn state(&self) -> (r: State)
        ensures
            r == self.spec_state(),
    {
        self.state
    }

    /// Whether the coroutine has finished.
    pub fn is_finished(&self) -> (r: bool)
        ensures
            r == (self.spec_state() == State::Finished),
    {
        self.state == State::Finished
    }

    /// Resumes with no new input.
    pub fn resume(&mut self) -> (r: Transfer<T>)
        requires
            old(self).wf(),
        ensures
            final(self).wf(),
            rank(final(self).spec_state()) >= rank(old(self).spec_state()),
            old(self).spec_state() == State::Finished ==> is_terminal(r) && *final(self) == *old(
                self,
            ),
            old(self).spec_state() != State::Finished ==> r == Transfer::<T>::Enter(None) && final(self).entered_from(
                old(self),
            ),
    {
        self.resume_input(None)
    }

    /// Resumes, delivering `data` as the next input seen inside the body.
    pub fn resume_with(&mut self, data: T) -> (r: Transfer<T>)
        requires
            old(self).wf(),
        ensures
            final(self).wf(),
            rank(final(self).spec_state()) >= rank(old(self).spec_state()),
            old(self).spec_state() == State::Finished ==> is_terminal(r) && *final(self) == *old(
                self,
            ),
            old(self).spec_state() != State::Finished ==> r == Transfer::Enter(Some(data)) && final(self).entered_from(
                old(self),
            ),
    {
        self.resume_input(Some(data))
    }

    fn resume_input(&mut self, input: Option<T>) -> (r: Transfer<T>)
        requires
            old(self).wf(),
        ensures
            final(self).wf(),
            rank(final(self).spec_state()) >= rank(old(self).spec_state()),
            old(self).spec_state() == State::Finished ==> is_terminal(r) && *final(self) == *old(
                self,
            ),
            old(self).spec_state() != State::Finished ==> r == Transfer::Enter(input) && final(self).entered_from(
                old(self),
            ),
    {
        if self.state == State::Finished {
            Transfer::Done(Err(Error::Panicked))
        } else {
            self.state = State::Running;
            Transfer::Enter(input)
        }
    }
    /// Called from inside the body: the suspension that hands `data` to the
    /// resumer. The body continues with the input of the next resume.
    pub fn yield_with(&self, data: T) -> (r: Suspension<T>)
        ensures
            r == Suspension::Yielded(data),
    {
        Suspension::Yielded(data)
    }

    /// Records how the activated body handed control back. Returns the result
    /// of the resume that activated it, and the log entry to emit, if any.
    pub fn suspend(&mut self, event: Suspension<T>) -> (r: (Result<Option<T>, Error>, Option<Diagnostic>))
        requires
            old(self).wf(),
            old(self).spec_state() == State::Running,
        ensures
            final(self).wf(),
            rank(final(self).spec_state()) >= rank(old(self).spec_state()),
            final(self).spec_name() == old(self).spec_name(),
            final(self).spec_stack() == old(self).spec_stack(),
            match event {
                Suspension::Yielded(v) => {
                    &&& r.0 == Ok::<Option<T>, Error>(Some(v))
                    &&& r.1 is None
                    &&& final(self).spec_state() == State::Running
                    &&& !final(self).spec_failed()
                },
                Suspension::Returned => {
                    &&& r.0 == Ok::<Option<T>, Error>(None)
                    &&& r.1 is None
                    &&& final(self).spec_state() == State::Finished
                    &&& !final(self).spec_failed()
                },
                Suspension::Failed(f) => {
                    &&& final(self).spec_state() == State::Finished
                    &&& match message_of(f) {
                        None => {
                            &&& r.0 == Ok::<Option<T>, Error>(None)
                            &&& r.1 is None
                            &&& !final(self).spec_failed()
                        },
                        Some(m) => {
                            &&& r.0 matches Err(Error::Panicked)
                            &&& r.1 matches Some(d) && d.name@ == label_of(old(self).spec_name())
                                && d.message@ == m
                            &&& final(self).spec_failed()
                        },
                    }
                },
            },
    {
        match event {
            Suspension::Yielded(v) => (Ok(Some(v)), None),
            Suspension::Returned => {
                self.state = State::Finished;
                (Ok(None), None)
            },
            Suspension::Failed(f) => {
                self.state = State::Finished;
                match failure_message(&f) {
                    None => (Ok(None), None),
                    Some(message) => {
                        let name = match &self.name {
                            Some(n) => n.clone(),
                            None => UNNAMED.to_owned(),
                        };
                        self.failed = true;
                        (Err(Error::Panicked), Some(Diagnostic { name, message }))
                    },
                }
            },
        }
    }

    /// Gives the coroutine's stack back to `pool`: the only way a stack goes
    /// back. Returns whether the body had begun and not finished, so that its
    /// stack had to be unwound first (see `needs_unwind`).
    pub fn release(self, pool: &mut StackPool) -> (unwound: bool)
        ensures
            unwound == (self.spec_state() == State::Running),
            final(pool)@ == old(pool)@.push(self.spec_stack()),
            final(pool).spec_allocations() == old(pool).spec_allocations(),
    {
        let unwound = self.state == State::Running;
        pool.return_stack(self.stack);
        unwound
    }
}

} // verus!
