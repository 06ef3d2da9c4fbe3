use vstd::prelude::*;
use crate::coroutine::{label_of, message_of, Coroutine, Diagnostic, State, Suspension, Transfer};

verus! {

/// Index of the member that a group starts with by default.
pub const FIRST: i32 = 0;

/// Target that ends the group's dispatch loop.
pub const NONE: i32 = -1;

/// Target that passes control to the member after the current one.
pub const NEXT: i32 = -2;

/// Value that a member's suspension hands to the dispatch loop: `None` when
/// the member failed, else what it yielded (`Some(None)` when it finished
/// without a value).
pub open spec fn handed_back<T>(e: Suspension<T>) -> Option<Option<T>> {
    match e {
        Suspension::Yielded(v) => Some(Some(v)),
        Suspension::Returned => Some(None),
        Suspension::Failed(f) => if message_of(f) is None {
            Some(None)
        } else {
            None
        },
    }
}

/// `d` is the log entry for a member named `name` whose body failed as
/// `e` says.
pub open spec fn reports<T>(d: Diagnostic, name: Option<Seq<char>>, e: Suspension<T>) -> bool {
    &&& d.name@ == label_of(name)
    &&& match e {
        Suspension::Failed(f) => message_of(f) == Some(d.message@),
        _ => false,
    }
}

/// The member that runs after `current`, given the target `next` that it
/// asked for, in a group of `len` members.
pub open spec fn successor(current: int, next: int, len: int) -> int {
    if next == NEXT {
        (current + 1) % len
    } else {
        next
    }
}

/// Member that runs after `k` transfers from member `first` when every
/// member asks for `NEXT`.
pub open spec fn round_robin(first: int, len: int, k: nat) -> int
    decreases k,
{
    if k == 0 {
        first
    } else {
        successor(round_robin(first, len, (k - 1) as nat), NEXT as int, len)
    }
}

/// When every member asks for `NEXT`, control visits the members in order,
/// wrapping around: after `k` transfers from member `first`, member
/// `(first + k) mod len` runs.
pub proof fn lemma_round_robin_order(first: int, len: int, k: nat)
    requires
        0 <= first < len,
    ensures
        round_robin(first, len, k) == (first + k) % len,
    decreases k,
{
    if k == 0 {
        vstd::arithmetic::div_mod::lemma_small_mod(first as nat, len as nat);
    } else {
        lemma_round_robin_order(first, len, (k - 1) as nat);
        vstd::arithmetic::div_mod::lemma_add_mod_noop_right(1, first + k - 1, len);
        assert(1 + (first + k - 1) == first + k);
    }
}

/// Why a group's dispatch loop cannot go on.
#[derive(Clone, Copy, Debug, PartialEq, Eq, Structural)]
pub enum Fault {
    /// A target names no member of the group.
    InvalidIndex(i32),
    /// The member to run next was handed no value to resume it with.
    MissingValue,
    /// The member failed, or was asked to run after it had finished.
    MemberFailed(i32),
}

/// What the runner of a group does next.
pub enum Step<T> {
    /// Activate the body of this member, delivering this input.
    Run(i32, Option<T>),
    /// The dispatch loop is over: this is its final value.
    Finish(Option<T>),
    /// The dispatch loop cannot go on.
    Halt(Fault),
}

/// A fixed, ordered group of coroutines that pass control to one another
/// through a central dispatch loop.
pub struct Coors<T> {
    current: i32,
    next: i32,
    coroutines: Vec<Coroutine<T>>,
}

impl<T> Coors<T> {
    /// Index of the member being run, or `NONE`.
    pub closed spec fn spec_current(&self) -> int {
        self.current as int
    }

    /// Target that the running member asked for last.
    pub closed spec fn spec_next(&self) -> int {
        self.next as int
    }

    /// The members, in order.
    pub closed spec fn members(&self) -> Seq<Coroutine<T>> {
        self.coroutines@
    }

    /// Members fit `i32` indices and are each well formed.
    pub open spec fn wf(&self) -> bool {
        &&& self.members().len() <= i32::MAX
        &&& forall|i: int| 0 <= i < self.members().len() ==> (#[trigger] self.members()[i]).wf()
    }

    /// `i` names a member of the group.
    pub open spec fn is_member(&self, i: int) -> bool {
        0 <= i < self.members().len()
    }

    /// The current member has been activated and its body is running.
    pub open spec fn running(&self) -> bool {
        &&& self.is_member(self.spec_current())
        &&& self.members()[self.spec_current()].spec_state() == State::Running
    }

    /// An empty group, stopped.
    pub fn new() -> (r: Coors<T>)
        ensures
            r.wf(),
            r.members().len() == 0,
            r.spec_current() == NONE,
            r.spec_next() == NONE,
    {
        Coors { current: NONE, next: NONE, coroutines: Vec::new() }
    }

    /// Installs the group's members, in order.
    pub fn set_coroutines(&mut self, coroutines: Vec<Coroutine<T>>)
        requires
            coroutines@.len() <= i32::MAX,
            forall|i: int| 0 <= i < coroutines@.len() ==> (#[trigger] coroutines@[i]).wf(),
        ensures
            final(self).wf(),
            final(self).members() == coroutines@,
            final(self).spec_current() == old(self).spec_current(),
            final(self).spec_next() == old(self).spec_next(),
    {
        self.coroutines = coroutines;
    }

    /// Dissolves the group, handing back its members in order.
    pub fn into_coroutines(self) -> (r: Vec<Coroutine<T>>)
        ensures
            r@ == self.members(),
    {
        self.coroutines
    }

    /// Number of members.
    pub fn len(&self) -> (r: usize)
        ensures
            r == self.members().len(),
    {
        self.coroutines.len()
    }

    /// Index of the member the group is running, or `NONE`.
    pub fn current(&self) -> (r: i32)
        ensures
            r == self.spec_current(),
    {
        self.current
    }

    /// Called by the running member: asks that control pass to `co`, and
    /// gives the suspension that hands `data` to the dispatch loop.
    pub fn yield_to(&mut self, co: i32, data: T) -> (r: Suspension<T>)
        requires
            old(self).running(),
        ensures
            final(self).running(),
            r == Suspension::Yielded(data),
            final(self).spec_next() == co,
            final(self).spec_current() == old(self).spec_current(),
            final(self).members() == old(self).members(),
    {
        self.next = co;
        Suspension::Yielded(data)
    }

    /// Called by the running member: asks that the dispatch loop end with
    /// `data` as its value.
    pub fn stop(&mut self, data: T) -> (r: Suspension<T>)
        requires
            old(self).running(),
        ensures
            final(self).running(),
            r == Suspension::Yielded(data),
            final(self).spec_next() == NONE,
            final(self).spec_current() == old(self).spec_current(),
            final(self).members() == old(self).members(),
    {
        self.next = NONE;
        Suspension::Yielded(data)
    }
    /// The step that the dispatch loop takes when control passes to `n`
    /// carrying `arg`, with the members as they are in `self`.
    pub open spec fn step_to(&self, n: int, arg: Option<T>) -> Step<T> {
        if n == NONE {
            Step::Finish(arg)
        } else if !self.is_member(n) {
            Step::Halt(Fault::InvalidIndex(n as i32))
        } else if arg is None {
            Step::Halt(Fault::MissingValue)
        } else if self.members()[n].spec_state() == State::Finished {
            Step::Halt(Fault::MemberFailed(n as i32))
        } else {
            Step::Run(n as i32, arg)
        }
    }

    /// `self` is `pre` after control passed to `n`: only member `n` changed,
    /// and only if it was activated.
    pub open spec fn passed_from(&self, pre: &Self, n: int, r: Step<T>) -> bool {
        &&& self.wf()
        &&& self.spec_current() == n
        &&& self.spec_next() == pre.spec_next()
        &&& self.members().len() == pre.members().len()
        &&& forall|j: int|
            #![trigger self.members()[j]]
            0 <= j < self.members().len() && j != n ==> self.members()[j] == pre.members()[j]
        &&& r is Run ==> self.running() && self.members()[n].entered_from(&pre.members()[n])
        &&& !(r is Run) && self.is_member(n) ==> self.members()[n] == pre.members()[n]
    }

    fn pass_to(&mut self, n: i32, arg: Option<T>) -> (r: Step<T>)
        requires
            old(self).wf(),
        ensures
            r == old(self).step_to(n as int, arg),
            final(self).passed_from(old(self), n as int, r),
    {
        self.current = n;
        if n == NONE {
            return Step::Finish(arg);
        }
        if n < 0 || n as usize >= self.coroutines.len() {
            return Step::Halt(Fault::InvalidIndex(n));
        }
        let data = match arg {
            Some(data) => data,
            None => {
                return Step::Halt(Fault::MissingValue);
            },
        };
        let i = n as usize;
        let mut member = self.coroutines.remove(i);
        assert(member == old(self).members()[i as int]);
        let t = member.resume_with(data);
        self.coroutines.insert(i, member);
        assert(self.coroutines@ == old(self).coroutines@.update(i as int, member));
        match t {
            Transfer::Enter(input) => Step::Run(n, input),
            Transfer::Done(_) => Step::Halt(Fault::MemberFailed(n)),
        }
    }

    /// Begins the dispatch loop at member `co`, delivering `data` to it.
    pub fn start(&mut self, co: i32, data: T) -> (r: Step<T>)
        requires
            old(self).wf(),
        ensures
            r == old(self).step_to(co as int, Some(data)),
            final(self).passed_from(old(self), co as int, r),
    {
        self.pass_to(co, Some(data))
    }

    /// Takes the suspension of the running member and decides the next step
    /// of the dispatch loop; also gives the log entry to emit, if any. A
    /// member that ends its body instead of yielding leaves the loop with no
    /// value to go on with: the loop halts with a `Fault` rather than failing
    /// fatally.
    pub fn resumed(&mut self, event: Suspension<T>) -> (r: (Step<T>, Option<Diagnostic>))
        requires
            old(self).wf(),
            old(self).running(),
        ensures
            final(self).wf(),
            (r.1 is Some) == (handed_back(event) is None),
            r.1 matches Some(d) ==> reports(
                d,
                old(self).members()[old(self).spec_current()].spec_name(),
                event,
            ),
            final(self).members()[old(self).spec_current()].spec_name() == old(
                self,
            ).members()[old(self).spec_current()].spec_name(),
            final(self).members()[old(self).spec_current()].spec_stack() == old(
                self,
            ).members()[old(self).spec_current()].spec_stack(),
            final(self).members()[old(self).spec_current()].spec_failed() == (handed_back(event) is None),
            handed_back(event) is None ==> {
                &&& r.0 == Step::<T>::Halt(Fault::MemberFailed(old(self).spec_current() as i32))
                &&& final(self).spec_current() == old(self).spec_current()
                &&& final(self).members()[old(self).spec_current()].spec_failed()
            },
            handed_back(event) matches Some(arg) ==> {
                let n = successor(
                    old(self).spec_current(),
                    old(self).spec_next(),
                    old(self).members().len() as int,
                );
                &&& r.0 == old(self).step_to(n, arg)
                &&& final(self).spec_current() == n
            },
            final(self).spec_next() == old(self).spec_next(),
            final(self).members().len() == old(self).members().len(),
            r.0 is Run ==> final(self).running(),
            final(self).members()[old(self).spec_current()].spec_state() == if event is Yielded {
                State::Running
            } else {
                State::Finished
            },
            forall|j: int|
                #![trigger final(self).members()[j]]
                0 <= j < old(self).members().len() && j != old(self).spec_current() && !(r.0 is Run
                    && j == final(self).spec_current()) ==> final(self).members()[j] == old(
                    self,
                ).members()[j],
    {
        let c = self.current as usize;
        let mut member = self.coroutines.remove(c);
        let (res, diagnostic) = member.suspend(event);
        self.coroutines.insert(c, member);
        assert(self.coroutines@ == old(self).coroutines@.update(c as int, member));
        match res {
            Err(_) => (Step::Halt(Fault::MemberFailed(self.current)), diagnostic),
            Ok(arg) => {
                let n = if self.next == NEXT {
                    (self.current + 1) % (self.coroutines.len() as i32)
                } else {
                    self.next
                };
                (self.pass_to(n, arg), diagnostic)
            },
        }
    }
}

} // verus!
