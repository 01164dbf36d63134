//! The state that a timer future shares with the thread that completes it,
//! and the decisions taken on it.
use std::task::Waker;
use vstd::prelude::*;

verus! {

#[verifier::external_type_specification]
#[verifier::external_body]
pub struct ExWaker(Waker);

/// Whether the timer has completed, and the waker of the task waiting on it.
pub struct SharedState {
    complete: bool,
    waker: Option<Waker>,
}

/// What polling the timer answers.
#[derive(Debug, Clone, Copy, PartialEq, Eq, Structural)]
pub enum TimerPoll {
    Ready,
    Pending,
}

/// The outcome of one random draw of the completing thread.
#[derive(Debug, Clone, Copy, PartialEq, Eq, Structural)]
pub enum Roll {
    /// The draw was even: take the lock and try to complete.
    Lock,
    /// The draw was odd: skip this round.
    NoLock(u8),
}

/// What the completing thread does after one draw.
pub enum TimerStep {
    /// A task waited: the timer is complete; wake this waker and stop.
    Wake(Waker),
    /// No task waited: sleep and draw again.
    Retry,
    /// The draw was odd: the state was not looked at; draw again.
    Skip(u8),
}

impl View for SharedState {
    type V = (bool, Option<Waker>);

    closed spec fn view(&self) -> (bool, Option<Waker>) {
        (self.complete, self.waker)
    }
}

/// Polling with `waker`: a completed timer answers `Ready` and is left as it
/// was; otherwise `waker` is stored and the answer is `Pending`.
pub open spec fn polled(s: (bool, Option<Waker>), waker: Waker) -> ((bool, Option<Waker>), TimerPoll) {
    if s.0 {
        (s, TimerPoll::Ready)
    } else {
        ((s.0, Some(waker)), TimerPoll::Pending)
    }
}

/// Taking the stored waker: it is handed out and none is left.
pub open spec fn taken(s: (bool, Option<Waker>)) -> ((bool, Option<Waker>), Option<Waker>) {
    ((s.0, None), s.1)
}

/// Completing: with a stored waker the timer completes and the waker is
/// handed out; without one nothing changes.
pub open spec fn completed(s: (bool, Option<Waker>)) -> ((bool, Option<Waker>), Option<Waker>) {
    match s.1 {
        Some(w) => ((true, None), Some(w)),
        None => (s, None),
    }
}

/// One round of the completing thread, after the draw `r`: an even draw
/// tries to complete the timer and wakes the waiting task if there is one
/// (the thread then stops), or retries when none waits; an odd draw leaves
/// the state alone.
pub open spec fn stepped(s: (bool, Option<Waker>), r: Roll) -> ((bool, Option<Waker>), TimerStep) {
    match r {
        Roll::Lock => match completed(s) {
            (t, Some(w)) => (t, TimerStep::Wake(w)),
            (t, None) => (t, TimerStep::Retry),
        },
        Roll::NoLock(x) => (s, TimerStep::Skip(x)),
    }
}

/// The outcome of drawing `x`.
pub open spec fn roll_of(x: u8) -> Roll {
    if x % 2 == 0 {
        Roll::Lock
    } else {
        Roll::NoLock(x)
    }
}

impl SharedState {
    /// A timer that has not completed, with no waiting task.
    pub fn new() -> (s: SharedState)
        ensures
            s@ == (false, None::<Waker>),
    {
        SharedState { complete: false, waker: None }
    }

    /// Polls the timer on behalf of the task that `waker` wakes.
    pub fn poll_with(&mut self, waker: Waker) -> (p: TimerPoll)
        ensures
            (final(self)@, p) == polled(old(self)@, waker),
    {
        if self.complete {
            TimerPoll::Ready
        } else {
            self.waker = Some(waker);
            TimerPoll::Pending
        }
    }

    /// Takes the stored waker, if any, to wake it without completing.
    pub fn take_waker(&mut self) -> (w: Option<Waker>)
        ensures
            (final(self)@, w) == taken(old(self)@),
    {
        self.waker.take()
    }

    /// Completes the timer if a task waits on it, and hands out its waker.
    pub fn complete_with_waker(&mut self) -> (w: Option<Waker>)
        ensures
            (final(self)@, w) == completed(old(self)@),
    {
        match self.waker.take() {
            Some(w) => {
                self.complete = true;
                Some(w)
            },
            None => None,
        }
    }
}

/// Takes one round of the completing thread after the draw `r`.
pub fn step(state: &mut SharedState, r: Roll) -> (action: TimerStep)
    ensures
        (final(state)@, action) == stepped(old(state)@, r),
{
    match r {
        Roll::Lock => match state.complete_with_waker() {
            Some(w) => TimerStep::Wake(w),
            None => TimerStep::Retry,
        },
        Roll::NoLock(x) => TimerStep::Skip(x),
    }
}

/// `rand::random::<u8>()`: a byte drawn from the thread-local generator.
/// Nothing is stated of the byte: any value may come back.
#[verifier::external_body]
fn random_byte() -> u8 {
    rand::random::<u8>()
}

/// The outcome of the draw `x`: even bytes take the lock, odd ones skip.
pub fn roll_outcome(x: u8) -> (r: Roll)
    ensures
        r == roll_of(x),
{
    if x % 2 == 0 {
        Roll::Lock
    } else {
        Roll::NoLock(x)
    }
}

/// Draws a random byte and decides on it.
pub fn roll() -> (r: Roll)
    ensures
        exists|x: u8| r == roll_of(x),
        r matches Roll::NoLock(x) ==> x % 2 == 1,
{
    let x: u8 = random_byte();
    roll_outcome(x)
}

/// Once complete, a timer stays complete: polling answers `Ready` and
/// changes nothing, and neither taking nor completing undoes completion.
pub proof fn lemma_complete_is_final(s: (bool, Option<Waker>), waker: Waker)
    requires
        s.0,
    ensures
        polled(s, waker) == (s, TimerPoll::Ready),
        taken(s).0.0,
        completed(s).0.0,
{
}

/// A task that polls an incomplete timer is the one that the next take or
/// completion hands out: what polling stores is what is given back.
pub proof fn lemma_poll_then_wake(s: (bool, Option<Waker>), waker: Waker)
    requires
        !s.0,
    ensures
        polled(s, waker).1 == TimerPoll::Pending,
        taken(polled(s, waker).0).1 == Some(waker),
        completed(polled(s, waker).0) == ((true, None::<Waker>), Some(waker)),
        polled(completed(polled(s, waker).0).0, waker).1 == TimerPoll::Ready,
{
}

/// Completion happens exactly when a waiting task is handed out.
pub proof fn lemma_complete_iff_waker(s: (bool, Option<Waker>))
    requires
        !s.0,
    ensures
        completed(s).0.0 <==> s.1 is Some,
        completed(s).1 == s.1,
        completed(s).0.1 is None,
{
}

/// The thread stops exactly when it completes the timer: a round wakes a
/// task only on an even draw with a task waiting, and then leaves the timer
/// complete with no waker stored; every other round leaves it incomplete.
pub proof fn lemma_step_stops_iff_completes(s: (bool, Option<Waker>), r: Roll)
    requires
        !s.0,
    ensures
        stepped(s, r).1 is Wake <==> (r is Lock && s.1 is Some),
        stepped(s, r).1 is Wake ==> stepped(s, r).0 == (true, None::<Waker>),
        !(stepped(s, r).1 is Wake) ==> !stepped(s, r).0.0,
{
}

/// An odd draw changes nothing: the state, and any waiting task's waker,
/// stay as they were, so a later even draw acts exactly as it would have
/// without the odd one.
pub proof fn lemma_odd_draw_changes_nothing(s: (bool, Option<Waker>), x: u8)
    ensures
        stepped(s, Roll::NoLock(x)).0 == s,
        stepped(s, Roll::NoLock(x)).1 == TimerStep::Skip(x),
        stepped(stepped(s, Roll::NoLock(x)).0, Roll::Lock) == stepped(s, Roll::Lock),
        !s.0 && s.1 is Some ==> stepped(stepped(s, Roll::NoLock(x)).0, Roll::Lock).1 == TimerStep::Wake(s.1->0),
{
}

/// After the waker has been taken, completing finds no task and changes nothing.
pub proof fn lemma_take_then_complete(s: (bool, Option<Waker>))
    ensures
        completed(taken(s).0) == (taken(s).0, None::<Waker>),
{
}

} // verus!
