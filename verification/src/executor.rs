//! The authenticated request pipeline.
//!
//! Every typed operation sends its request through this pipeline: send the
//! request with the current session attached; if the hub answers
//! "unauthorized" (the session expired), log in again and resend the same
//! request exactly once; return whichever response resulted.  A second
//! consecutive "unauthorized" is returned as-is, so a persistently failing
//! login can never cause a third send.
//!
//! The pipeline is a state machine.  The transport (an async HTTP client
//! outside this crate) drives it: it performs each [`Action`] the machine
//! asks for and feeds the outcome back as an [`Event`].  The spec function
//! [`next`] is the whole transition relation; [`Executor::step`] is proved
//! to follow it exactly, and the lemmas at the bottom state the retry laws.

use vstd::prelude::*;

use crate::error::HubError;
use crate::status::{is_unauthorized, status_is_unauthorized, UNAUTHORIZED};

verus! {

/// Where the pipeline stands within one logical request.
#[derive(Debug, Clone, Copy, PartialEq, Eq, Structural)]
pub enum Phase {
    /// Nothing sent yet.
    Ready,
    /// The first send is in flight.
    SentFirst,
    /// The first send came back "unauthorized"; a fresh login is in flight.
    Refreshing,
    /// The resend (after a successful login) is in flight.
    SentSecond,
    /// A final outcome was produced; the machine accepts no further events.
    Done,
}

/// What the transport reports back to the pipeline.
#[derive(Debug, Clone, Copy, PartialEq, Eq, Structural)]
pub enum Event {
    /// The caller starts the logical request.
    Begin,
    /// A send completed with this status code.
    Response(u16),
    /// A send (or the login exchange) failed at the network level.
    TransportFailed,
    /// The login exchange completed; `true` means the hub accepted the
    /// credentials.
    LoginFinished(bool),
}

/// What the pipeline asks the transport to do next.
#[derive(Debug, Clone, Copy, PartialEq, Eq, Structural)]
pub enum Action {
    /// Materialize the request template and send it.
    Send,
    /// Perform the credential login exchange.
    Login,
    /// The logical request is over: hand this status to the endpoint layer.
    Return(u16),
    /// The logical request is over: surface this error.
    Fail(HubError),
}

/// The pipeline's state: its phase and how many sends it has issued.
#[derive(Debug, Clone, Copy, PartialEq, Eq, Structural)]
pub struct Executor {
    pub phase: Phase,
    pub sends: u64,
}

/// The state a fresh pipeline starts in.
pub open spec fn initial() -> Executor {
    Executor { phase: Phase::Ready, sends: 0 }
}

/// The number of sends each phase implies.  Implies `sends <= 2` in every
/// reachable state: the pipeline can never issue a third send.
pub open spec fn wf(e: Executor) -> bool {
    match e.phase {
        Phase::Ready => e.sends == 0,
        Phase::SentFirst => e.sends == 1,
        Phase::Refreshing => e.sends == 1,
        Phase::SentSecond => e.sends == 2,
        Phase::Done => e.sends <= 2,
    }
}

/// The whole transition relation of the pipeline.  `None` means the machine
/// does not accept `ev` in this state (in particular, `Done` accepts
/// nothing).
pub open spec fn next(e: Executor, ev: Event) -> Option<(Executor, Action)> {
    match (e.phase, ev) {
        (Phase::Ready, Event::Begin) => Some((
            Executor { phase: Phase::SentFirst, sends: (e.sends + 1) as u64 },
            Action::Send,
        )),
        (Phase::SentFirst, Event::Response(status)) => if is_unauthorized(status) {
            Some((Executor { phase: Phase::Refreshing, ..e }, Action::Login))
        } else {
            Some((Executor { phase: Phase::Done, ..e }, Action::Return(status)))
        },
        (Phase::SentFirst, Event::TransportFailed) => Some((
            Executor { phase: Phase::Done, ..e },
            Action::Fail(HubError::Transport),
        )),
        (Phase::Refreshing, Event::LoginFinished(ok)) => if ok {
            Some((
                Executor { phase: Phase::SentSecond, sends: (e.sends + 1) as u64 },
                Action::Send,
            ))
        } else {
            Some((Executor { phase: Phase::Done, ..e }, Action::Fail(HubError::Authentication)))
        },
        (Phase::Refreshing, Event::TransportFailed) => Some((
            Executor { phase: Phase::Done, ..e },
            Action::Fail(HubError::Transport),
        )),
        (Phase::SentSecond, Event::Response(status)) => Some((
            Executor { phase: Phase::Done, ..e },
            Action::Return(status),
        )),
        (Phase::SentSecond, Event::TransportFailed) => Some((
            Executor { phase: Phase::Done, ..e },
            Action::Fail(HubError::Transport),
        )),
        _ => None,
    }
}

impl Executor {
    /// A pipeline ready to run one logical request.
    pub fn new() -> (e: Executor)
        ensures
            e == initial(),
            wf(e),
    {
        Executor { phase: Phase::Ready, sends: 0 }
    }

    /// Advance the pipeline by one event.  The result is exactly what the
    /// transition relation [`next`] prescribes.
    pub fn step(&mut self, ev: Event) -> (a: Action)
        requires
            wf(*old(self)),
            next(*old(self), ev) is Some,
        ensures
            next(*old(self), ev) == Some((*final(self), a)),
            wf(*final(self)),
    {
        match (self.phase, ev) {
            (Phase::Ready, Event::Begin) => {
                self.phase = Phase::SentFirst;
                self.sends = self.sends + 1;
                Action::Send
            },
            (Phase::SentFirst, Event::Response(status)) => {
                if status_is_unauthorized(status) {
                    self.phase = Phase::Refreshing;
                    Action::Login
                } else {
                    self.phase = Phase::Done;
                    Action::Return(status)
                }
            },
            (Phase::SentFirst, Event::TransportFailed) => {
                self.phase = Phase::Done;
                Action::Fail(HubError::Transport)
            },
            (Phase::Refreshing, Event::LoginFinished(ok)) => {
                if ok {
                    self.phase = Phase::SentSecond;
                    self.sends = self.sends + 1;
                    Action::Send
                } else {
                    self.phase = Phase::Done;
                    Action::Fail(HubError::Authentication)
                }
            },
            (Phase::Refreshing, Event::TransportFailed) => {
                self.phase = Phase::Done;
                Action::Fail(HubError::Transport)
            },
            (Phase::SentSecond, Event::Response(status)) => {
                self.phase = Phase::Done;
                Action::Return(status)
            },
            (Phase::SentSecond, Event::TransportFailed) => {
                self.phase = Phase::Done;
                Action::Fail(HubError::Transport)
            },
            _ => {
                proof {
                    assert(false);
                }
                Action::Fail(HubError::Transport)
            },
        }
    }

    /// Whether the pipeline accepts `ev` in its current state — exactly when
    /// the transition relation [`next`] is defined on it.
    pub fn accepts(&self, ev: Event) -> (r: bool)
        ensures
            r == (next(*self, ev) is Some),
    {
        match (self.phase, ev) {
            (Phase::Ready, Event::Begin) => true,
            (Phase::SentFirst, Event::Response(_)) => true,
            (Phase::SentFirst, Event::TransportFailed) => true,
            (Phase::Refreshing, Event::LoginFinished(_)) => true,
            (Phase::Refreshing, Event::TransportFailed) => true,
            (Phase::SentSecond, Event::Response(_)) => true,
            (Phase::SentSecond, Event::TransportFailed) => true,
            _ => false,
        }
    }

    /// Whether the logical request is over.
    pub fn is_done(&self) -> (r: bool)
        ensures
            r == (self.phase == Phase::Done),
    {
        self.phase == Phase::Done
    }
}

/// Law: every step preserves well-formedness, so a pipeline never issues
/// more than two sends however it is driven.
pub proof fn lemma_step_preserves_wf(e: Executor, ev: Event)
    requires
        wf(e),
        next(e, ev) is Some,
    ensures
        wf(next(e, ev).unwrap().0),
        next(e, ev).unwrap().0.sends <= 2,
{
}

/// The state after driving the pipeline from `e` through the events `evs`
/// in order, ignoring any event the machine does not accept.
pub open spec fn run(e: Executor, evs: Seq<Event>) -> Executor
    decreases evs.len(),
{
    if evs.len() == 0 {
        e
    } else {
        match next(e, evs[0]) {
            Some(step) => run(step.0, evs.drop_first()),
            None => run(e, evs.drop_first()),
        }
    }
}

/// Law: however the transport drives a fresh pipeline — any events, in any
/// order, for any length — every reachable state is well-formed and has
/// issued at most two sends.
pub proof fn lemma_never_a_third_send(evs: Seq<Event>)
    ensures
        wf(run(initial(), evs)),
        run(initial(), evs).sends <= 2,
{
    lemma_run_preserves_wf(initial(), evs);
}

/// Law: running any event sequence from a well-formed state ends in a
/// well-formed state.
pub proof fn lemma_run_preserves_wf(e: Executor, evs: Seq<Event>)
    requires
        wf(e),
    ensures
        wf(run(e, evs)),
    decreases evs.len(),
{
    if evs.len() > 0 {
        match next(e, evs[0]) {
            Some(step) => {
                lemma_step_preserves_wf(e, evs[0]);
                lemma_run_preserves_wf(step.0, evs.drop_first());
            },
            None => {
                lemma_run_preserves_wf(e, evs.drop_first());
            },
        }
    }
}

/// Law (single retry): when the first send comes back "unauthorized" and the
/// refreshed login succeeds, the pipeline issues exactly two sends and
/// returns the second response, whatever its status.
pub proof fn lemma_single_retry(second_status: u16)
    ensures
        ({
            let r1 = next(initial(), Event::Begin);
            let r2 = next(r1.unwrap().0, Event::Response(UNAUTHORIZED));
            let r3 = next(r2.unwrap().0, Event::LoginFinished(true));
            let r4 = next(r3.unwrap().0, Event::Response(second_status));
            &&& r1.unwrap().1 == Action::Send
            &&& r2.unwrap().1 == Action::Login
            &&& r3.unwrap().1 == Action::Send
            &&& r4.unwrap().1 == Action::Return(second_status)
            &&& r4.unwrap().0.sends == 2
            &&& r4.unwrap().0.phase == Phase::Done
        }),
{
}

/// Law (no infinite loop): when the hub answers "unauthorized" even after a
/// successful refresh, the pipeline returns that second unauthorized
/// response as-is, has issued exactly two sends, and — being done — accepts
/// no further event, so no third send can ever follow.
pub proof fn lemma_persistent_unauthorized_not_retried(ev: Event)
    ensures
        ({
            let r1 = next(initial(), Event::Begin);
            let r2 = next(r1.unwrap().0, Event::Response(UNAUTHORIZED));
            let r3 = next(r2.unwrap().0, Event::LoginFinished(true));
            let r4 = next(r3.unwrap().0, Event::Response(UNAUTHORIZED));
            &&& r4.unwrap().1 == Action::Return(UNAUTHORIZED)
            &&& r4.unwrap().0.sends == 2
            &&& next(r4.unwrap().0, ev) is None
        }),
{
}

} // verus!
