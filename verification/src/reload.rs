//! The life of the bridge between its start and a reload: which requests
//! are let in, and when the bridge lets go of the store.

use crate::paths::FilePath;
use vstd::prelude::*;

verus! {

/// A lifecycle signal, delivered to every subscriber.
#[derive(Debug, PartialEq)]
pub enum Event {
    /// the bridge is ready for requests
    BridgeReady,
    /// a file of the project changed; the bridge is to start anew
    Reload(FilePath),
}

impl Event {
    /// Whether the signal asks the bridge to shut down.
    pub open spec fn asks_shutdown(&self) -> bool {
        self is Reload
    }

    /// Tests whether the signal asks the bridge to shut down.
    pub fn is_shutdown_trigger(&self) -> (result: bool)
        ensures
            result == self.asks_shutdown(),
    {
        match self {
            Event::Reload(_) => true,
            Event::BridgeReady => false,
        }
    }
}

/// The stage of the bridge's life.
#[derive(Debug, Clone, Copy, PartialEq, Eq, Structural)]
pub enum Stage {
    /// the accept loop is not live yet
    Idle,
    /// requests are let in
    Serving,
    /// no request is let in; those in progress are being finished
    Draining,
    /// the bridge has let go of the store
    Closed,
}

/// Where the bridge stands: its stage, and how many requests it is
/// working on.
#[derive(Debug, Clone, Copy, PartialEq, Eq, Structural)]
pub struct Lifecycle {
    pub stage: Stage,
    pub in_flight: usize,
}

/// What happens to the bridge.
#[derive(Debug, PartialEq)]
pub enum Input {
    /// the accept loop went live
    Started,
    /// a signal came in
    Signal(Event),
    /// a request came in
    Arrival,
    /// the work on a request came to its end
    Completion,
}

/// What the bridge does about it.
#[derive(Debug, Clone, Copy, PartialEq, Eq, Structural)]
pub enum Action {
    /// publish the readiness signal
    Announce,
    /// let the request in
    Accept,
    /// turn the request away
    Refuse,
    /// send the response of the request
    Deliver,
    /// send the response of the request, then close the connection pool
    /// and hand control back
    DeliverAndClose,
    /// close the connection pool and hand control back
    Close,
    /// nothing
    Nothing,
}

impl Action {
    /// Whether the action sends a response.
    pub open spec fn delivers(&self) -> bool {
        self is Deliver || self is DeliverAndClose
    }

    /// Whether the action lets go of the store.
    pub open spec fn closes(&self) -> bool {
        self is Close || self is DeliverAndClose
    }
}

/// What is asked of an input, without what it carries.
pub enum Kind {
    Started,
    Shutdown,
    OtherSignal,
    Arrival,
    Completion,
}

impl Input {
    /// The kind of the input.
    pub open spec fn kind(&self) -> Kind {
        match self {
            Input::Started => Kind::Started,
            Input::Signal(event) => if event.asks_shutdown() {
                Kind::Shutdown
            } else {
                Kind::OtherSignal
            },
            Input::Arrival => Kind::Arrival,
            Input::Completion => Kind::Completion,
        }
    }
}

/// The bridge before its accept loop is live.
pub open spec fn initial() -> Lifecycle {
    Lifecycle { stage: Stage::Idle, in_flight: 0 }
}

/// The state and action that follow an input. A request is let in while
/// the bridge serves and can still count it. A shutdown stops the letting
/// in and leaves the work in progress alone. Every request that was let
/// in gets its response; the store is let go of when the last one has, or
/// at the shutdown if none is in progress.
pub open spec fn next(state: Lifecycle, kind: Kind) -> (Lifecycle, Action) {
    match kind {
        Kind::Started => if state.stage is Idle {
            (Lifecycle { stage: Stage::Serving, in_flight: state.in_flight }, Action::Announce)
        } else {
            (state, Action::Nothing)
        },
        Kind::Shutdown => if state.stage is Closed {
            (state, Action::Nothing)
        } else if state.in_flight == 0 {
            (Lifecycle { stage: Stage::Closed, in_flight: 0 }, Action::Close)
        } else {
            (Lifecycle { stage: Stage::Draining, in_flight: state.in_flight }, Action::Nothing)
        },
        Kind::OtherSignal => (state, Action::Nothing),
        Kind::Arrival => if state.stage is Serving && state.in_flight < usize::MAX {
            (Lifecycle { stage: state.stage, in_flight: (state.in_flight + 1) as usize }, Action::Accept)
        } else {
            (state, Action::Refuse)
        },
        Kind::Completion => if state.in_flight == 0 {
            (state, Action::Nothing)
        } else if state.in_flight == 1 && state.stage is Draining {
            (Lifecycle { stage: Stage::Closed, in_flight: 0 }, Action::DeliverAndClose)
        } else {
            (Lifecycle { stage: state.stage, in_flight: (state.in_flight - 1) as usize }, Action::Deliver)
        },
    }
}

impl Lifecycle {
    /// The bridge before its accept loop is live.
    pub fn new() -> (state: Lifecycle)
        ensures
            state == initial(),
    {
        Lifecycle { stage: Stage::Idle, in_flight: 0 }
    }

    /// Whether the state can arise: only a bridge that serves or drains
    /// has work in progress, and one that drains has some.
    pub open spec fn sound(&self) -> bool {
        match self.stage {
            Stage::Idle => self.in_flight == 0,
            Stage::Serving => true,
            Stage::Draining => self.in_flight > 0,
            Stage::Closed => self.in_flight == 0,
        }
    }

    /// Whether the bridge has stopped letting requests in for good.
    pub open spec fn stopped(&self) -> bool {
        self.stage is Draining || self.stage is Closed
    }

    /// Decides what the bridge does about an input.
    pub fn step(self, input: &Input) -> (result: (Lifecycle, Action))
        ensures
            result == next(self, input.kind()),
    {
        match input {
            Input::Started => match self.stage {
                Stage::Idle => (Lifecycle { stage: Stage::Serving, in_flight: self.in_flight }, Action::Announce),
                _ => (self, Action::Nothing),
            },
            Input::Signal(event) => if !event.is_shutdown_trigger() {
                (self, Action::Nothing)
            } else {
                match self.stage {
                    Stage::Closed => (self, Action::Nothing),
                    _ => if self.in_flight == 0 {
                        (Lifecycle { stage: Stage::Closed, in_flight: 0 }, Action::Close)
                    } else {
                        (Lifecycle { stage: Stage::Draining, in_flight: self.in_flight }, Action::Nothing)
                    },
                }
            },
            Input::Arrival => match self.stage {
                Stage::Serving => if self.in_flight < usize::MAX {
                    (Lifecycle { stage: self.stage, in_flight: self.in_flight + 1 }, Action::Accept)
                } else {
                    (self, Action::Refuse)
                },
                _ => (self, Action::Refuse),
            },
            Input::Completion => if self.in_flight == 0 {
                (self, Action::Nothing)
            } else {
                match self.stage {
                    Stage::Draining => if self.in_flight == 1 {
                        (Lifecycle { stage: Stage::Closed, in_flight: 0 }, Action::DeliverAndClose)
                    } else {
                        (Lifecycle { stage: self.stage, in_flight: self.in_flight - 1 }, Action::Deliver)
                    },
                    _ => (Lifecycle { stage: self.stage, in_flight: self.in_flight - 1 }, Action::Deliver),
                }
            },
        }
    }
}

/// The state after a run of inputs.
pub open spec fn state_after(state: Lifecycle, kinds: Seq<Kind>) -> Lifecycle
    decreases kinds.len(),
{
    if kinds.len() == 0 {
        state
    } else {
        next(state_after(state, kinds.drop_last()), kinds.last()).0
    }
}

/// The action on the last input of a run.
pub open spec fn last_action(state: Lifecycle, kinds: Seq<Kind>) -> Action
    recommends
        kinds.len() > 0,
{
    next(state_after(state, kinds.drop_last()), kinds.last()).1
}

/// The number of requests let in during a run.
pub open spec fn accepted(state: Lifecycle, kinds: Seq<Kind>) -> int
    decreases kinds.len(),
{
    if kinds.len() == 0 {
        0
    } else {
        accepted(state, kinds.drop_last()) + if last_action(state, kinds) is Accept {
            1int
        } else {
            0int
        }
    }
}

/// The number of responses sent during a run.
pub open spec fn delivered(state: Lifecycle, kinds: Seq<Kind>) -> int
    decreases kinds.len(),
{
    if kinds.len() == 0 {
        0
    } else {
        delivered(state, kinds.drop_last()) + if last_action(state, kinds).delivers() {
            1int
        } else {
            0int
        }
    }
}

/// The number of completions in a run.
pub open spec fn completions(kinds: Seq<Kind>) -> int
    decreases kinds.len(),
{
    if kinds.len() == 0 {
        0
    } else {
        completions(kinds.drop_last()) + if kinds.last() is Completion {
            1int
        } else {
            0int
        }
    }
}

/// Once the bridge has stopped letting requests in after its start, it
/// never lets one in again.
pub proof fn shutdown_is_final(state: Lifecycle, kinds: Seq<Kind>)
    requires
        state.sound(),
        state.stopped(),
    ensures
        state_after(state, kinds).stopped(),
        state_after(state, kinds).sound(),
        accepted(state, kinds) == 0,
    decreases kinds.len(),
{
    if kinds.len() > 0 {
        shutdown_is_final(state, kinds.drop_last());
    }
}

/// After a shutdown signal no request is let in, whatever follows.
pub proof fn no_request_after_reload(state: Lifecycle, later: Seq<Kind>)
    requires
        state.sound(),
    ensures
        accepted(next(state, Kind::Shutdown).0, later) == 0,
        forall|k: int|
            0 < k <= later.len() ==> !(#[trigger] last_action(
                next(state, Kind::Shutdown).0,
                later.subrange(0, k),
            ) is Accept),
{
    let stopped = next(state, Kind::Shutdown).0;
    shutdown_is_final(stopped, later);
    assert forall|k: int| 0 < k <= later.len() implies !(#[trigger] last_action(
        stopped,
        later.subrange(0, k),
    ) is Accept) by {
        shutdown_is_final(stopped, later.subrange(0, k).drop_last());
    }
}

/// Work in progress is never dropped: at every moment the requests let
/// in are those answered and those still in progress, and a completion
/// is answered whenever a request is in progress, shutdown or not.
pub proof fn accepted_requests_are_answered(kinds: Seq<Kind>)
    ensures
        accepted(initial(), kinds) == delivered(initial(), kinds) + state_after(initial(), kinds).in_flight,
        state_after(initial(), kinds).sound(),
        delivered(initial(), kinds) <= completions(kinds),
        forall|kind: Kind|
            kind is Completion && state_after(initial(), kinds).in_flight > 0 ==> (#[trigger] next(
                state_after(initial(), kinds),
                kind,
            )).1.delivers(),
    decreases kinds.len(),
{
    if kinds.len() > 0 {
        accepted_requests_are_answered(kinds.drop_last());
    }
}

/// The store is let go of only when no work is in progress, and once.
pub proof fn close_waits_for_work(kinds: Seq<Kind>, kind: Kind)
    ensures
        next(state_after(initial(), kinds), kind).1.closes() ==> {
            &&& !(state_after(initial(), kinds).stage is Closed)
            &&& next(state_after(initial(), kinds), kind).0.stage is Closed
            &&& next(state_after(initial(), kinds), kind).0.in_flight == 0
        },
{
    accepted_requests_are_answered(kinds);
}

} // verus!
