//! The server supervisor: decides, event by event, what to do while the server
//! runs and the shutdown signal may fire, and delivers one terminal outcome.
//! The caller runs the server, awaits the signal, and hands each event here.
use vstd::prelude::*;

verus! {

/// Where the supervisor stands.
#[derive(Clone, Copy, Debug, PartialEq, Eq, Structural)]
pub enum SupervisorState {
    /// The server is serving and no shutdown was requested.
    Running,
    /// Shutdown was requested; the server is draining.
    ShutdownRequested,
    /// The outcome was delivered; `by_signal` tells whether a shutdown
    /// request came first or the server ended on its own.
    Terminated { by_signal: bool },
}

/// What happened: the signal fired, or the server returned with `result`.
#[derive(Debug)]
pub enum Event<E> {
    SignalFired,
    ServerFinished(Result<(), E>),
}

/// What the caller must do next.
#[derive(Debug)]
pub enum Action<E> {
    /// Nothing.
    Wait,
    /// Tell the server to stop accepting work and drain.
    StopAccepting,
    /// Deliver this terminal outcome; nothing follows it.
    Finish(Result<(), E>),
}

/// The supervisor's transition: the next state and the action for the caller.
/// The first event decides the race; after the outcome is delivered every
/// event is ignored.
pub open spec fn supervise<E>(s: SupervisorState, e: Event<E>) -> (SupervisorState, Action<E>) {
    match s {
        SupervisorState::Running => match e {
            Event::SignalFired => (SupervisorState::ShutdownRequested, Action::StopAccepting),
            Event::ServerFinished(r) => (
                SupervisorState::Terminated { by_signal: false },
                Action::Finish(r),
            ),
        },
        SupervisorState::ShutdownRequested => match e {
            Event::SignalFired => (SupervisorState::ShutdownRequested, Action::Wait),
            Event::ServerFinished(r) => (
                SupervisorState::Terminated { by_signal: true },
                Action::Finish(r),
            ),
        },
        SupervisorState::Terminated { by_signal } => (
            SupervisorState::Terminated { by_signal },
            Action::Wait,
        ),
    }
}

/// The state after the events `evs`, one by one, from `s`.
pub open spec fn state_after_events<E>(s: SupervisorState, evs: Seq<Event<E>>) -> SupervisorState
    decreases evs.len(),
{
    if evs.len() == 0 {
        s
    } else {
        state_after_events(supervise(s, evs[0]).0, evs.drop_first())
    }
}

/// The outcomes delivered, in order, while the events `evs` are handled from `s`.
pub open spec fn outcomes<E>(s: SupervisorState, evs: Seq<Event<E>>) -> Seq<Result<(), E>>
    decreases evs.len(),
{
    if evs.len() == 0 {
        Seq::empty()
    } else {
        let (next, act) = supervise(s, evs[0]);
        let rest = outcomes(next, evs.drop_first());
        match act {
            Action::Finish(r) => seq![r] + rest,
            _ => rest,
        }
    }
}

/// Whether some event of `evs` is the server's return.
pub open spec fn has_server_finish<E>(evs: Seq<Event<E>>) -> bool {
    exists|i: int| 0 <= i < evs.len() && #[trigger] evs[i] is ServerFinished
}

/// After the outcome is delivered, no event delivers another or leaves the
/// terminal state.
pub proof fn lemma_terminated_is_final<E>(by_signal: bool, evs: Seq<Event<E>>)
    ensures
        outcomes(SupervisorState::Terminated { by_signal }, evs) == Seq::<Result<(), E>>::empty(),
        state_after_events(SupervisorState::Terminated { by_signal }, evs)
            == (SupervisorState::Terminated { by_signal }),
    decreases evs.len(),
{
    if evs.len() > 0 {
        lemma_terminated_is_final(by_signal, evs.drop_first());
    }
}

/// Whatever the events, a supervisor that has not yet terminated delivers at
/// most one outcome, and delivers one exactly when the server returns.
pub proof fn lemma_exactly_one_outcome<E>(s: SupervisorState, evs: Seq<Event<E>>)
    requires
        s !is Terminated,
    ensures
        outcomes(s, evs).len() <= 1,
        outcomes(s, evs).len() == 1 <==> has_server_finish(evs),
        (state_after_events(s, evs) is Terminated) <==> has_server_finish(evs),
    decreases evs.len(),
{
    if evs.len() > 0 {
        let tail = evs.drop_first();
        let (next, act) = supervise(s, evs[0]);
        assert forall|i: int| 0 <= i < tail.len() implies #[trigger] tail[i] == evs[i + 1] by {}
        if evs[0] is ServerFinished {
            if let SupervisorState::Terminated { by_signal } = next {
                lemma_terminated_is_final(by_signal, tail);
            }
            assert(evs[0] is ServerFinished);
        } else {
            lemma_exactly_one_outcome(next, tail);
            if has_server_finish(tail) {
                let i = choose|i: int| 0 <= i < tail.len() && #[trigger] tail[i] is ServerFinished;
                assert(evs[i + 1] is ServerFinished);
            }
            if has_server_finish(evs) {
                let i = choose|i: int| 0 <= i < evs.len() && #[trigger] evs[i] is ServerFinished;
                assert(tail[i - 1] is ServerFinished);
            }
        }
    }
}

/// Any number `k >= 1` of shutdown requests, then the server's clean return
/// after its drain, then any further events: exactly one outcome is
/// delivered, the clean stop, and the supervisor ends terminated by the signal.
pub proof fn lemma_shutdown_gives_one_clean_stop<E>(k: nat, rest: Seq<Event<E>>)
    requires
        k >= 1,
    ensures
        ({
            let evs = Seq::new(k, |i: int| Event::<E>::SignalFired) + seq![Event::ServerFinished(Ok(()))]
                + rest;
            &&& outcomes(SupervisorState::Running, evs) == seq![Ok::<(), E>(())]
            &&& state_after_events(SupervisorState::Running, evs)
                == (SupervisorState::Terminated { by_signal: true })
        }),
{
    lemma_signals_then_finish(SupervisorState::Running, k, rest);
}

/// From a running or draining supervisor, `k` shutdown requests, the server's
/// clean return and any events deliver the one clean stop.
proof fn lemma_signals_then_finish<E>(s: SupervisorState, k: nat, rest: Seq<Event<E>>)
    requires
        s is ShutdownRequested || (s is Running && k >= 1),
    ensures
        ({
            let evs = Seq::new(k, |i: int| Event::<E>::SignalFired) + seq![Event::ServerFinished(Ok(()))]
                + rest;
            &&& outcomes(s, evs) == seq![Ok::<(), E>(())]
            &&& state_after_events(s, evs) == (SupervisorState::Terminated { by_signal: true })
        }),
    decreases k,
{
    let evs = Seq::new(k, |i: int| Event::<E>::SignalFired) + seq![Event::ServerFinished(Ok(()))]
        + rest;
    if k == 0 {
        assert(evs[0] == Event::<E>::ServerFinished(Ok(())));
        assert(evs.drop_first() =~= rest);
        lemma_terminated_is_final(true, rest);
        assert(outcomes(s, evs) =~= seq![Ok::<(), E>(())]);
    } else {
        let k1 = (k - 1) as nat;
        let tail = Seq::new(k1, |i: int| Event::<E>::SignalFired) + seq![Event::ServerFinished(Ok(()))]
            + rest;
        assert(evs[0] == Event::<E>::SignalFired);
        assert(evs.drop_first() =~= tail);
        lemma_signals_then_finish(SupervisorState::ShutdownRequested, k1, rest);
    }
}

/// The supervisor of one server run.
pub struct Supervisor {
    state: SupervisorState,
}

impl Supervisor {
    /// The supervisor's state.
    pub closed spec fn state_of(&self) -> SupervisorState {
        self.state
    }

    /// A supervisor of a server that has just started serving.
    pub fn new() -> (r: Supervisor)
        ensures
            r.state_of() == SupervisorState::Running,
    {
        Supervisor { state: SupervisorState::Running }
    }

    /// The supervisor's state.
    pub fn state(&self) -> (r: SupervisorState)
        ensures
            r == self.state_of(),
    {
        self.state
    }

    /// Whether the shutdown signal still matters: only while running.
    pub fn awaits_signal(&self) -> (r: bool)
        ensures
            r == (self.state_of() is Running),
    {
        match self.state {
            SupervisorState::Running => true,
            _ => false,
        }
    }

    /// Whether the outcome has been delivered.
    pub fn is_terminated(&self) -> (r: bool)
        ensures
            r == (self.state_of() is Terminated),
    {
        match self.state {
            SupervisorState::Terminated { .. } => true,
            _ => false,
        }
    }

    /// Handles one event and says what the caller must do.
    pub fn on_event<E>(&mut self, event: Event<E>) -> (r: Action<E>)
        ensures
            (final(self).state_of(), r) == supervise(old(self).state_of(), event),
    {
        match self.state {
            SupervisorState::Running => match event {
                Event::SignalFired => {
                    self.state = SupervisorState::ShutdownRequested;
                    Action::StopAccepting
                },
                Event::ServerFinished(r) => {
                    self.state = SupervisorState::Terminated { by_signal: false };
                    Action::Finish(r)
                },
            },
            SupervisorState::ShutdownRequested => match event {
                Event::SignalFired => Action::Wait,
                Event::ServerFinished(r) => {
                    self.state = SupervisorState::Terminated { by_signal: true };
                    Action::Finish(r)
                },
            },
            SupervisorState::Terminated { .. } => Action::Wait,
        }
    }
}

} // verus!
