//! The scheduler: one step function from what happened to what to do next.
//!
//! The scheduler performs no input or output. Its caller carries out each
//! [`Action`] and reports what came of it as an [`Observation`]; the
//! scheduler answers with the next action. A run starts with
//! [`Observation::Started`] and is over when [`Action::Exit`] comes back.

use vstd::prelude::*;
use crate::error::{ErrorKind, StopReason};
use crate::event::Source;
use crate::gate::RenderGate;
use crate::intake::Intake;
use crate::protocol::{Action, Arrival, Observation, Outcome, Phase, Probe, Wait, INPUT_POLL_MS};
use crate::session::{SessionState, TerminalSession};
use crate::timer::{IntervalTimer, BACKGROUND_PERIOD_MS, FOREGROUND_PERIOD_MS};

verus! {

/// The state of a run.
#[derive(Debug)]
pub struct Scheduler<I, N> {
    /// The action that is awaited.
    pub phase: Phase,
    /// The terminal's display mode.
    pub session: TerminalSession,
    /// Whether the screen is out of date.
    pub gate: RenderGate,
    /// The events that wait to be served.
    pub intake: Intake<I, N>,
    /// The timer of the foreground refresh.
    pub foreground: IntervalTimer,
    /// The timer of the background refresh.
    pub background: IntervalTimer,
}

impl<I, N> Scheduler<I, N> {
    /// The state before anything has happened: nothing waits, the first
    /// frame is due, and both timers are due at `now_ms`.
    pub open spec fn initial(now_ms: u64) -> Self {
        Scheduler {
            phase: Phase::Idle,
            session: TerminalSession { state: SessionState::Idle },
            gate: RenderGate { dirty: true },
            intake: Intake { input: None, notification: None, foreground: false, background: false },
            foreground: IntervalTimer::starting(FOREGROUND_PERIOD_MS, now_ms),
            background: IntervalTimer::starting(BACKGROUND_PERIOD_MS, now_ms),
        }
    }

    /// Whether `obs` answers the action that is awaited. An arrival also has
    /// to leave alone the places of the intake that are taken.
    pub open spec fn accepts(self, obs: Observation<I, N>) -> bool {
        match (self.phase, obs) {
            (Phase::Idle, Observation::Started) => true,
            (Phase::Acquiring, Observation::Acquired(_)) => true,
            (Phase::Connecting, Observation::Connected(_)) => true,
            (Phase::RenderIfDirty, Observation::Rendered(_)) => true,
            (Phase::WaitingForEvent, Observation::Arrived(arrival)) => {
                &&& arrival.input is Some ==> self.intake.input is None
                &&& arrival.notification is Some ==> self.intake.notification is None
            },
            (Phase::Dispatching(_), Observation::Completed(_)) => true,
            (Phase::Draining(_), Observation::Probed(_)) => true,
            (Phase::Discarding(_), Observation::Discarded(_)) => true,
            (Phase::Releasing(_), Observation::Released(_)) => true,
            _ => false,
        }
    }

    /// How the caller is to wait: at most [`INPUT_POLL_MS`] for terminal
    /// input when nothing waits in the intake, not at all when something
    /// does; and for a notification only while none waits.
    pub open spec fn wait(self) -> Wait {
        Wait {
            notifications: self.intake.notification is None,
            timeout_ms: if self.intake.idle() {
                INPUT_POLL_MS
            } else {
                0
            },
        }
    }

    /// The check that opens an iteration: a pending render is issued and
    /// the flag cleared; with none pending the caller waits for the sources.
    pub open spec fn resumed(self) -> (Self, Action<I, N>) {
        if self.gate.dirty {
            (
                Scheduler { phase: Phase::RenderIfDirty, gate: RenderGate { dirty: false }, ..self },
                Action::Render,
            )
        } else {
            (Scheduler { phase: Phase::WaitingForEvent, ..self }, Action::Await(self.wait()))
        }
    }

    /// The start of the shutdown: whatever waits stays undelivered, and the
    /// first look into the terminal's input buffer is issued.
    pub open spec fn shut_down(self, reason: StopReason) -> (Self, Action<I, N>) {
        (Scheduler { phase: Phase::Draining(reason), ..self }, Action::PollPending)
    }

    /// The release of the terminal, once the buffered input is gone.
    pub open spec fn released(self, reason: StopReason) -> (Self, Action<I, N>) {
        (
            Scheduler {
                phase: Phase::Releasing(reason),
                session: self.session.after_release(),
                ..self
            },
            Action::ReleaseTerminal,
        )
    }

    /// The state once an arrival has been taken in: what arrived stands in
    /// the intake, each timer that was due has handed out one tick and moved
    /// on.
    pub open spec fn gathered(self, arrival: Arrival<I, N>) -> Self {
        let now = arrival.now_ms as nat;
        Scheduler {
            intake: Intake {
                input: if arrival.input is Some {
                    arrival.input
                } else {
                    self.intake.input
                },
                notification: if arrival.notification is Some {
                    arrival.notification
                } else {
                    self.intake.notification
                },
                ..self.intake
            }.with_ticks(self.foreground.is_due(now), self.background.is_due(now)),
            foreground: self.foreground.polled(now),
            background: self.background.polled(now),
            ..self
        }
    }

    /// The choice among what is ready: the event of the foremost source
    /// leaves the intake. The interrupt chord ends the loop on the spot,
    /// whatever else waits; any other event goes to the application. With
    /// nothing ready the iteration ends without a dispatch.
    pub open spec fn selected(self) -> (Self, Action<I, N>) {
        match self.intake.next_event() {
            None => self.resumed(),
            Some(event) => {
                let taken = Scheduler { intake: self.intake.rest(), ..self };
                if event.is_interrupt() {
                    taken.shut_down(StopReason::Interrupt)
                } else {
                    (
                        Scheduler { phase: Phase::Dispatching(event.source()), ..taken },
                        Action::Dispatch(event),
                    )
                }
            },
        }
    }

    /// What follows the handling of an event of `source`. A request to quit
    /// ends the loop. A failure ends it unless a timer asked for the work:
    /// that failure is passed over. In every other case the screen is out
    /// of date and the next iteration opens.
    pub open spec fn completed(self, source: Source, outcome: Outcome) -> (Self, Action<I, N>) {
        match outcome {
            Outcome::Quit => self.shut_down(StopReason::Quit),
            Outcome::Failed if ErrorKind::of_dispatch(source).is_fatal() => self.shut_down(
                StopReason::Failed(ErrorKind::of_dispatch(source)),
            ),
            _ => Scheduler { gate: RenderGate { dirty: true }, ..self }.resumed(),
        }
    }

    /// The state and the action that follow an observation that is accepted.
    pub open spec fn step(self, obs: Observation<I, N>) -> (Self, Action<I, N>) {
        match (self.phase, obs) {
            (Phase::Idle, Observation::Started) => (
                Scheduler { phase: Phase::Acquiring, ..self },
                Action::AcquireTerminal,
            ),
            (Phase::Acquiring, Observation::Acquired(configured)) => if configured {
                (
                    Scheduler {
                        phase: Phase::Connecting,
                        session: self.session.after_acquire(true),
                        ..self
                    },
                    Action::Connect,
                )
            } else {
                self.shut_down(StopReason::Failed(ErrorKind::TerminalSetup))
            },
            (Phase::Connecting, Observation::Connected(reached)) => if reached {
                self.resumed()
            } else {
                self.shut_down(StopReason::Failed(ErrorKind::Connection))
            },
            (Phase::RenderIfDirty, Observation::Rendered(drawn)) => if drawn {
                self.resumed()
            } else {
                self.shut_down(StopReason::Failed(ErrorKind::Dispatch))
            },
            (Phase::WaitingForEvent, Observation::Arrived(arrival)) => self.gathered(
                arrival,
            ).selected(),
            (Phase::Dispatching(source), Observation::Completed(outcome)) => self.completed(
                source,
                outcome,
            ),
            (Phase::Draining(reason), Observation::Probed(probe)) => match probe {
                Probe::Pending => (
                    Scheduler { phase: Phase::Discarding(reason), ..self },
                    Action::DiscardPending,
                ),
                _ => self.released(reason),
            },
            (Phase::Discarding(reason), Observation::Discarded(dropped)) => if dropped {
                (Scheduler { phase: Phase::Draining(reason), ..self }, Action::PollPending)
            } else {
                self.released(reason)
            },
            (Phase::Releasing(reason), Observation::Released(_)) => (
                Scheduler { phase: Phase::Stopped(reason), ..self },
                Action::Exit(reason),
            ),
            _ => (self, Action::Exit(StopReason::Quit)),
        }
    }

    /// The state after `obs`: the next state where it is accepted, the same
    /// state where it is not.
    pub open spec fn after(self, obs: Observation<I, N>) -> Self {
        if self.accepts(obs) {
            self.step(obs).0
        } else {
            self
        }
    }

    /// A scheduler at the start of a run, its clock at `now_ms`.
    pub fn new(now_ms: u64) -> (s: Self)
        ensures
            s == Self::initial(now_ms),
            s.sound(),
    {
        proof {
            Self::initial_is_sound(now_ms);
        }
        Scheduler {
            phase: Phase::Idle,
            session: TerminalSession::new(),
            gate: RenderGate::new(),
            intake: Intake::new(),
            foreground: IntervalTimer::foreground(now_ms),
            background: IntervalTimer::background(now_ms),
        }
    }

    /// Whether the run is over.
    pub fn is_stopped(&self) -> (b: bool)
        ensures
            b == (self.phase is Stopped),
    {
        match self.phase {
            Phase::Stopped(_) => true,
            _ => false,
        }
    }

    /// Whether `obs` answers the action that is awaited.
    pub fn would_accept(&self, obs: &Observation<I, N>) -> (b: bool)
        ensures
            b == self.accepts(*obs),
    {
        match (self.phase, obs) {
            (Phase::Idle, Observation::Started) => true,
            (Phase::Acquiring, Observation::Acquired(_)) => true,
            (Phase::Connecting, Observation::Connected(_)) => true,
            (Phase::RenderIfDirty, Observation::Rendered(_)) => true,
            (Phase::WaitingForEvent, Observation::Arrived(arrival)) => {
                (arrival.input.is_none() || self.intake.input.is_none()) && (
                arrival.notification.is_none() || self.intake.notification.is_none())
            },
            (Phase::Dispatching(_), Observation::Completed(_)) => true,
            (Phase::Draining(_), Observation::Probed(_)) => true,
            (Phase::Discarding(_), Observation::Discarded(_)) => true,
            (Phase::Releasing(_), Observation::Released(_)) => true,
            _ => false,
        }
    }

    fn await_sources(&self) -> (w: Wait)
        ensures
            w == self.wait(),
    {
        let idle = self.intake.is_idle();
        Wait {
            notifications: self.intake.notification.is_none(),
            timeout_ms: if idle {
                INPUT_POLL_MS
            } else {
                0
            },
        }
    }

    fn resume(&mut self) -> (action: Action<I, N>)
        ensures
            (*final(self), action) == old(self).resumed(),
    {
        if self.gate.take() {
            self.phase = Phase::RenderIfDirty;
            Action::Render
        } else {
            self.phase = Phase::WaitingForEvent;
            Action::Await(self.await_sources())
        }
    }

    fn stop(&mut self, reason: StopReason) -> (action: Action<I, N>)
        ensures
            (*final(self), action) == old(self).shut_down(reason),
    {
        self.phase = Phase::Draining(reason);
        Action::PollPending
    }

    fn release(&mut self, reason: StopReason) -> (action: Action<I, N>)
        ensures
            (*final(self), action) == old(self).released(reason),
    {
        self.phase = Phase::Releasing(reason);
        let _ = self.session.release();
        Action::ReleaseTerminal
    }

    fn gather(&mut self, arrival: Arrival<I, N>)
        requires
            arrival.input is Some ==> old(self).intake.input is None,
            arrival.notification is Some ==> old(self).intake.notification is None,
        ensures
            *final(self) == old(self).gathered(arrival),
    {
        let Arrival { input, notification, now_ms } = arrival;
        if let Some(input) = input {
            self.intake.input = Some(input);
        }
        if let Some(payload) = notification {
            self.intake.notification = Some(payload);
        }
        let foreground = self.foreground.poll(now_ms);
        let background = self.background.poll(now_ms);
        self.intake.add_ticks(foreground, background);
    }

    fn select(&mut self) -> (action: Action<I, N>)
        ensures
            (*final(self), action) == old(self).selected(),
    {
        match self.intake.take_next() {
            None => self.resume(),
            Some(event) => {
                if event.interrupts() {
                    self.stop(StopReason::Interrupt)
                } else {
                    self.phase = Phase::Dispatching(event.origin());
                    Action::Dispatch(event)
                }
            },
        }
    }

    fn complete(&mut self, source: Source, outcome: Outcome) -> (action: Action<I, N>)
        ensures
            (*final(self), action) == old(self).completed(source, outcome),
    {
        match outcome {
            Outcome::Quit => self.stop(StopReason::Quit),
            Outcome::Failed => {
                let kind = ErrorKind::classify(source);
                if kind.fatal() {
                    self.stop(StopReason::Failed(kind))
                } else {
                    self.gate.mark();
                    self.resume()
                }
            },
            Outcome::Handled => {
                self.gate.mark();
                self.resume()
            },
        }
    }

    /// Takes the report of what came of the last action and answers with
    /// the next action.
    ///
    /// A report that does not answer the action that is awaited changes
    /// nothing and comes back as it was given.
    pub fn advance(&mut self, obs: Observation<I, N>) -> (r: Result<Action<I, N>, Observation<I, N>>)
        ensures
            r is Ok <==> old(self).accepts(obs),
            r matches Ok(action) ==> (*final(self), action) == old(self).step(obs),
            r is Ok ==> *final(self) == old(self).after(obs),
            r matches Err(back) ==> back == obs && *final(self) == *old(self),
            old(self).sound() ==> final(self).sound(),
    {
        proof {
            if old(self).sound() && old(self).accepts(obs) {
                old(self).step_is_orderly(obs);
            }
        }
        if !self.would_accept(&obs) {
            return Err(obs);
        }
        let action = match (self.phase, obs) {
            (Phase::Idle, Observation::Started) => {
                self.phase = Phase::Acquiring;
                Action::AcquireTerminal
            },
            (Phase::Acquiring, Observation::Acquired(configured)) => {
                if configured {
                    self.phase = Phase::Connecting;
                    let _ = self.session.acquire(true);
                    Action::Connect
                } else {
                    self.stop(StopReason::Failed(ErrorKind::TerminalSetup))
                }
            },
            (Phase::Connecting, Observation::Connected(reached)) => {
                if reached {
                    self.resume()
                } else {
                    self.stop(StopReason::Failed(ErrorKind::Connection))
                }
            },
            (Phase::RenderIfDirty, Observation::Rendered(drawn)) => {
                if drawn {
                    self.resume()
                } else {
                    self.stop(StopReason::Failed(ErrorKind::Dispatch))
                }
            },
            (Phase::WaitingForEvent, Observation::Arrived(arrival)) => {
                self.gather(arrival);
                self.select()
            },
            (Phase::Dispatching(source), Observation::Completed(outcome)) => {
                self.complete(source, outcome)
            },
            (Phase::Draining(reason), Observation::Probed(probe)) => {
                match probe {
                    Probe::Pending => {
                        self.phase = Phase::Discarding(reason);
                        Action::DiscardPending
                    },
                    _ => self.release(reason),
                }
            },
            (Phase::Discarding(reason), Observation::Discarded(dropped)) => {
                if dropped {
                    self.phase = Phase::Draining(reason);
                    Action::PollPending
                } else {
                    self.release(reason)
                }
            },
            (Phase::Releasing(reason), Observation::Released(_)) => {
                self.phase = Phase::Stopped(reason);
                Action::Exit(reason)
            },
            _ => Action::Exit(StopReason::Quit),
        };
        Ok(action)
    }
}

} // verus!
