//! Whole runs of the scheduler, and what holds of every one of them.
//!
//! A run is the sequence of observations that the caller reports, starting
//! from a given state. The log of a run is the sequence of actions that the
//! scheduler issued in answer. The theorems of this file speak of all runs:
//! whatever the terminal, the backend and the application do, the log has
//! the shape stated.

use vstd::prelude::*;
use crate::error::StopReason;
use crate::event::{Event, Source, TerminalInput};
use crate::gate::RenderGate;
use crate::protocol::{Action, Arrival, Observation, Outcome, Phase, Probe, INPUT_POLL_MS};
use crate::scheduler::Scheduler;
use crate::session::SessionState;

verus! {

impl<I, N> Action<I, N> {
    /// Whether `phase` is the phase in which the answer to this action is
    /// awaited.
    pub open spec fn awaited_in(self, phase: Phase) -> bool {
        match self {
            Action::AcquireTerminal => phase == Phase::Acquiring,
            Action::Connect => phase == Phase::Connecting,
            Action::Render => phase == Phase::RenderIfDirty,
            Action::Await(_) => phase == Phase::WaitingForEvent,
            Action::Dispatch(event) => phase == Phase::Dispatching(event.source()),
            Action::PollPending => phase is Draining,
            Action::DiscardPending => phase is Discarding,
            Action::ReleaseTerminal => phase is Releasing,
            Action::Exit(reason) => phase == Phase::Stopped(reason),
        }
    }

    /// Whether the action belongs to the shutdown: a look into the input
    /// buffer, the drop of a buffered event, the release, or the exit.
    pub open spec fn winds_down(self) -> bool {
        self is PollPending || self is DiscardPending || self is ReleaseTerminal || self is Exit
    }
}

/// The number of releases of the terminal in `log`.
pub open spec fn releases<I, N>(log: Seq<Action<I, N>>) -> nat
    decreases log.len(),
{
    if log.len() == 0 {
        0
    } else {
        releases(log.drop_last()) + if log.last() is ReleaseTerminal {
            1nat
        } else {
            0nat
        }
    }
}

/// What the caller reports while it empties an input buffer that holds `n`
/// events: `n` times that the look finds one and the read drops it, then a
/// look that finds none.
pub open spec fn drain_reports<I, N>(n: nat) -> Seq<Observation<I, N>>
    decreases n,
{
    if n == 0 {
        seq![Observation::Probed(Probe::Empty)]
    } else {
        seq![Observation::Probed(Probe::Pending), Observation::Discarded(true)] + drain_reports(
            (n - 1) as nat,
        )
    }
}

/// What the scheduler issues while an input buffer of `n` events is
/// emptied: `n` times the drop of one event and a new look, then the
/// release.
pub open spec fn drain_actions<I, N>(n: nat) -> Seq<Action<I, N>>
    decreases n,
{
    if n == 0 {
        seq![Action::ReleaseTerminal]
    } else {
        seq![Action::DiscardPending, Action::PollPending] + drain_actions((n - 1) as nat)
    }
}

/// What the caller reports while the terminal delivers the events `inputs`,
/// one in each iteration, the `k`-th at the instant `times[k]`: the event
/// arrives, the application handles it, the screen is drawn. No notification
/// is taken from the queue meanwhile.
pub open spec fn input_rounds<I, N>(inputs: Seq<TerminalInput<I>>, times: Seq<u64>) -> Seq<
    Observation<I, N>,
>
    decreases inputs.len(),
{
    if inputs.len() == 0 {
        Seq::empty()
    } else {
        input_rounds(inputs.drop_last(), times.drop_last()) + seq![
            Observation::Arrived(
                Arrival { input: Some(inputs.last()), notification: None, now_ms: times.last() },
            ),
            Observation::Completed(Outcome::Handled),
            Observation::Rendered(true),
        ]
    }
}

impl<I, N> Scheduler<I, N> {
    /// What holds of every state that a run from the start reaches: the
    /// timers are valid; no terminal event is left waiting between two
    /// steps; while the screen is drawn and while the caller waits for the
    /// sources no render is pending; and the session is released exactly in
    /// the phases that follow the release, and untouched before the terminal
    /// is acquired.
    pub open spec fn sound(self) -> bool {
        &&& self.foreground.valid()
        &&& self.background.valid()
        &&& self.intake.input is None
        &&& self.phase == Phase::WaitingForEvent || self.phase == Phase::RenderIfDirty
            ==> !self.gate.dirty
        &&& self.phase.released() <==> self.session.state == SessionState::Released
        &&& self.phase == Phase::Idle || self.phase == Phase::Acquiring ==> self.session.state
            == SessionState::Idle
        &&& self.phase == Phase::Connecting || self.phase == Phase::RenderIfDirty || self.phase
            == Phase::WaitingForEvent || self.phase is Dispatching ==> self.session.active()
    }

    /// The state that the run `obs` from `self` ends in. A report that is
    /// not accepted leaves the state as it is.
    pub open spec fn run(self, obs: Seq<Observation<I, N>>) -> Self
        decreases obs.len(),
    {
        if obs.len() == 0 {
            self
        } else {
            self.run(obs.drop_last()).after(obs.last())
        }
    }

    /// The actions issued during the run `obs` from `self`, in order.
    pub open spec fn log(self, obs: Seq<Observation<I, N>>) -> Seq<Action<I, N>>
        decreases obs.len(),
    {
        if obs.len() == 0 {
            Seq::empty()
        } else {
            let before = self.run(obs.drop_last());
            let earlier = self.log(obs.drop_last());
            if before.accepts(obs.last()) {
                earlier.push(before.step(obs.last()).1)
            } else {
                earlier
            }
        }
    }

    /// How a state that a run from the start has reached hangs together with
    /// the log of that run.
    spec fn orderly(self, log: Seq<Action<I, N>>) -> bool {
        &&& self.sound()
        &&& log.len() == 0 ==> self.phase == Phase::Idle
        &&& log.len() > 0 ==> log.last().awaited_in(self.phase)
        &&& releases(log) == if self.phase.released() {
            1nat
        } else {
            0nat
        }
        &&& forall|i: int|
            0 <= i < log.len() && (#[trigger] log[i]) is PollPending ==> self.phase.shutting_down()
        &&& forall|i: int|
            0 <= i < log.len() && (#[trigger] log[i]) is ReleaseTerminal ==> {
                &&& self.phase.released()
                &&& i > 0
                &&& log[i - 1] is PollPending || log[i - 1] is DiscardPending
            }
        &&& forall|i: int, j: int|
            0 <= i < j < log.len() && (#[trigger] log[i]) is ReleaseTerminal ==> (#[trigger] log[j]) is Exit
        &&& forall|i: int, j: int|
            0 <= i < j < log.len() && (#[trigger] log[i]) is PollPending ==> (#[trigger] log[j]).winds_down()
        &&& forall|i: int|
            0 <= i < log.len() && (#[trigger] log[i]) is Dispatch ==> i > 0 && log[i - 1] is Await
        &&& forall|i: int|
            0 <= i < log.len() && (#[trigger] log[i]) is Render ==> {
                &&& i > 0
                &&& log[i - 1] is Dispatch || log[i - 1] is Connect
            }
    }

    /// The state at the start of a run is sound.
    pub proof fn initial_is_sound(now_ms: u64)
        ensures
            Self::initial(now_ms).sound(),
            Self::initial(now_ms).phase == Phase::Idle,
    {
        crate::timer::IntervalTimer::starting_is_valid(crate::timer::FOREGROUND_PERIOD_MS, now_ms);
        crate::timer::IntervalTimer::starting_is_valid(crate::timer::BACKGROUND_PERIOD_MS, now_ms);
    }

    /// A step keeps a sound state sound, and leaves the scheduler in the
    /// phase in which the answer to the action it issued is awaited. A step
    /// out of the shutdown stays in it and issues only actions of the
    /// shutdown; the release is issued from the drain and nowhere else.
    pub proof fn step_is_orderly(self, obs: Observation<I, N>)
        requires
            self.sound(),
            self.accepts(obs),
        ensures
            self.step(obs).0.sound(),
            self.step(obs).1.awaited_in(self.step(obs).0.phase),
            self.phase.shutting_down() ==> self.step(obs).0.phase.shutting_down() && self.step(
                obs,
            ).1.winds_down(),
            self.phase.released() ==> self.step(obs).1 is Exit,
            self.step(obs).1 is ReleaseTerminal ==> self.phase is Draining || self.phase
                is Discarding,
            self.step(obs).1 is PollPending ==> self.step(obs).0.phase.shutting_down(),
            self.step(obs).0.phase.released() ==> self.phase.released() || self.step(obs).1
                is ReleaseTerminal,
            self.step(obs).1 is Dispatch ==> self.phase == Phase::WaitingForEvent,
            self.step(obs).1 is Render ==> self.phase == Phase::Connecting || self.phase
                is Dispatching,
            !(self.phase is Stopped),
    {
        match (self.phase, obs) {
            (Phase::WaitingForEvent, Observation::Arrived(arrival)) => {
                let now = arrival.now_ms as nat;
                if self.foreground.is_due(now) {
                    self.foreground.one_tick_after_stall(now);
                } else {
                    self.foreground.idle_poll_is_identity(now);
                }
                if self.background.is_due(now) {
                    self.background.one_tick_after_stall(now);
                } else {
                    self.background.idle_poll_is_identity(now);
                }
                let gathered = self.gathered(arrival);
                gathered.intake.first_is_foremost();
                gathered.intake.rest_keeps_the_others();
            },
            _ => {},
        }
    }

    /// Every run from a sound state ends in a sound state.
    pub proof fn run_stays_sound(self, obs: Seq<Observation<I, N>>)
        requires
            self.sound(),
        ensures
            self.run(obs).sound(),
        decreases obs.len(),
    {
        if obs.len() > 0 {
            self.run_stays_sound(obs.drop_last());
            let before = self.run(obs.drop_last());
            if before.accepts(obs.last()) {
                before.step_is_orderly(obs.last());
            }
        }
    }

    proof fn counted_push(log: Seq<Action<I, N>>, action: Action<I, N>)
        ensures
            releases(log.push(action)) == releases(log) + if action is ReleaseTerminal {
                1nat
            } else {
                0nat
            },
    {
        assert(log.push(action).drop_last() =~= log);
    }

    proof fn run_is_orderly(self, obs: Seq<Observation<I, N>>)
        requires
            self.sound(),
            self.phase == Phase::Idle,
        ensures
            self.run(obs).orderly(self.log(obs)),
        decreases obs.len(),
    {
        if obs.len() == 0 {
            assert(releases(self.log(obs)) == 0);
        } else {
            self.run_is_orderly(obs.drop_last());
            let before = self.run(obs.drop_last());
            let earlier = self.log(obs.drop_last());
            if before.accepts(obs.last()) {
                before.step_is_orderly(obs.last());
                let after = before.step(obs.last()).0;
                let action = before.step(obs.last()).1;
                let log = earlier.push(action);
                Self::counted_push(earlier, action);
                assert(after == self.run(obs));
                assert(log == self.log(obs));
                assert forall|i: int| 0 <= i < log.len() && (#[trigger] log[i]) is PollPending
                    implies after.phase.shutting_down() by {
                    if i < earlier.len() {
                        assert(earlier[i] is PollPending);
                    }
                }
                assert forall|i: int| 0 <= i < log.len() && (#[trigger] log[i]) is ReleaseTerminal
                    implies after.phase.released() && i > 0 && (log[i - 1] is PollPending || log[i
                    - 1] is DiscardPending) by {
                    if i < earlier.len() {
                        assert(earlier[i] is ReleaseTerminal);
                    } else {
                        assert(earlier.len() > 0);
                        assert(earlier.last().awaited_in(before.phase));
                        assert(log[i - 1] == earlier.last());
                    }
                }
                assert forall|i: int, j: int|
                    0 <= i < j < log.len() && (#[trigger] log[i]) is ReleaseTerminal implies (
                #[trigger] log[j]) is Exit by {
                    assert(earlier[i] is ReleaseTerminal);
                    if j < earlier.len() {
                        assert(earlier[j] is Exit);
                    }
                }
                assert forall|i: int, j: int|
                    0 <= i < j < log.len() && (#[trigger] log[i]) is PollPending implies (
                #[trigger] log[j]).winds_down() by {
                    assert(earlier[i] is PollPending);
                    if j < earlier.len() {
                        assert(earlier[j].winds_down());
                    }
                }
                assert forall|i: int| 0 <= i < log.len() && (#[trigger] log[i]) is Dispatch
                    implies i > 0 && log[i - 1] is Await by {
                    if i < earlier.len() {
                        assert(earlier[i] is Dispatch);
                    } else {
                        assert(earlier.len() > 0);
                        assert(earlier.last().awaited_in(before.phase));
                        assert(log[i - 1] == earlier.last());
                    }
                }
                assert forall|i: int| 0 <= i < log.len() && (#[trigger] log[i]) is Render
                    implies i > 0 && (log[i - 1] is Dispatch || log[i - 1] is Connect) by {
                    if i < earlier.len() {
                        assert(earlier[i] is Render);
                    } else {
                        assert(earlier.len() > 0);
                        assert(earlier.last().awaited_in(before.phase));
                        assert(log[i - 1] == earlier.last());
                    }
                }
            }
        }
    }

    /// Exactly-once release, after the drain.
    ///
    /// Take any run from the start, whatever is reported in it. Its log
    /// holds at most one release of the terminal, and exactly one as soon as
    /// the release phase is reached, so in every run that has ended. The
    /// release stands directly behind an action of the drain: the look into
    /// the input buffer that found nothing, or the read that failed. Behind
    /// the release nothing is issued but the exit. The session is released
    /// exactly when the log holds the release.
    pub proof fn released_exactly_once(self, obs: Seq<Observation<I, N>>)
        requires
            self.sound(),
            self.phase == Phase::Idle,
        ensures
            releases(self.log(obs)) <= 1,
            self.run(obs).phase.released() <==> releases(self.log(obs)) == 1,
            self.run(obs).phase is Stopped ==> releases(self.log(obs)) == 1,
            self.run(obs).session.state == SessionState::Released <==> releases(self.log(obs)) == 1,
            forall|i: int|
                0 <= i < self.log(obs).len() && (#[trigger] self.log(obs)[i]) is ReleaseTerminal ==> {
                    &&& i > 0
                    &&& self.log(obs)[i - 1] is PollPending || self.log(obs)[i - 1] is DiscardPending
                },
            forall|i: int, j: int|
                0 <= i < j < self.log(obs).len() && (#[trigger] self.log(obs)[i]) is ReleaseTerminal
                    ==> (#[trigger] self.log(obs)[j]) is Exit,
    {
        self.run_is_orderly(obs);
    }

    /// Once the shutdown has begun, nothing is served.
    ///
    /// In the log of any run from the start, every action behind the first
    /// look into the input buffer belongs to the shutdown: no event is
    /// dispatched, nothing is drawn, no source is waited for.
    pub proof fn shutdown_is_final(self, obs: Seq<Observation<I, N>>)
        requires
            self.sound(),
            self.phase == Phase::Idle,
        ensures
            forall|i: int, j: int|
                0 <= i < j < self.log(obs).len() && (#[trigger] self.log(obs)[i]) is PollPending ==> (
                #[trigger] self.log(obs)[j]).winds_down(),
            (exists|i: int| 0 <= i < self.log(obs).len() && (#[trigger] self.log(obs)[i]) is PollPending)
                ==> self.run(obs).phase.shutting_down(),
    {
        self.run_is_orderly(obs);
    }

    /// One dispatch for each wait, one render for each dispatch.
    ///
    /// In the log of any run from the start, every dispatch stands directly
    /// behind a wait for the sources, so one iteration serves at most one
    /// event. Every render stands directly behind a dispatch, or behind the
    /// connection for the first frame: no render is issued for an iteration
    /// that dispatched nothing, and none twice for one dispatch.
    pub proof fn renders_follow_dispatches(self, obs: Seq<Observation<I, N>>)
        requires
            self.sound(),
            self.phase == Phase::Idle,
        ensures
            forall|i: int|
                0 <= i < self.log(obs).len() && (#[trigger] self.log(obs)[i]) is Dispatch ==> i > 0
                    && self.log(obs)[i - 1] is Await,
            forall|i: int|
                0 <= i < self.log(obs).len() && (#[trigger] self.log(obs)[i]) is Render ==> {
                    &&& i > 0
                    &&& self.log(obs)[i - 1] is Dispatch || self.log(obs)[i - 1] is Connect
                },
    {
        self.run_is_orderly(obs);
    }

    /// A run of two parts is the run of the second part from where the
    /// first ended, and its log is the two logs one after the other.
    pub proof fn run_in_two_parts(self, first: Seq<Observation<I, N>>, second: Seq<Observation<I, N>>)
        ensures
            self.run(first + second) == self.run(first).run(second),
            self.log(first + second) == self.log(first) + self.run(first).log(second),
        decreases second.len(),
    {
        if second.len() == 0 {
            assert(first + second =~= first);
            assert(self.log(first) + self.run(first).log(second) =~= self.log(first));
        } else {
            self.run_in_two_parts(first, second.drop_last());
            assert((first + second).drop_last() =~= first + second.drop_last());
            assert((first + second).last() == second.last());
            let before = self.run(first).run(second.drop_last());
            let earlier = self.run(first).log(second.drop_last());
            if before.accepts(second.last()) {
                assert(self.log(first + second) =~= self.log(first) + earlier.push(
                    before.step(second.last()).1,
                ));
            }
        }
    }

    /// The run of one report: the step, where the report is accepted.
    pub proof fn run_of_one(self, obs: Observation<I, N>)
        ensures
            self.run(seq![obs]) == self.after(obs),
            self.accepts(obs) ==> self.log(seq![obs]) == seq![self.step(obs).1],
            !self.accepts(obs) ==> self.log(seq![obs]) == Seq::<Action<I, N>>::empty(),
    {
        let one = seq![obs];
        assert(one.drop_last() =~= Seq::<Observation<I, N>>::empty());
        assert(one.last() == obs);
        assert(self.run(one.drop_last()) == self);
        assert(self.log(one.drop_last()) =~= Seq::<Action<I, N>>::empty());
        if self.accepts(obs) {
            assert(Seq::<Action<I, N>>::empty().push(self.step(obs).1) =~= seq![self.step(obs).1]);
        }
    }

    /// The drain empties the input buffer before the release.
    ///
    /// Let the shutdown have begun, and let the terminal's input buffer hold
    /// `n` events, so that `n` looks find one and the look after them finds
    /// none. Then the scheduler has each of the `n` events read and dropped,
    /// issues the release after the last of them and not before, and hands
    /// none of them to the application. Nothing but the phase and the
    /// session changes on the way.
    pub proof fn drain_empties_the_buffer(self, n: nat, reason: StopReason)
        requires
            self.phase == Phase::Draining(reason),
        ensures
            self.log(drain_reports::<I, N>(n)) == drain_actions::<I, N>(n),
            self.run(drain_reports::<I, N>(n)) == self.released(reason).0,
            drain_actions::<I, N>(n).len() == 2 * n + 1,
            drain_actions::<I, N>(n).last() is ReleaseTerminal,
            forall|i: int|
                0 <= i < 2 * n ==> !((#[trigger] drain_actions::<I, N>(n)[i]) is ReleaseTerminal),
            forall|i: int|
                0 <= i < n ==> (#[trigger] drain_actions::<I, N>(n)[2 * i]) is DiscardPending,
        decreases n,
    {
        if n == 0 {
            self.run_of_one(Observation::Probed(Probe::Empty));
        } else {
            let look = Observation::<I, N>::Probed(Probe::Pending);
            let drop = Observation::<I, N>::Discarded(true);
            let round = seq![look, drop];
            let rest = drain_reports::<I, N>((n - 1) as nat);
            self.run_of_one(look);
            let reading = self.after(look);
            reading.run_of_one(drop);
            assert(round =~= seq![look] + seq![drop]);
            self.run_in_two_parts(seq![look], seq![drop]);
            assert(self.run(round) == self);
            assert(self.log(round) =~= seq![Action::DiscardPending, Action::PollPending]);
            self.run_in_two_parts(round, rest);
            self.drain_empties_the_buffer((n - 1) as nat, reason);
            let later = drain_actions::<I, N>((n - 1) as nat);
            let all = drain_actions::<I, N>(n);
            assert(all =~= seq![Action::DiscardPending, Action::PollPending] + later);
            assert forall|i: int| 0 <= i < 2 * n implies !((#[trigger] all[i]) is ReleaseTerminal) by {
                if i >= 2 {
                    assert(all[i] == later[i - 2]);
                }
            }
            assert forall|i: int| 0 <= i < n implies (#[trigger] all[2 * i]) is DiscardPending by {
                if i >= 1 {
                    assert(all[2 * i] == later[2 * (i - 1)]);
                }
            }
        }
    }

    /// Input goes first.
    ///
    /// Let the caller report a terminal event at the end of a wait. Then
    /// that event is the one dealt with in this iteration, whatever else
    /// arrived with it, waits in the intake or is due: the interrupt chord
    /// ends the loop, any other event is dispatched. What else was ready
    /// stays in the intake for a later iteration.
    pub proof fn input_is_served_first(self, arrival: Arrival<I, N>)
        requires
            self.phase == Phase::WaitingForEvent,
            self.accepts(Observation::Arrived(arrival)),
            arrival.input is Some,
        ensures
            ({
                let event = arrival.input.unwrap().event::<N>();
                let next = self.step(Observation::Arrived(arrival));
                &&& event.is_interrupt() ==> next.1 is PollPending
                &&& !event.is_interrupt() ==> next.1 == Action::Dispatch(event) && next.0.phase
                    == Phase::Dispatching(Source::Input)
                &&& next.0.intake.input is None
                &&& next.0.intake.notification == self.gathered(arrival).intake.notification
                &&& next.0.intake.foreground == self.gathered(arrival).intake.foreground
                &&& next.0.intake.background == self.gathered(arrival).intake.background
            }),
    {
    }

    /// Without input, a notification goes before the timers.
    ///
    /// Let a wait end with no terminal event, and let a notification be
    /// ready: one that arrived now or one that waits from before. Then it is
    /// dispatched in this iteration, whether or not a timer is due, and the
    /// ticks wait.
    pub proof fn notification_is_served_before_ticks(self, arrival: Arrival<I, N>)
        requires
            self.phase == Phase::WaitingForEvent,
            self.accepts(Observation::Arrived(arrival)),
            arrival.input is None,
            self.intake.input is None,
            arrival.notification is Some || self.intake.notification is Some,
        ensures
            ({
                let payload = if arrival.notification is Some {
                    arrival.notification.unwrap()
                } else {
                    self.intake.notification.unwrap()
                };
                let next = self.step(Observation::Arrived(arrival));
                &&& next.1 == Action::Dispatch(Event::<I, N>::BackendNotification(payload))
                &&& next.0.phase == Phase::Dispatching(Source::Notification)
                &&& next.0.intake.foreground == self.gathered(arrival).intake.foreground
                &&& next.0.intake.background == self.gathered(arrival).intake.background
            }),
    {
    }

    /// With neither input nor a notification, the foreground tick goes
    /// before the background tick, and a tick is served exactly when its
    /// timer is due or a tick of it waits.
    pub proof fn ticks_are_served_last(self, arrival: Arrival<I, N>)
        requires
            self.phase == Phase::WaitingForEvent,
            self.accepts(Observation::Arrived(arrival)),
            arrival.input is None,
            self.intake.input is None,
            arrival.notification is None,
            self.intake.notification is None,
        ensures
            ({
                let now = arrival.now_ms as nat;
                let foreground = self.intake.foreground || self.foreground.is_due(now);
                let background = self.intake.background || self.background.is_due(now);
                let next = self.step(Observation::Arrived(arrival));
                &&& foreground ==> next.1 == Action::Dispatch(Event::<I, N>::ForegroundTick)
                    && next.0.intake.background == background
                &&& !foreground && background ==> next.1 == Action::Dispatch(
                    Event::<I, N>::BackgroundTick,
                )
                &&& !foreground && !background ==> !(next.1 is Dispatch)
            }),
    {
    }

    /// The interrupt chord ends the loop at once.
    ///
    /// Let the terminal event that a wait brings be the interrupt chord.
    /// Then the step that takes it in starts the shutdown: the loop is left
    /// with the reason `Interrupt`, the application does not see the event,
    /// and nothing that is ready besides it is dispatched, however much
    /// that is. No wait for input is longer than [`INPUT_POLL_MS`].
    pub proof fn interrupt_stops_at_once(self, arrival: Arrival<I, N>)
        requires
            self.phase == Phase::WaitingForEvent,
            self.accepts(Observation::Arrived(arrival)),
            arrival.input matches Some(input) && input.key matches Some(key) && key.is_interrupt(),
        ensures
            self.step(Observation::Arrived(arrival)).1 == Action::<I, N>::PollPending,
            self.step(Observation::Arrived(arrival)).0.phase == Phase::Draining(
                StopReason::Interrupt,
            ),
            self.wait().timeout_ms <= INPUT_POLL_MS,
            INPUT_POLL_MS == 10,
    {
    }

    /// An iteration without a dispatch draws nothing.
    ///
    /// Let the scheduler wait with no render pending and nothing in the
    /// intake, and let the wait end with no event, no notification and no
    /// timer due. Then the state stays as it is and the next action is
    /// another wait, not a render.
    pub proof fn quiet_iteration_draws_nothing(self, arrival: Arrival<I, N>)
        requires
            self.phase == Phase::WaitingForEvent,
            !self.gate.dirty,
            self.intake.idle(),
            arrival.input is None,
            arrival.notification is None,
            !self.foreground.is_due(arrival.now_ms as nat),
            !self.background.is_due(arrival.now_ms as nat),
        ensures
            self.accepts(Observation::Arrived(arrival)),
            self.step(Observation::Arrived(arrival)) == (self, Action::<I, N>::Await(self.wait())),
    {
        let now = arrival.now_ms as nat;
        self.foreground.idle_poll_is_identity(now);
        self.background.idle_poll_is_identity(now);
        let gathered = self.gathered(arrival);
        assert(gathered.intake == self.intake);
        assert(gathered == self);
    }

    /// One render for each dispatch, however the flag stood.
    ///
    /// When the application has handled an event and the run goes on, the
    /// next action is one render, and the flag is clear once it is issued:
    /// after the render the scheduler waits for the sources and does not
    /// draw again until another event has been handled. The same holds
    /// when a refresh that a timer asked for has failed.
    pub proof fn one_render_per_dispatch(self, source: Source, outcome: Outcome)
        requires
            self.phase == Phase::Dispatching(source),
            outcome == Outcome::Handled || (outcome == Outcome::Failed && source.is_timer()),
        ensures
            ({
                let drawn = self.step(Observation::Completed(outcome));
                let waiting = drawn.0.step(Observation::Rendered(true));
                &&& drawn.1 == Action::<I, N>::Render
                &&& drawn.0.phase == Phase::RenderIfDirty
                &&& drawn.0.gate == RenderGate { dirty: false }
                &&& waiting.1 is Await
                &&& !waiting.0.gate.dirty
            }),
    {
    }

    /// Failures that end the run, and the one that does not.
    ///
    /// A failure reported for a terminal event or a notification starts the
    /// shutdown with that failure as the reason. A failure reported for a
    /// refresh that a timer asked for does not: the run goes on. A request
    /// to quit starts the shutdown whatever the source.
    pub proof fn only_refresh_failures_are_survived(self, source: Source)
        requires
            self.phase == Phase::Dispatching(source),
        ensures
            self.step(Observation::Completed(Outcome::Failed)).0.phase.shutting_down()
                <==> !source.is_timer(),
            !source.is_timer() ==> self.step(Observation::Completed(Outcome::Failed)).0.phase
                == Phase::Draining(StopReason::Failed(crate::error::ErrorKind::Dispatch)),
            self.step(Observation::Completed(Outcome::Quit)).0.phase == Phase::Draining(
                StopReason::Quit,
            ),
            self.step(Observation::Completed(Outcome::Quit)).1 == Action::<I, N>::PollPending,
    {
    }
    /// The run of three reports, each accepted where the one before it led.
    proof fn run_of_three(self, a: Observation<I, N>, b: Observation<I, N>, c: Observation<I, N>)
        requires
            self.accepts(a),
            self.after(a).accepts(b),
            self.after(a).after(b).accepts(c),
        ensures
            self.run(seq![a, b, c]) == self.after(a).after(b).after(c),
            self.log(seq![a, b, c]) == seq![
                self.step(a).1,
                self.after(a).step(b).1,
                self.after(a).after(b).step(c).1,
            ],
    {
        let second = self.after(a);
        let third = second.after(b);
        self.run_of_one(a);
        second.run_of_one(b);
        third.run_of_one(c);
        self.run_in_two_parts(seq![a], seq![b]);
        self.run_in_two_parts(seq![a] + seq![b], seq![c]);
        assert(seq![a, b, c] =~= seq![a] + seq![b] + seq![c]);
        assert(seq![self.step(a).1, second.step(b).1, third.step(c).1] =~= seq![self.step(a).1]
            + seq![second.step(b).1] + seq![third.step(c).1]);
    }

    /// Input can starve every other source.
    ///
    /// The order of service is strict and does not age. Let the scheduler
    /// wait, and let the terminal deliver one event in every iteration, none
    /// of them the interrupt chord. Then, however long that goes on, each
    /// iteration dispatches the terminal event and draws once; no
    /// notification and no tick is dispatched, and a notification that
    /// waited at the beginning still waits at the end.
    pub proof fn input_can_starve_the_rest(self, inputs: Seq<TerminalInput<I>>, times: Seq<u64>)
        requires
            self.phase == Phase::WaitingForEvent,
            self.intake.input is None,
            times.len() == inputs.len(),
            forall|k: int| 0 <= k < inputs.len() ==> !(#[trigger] inputs[k]).event::<N>().is_interrupt(),
        ensures
            self.run(input_rounds(inputs, times)).phase == Phase::WaitingForEvent,
            self.run(input_rounds(inputs, times)).intake.input is None,
            self.run(input_rounds(inputs, times)).intake.notification == self.intake.notification,
            self.log(input_rounds(inputs, times)).len() == 3 * inputs.len(),
            forall|k: int|
                0 <= k < inputs.len() ==> {
                    &&& self.log(input_rounds(inputs, times))[3 * k] == Action::Dispatch(
                        (#[trigger] inputs[k]).event::<N>(),
                    )
                    &&& self.log(input_rounds(inputs, times))[3 * k + 1] == Action::<I, N>::Render
                    &&& self.log(input_rounds(inputs, times))[3 * k + 2] is Await
                },
        decreases inputs.len(),
    {
        if inputs.len() > 0 {
            let earlier = input_rounds::<I, N>(inputs.drop_last(), times.drop_last());
            self.input_can_starve_the_rest(inputs.drop_last(), times.drop_last());
            let middle = self.run(earlier);
            let arrived = Observation::<I, N>::Arrived(
                Arrival { input: Some(inputs.last()), notification: None, now_ms: times.last() },
            );
            let handled = Observation::<I, N>::Completed(Outcome::Handled);
            let drawn = Observation::<I, N>::Rendered(true);
            assert(middle.accepts(arrived));
            assert(!inputs[inputs.len() - 1].event::<N>().is_interrupt());
            let serving = middle.after(arrived);
            assert(serving.phase == Phase::Dispatching(Source::Input));
            assert(serving.accepts(handled));
            let drawing = serving.after(handled);
            assert(drawing.phase == Phase::RenderIfDirty);
            assert(drawing.accepts(drawn));
            middle.run_of_three(arrived, handled, drawn);
            self.run_in_two_parts(earlier, seq![arrived, handled, drawn]);
            let log = self.log(input_rounds(inputs, times));
            let before = self.log(earlier);
            assert(log == before + middle.log(seq![arrived, handled, drawn]));
            assert forall|k: int| 0 <= k < inputs.len() implies {
                &&& log[3 * k] == Action::Dispatch((#[trigger] inputs[k]).event::<N>())
                &&& log[3 * k + 1] == Action::<I, N>::Render
                &&& log[3 * k + 2] is Await
            } by {
                if k < inputs.len() - 1 {
                    assert(inputs.drop_last()[k] == inputs[k]);
                    assert(log[3 * k] == before[3 * k]);
                    assert(log[3 * k + 1] == before[3 * k + 1]);
                    assert(log[3 * k + 2] == before[3 * k + 2]);
                } else {
                    assert(log[3 * k] == middle.log(seq![arrived, handled, drawn])[0]);
                    assert(log[3 * k + 1] == middle.log(seq![arrived, handled, drawn])[1]);
                    assert(log[3 * k + 2] == middle.log(seq![arrived, handled, drawn])[2]);
                }
            }
        }
    }
}

} // verus!
