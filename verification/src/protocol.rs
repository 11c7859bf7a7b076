//! The words that the scheduler and its caller exchange.
//!
//! The scheduler issues an [`Action`]; the caller carries it out and reports
//! what came of it as an [`Observation`]. The [`Phase`] records which answer
//! is awaited.

use vstd::prelude::*;
use crate::error::StopReason;
use crate::event::{Event, Source, TerminalInput};

verus! {

/// Longest time, in milliseconds, that one check for terminal input waits.
pub const INPUT_POLL_MS: u64 = 10;

/// Where the run stands: the action that was issued last and is not yet
/// answered.
#[derive(Clone, Copy, Debug, PartialEq, Eq, Structural)]
pub enum Phase {
    /// Nothing has been issued yet.
    Idle,
    /// The terminal is being acquired.
    Acquiring,
    /// The connection to the backend is being made.
    Connecting,
    /// The screen is being drawn.
    RenderIfDirty,
    /// The caller waits for the sources.
    WaitingForEvent,
    /// The application handles an event of the given source.
    Dispatching(Source),
    /// Shutdown: the caller looks whether terminal input is still buffered.
    Draining(StopReason),
    /// Shutdown: the caller reads one buffered terminal event and drops it.
    Discarding(StopReason),
    /// Shutdown: the terminal is being handed back.
    Releasing(StopReason),
    /// The run is over.
    Stopped(StopReason),
}

impl Phase {
    /// Whether the phase belongs to the shutdown or to what follows it.
    pub open spec fn shutting_down(self) -> bool {
        self is Draining || self is Discarding || self is Releasing || self is Stopped
    }

    /// Whether the release of the terminal has been issued.
    pub open spec fn released(self) -> bool {
        self is Releasing || self is Stopped
    }
}

/// What the application reports of an event that it handled.
#[derive(Clone, Copy, Debug, PartialEq, Eq, Structural)]
pub enum Outcome {
    /// The event was handled and the run goes on.
    Handled,
    /// The event was handled and the application asks to quit.
    Quit,
    /// Handling the event failed.
    Failed,
}

/// What a look into the terminal's input buffer found during shutdown.
#[derive(Clone, Copy, Debug, PartialEq, Eq, Structural)]
pub enum Probe {
    /// At least one event is buffered.
    Pending,
    /// No event is buffered.
    Empty,
    /// The look itself failed.
    Failed,
}

impl Outcome {
    /// The outcome that a handler's result stands for: a handler that
    /// answers `true` asks to quit, one that answers `false` does not, and
    /// an error is a failure.
    pub open spec fn of_handler<E>(result: Result<bool, E>) -> Outcome {
        match result {
            Ok(true) => Outcome::Quit,
            Ok(false) => Outcome::Handled,
            Err(_) => Outcome::Failed,
        }
    }

    /// Reads the result of a handler that may ask to quit.
    pub fn from_handler<E>(result: &Result<bool, E>) -> (outcome: Self)
        ensures
            outcome == Self::of_handler(*result),
    {
        match result {
            Ok(true) => Outcome::Quit,
            Ok(false) => Outcome::Handled,
            Err(_) => Outcome::Failed,
        }
    }

    /// Reads the result of a handler that cannot ask to quit: success is
    /// `Handled`, an error is `Failed`.
    pub fn from_result<E>(result: &Result<(), E>) -> (outcome: Self)
        ensures
            outcome == (if result is Ok {
                Outcome::Handled
            } else {
                Outcome::Failed
            }),
    {
        match result {
            Ok(_) => Outcome::Handled,
            Err(_) => Outcome::Failed,
        }
    }
}

impl Probe {
    /// Reads the result of a look into the input buffer: `true` is
    /// `Pending`, `false` is `Empty`, an error is `Failed`.
    pub fn from_poll<E>(result: &Result<bool, E>) -> (probe: Self)
        ensures
            probe == (match *result {
                Ok(true) => Probe::Pending,
                Ok(false) => Probe::Empty,
                Err(_) => Probe::Failed,
            }),
    {
        match result {
            Ok(true) => Probe::Pending,
            Ok(false) => Probe::Empty,
            Err(_) => Probe::Failed,
        }
    }
}

/// What became ready while the caller waited.
#[derive(Debug, PartialEq, Eq)]
pub struct Arrival<I, N> {
    /// The terminal event that was read, if one came within the time allowed.
    pub input: Option<TerminalInput<I>>,
    /// The notification taken from the queue, if one was there.
    pub notification: Option<N>,
    /// The clock, in milliseconds, when the wait ended.
    pub now_ms: u64,
}

impl<I, N> Arrival<I, N> {
    /// The arrival at `now_ms` of what a check for terminal input and a
    /// look at the queue brought. A check that failed counts as a check
    /// that found nothing.
    pub fn gathered<E>(
        polled: Result<Option<TerminalInput<I>>, E>,
        notification: Option<N>,
        now_ms: u64,
    ) -> (arrival: Self)
        ensures
            arrival.notification == notification,
            arrival.now_ms == now_ms,
            arrival.input == (match polled {
                Ok(found) => found,
                Err(_) => None,
            }),
    {
        let input = match polled {
            Ok(found) => found,
            Err(_) => None,
        };
        Arrival { input, notification, now_ms }
    }
}

/// How the caller is to wait for the sources.
#[derive(Clone, Copy, Debug, PartialEq, Eq, Structural)]
pub struct Wait {
    /// Whether to take a notification from the queue. It is `false` while
    /// one that was taken earlier still waits its turn.
    pub notifications: bool,
    /// Longest time to wait for terminal input, in milliseconds.
    pub timeout_ms: u64,
}

/// What the caller reports.
#[derive(Debug, PartialEq, Eq)]
pub enum Observation<I, N> {
    /// The program has started.
    Started,
    /// The terminal was acquired (`true`) or could not be (`false`).
    Acquired(bool),
    /// The backend was reached (`true`) or could not be (`false`).
    Connected(bool),
    /// The screen was drawn (`true`) or drawing failed (`false`).
    Rendered(bool),
    /// The wait for the sources ended.
    Arrived(Arrival<I, N>),
    /// The application has handled the event it was given.
    Completed(Outcome),
    /// The look into the terminal's input buffer ended.
    Probed(Probe),
    /// One buffered terminal event was read and dropped (`true`), or reading
    /// failed (`false`).
    Discarded(bool),
    /// The terminal was handed back; `false` if part of that failed.
    Released(bool),
}

/// What the caller is to do next.
#[derive(Debug, PartialEq, Eq)]
pub enum Action<I, N> {
    /// Put the terminal into raw mode on the alternate screen with mouse
    /// capture.
    AcquireTerminal,
    /// Connect to the backend.
    Connect,
    /// Draw the screen.
    Render,
    /// Wait for the sources as described.
    Await(Wait),
    /// Hand the event to the application.
    Dispatch(Event<I, N>),
    /// Look, without waiting, whether terminal input is buffered.
    PollPending,
    /// Read one buffered terminal event and drop it.
    DiscardPending,
    /// Hand the terminal back: raw mode off, mouse capture off, alternate
    /// screen left, cursor shown.
    ReleaseTerminal,
    /// Report the failure, if the run ended on one, and leave.
    Exit(StopReason),
}

} // verus!
