//! The kinds of failure and what each means for the run.

use vstd::prelude::*;
use crate::event::Source;

verus! {

/// What went wrong.
#[derive(Clone, Copy, Debug, PartialEq, Eq, Structural)]
pub enum ErrorKind {
    /// The terminal could not be put into raw mode on the alternate screen.
    TerminalSetup,
    /// The backend could not be reached at startup.
    Connection,
    /// A refresh that a timer asked for failed.
    PeriodicRefresh,
    /// Handling a terminal event or a notification failed, or drawing did.
    Dispatch,
}

impl ErrorKind {
    /// Whether the failure ends the run. Only a failed periodic refresh does
    /// not.
    pub open spec fn is_fatal(self) -> bool {
        self != ErrorKind::PeriodicRefresh
    }

    /// The kind of a failure reported while an event of `source` was
    /// handled.
    pub open spec fn of_dispatch(source: Source) -> ErrorKind {
        if source.is_timer() {
            ErrorKind::PeriodicRefresh
        } else {
            ErrorKind::Dispatch
        }
    }

    /// Whether the failure ends the run.
    pub fn fatal(&self) -> (b: bool)
        ensures
            b == self.is_fatal(),
    {
        match self {
            ErrorKind::PeriodicRefresh => false,
            _ => true,
        }
    }

    /// Classifies a failure reported while an event of `source` was handled.
    pub fn classify(source: Source) -> (kind: Self)
        ensures
            kind == Self::of_dispatch(source),
            kind.is_fatal() <==> !source.is_timer(),
    {
        if source.periodic() {
            ErrorKind::PeriodicRefresh
        } else {
            ErrorKind::Dispatch
        }
    }
}

/// Why the loop ended.
#[derive(Clone, Copy, Debug, PartialEq, Eq, Structural)]
pub enum StopReason {
    /// The application asked to quit.
    Quit,
    /// The interrupt chord was struck.
    Interrupt,
    /// A fatal failure of the given kind.
    Failed(ErrorKind),
}

impl StopReason {
    /// The failure to report when the run has ended, if it ended on one.
    pub open spec fn error(self) -> Option<ErrorKind> {
        match self {
            StopReason::Failed(kind) => Some(kind),
            _ => None,
        }
    }

    /// The failure to report when the run has ended, if it ended on one.
    pub fn report(&self) -> (e: Option<ErrorKind>)
        ensures
            e == self.error(),
    {
        match self {
            StopReason::Failed(kind) => Some(*kind),
            _ => None,
        }
    }
}

} // verus!
