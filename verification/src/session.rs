//! The terminal session: whether the terminal is in the program's display
//! mode.

use vstd::prelude::*;
use crate::error::ErrorKind;

verus! {

/// Where a session stands in its life.
#[derive(Clone, Copy, Debug, PartialEq, Eq, Structural)]
pub enum SessionState {
    /// The terminal is as the program found it.
    Idle,
    /// Raw mode, the alternate screen and mouse capture are on, all three.
    Active,
    /// The terminal has been handed back.
    Released,
}

/// The record of the terminal's display mode. Raw mode and the alternate
/// screen go on together and off together; a session is acquired at most
/// once and, once released, stays released.
#[derive(Clone, Copy, Debug, PartialEq, Eq, Structural)]
pub struct TerminalSession {
    pub state: SessionState,
}

impl TerminalSession {
    /// Whether the terminal is in the program's display mode.
    pub open spec fn active(self) -> bool {
        self.state == SessionState::Active
    }

    /// The session after an attempt to acquire the terminal that succeeded
    /// (`configured`) or failed.
    pub open spec fn after_acquire(self, configured: bool) -> TerminalSession {
        if self.state == SessionState::Idle && configured {
            TerminalSession { state: SessionState::Active }
        } else {
            self
        }
    }

    /// The session after a release.
    pub open spec fn after_release(self) -> TerminalSession {
        TerminalSession { state: SessionState::Released }
    }

    /// A session that has not touched the terminal.
    pub fn new() -> (s: Self)
        ensures
            s.state == SessionState::Idle,
    {
        TerminalSession { state: SessionState::Idle }
    }

    /// Whether the terminal is in the program's display mode.
    pub fn is_active(&self) -> (b: bool)
        ensures
            b == self.active(),
    {
        match self.state {
            SessionState::Active => true,
            _ => false,
        }
    }

    /// Records the attempt to put the terminal into the program's display
    /// mode. The session becomes active when the attempt succeeded on an
    /// idle session; otherwise it stays as it is and the setup error comes
    /// back.
    pub fn acquire(&mut self, configured: bool) -> (r: Result<(), ErrorKind>)
        ensures
            *final(self) == old(self).after_acquire(configured),
            r is Ok <==> configured && old(self).state == SessionState::Idle,
            r is Ok ==> final(self).active(),
            r is Err ==> r == Err::<(), ErrorKind>(ErrorKind::TerminalSetup),
    {
        match self.state {
            SessionState::Idle => {
                if configured {
                    self.state = SessionState::Active;
                    Ok(())
                } else {
                    Err(ErrorKind::TerminalSetup)
                }
            },
            _ => Err(ErrorKind::TerminalSetup),
        }
    }

    /// Records that the terminal is handed back. The result tells whether
    /// this call is the one that releases: `true` the first time, `false`
    /// for every later call, which changes nothing.
    pub fn release(&mut self) -> (first: bool)
        ensures
            *final(self) == old(self).after_release(),
            first == (old(self).state != SessionState::Released),
    {
        let first = match self.state {
            SessionState::Released => false,
            _ => true,
        };
        self.state = SessionState::Released;
        first
    }

    /// A release after a release changes nothing, and no acquire brings a
    /// released session back.
    pub proof fn release_is_idempotent(self, configured: bool)
        ensures
            self.after_release().after_release() == self.after_release(),
            self.after_release().after_acquire(configured) == self.after_release(),
            !self.after_release().active(),
    {
    }
}

} // verus!
