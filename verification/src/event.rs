//! Events and the sources they come from.

use vstd::prelude::*;
use crate::input::KeyEvent;

verus! {

/// Where an event comes from. The order of the variants is the order of
/// service: an earlier source goes before every later one.
#[derive(Clone, Copy, Debug, PartialEq, Eq, Structural)]
pub enum Source {
    /// Keyboard and mouse.
    Input,
    /// The queue of notifications from the backend.
    Notification,
    /// The timer of the foreground refresh.
    ForegroundTimer,
    /// The timer of the background refresh.
    BackgroundTimer,
}

impl Source {
    /// Position in the order of service: 0 is served first.
    pub open spec fn rank(self) -> nat {
        match self {
            Source::Input => 0,
            Source::Notification => 1,
            Source::ForegroundTimer => 2,
            Source::BackgroundTimer => 3,
        }
    }

    /// Position in the order of service: 0 is served first.
    pub fn priority(&self) -> (p: u8)
        ensures
            p == self.rank(),
    {
        match self {
            Source::Input => 0,
            Source::Notification => 1,
            Source::ForegroundTimer => 2,
            Source::BackgroundTimer => 3,
        }
    }

    /// Whether `self` is served before `other`.
    pub fn outranks(&self, other: Source) -> (b: bool)
        ensures
            b == (self.rank() < other.rank()),
    {
        self.priority() < other.priority()
    }

    /// Whether the source is one of the two timers.
    pub open spec fn is_timer(self) -> bool {
        self == Source::ForegroundTimer || self == Source::BackgroundTimer
    }

    /// Whether the source is one of the two timers.
    pub fn periodic(&self) -> (b: bool)
        ensures
            b == self.is_timer(),
    {
        match self {
            Source::ForegroundTimer => true,
            Source::BackgroundTimer => true,
            _ => false,
        }
    }
}

/// The order of service is strict: two sources of one rank are one source.
pub proof fn rank_is_injective(a: Source, b: Source)
    ensures
        a.rank() == b.rank() <==> a == b,
        a.rank() <= 3,
{
}

/// One event read from the terminal: the event itself, which the scheduler
/// carries along unread, and the key it reports, if it reports one.
#[derive(Debug, PartialEq, Eq)]
pub struct TerminalInput<I> {
    /// The key event, for an event of the keyboard.
    pub key: Option<KeyEvent>,
    /// The event as the terminal delivered it.
    pub raw: I,
}

/// An event on its way to the application. `I` is what the terminal
/// delivers, `N` what the backend sends; the scheduler reads neither.
#[derive(Debug, PartialEq, Eq)]
pub enum Event<I, N> {
    /// An event of the keyboard.
    KeyInput(KeyEvent, I),
    /// An event of the mouse, or another terminal event that is no key.
    MouseInput(I),
    /// A notification pushed by the backend.
    BackendNotification(N),
    /// The foreground refresh is due.
    ForegroundTick,
    /// The background refresh is due.
    BackgroundTick,
}

impl<I> TerminalInput<I> {
    /// The event that this input becomes.
    pub open spec fn event<N>(self) -> Event<I, N> {
        match self.key {
            Some(key) => Event::KeyInput(key, self.raw),
            None => Event::MouseInput(self.raw),
        }
    }

    /// An event of the keyboard.
    pub fn key(key: KeyEvent, raw: I) -> (input: Self)
        ensures
            input == (TerminalInput { key: Some(key), raw }),
    {
        TerminalInput { key: Some(key), raw }
    }

    /// A terminal event that is no key.
    pub fn other(raw: I) -> (input: Self)
        ensures
            input == (TerminalInput::<I> { key: None, raw }),
    {
        TerminalInput { key: None, raw }
    }

    /// Turns the input into the event that is dispatched.
    pub fn into_event<N>(self) -> (e: Event<I, N>)
        ensures
            e == self.event::<N>(),
            e.source() == Source::Input,
    {
        match self.key {
            Some(key) => Event::KeyInput(key, self.raw),
            None => Event::MouseInput(self.raw),
        }
    }
}

impl<I, N> Event<I, N> {
    /// The source that produces this kind of event.
    pub open spec fn source(self) -> Source {
        match self {
            Event::KeyInput(_, _) => Source::Input,
            Event::MouseInput(_) => Source::Input,
            Event::BackendNotification(_) => Source::Notification,
            Event::ForegroundTick => Source::ForegroundTimer,
            Event::BackgroundTick => Source::BackgroundTimer,
        }
    }

    /// Whether the event is the interrupt chord.
    pub open spec fn is_interrupt(self) -> bool {
        self matches Event::KeyInput(key, _) && key.is_interrupt()
    }

    /// The source that produces this kind of event.
    pub fn origin(&self) -> (s: Source)
        ensures
            s == self.source(),
    {
        match self {
            Event::KeyInput(_, _) => Source::Input,
            Event::MouseInput(_) => Source::Input,
            Event::BackendNotification(_) => Source::Notification,
            Event::ForegroundTick => Source::ForegroundTimer,
            Event::BackgroundTick => Source::BackgroundTimer,
        }
    }

    /// Whether the event is the interrupt chord. Only a key event can be.
    pub fn interrupts(&self) -> (quit: bool)
        ensures
            quit == self.is_interrupt(),
    {
        match self {
            Event::KeyInput(key, _) => key.interrupts(),
            _ => false,
        }
    }
}

} // verus!
