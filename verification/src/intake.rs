//! The events that wait to be served, one place per source.

use vstd::prelude::*;
use crate::event::{Event, Source, TerminalInput};

verus! {

/// The events that are ready at one moment.
///
/// Each source has one place. A terminal event or a notification that finds
/// its place taken is handed back to the caller, so none is lost. A tick that
/// finds its place taken merges with the one that waits: a timer never has
/// more than one tick pending.
#[derive(Debug, PartialEq, Eq)]
pub struct Intake<I, N> {
    /// The terminal event that waits, if any.
    pub input: Option<TerminalInput<I>>,
    /// The notification that waits, if any.
    pub notification: Option<N>,
    /// Whether a tick of the foreground timer waits.
    pub foreground: bool,
    /// Whether a tick of the background timer waits.
    pub background: bool,
}

impl<I, N> Intake<I, N> {
    /// The event that waits in the place of `source`.
    pub open spec fn pending(self, source: Source) -> Option<Event<I, N>> {
        match source {
            Source::Input => match self.input {
                Some(input) => Some(input.event::<N>()),
                None => None,
            },
            Source::Notification => match self.notification {
                Some(payload) => Some(Event::BackendNotification(payload)),
                None => None,
            },
            Source::ForegroundTimer => if self.foreground {
                Some(Event::ForegroundTick)
            } else {
                None
            },
            Source::BackgroundTimer => if self.background {
                Some(Event::BackgroundTick)
            } else {
                None
            },
        }
    }

    /// Whether an event of `source` waits.
    pub open spec fn ready(self, source: Source) -> bool {
        self.pending(source) is Some
    }

    /// Whether nothing waits.
    pub open spec fn idle(self) -> bool {
        &&& self.input is None
        &&& self.notification is None
        &&& !self.foreground
        &&& !self.background
    }

    /// The source that is served next: the first in the order of service
    /// among those that are ready.
    pub open spec fn first(self) -> Option<Source> {
        if self.ready(Source::Input) {
            Some(Source::Input)
        } else if self.ready(Source::Notification) {
            Some(Source::Notification)
        } else if self.ready(Source::ForegroundTimer) {
            Some(Source::ForegroundTimer)
        } else if self.ready(Source::BackgroundTimer) {
            Some(Source::BackgroundTimer)
        } else {
            None
        }
    }

    /// The event that is served next.
    pub open spec fn next_event(self) -> Option<Event<I, N>> {
        match self.first() {
            Some(source) => self.pending(source),
            None => None,
        }
    }

    /// The intake with the place of `source` emptied.
    pub open spec fn without(self, source: Source) -> Self {
        match source {
            Source::Input => Intake { input: None, ..self },
            Source::Notification => Intake { notification: None, ..self },
            Source::ForegroundTimer => Intake { foreground: false, ..self },
            Source::BackgroundTimer => Intake { background: false, ..self },
        }
    }

    /// The intake once the event that is served next has left it.
    pub open spec fn rest(self) -> Self {
        match self.first() {
            Some(source) => self.without(source),
            None => self,
        }
    }

    /// The intake with a tick of each timer whose flag is set added to what
    /// waits.
    pub open spec fn with_ticks(self, foreground: bool, background: bool) -> Self {
        Intake {
            foreground: self.foreground || foreground,
            background: self.background || background,
            ..self
        }
    }

    /// An intake in which nothing waits.
    pub fn new() -> (intake: Self)
        ensures
            intake == (Intake::<I, N> {
                input: None,
                notification: None,
                foreground: false,
                background: false,
            }),
            intake.idle(),
    {
        Intake { input: None, notification: None, foreground: false, background: false }
    }

    /// Whether an event of `source` waits.
    pub fn has(&self, source: Source) -> (b: bool)
        ensures
            b == self.ready(source),
    {
        match source {
            Source::Input => self.input.is_some(),
            Source::Notification => self.notification.is_some(),
            Source::ForegroundTimer => self.foreground,
            Source::BackgroundTimer => self.background,
        }
    }

    /// Whether nothing waits.
    pub fn is_idle(&self) -> (b: bool)
        ensures
            b == self.idle(),
            b == (self.first() is None),
    {
        self.input.is_none() && self.notification.is_none() && !self.foreground
            && !self.background
    }

    /// Puts a terminal event in its place. Where one waits already the
    /// intake stays as it is and the event comes back.
    pub fn offer_input(&mut self, input: TerminalInput<I>) -> (r: Result<(), TerminalInput<I>>)
        ensures
            r is Ok <==> old(self).input is None,
            r is Ok ==> *final(self) == (Intake { input: Some(input), ..*old(self) }),
            r matches Err(back) ==> back == input && *final(self) == *old(self),
    {
        if self.input.is_some() {
            Err(input)
        } else {
            self.input = Some(input);
            Ok(())
        }
    }

    /// Puts a notification in its place. Where one waits already the intake
    /// stays as it is and the notification comes back.
    pub fn offer_notification(&mut self, payload: N) -> (r: Result<(), N>)
        ensures
            r is Ok <==> old(self).notification is None,
            r is Ok ==> *final(self) == (Intake { notification: Some(payload), ..*old(self) }),
            r matches Err(back) ==> back == payload && *final(self) == *old(self),
    {
        if self.notification.is_some() {
            Err(payload)
        } else {
            self.notification = Some(payload);
            Ok(())
        }
    }

    /// Records the ticks of the timers whose flag is set. A tick that finds
    /// one waiting merges with it.
    pub fn add_ticks(&mut self, foreground: bool, background: bool)
        ensures
            *final(self) == old(self).with_ticks(foreground, background),
    {
        if foreground {
            self.foreground = true;
        }
        if background {
            self.background = true;
        }
    }

    /// Takes out the event that is served next: of the events that wait, the
    /// one whose source is first in the order of service. The others stay.
    pub fn take_next(&mut self) -> (next: Option<Event<I, N>>)
        ensures
            next == old(self).next_event(),
            *final(self) == old(self).rest(),
            next is None <==> old(self).idle(),
            next matches Some(e) ==> {
                &&& old(self).pending(e.source()) == Some(e)
                &&& forall|other: Source| old(self).ready(other) ==> e.source().rank() <= other.rank()
                &&& !final(self).ready(e.source())
                &&& forall|other: Source| other != e.source() ==> final(self).pending(other) == old(
                    self,
                ).pending(other)
            },
    {
        if self.input.is_some() {
            let input = self.input.take().unwrap();
            Some(input.into_event())
        } else if self.notification.is_some() {
            let payload = self.notification.take().unwrap();
            Some(Event::BackendNotification(payload))
        } else if self.foreground {
            self.foreground = false;
            Some(Event::ForegroundTick)
        } else if self.background {
            self.background = false;
            Some(Event::BackgroundTick)
        } else {
            None
        }
    }

    /// The source that is served next is ready, and no ready source stands
    /// before it in the order of service; there is none exactly when nothing
    /// waits.
    pub proof fn first_is_foremost(self)
        ensures
            self.first() is None <==> self.idle(),
            self.idle() <==> forall|source: Source| !self.ready(source),
            self.first() matches Some(source) ==> {
                &&& self.ready(source)
                &&& self.pending(source) matches Some(e) && e.source() == source
                &&& forall|other: Source| self.ready(other) ==> source.rank() <= other.rank()
            },
            self.next_event() is None <==> self.idle(),
    {
        if self.idle() {
            assert forall|source: Source| !self.ready(source) by {
                match source {
                    Source::Input => {},
                    Source::Notification => {},
                    Source::ForegroundTimer => {},
                    Source::BackgroundTimer => {},
                }
            }
        } else {
            let source = self.first().unwrap();
            assert(self.ready(source));
        }
    }

    /// Input goes before everything: whatever else waits, a terminal event
    /// that waits is the one served next. Without one, a notification that
    /// waits goes before both timers, and the foreground tick before the
    /// background tick.
    pub proof fn service_order(self)
        ensures
            self.ready(Source::Input) ==> self.first() == Some(Source::Input),
            !self.ready(Source::Input) && self.ready(Source::Notification) ==> self.first() == Some(
                Source::Notification,
            ),
            !self.ready(Source::Input) && !self.ready(Source::Notification) && self.ready(
                Source::ForegroundTimer,
            ) ==> self.first() == Some(Source::ForegroundTimer),
    {
    }

    /// Taking the next event out empties its place and no other.
    pub proof fn rest_keeps_the_others(self)
        ensures
            self.first() matches Some(source) ==> {
                &&& !self.rest().ready(source)
                &&& forall|other: Source|
                    other != source ==> self.rest().pending(other) == self.pending(other)
            },
            self.first() is None ==> self.rest() == self,
    {
    }
}

} // verus!
