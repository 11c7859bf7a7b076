//! The decision kernel of a terminal chat client.
//!
//! The client stays attached to a chat backend and serves three kinds of
//! activity: what the user types and clicks, what the backend pushes, and
//! what two timers ask for. This library decides in which order they are
//! served, when the screen is redrawn, and how the terminal is handed back
//! when the session ends. It performs no input or output itself: the
//! program around it carries out each action and reports the result.
//!
//! - [`input`], [`event`]: what the scheduler reads of an event, and the
//!   order of service among the sources.
//! - [`intake`]: the events that are ready, one place per source.
//! - [`timer`]: fixed-rate timers that drop missed ticks.
//! - [`gate`]: the flag that coalesces redraws.
//! - [`session`]: the record of the terminal's display mode.
//! - [`channel`]: the bounded queue of notifications.
//! - [`protocol`], [`scheduler`]: actions, observations and the step
//!   function.
//! - [`run`]: what holds of every run.
//! - [`error`]: the kinds of failure.
//! - [`theme`]: the colours of the interface.

pub mod channel;
pub mod error;
pub mod event;
pub mod gate;
pub mod input;
pub mod intake;
pub mod protocol;
pub mod run;
pub mod scheduler;
pub mod session;
pub mod theme;
pub mod timer;
