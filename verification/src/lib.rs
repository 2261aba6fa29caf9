//! A "go to line" popup: a modal overlay for a terminal application in which
//! the user types a line number and confirms to ask the host to jump there.
//!
//! The widget is a small state machine: hidden or visible, with a bounded
//! buffer of ASCII digits and an opaque context recorded when it is opened.
//! Key events drive the machine while it is visible; confirming emits a
//! navigation request followed by a close notification into an outgoing
//! event queue.

pub mod components;
pub mod digits;
pub mod keys;
pub mod popup;
pub mod queue;
pub mod ui;
