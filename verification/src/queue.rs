//! Notifications the popup pushes into the host's outgoing event queue.
//!
//! The queue is owned by the host and shared among its components; the popup
//! only ever appends to it. The event handler therefore takes the queue as a
//! mutable vector, and its contract describes exactly the suffix appended by
//! one call, in order.

use vstd::prelude::*;

verus! {

/// One notification to the host. The context type `C` is opaque to the
/// popup: whatever the caller supplied at `open` is forwarded verbatim.
#[derive(Debug, PartialEq, Eq)]
pub enum InternalEvent<C> {
    /// The user confirmed a jump to the given line number, carrying back the
    /// context recorded when the popup was opened.
    GotoLine(usize, Option<C>),
    /// The popup asks the host to pop it off the active overlay stack.
    PopupStackPop,
}

} // verus!
