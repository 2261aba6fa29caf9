//! The result a component reports for each input event it is offered.

use vstd::prelude::*;

verus! {

/// Whether a component consumed an input event or lets it pass on to the
/// host's other handlers.
#[derive(Clone, Copy, Debug, PartialEq, Eq, Structural)]
pub enum EventState {
    Consumed,
    NotConsumed,
}

} // verus!
