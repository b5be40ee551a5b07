//! Model-View-Update message bound.
//!
//! Messages describe what happened (a button was clicked); the update step
//! maps a state and a message to the next state.

use vstd::prelude::*;

verus! {

/// Everything the runtime needs of an application's message type: it can
/// be cloned, printed for debugging and sent between threads.
pub trait FsMessage: Clone + std::fmt::Debug + Send + 'static {

}

impl<M> FsMessage for M where M: Clone + std::fmt::Debug + Send + 'static {

}

} // verus!
