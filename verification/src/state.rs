//! Lifecycle states of one connection attempt.

use vstd::prelude::*;

verus! {

/// Lifecycle of a session. `Closed` is terminal: no operation leaves it short
/// of constructing a fresh session.
#[derive(Clone, Copy, PartialEq, Eq, Structural, Debug)]
pub enum WsState {
    New,
    Connecting,
    Connected,
    Closing,
    Closed,
    Unknown,
}

/// States in which a worker and its channel handles may exist.
pub open spec fn is_active_state(s: WsState) -> bool {
    s is Connecting || s is Connected || s is Closing
}

} // verus!
