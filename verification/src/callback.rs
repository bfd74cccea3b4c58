//! The callback table and the invocations one poll decides on.
//!
//! The host registers raw callables at the outer boundary; the session only
//! needs to know which slots are filled. Each poll turns the events it drains
//! into a list of invocations for the boundary layer to perform, so dispatch
//! stays a closed, checkable decision.

use vstd::prelude::*;

verus! {

/// Which callback slots the host has filled, one per event kind. An empty
/// slot silently drops its event.
#[derive(Clone, Copy, PartialEq, Eq, Structural, Debug)]
pub struct Callbacks {
    pub on_open: bool,
    pub on_close: bool,
    pub on_message: bool,
    pub on_error: bool,
    pub on_pong: bool,
}

/// The callback table of a fresh session: every slot empty.
pub open spec fn no_callbacks() -> Callbacks {
    Callbacks {
        on_open: false,
        on_close: false,
        on_message: false,
        on_error: false,
        on_pong: false,
    }
}

impl Default for Callbacks {
    fn default() -> (c: Callbacks)
        ensures
            c == no_callbacks(),
    {
        Callbacks {
            on_open: false,
            on_close: false,
            on_message: false,
            on_error: false,
            on_pong: false,
        }
    }
}

/// One callback invocation a poll asks the boundary layer to perform, with
/// the data it carries.
#[derive(PartialEq, Eq, Debug)]
pub enum CallbackCall {
    Open,
    Close,
    Message { data: Vec<u8>, opcode: i32 },
    Pong { data: Vec<u8> },
    Error { message: String },
}

} // verus!
