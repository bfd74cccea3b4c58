//! A host-driven WebSocket session: a lifecycle state machine polled from a
//! single thread, bridged to a dedicated transport worker by a pair of
//! one-directional message queues.

pub mod bridge;
pub mod callback;
pub mod logging;
pub mod result;
pub mod session;
pub mod state;
pub mod worker;

use vstd::prelude::*;

use crate::result::WsppResult;

verus! {

/// Collapses either branch of an operation outcome to the value handed across
/// the foreign boundary.
pub fn ffi_result(res: Result<WsppResult, WsppResult>) -> (r: WsppResult)
    ensures
        r == match res {
            Ok(v) => v.to_ffi_spec(),
            Err(v) => v.to_ffi_spec(),
        },
{
    match res {
        Ok(v) => v.to_ffi(),
        Err(v) => v.to_ffi(),
    }
}

} // verus!
