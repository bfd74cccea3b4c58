//! Operation outcomes reported to callers.

use vstd::prelude::*;

verus! {

/// Outcome of a session operation. `Success` is the all-clear code;
/// `InvalidState` marks an operation illegal in the current lifecycle state;
/// `InvalidArgument` a malformed boundary input; `IoError` a failure to start
/// the worker runtime; `Unknown` an enqueue that failed because the worker
/// already exited.
#[derive(Clone, Copy, PartialEq, Eq, Structural, Debug)]
pub enum WsppResult {
    Success,
    InvalidState,
    InvalidArgument,
    IoError,
    ProtocolError,
    Unknown,
}

impl WsppResult {
    /// The value the foreign boundary keeps: the three public codes pass
    /// through, every extended code collapses to `Unknown`.
    pub open spec fn to_ffi_spec(self) -> WsppResult {
        match self {
            WsppResult::Success | WsppResult::InvalidState | WsppResult::InvalidArgument => self,
            _ => WsppResult::Unknown,
        }
    }

    pub fn to_ffi(self) -> (r: Self)
        ensures
            r == self.to_ffi_spec(),
    {
        match self {
            Self::Success | Self::InvalidState | Self::InvalidArgument => self,
            _ => Self::Unknown,
        }
    }
}

} // verus!
