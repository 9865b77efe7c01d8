//! Errors a bridge call can surface to the calling script.
//!
//! Every failure of a bridge entry point is reported as one of these values;
//! the embedding turns it into a catchable script-level error.  No failure
//! panics the host process.

use vstd::prelude::*;

verus! {

/// Why a bridge call failed.
#[derive(Debug, Clone, Copy, PartialEq, Eq, Structural)]
pub enum BridgeError {
    /// The requested window `[offset, offset + length)` does not lie inside
    /// the supplied buffer (including the case where the sum overflows).
    OutOfBounds,
    /// A native entry point was handed the wrong number of arguments;
    /// carries the count actually received.
    ArgumentCount { received: usize },
    /// An argument did not carry the script value kind the entry point
    /// expects (for example a string where a byte buffer is needed).
    WrongType,
    /// The request body is not a JSON object with a string `method` field.
    Decode,
}

impl BridgeError {
    /// A fixed description of the failure, for the script-level error value.
    pub fn message(&self) -> (r: &'static str)
        ensures
            r@ == self.spec_message(),
    {
        match self {
            BridgeError::OutOfBounds => "buffer offset and length are out of bounds",
            BridgeError::ArgumentCount { .. } => "wrong number of arguments",
            BridgeError::WrongType => "argument has the wrong type",
            BridgeError::Decode => "request body is not a valid request object",
        }
    }

    /// The text `message` returns for each variant.
    pub open spec fn spec_message(self) -> Seq<char> {
        match self {
            BridgeError::OutOfBounds => "buffer offset and length are out of bounds"@,
            BridgeError::ArgumentCount { .. } => "wrong number of arguments"@,
            BridgeError::WrongType => "argument has the wrong type"@,
            BridgeError::Decode => "request body is not a valid request object"@,
        }
    }
}

} // verus!
