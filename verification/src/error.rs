//! The closed set of failure kinds reported to the host runtime, and the
//! location-tagged diagnostic code helper.

use vstd::prelude::*;

verus! {

/// Every failure the oracle core can report. Each variant maps to a stable
/// small-integer code (see [`PythError::code`]) that the host runtime carries
/// on its generic error channel.
#[derive(Copy, Clone, Debug, PartialEq, Eq, Structural)]
pub enum PythError {
    /// The instruction is recognized but not implemented.
    NotImplemented,
    /// The instruction data or an account buffer could not be decoded.
    CouldNotDecodeInstruction,
    /// The opcode byte does not name any defined instruction.
    InvalidInstructionId,
    /// The account list does not match what the instruction demands.
    InvalidAccount,
    /// A request was made in a state that does not allow it.
    InvalidRequestStatus,
    /// Account seeds failed validation.
    InvalidSeeds,
}

/// The stable integer code of an error variant, in declaration order.
pub open spec fn spec_error_code(e: PythError) -> u32 {
    match e {
        PythError::NotImplemented => 0,
        PythError::CouldNotDecodeInstruction => 1,
        PythError::InvalidInstructionId => 2,
        PythError::InvalidAccount => 3,
        PythError::InvalidRequestStatus => 4,
        PythError::InvalidSeeds => 5,
    }
}

impl PythError {
    /// The small-integer code exposed to the host runtime's error channel.
    pub fn code(&self) -> (r: u32)
        ensures
            r == spec_error_code(*self),
    {
        match self {
            PythError::NotImplemented => 0,
            PythError::CouldNotDecodeInstruction => 1,
            PythError::InvalidInstructionId => 2,
            PythError::InvalidAccount => 3,
            PythError::InvalidRequestStatus => 4,
            PythError::InvalidSeeds => 5,
        }
    }
}

/// Encodes a source-location hint into a 32-bit diagnostic code: the line
/// counter in the low three bytes and a small file identifier in the high
/// byte. Lets a handler surface where a precondition failed without a
/// heap-allocated message.
pub fn err_at(line: u32, file_id: u8) -> (r: u32)
    requires
        line < 0x1000000,
    ensures
        r == line + (file_id as int) * 0x1000000,
{
    proof {
        assert(line < 0x1000000 ==> line + ((file_id as u32) << 24) == line + (file_id as int)
            * 0x1000000 <= u32::MAX) by (bit_vector);
    }
    line + ((file_id as u32) << 24)
}

} // verus!
