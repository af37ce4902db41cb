//! The account-creation handler for mapping accounts. The opcode is part of
//! the accepted instruction space, but the mapping subsystem is not
//! exercised by this core: the operation is a no-op.

use crate::error::PythError;
use crate::instruction::CreateMappingAccountInstruction;
use vstd::prelude::*;

verus! {

/// Handles account creation for a mapping account: accepts the instruction
/// and changes nothing.
pub fn handle(instr: &CreateMappingAccountInstruction) -> (r: Result<(), PythError>)
    ensures
        r is Ok,
{
    Ok(())
}

} // verus!
