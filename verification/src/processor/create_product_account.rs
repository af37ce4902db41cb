//! The account-creation handler for product accounts. The opcode is part of
//! the accepted instruction space, but the product subsystem is not
//! exercised by this core: the operation is a no-op.

use crate::error::PythError;
use crate::instruction::CreateProductAccountInstruction;
use vstd::prelude::*;

verus! {

/// Handles account creation for a product account: accepts the instruction
/// and changes nothing.
pub fn handle(instr: &CreateProductAccountInstruction) -> (r: Result<(), PythError>)
    ensures
        r is Ok,
{
    Ok(())
}

} // verus!
