//! The dispatcher: one state transition per invocation. The host runtime
//! hands over the ordered account list named by the instruction, the
//! writable target account's byte buffer, the raw instruction data, and the
//! current slot; the dispatcher validates the account set, decodes the
//! opcode and payload, and routes to the handler. Any decode failure or
//! unrecognized opcode aborts the invocation with a typed error before a
//! single byte of account state is written.

pub mod create_mapping_account;
pub mod create_price_account;
pub mod create_product_account;
pub mod publish_price;

use crate::error::PythError;
use crate::instruction::{
    instruction_id_from_u8, spec_instruction_id_from_u8, AccountMeta,
    CreateMappingAccountInstruction, CreatePriceAccountInstruction,
    CreateProductAccountInstruction, PublishPriceInstruction, PythInstructionId,
};
use crate::pack::PythPack;
use crate::processor::create_price_account::spec_initialized_account;
use crate::processor::publish_price::spec_published;
use crate::state::Price;
use crate::wire::spec_i64_from_le;
use vstd::prelude::*;
use vstd::slice::slice_subrange;

verus! {

/// Whether the account list matches what both implemented operations
/// demand: at least the funding account and the target account, resolved by
/// position, with the funding account a signer and the target writable.
pub open spec fn spec_accounts_ok(metas: Seq<AccountMeta>) -> bool {
    &&& metas.len() >= 2
    &&& metas[0].is_signer
    &&& metas[1].is_writable
}

/// Processes one instruction against the target account buffer.
///
/// `accounts` is the instruction's ordered account-reference list as the
/// host resolved it; `account_data` is the byte buffer of the target
/// account (position 1); `slot` is the host's current slot counter. Empty
/// instruction data, a malformed account list, an opcode byte outside the
/// defined space, and a short payload each fail with their typed error and
/// leave the buffer untouched.
pub fn process(
    program_id: &crate::state::AccKey,
    accounts: &Vec<AccountMeta>,
    account_data: &mut Vec<u8>,
    instruction_data: &[u8],
    slot: u64,
) -> (r: Result<(), PythError>)
    ensures
        r is Err ==> final(account_data)@ == old(account_data)@,
        instruction_data@.len() == 0 ==> r == Err::<(), PythError>(
            PythError::CouldNotDecodeInstruction,
        ),
        instruction_data@.len() > 0 && !spec_accounts_ok(accounts@) ==> r == Err::<(), PythError>(
            PythError::InvalidAccount,
        ),
        instruction_data@.len() > 0 && spec_accounts_ok(accounts@)
            && spec_instruction_id_from_u8(instruction_data@[0]) is None ==> r == Err::<
            (),
            PythError,
        >(PythError::InvalidInstructionId),
        instruction_data@.len() > 0 && spec_accounts_ok(accounts@)
            && spec_instruction_id_from_u8(instruction_data@[0]) == Some(
            PythInstructionId::CreatePriceAccount,
        ) ==> {
            &&& r is Ok <==> old(account_data)@.len() >= 240
            &&& r is Ok ==> final(account_data)@ == spec_initialized_account(
                old(account_data)@.len(),
            )
            &&& r is Err ==> r->Err_0 == PythError::InvalidAccount
        },
        instruction_data@.len() > 0 && spec_accounts_ok(accounts@)
            && spec_instruction_id_from_u8(instruction_data@[0]) == Some(
            PythInstructionId::CreateProductAccount,
        ) ==> r is Ok && final(account_data)@ == old(account_data)@,
        instruction_data@.len() > 0 && spec_accounts_ok(accounts@)
            && spec_instruction_id_from_u8(instruction_data@[0]) == Some(
            PythInstructionId::CreateMappingAccount,
        ) ==> r is Ok && final(account_data)@ == old(account_data)@,
        instruction_data@.len() > 0 && spec_accounts_ok(accounts@)
            && spec_instruction_id_from_u8(instruction_data@[0]) == Some(
            PythInstructionId::PublishPrice,
        ) && instruction_data@.len() < 9 ==> r == Err::<(), PythError>(
            PythError::CouldNotDecodeInstruction,
        ),
        instruction_data@.len() > 0 && spec_accounts_ok(accounts@)
            && spec_instruction_id_from_u8(instruction_data@[0]) == Some(
            PythInstructionId::PublishPrice,
        ) && instruction_data@.len() >= 9 ==> {
            &&& r is Ok <==> old(account_data)@.len() >= 240 && Price::bytes_valid(
                old(account_data)@.take(240),
            )
            &&& r is Ok ==> final(account_data)@.len() == old(account_data)@.len() && final(account_data)@.take(240) == spec_published(
                old(account_data)@.take(240),
                spec_i64_from_le(instruction_data@.subrange(1, 9)),
                slot,
            ) && final(account_data)@.skip(240) == old(account_data)@.skip(240)
            &&& r is Err ==> r->Err_0 == PythError::CouldNotDecodeInstruction
        },
{
    let data_len = instruction_data.len();
    if data_len == 0 {
        return Err(PythError::CouldNotDecodeInstruction);
    }
    if accounts.len() < 2 {
        return Err(PythError::InvalidAccount);
    }
    if !accounts[0].is_signer || !accounts[1].is_writable {
        return Err(PythError::InvalidAccount);
    }
    let instruction_id = match instruction_id_from_u8(instruction_data[0]) {
        Some(id) => id,
        None => {
            return Err(PythError::InvalidInstructionId);
        },
    };
    let payload = slice_subrange(instruction_data, 1, data_len);
    proof {
        assert(payload@ =~= instruction_data@.skip(1));
    }
    match instruction_id {
        PythInstructionId::CreatePriceAccount => {
            let unpacked_instruction = match CreatePriceAccountInstruction::unpack_from_slice(
                payload,
            ) {
                Ok(ins) => ins,
                Err(e) => {
                    return Err(e);
                },
            };
            create_price_account::handle(&unpacked_instruction, account_data)
        },
        PythInstructionId::PublishPrice => {
            let unpacked_instruction = match PublishPriceInstruction::unpack_from_slice(payload) {
                Ok(ins) => ins,
                Err(e) => {
                    return Err(e);
                },
            };
            proof {
                assert(payload@.take(8) =~= instruction_data@.subrange(1, 9));
            }
            publish_price::handle(&unpacked_instruction, account_data, slot)
        },
        PythInstructionId::CreateProductAccount => {
            let unpacked_instruction = match CreateProductAccountInstruction::unpack_from_slice(
                payload,
            ) {
                Ok(ins) => ins,
                Err(e) => {
                    return Err(e);
                },
            };
            create_product_account::handle(&unpacked_instruction)
        },
        PythInstructionId::CreateMappingAccount => {
            let unpacked_instruction = match CreateMappingAccountInstruction::unpack_from_slice(
                payload,
            ) {
                Ok(ins) => ins,
                Err(e) => {
                    return Err(e);
                },
            };
            create_mapping_account::handle(&unpacked_instruction)
        },
    }
}

} // verus!
