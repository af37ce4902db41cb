//! The instruction codec: the enumerated opcode space, one payload record
//! per opcode, and the two top-level instruction builders.
//!
//! The publish payload is the 8-byte revision, carrying the price alone; an
//! earlier 12-byte revision that also carried an exponent is not
//! wire-compatible and is not supported.

use crate::error::PythError;
use crate::pack::{PythInstruction, PythPack};
use crate::state::AccKey;
use crate::wire::{
    lemma_auto_i64_le_bytes, read_i64_le, spec_i64_from_le, spec_i64_le_bytes,
    write_i64_le,
};
use vstd::prelude::*;

verus! {

/// The ordered, zero-based opcode space. Byte 0 of every instruction's data
/// buffer holds one of these tags.
#[derive(Copy, Clone, Debug, PartialEq, Eq, Structural)]
pub enum PythInstructionId {
    CreatePriceAccount,
    CreateProductAccount,
    CreateMappingAccount,
    PublishPrice,
}

/// The opcode byte of an instruction id, in declaration order.
pub open spec fn spec_instruction_id_u8(id: PythInstructionId) -> u8 {
    match id {
        PythInstructionId::CreatePriceAccount => 0,
        PythInstructionId::CreateProductAccount => 1,
        PythInstructionId::CreateMappingAccount => 2,
        PythInstructionId::PublishPrice => 3,
    }
}

/// The instruction id named by an opcode byte, if any.
pub open spec fn spec_instruction_id_from_u8(tag: u8) -> Option<PythInstructionId> {
    if tag == 0 {
        Some(PythInstructionId::CreatePriceAccount)
    } else if tag == 1 {
        Some(PythInstructionId::CreateProductAccount)
    } else if tag == 2 {
        Some(PythInstructionId::CreateMappingAccount)
    } else if tag == 3 {
        Some(PythInstructionId::PublishPrice)
    } else {
        None
    }
}

/// The opcode byte of an instruction id, as an executable value.
pub fn instruction_id_to_u8(id: PythInstructionId) -> (r: u8)
    ensures
        r == spec_instruction_id_u8(id),
{
    match id {
        PythInstructionId::CreatePriceAccount => 0,
        PythInstructionId::CreateProductAccount => 1,
        PythInstructionId::CreateMappingAccount => 2,
        PythInstructionId::PublishPrice => 3,
    }
}

/// The instruction id named by an opcode byte, if any, as an executable
/// value.
pub fn instruction_id_from_u8(tag: u8) -> (r: Option<PythInstructionId>)
    ensures
        r == spec_instruction_id_from_u8(tag),
{
    if tag == 0 {
        Some(PythInstructionId::CreatePriceAccount)
    } else if tag == 1 {
        Some(PythInstructionId::CreateProductAccount)
    } else if tag == 2 {
        Some(PythInstructionId::CreateMappingAccount)
    } else if tag == 3 {
        Some(PythInstructionId::PublishPrice)
    } else {
        None
    }
}

/// The payload of the account-creation instruction for a price account: no
/// fields.
#[derive(Copy, Clone, Debug, PartialEq, Eq, Structural)]
pub struct CreatePriceAccountInstruction {}

impl PythInstruction for CreatePriceAccountInstruction {
    open spec fn spec_id() -> PythInstructionId {
        PythInstructionId::CreatePriceAccount
    }

    fn id() -> PythInstructionId {
        PythInstructionId::CreatePriceAccount
    }
}

impl PythPack for CreatePriceAccountInstruction {
    open spec fn spec_len() -> nat {
        0
    }

    open spec fn spec_pack(&self) -> Seq<u8> {
        Seq::empty()
    }

    open spec fn bytes_valid(s: Seq<u8>) -> bool {
        true
    }

    open spec fn spec_unpack(s: Seq<u8>) -> Self {
        CreatePriceAccountInstruction {  }
    }

    fn packed_len() -> usize {
        0
    }

    proof fn lemma_pack_roundtrip(&self) {
    }

    proof fn lemma_unpack_roundtrip(s: Seq<u8>) {
        assert(Self::spec_unpack(s).spec_pack() =~= s);
    }

    fn unpack_from_slice(src: &[u8]) -> (r: Result<Self, PythError>) {
        Ok(CreatePriceAccountInstruction {  })
    }

    fn pack_into_slice(&self, dst: &mut Vec<u8>, offset: usize) -> (r: Result<(), PythError>) {
        proof {
            assert(dst@.subrange(offset as int, offset as int) =~= self.spec_pack());
        }
        Ok(())
    }
}

/// The payload of the account-creation instruction for a product account:
/// no fields. The operation is reserved and currently a no-op.
#[derive(Copy, Clone, Debug, PartialEq, Eq, Structural)]
pub struct CreateProductAccountInstruction {}

impl PythInstruction for CreateProductAccountInstruction {
    open spec fn spec_id() -> PythInstructionId {
        PythInstructionId::CreateProductAccount
    }

    fn id() -> PythInstructionId {
        PythInstructionId::CreateProductAccount
    }
}

impl PythPack for CreateProductAccountInstruction {
    open spec fn spec_len() -> nat {
        0
    }

    open spec fn spec_pack(&self) -> Seq<u8> {
        Seq::empty()
    }

    open spec fn bytes_valid(s: Seq<u8>) -> bool {
        true
    }

    open spec fn spec_unpack(s: Seq<u8>) -> Self {
        CreateProductAccountInstruction {  }
    }

    fn packed_len() -> usize {
        0
    }

    proof fn lemma_pack_roundtrip(&self) {
    }

    proof fn lemma_unpack_roundtrip(s: Seq<u8>) {
        assert(Self::spec_unpack(s).spec_pack() =~= s);
    }

    fn unpack_from_slice(src: &[u8]) -> (r: Result<Self, PythError>) {
        Ok(CreateProductAccountInstruction {  })
    }

    fn pack_into_slice(&self, dst: &mut Vec<u8>, offset: usize) -> (r: Result<(), PythError>) {
        proof {
            assert(dst@.subrange(offset as int, offset as int) =~= self.spec_pack());
        }
        Ok(())
    }
}

/// The payload of the account-creation instruction for a mapping account:
/// no fields. The operation is reserved and currently a no-op.
#[derive(Copy, Clone, Debug, PartialEq, Eq, Structural)]
pub struct CreateMappingAccountInstruction {}

impl PythInstruction for CreateMappingAccountInstruction {
    open spec fn spec_id() -> PythInstructionId {
        PythInstructionId::CreateMappingAccount
    }

    fn id() -> PythInstructionId {
        PythInstructionId::CreateMappingAccount
    }
}

impl PythPack for CreateMappingAccountInstruction {
    open spec fn spec_len() -> nat {
        0
    }

    open spec fn spec_pack(&self) -> Seq<u8> {
        Seq::empty()
    }

    open spec fn bytes_valid(s: Seq<u8>) -> bool {
        true
    }

    open spec fn spec_unpack(s: Seq<u8>) -> Self {
        CreateMappingAccountInstruction {  }
    }

    fn packed_len() -> usize {
        0
    }

    proof fn lemma_pack_roundtrip(&self) {
    }

    proof fn lemma_unpack_roundtrip(s: Seq<u8>) {
        assert(Self::spec_unpack(s).spec_pack() =~= s);
    }

    fn unpack_from_slice(src: &[u8]) -> (r: Result<Self, PythError>) {
        Ok(CreateMappingAccountInstruction {  })
    }

    fn pack_into_slice(&self, dst: &mut Vec<u8>, offset: usize) -> (r: Result<(), PythError>) {
        proof {
            assert(dst@.subrange(offset as int, offset as int) =~= self.spec_pack());
        }
        Ok(())
    }
}

/// The payload of the price-publish instruction: the new aggregate price,
/// as a little-endian signed 64-bit value. 8 bytes.
#[derive(Copy, Clone, Debug, PartialEq, Eq, Structural)]
pub struct PublishPriceInstruction {
    pub price: i64,
}

impl PythInstruction for PublishPriceInstruction {
    open spec fn spec_id() -> PythInstructionId {
        PythInstructionId::PublishPrice
    }

    fn id() -> PythInstructionId {
        PythInstructionId::PublishPrice
    }
}

impl PythPack for PublishPriceInstruction {
    open spec fn spec_len() -> nat {
        8
    }

    open spec fn spec_pack(&self) -> Seq<u8> {
        spec_i64_le_bytes(self.price)
    }

    open spec fn bytes_valid(s: Seq<u8>) -> bool {
        true
    }

    open spec fn spec_unpack(s: Seq<u8>) -> Self {
        PublishPriceInstruction { price: spec_i64_from_le(s) }
    }

    fn packed_len() -> usize {
        8
    }

    proof fn lemma_pack_roundtrip(&self) {
        lemma_auto_i64_le_bytes();
    }

    proof fn lemma_unpack_roundtrip(s: Seq<u8>) {
        lemma_auto_i64_le_bytes();
    }

    fn unpack_from_slice(src: &[u8]) -> (r: Result<Self, PythError>) {
        let src_len = src.len();
        if src_len < 8 {
            return Err(PythError::CouldNotDecodeInstruction);
        }
        let price = read_i64_le(src, 0);
        proof {
            assert(src@.take(8) =~= src@.subrange(0, 8));
        }
        Ok(PublishPriceInstruction { price })
    }

    fn pack_into_slice(&self, dst: &mut Vec<u8>, offset: usize) -> (r: Result<(), PythError>) {
        write_i64_le(dst, offset, self.price);
        Ok(())
    }
}

/// One entry of an instruction's ordered account-reference list: the
/// account's key, whether it must sign, and whether it is written.
#[derive(Copy, Clone, Debug, PartialEq, Eq)]
pub struct AccountMeta {
    pub pubkey: AccKey,
    pub is_signer: bool,
    pub is_writable: bool,
}

/// A ready-to-submit instruction: the program to invoke, the ordered
/// account-reference list (resolved by the host by position), and the
/// encoded instruction data.
#[derive(Clone, Debug, PartialEq, Eq)]
pub struct Instruction {
    pub program_id: AccKey,
    pub accounts: Vec<AccountMeta>,
    pub data: Vec<u8>,
}

/// Builds the account-creation instruction for a price account: the funding
/// account signs read-only, the target account is written.
pub fn create_price_acc(program_id: &AccKey, payer: &AccKey, acct_pkey: &AccKey) -> (r: Result<
    Instruction,
    PythError,
>)
    ensures
        r is Ok,
        r->Ok_0.program_id == *program_id,
        r->Ok_0.data@ == seq![
            spec_instruction_id_u8(PythInstructionId::CreatePriceAccount),
        ],
        r->Ok_0.accounts@ == seq![
            AccountMeta { pubkey: *payer, is_signer: true, is_writable: false },
            AccountMeta { pubkey: *acct_pkey, is_signer: false, is_writable: true },
        ],
{
    let data = match (CreatePriceAccountInstruction {  }).pack_instruction_into_vec() {
        Ok(d) => d,
        Err(e) => {
            return Err(e);
        },
    };
    proof {
        assert(data@ =~= seq![spec_instruction_id_u8(PythInstructionId::CreatePriceAccount)]);
    }
    let mut accounts: Vec<AccountMeta> = Vec::new();
    accounts.push(AccountMeta { pubkey: *payer, is_signer: true, is_writable: false });
    accounts.push(AccountMeta { pubkey: *acct_pkey, is_signer: false, is_writable: true });
    proof {
        assert(accounts@ =~= seq![
            AccountMeta { pubkey: *payer, is_signer: true, is_writable: false },
            AccountMeta { pubkey: *acct_pkey, is_signer: false, is_writable: true },
        ]);
    }
    Ok(Instruction { program_id: *program_id, accounts, data })
}

/// Builds the price-publish instruction carrying `price`: the publisher
/// signs read-only, the target price account is written.
pub fn publish_price(program_id: &AccKey, payer: &AccKey, acct_pkey: &AccKey, price: i64) -> (r:
    Result<Instruction, PythError>)
    ensures
        r is Ok,
        r->Ok_0.program_id == *program_id,
        r->Ok_0.data@ == seq![spec_instruction_id_u8(PythInstructionId::PublishPrice)]
            + spec_i64_le_bytes(price),
        r->Ok_0.accounts@ == seq![
            AccountMeta { pubkey: *payer, is_signer: true, is_writable: false },
            AccountMeta { pubkey: *acct_pkey, is_signer: false, is_writable: true },
        ],
{
    let data = match (PublishPriceInstruction { price }).pack_instruction_into_vec() {
        Ok(d) => d,
        Err(e) => {
            return Err(e);
        },
    };
    let mut accounts: Vec<AccountMeta> = Vec::new();
    accounts.push(AccountMeta { pubkey: *payer, is_signer: true, is_writable: false });
    accounts.push(AccountMeta { pubkey: *acct_pkey, is_signer: false, is_writable: true });
    proof {
        assert(accounts@ =~= seq![
            AccountMeta { pubkey: *payer, is_signer: true, is_writable: false },
            AccountMeta { pubkey: *acct_pkey, is_signer: false, is_writable: true },
        ]);
    }
    Ok(Instruction { program_id: *program_id, accounts, data })
}

} // verus!
