//! The account-creation handler for price accounts: initializes the header
//! and the aggregate price record of a target account buffer and zeroes
//! everything else, up to the allocated account size.

use crate::error::PythError;
use crate::instruction::CreatePriceAccountInstruction;
use crate::pack::PythPack;
use crate::state::{
    account_type_u32, lemma_price_info_pack_subranges, spec_account_type_u32,
    spec_price_status_u32, AccountType, CorpAction, Price, PriceInfo, PriceStatus, MAGIC,
    VERSION_2,
};
use crate::wire::{
    lemma_auto_u32_le_bytes, lemma_u32_from_le_zero, spec_u32_from_le, spec_u32_le_bytes,
    write_u32_le, write_zeros,
};
use vstd::prelude::*;

verus! {

/// The aggregate price record written by account creation: price zero, the
/// fixed default confidence of 100, trading status, no corporate action,
/// publish slot zero.
pub open spec fn spec_initial_aggregate() -> PriceInfo {
    PriceInfo {
        price: 0,
        conf: 100,
        status: PriceStatus::Trading,
        corp_act: CorpAction::NoCorpAct,
        pub_slot: 0,
    }
}

/// The aggregate price record written by account creation, as an
/// executable value.
pub fn initial_aggregate() -> (r: PriceInfo)
    ensures
        r == spec_initial_aggregate(),
{
    PriceInfo {
        price: 0,
        conf: 100,
        status: PriceStatus::Trading,
        corp_act: CorpAction::NoCorpAct,
        pub_slot: 0,
    }
}

/// The full content of a freshly initialized price account buffer of `n`
/// bytes (`n >= 240`): the magic number, the format version and the price
/// account-type tag in the first twelve bytes, the initial aggregate record
/// at its fixed offset, and zero everywhere else.
pub open spec fn spec_initialized_account(n: nat) -> Seq<u8> {
    spec_u32_le_bytes(MAGIC) + spec_u32_le_bytes(VERSION_2) + spec_u32_le_bytes(
        spec_account_type_u32(AccountType::Price),
    ) + Seq::new(196, |i: int| 0u8) + spec_initial_aggregate().spec_pack() + Seq::new(
        (n - 240) as nat,
        |i: int| 0u8,
    )
}

/// Handles account creation for a price account. The whole target buffer is
/// rewritten: the result does not depend on the buffer's prior content, so
/// repeating the operation yields the same account bytes. A buffer shorter
/// than the logical record is rejected untouched.
pub fn handle(instr: &CreatePriceAccountInstruction, data: &mut Vec<u8>) -> (r: Result<
    (),
    PythError,
>)
    ensures
        r is Ok <==> old(data)@.len() >= 240,
        r is Err ==> final(data)@ == old(data)@ && r->Err_0 == PythError::InvalidAccount,
        r is Ok ==> final(data)@ == spec_initialized_account(old(data)@.len()),
{
    let n = data.len();
    if n < 240 {
        return Err(PythError::InvalidAccount);
    }
    write_u32_le(data, 0, MAGIC);
    write_u32_le(data, 4, VERSION_2);
    write_u32_le(data, 8, account_type_u32(AccountType::Price));
    write_zeros(data, 12, 208);
    let agg = initial_aggregate();
    let r_agg = agg.pack_into_slice(data, 208);
    match r_agg {
        Ok(_) => {},
        Err(e) => {
            return Err(e);
        },
    }
    write_zeros(data, 240, n);
    proof {
        lemma_auto_u32_le_bytes();
        lemma_price_info_pack_subranges(spec_initial_aggregate());
        assert(data@ =~= spec_initialized_account(old(data)@.len()));
    }
    Ok(())
}

/// What account creation guarantees of the initialized buffer, read back
/// through the codec: the magic number, version and price account-type tag
/// are in place, the 240-byte record decodes, its aggregate price is zero
/// with trading status, and every byte beyond the logical record is zero.
pub proof fn lemma_initialized_account_fields(n: nat)
    requires
        n >= 240,
    ensures
        spec_initialized_account(n).len() == n,
        spec_u32_from_le(spec_initialized_account(n).subrange(0, 4)) == MAGIC,
        spec_u32_from_le(spec_initialized_account(n).subrange(4, 8)) == VERSION_2,
        spec_u32_from_le(spec_initialized_account(n).subrange(8, 12))
            == spec_account_type_u32(AccountType::Price),
        Price::bytes_valid(spec_initialized_account(n).take(240)),
        Price::spec_unpack(spec_initialized_account(n).take(240)).agg == spec_initial_aggregate(),
        Price::spec_unpack(spec_initialized_account(n).take(240)).agg.price == 0,
        Price::spec_unpack(spec_initialized_account(n).take(240)).agg.status
            == PriceStatus::Trading,
        forall|i: int| 240 <= i < n ==> spec_initialized_account(n)[i] == 0u8,
{
    lemma_auto_u32_le_bytes();
    lemma_price_info_pack_subranges(spec_initial_aggregate());
    spec_initial_aggregate().lemma_pack_roundtrip();
    let b = spec_initialized_account(n);
    assert(b.subrange(0, 4) =~= spec_u32_le_bytes(MAGIC));
    assert(b.subrange(4, 8) =~= spec_u32_le_bytes(VERSION_2));
    assert(b.subrange(8, 12) =~= spec_u32_le_bytes(spec_account_type_u32(AccountType::Price)));
    assert(b.take(240).subrange(16, 20) =~= b.subrange(16, 20));
    lemma_u32_from_le_zero(b.subrange(16, 20));
    assert(b.take(240).subrange(208, 240) =~= spec_initial_aggregate().spec_pack());
}

} // verus!
