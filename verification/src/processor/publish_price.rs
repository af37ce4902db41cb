//! The price-publish handler: decodes the full price record from the
//! target account buffer, overwrites the aggregate price with the
//! instruction's value and the aggregate publish slot with the host's
//! current slot, and re-encodes the record. Every other field round-trips
//! byte-identically.

use crate::error::PythError;
use crate::instruction::PublishPriceInstruction;
use crate::pack::PythPack;
use crate::state::{
    lemma_price_info_pack_subranges, lemma_price_pack_subranges, Price, PriceInfo,
};
use crate::wire::{
    lemma_auto_i64_le_bytes, lemma_auto_u64_le_bytes, spec_i64_from_le, spec_i64_le_bytes,
    spec_u64_from_le, spec_u64_le_bytes,
};
use vstd::prelude::*;

verus! {

/// The byte image of a valid 240-byte price record after publishing
/// `price` at `slot`: the record decoded from `s`, with its aggregate
/// price and aggregate publish slot replaced, re-encoded.
pub open spec fn spec_published(s: Seq<u8>, price: i64, slot: u64) -> Seq<u8> {
    let p = Price::spec_unpack(s);
    let q = Price { agg: PriceInfo { price: price, pub_slot: slot, ..p.agg }, ..p };
    q.spec_pack()
}

/// Publishing changes exactly two fields: the published image equals the
/// old bytes with the aggregate price bytes and the aggregate publish-slot
/// bytes replaced, and nothing else.
#[verifier::rlimit(100)]
pub proof fn lemma_published_changes_exactly(s: Seq<u8>, price: i64, slot: u64)
    requires
        s.len() == 240,
        Price::bytes_valid(s),
    ensures
        spec_published(s, price, slot) == s.subrange(0, 208) + spec_i64_le_bytes(price)
            + s.subrange(216, 232) + spec_u64_le_bytes(slot),
        spec_published(s, price, slot).len() == 240,
        spec_i64_from_le(spec_published(s, price, slot).subrange(208, 216)) == price,
        spec_u64_from_le(spec_published(s, price, slot).subrange(232, 240)) == slot,
        forall|i: int|
            0 <= i < 240 && !(208 <= i < 216) && !(232 <= i < 240) ==> spec_published(
                s,
                price,
                slot,
            )[i] == s[i],
{
    lemma_auto_i64_le_bytes();
    lemma_auto_u64_le_bytes();
    let p = Price::spec_unpack(s);
    let q = Price { agg: PriceInfo { price: price, pub_slot: slot, ..p.agg }, ..p };
    Price::lemma_unpack_roundtrip(s);
    lemma_price_pack_subranges(p);
    lemma_price_pack_subranges(q);
    lemma_price_info_pack_subranges(p.agg);
    lemma_price_info_pack_subranges(q.agg);
    let bp = p.spec_pack();
    let bq = q.spec_pack();
    let pagg = p.agg.spec_pack();
    let qagg = q.agg.spec_pack();
    assert(bp == s);
    assert(bq.subrange(0, 208) =~= bp.subrange(0, 208));
    assert forall|i: int| 0 <= i < 208 implies bq[i] == s[i] by {
        assert(bq.subrange(0, 208)[i] == bq[i]);
        assert(bp.subrange(0, 208)[i] == bp[i]);
    }
    assert forall|i: int| 208 <= i < 240 implies bq[i] == qagg[i - 208] by {
        assert(bq.subrange(208, 240)[i - 208] == bq[i]);
    }
    assert forall|i: int| 208 <= i < 240 implies bp[i] == pagg[i - 208] by {
        assert(bp.subrange(208, 240)[i - 208] == bp[i]);
    }
    assert forall|i: int| 208 <= i < 216 implies bq[i] == spec_i64_le_bytes(price)[i - 208] by {
        assert(qagg.subrange(0, 8)[i - 208] == qagg[i - 208]);
    }
    assert(qagg.subrange(8, 16) == pagg.subrange(8, 16));
    assert(qagg.subrange(16, 20) == pagg.subrange(16, 20));
    assert(qagg.subrange(20, 24) == pagg.subrange(20, 24));
    assert forall|i: int| 216 <= i < 232 implies bq[i] == s[i] by {
        if i < 224 {
            assert(qagg.subrange(8, 16)[i - 216] == qagg[i - 208]);
            assert(pagg.subrange(8, 16)[i - 216] == pagg[i - 208]);
        } else if i < 228 {
            assert(qagg.subrange(16, 20)[i - 224] == qagg[i - 208]);
            assert(pagg.subrange(16, 20)[i - 224] == pagg[i - 208]);
        } else {
            assert(qagg.subrange(20, 24)[i - 228] == qagg[i - 208]);
            assert(pagg.subrange(20, 24)[i - 228] == pagg[i - 208]);
        }
    }
    assert forall|i: int| 232 <= i < 240 implies bq[i] == spec_u64_le_bytes(slot)[i - 232] by {
        assert(qagg.subrange(24, 32)[i - 232] == qagg[i - 208]);
    }
    let rhs = s.subrange(0, 208) + spec_i64_le_bytes(price) + s.subrange(216, 232)
        + spec_u64_le_bytes(slot);
    assert(bq =~= rhs);
    assert(bq.subrange(208, 216) =~= spec_i64_le_bytes(price));
    assert(bq.subrange(232, 240) =~= spec_u64_le_bytes(slot));
}

/// Handles a price publish against the target account buffer. The record
/// is fully decoded before any byte is written: a buffer that is too short
/// or does not decode is rejected untouched.
pub fn handle(instr: &PublishPriceInstruction, data: &mut Vec<u8>, slot: u64) -> (r: Result<
    (),
    PythError,
>)
    ensures
        r is Ok <==> old(data)@.len() >= 240 && Price::bytes_valid(old(data)@.take(240)),
        r is Err ==> final(data)@ == old(data)@ && r->Err_0
            == PythError::CouldNotDecodeInstruction,
        r is Ok ==> final(data)@.len() == old(data)@.len() && final(data)@.take(240)
            == spec_published(old(data)@.take(240), instr.price, slot) && final(data)@.skip(240)
            == old(data)@.skip(240),
{
    let mut price_struct = match Price::unpack_from_slice(data.as_slice()) {
        Ok(p) => p,
        Err(e) => {
            return Err(e);
        },
    };
    price_struct.agg.price = instr.price;
    price_struct.agg.pub_slot = slot;
    let r_pack = price_struct.pack_into_slice(data, 0);
    match r_pack {
        Ok(_) => {},
        Err(e) => {
            return Err(e);
        },
    }
    proof {
        assert(data@.take(240) =~= data@.subrange(0, 240));
        assert(data@.skip(240) =~= old(data)@.skip(240));
    }
    Ok(())
}

} // verus!
