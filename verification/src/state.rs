//! The account layouts: the record types stored in oracle account buffers,
//! with their exact little-endian byte offsets, and their codec
//! implementations.

use crate::error::PythError;
use crate::pack::PythPack;
use crate::wire::{
    lemma_auto_i32_le_bytes, lemma_auto_i64_le_bytes, lemma_auto_u32_le_bytes,
    lemma_auto_u64_le_bytes, lemma_concat_parts, lemma_subrange_of_subrange,
    lemma_subrange_split, read_i32_le, read_i64_le, read_u32_le, read_u64_le, spec_i32_from_le,
    spec_i32_le_bytes, spec_i64_from_le, spec_i64_le_bytes, spec_u32_from_le, spec_u32_le_bytes,
    spec_u64_from_le, spec_u64_le_bytes, write_bytes, write_i32_le, write_i64_le, write_u32_le,
    write_u64_le,
};
use vstd::array::{spec_array_fill_for_copy_type, spec_array_update};
use vstd::prelude::*;

verus! {

/// The magic number stored in the first four bytes of every oracle account.
pub const MAGIC: u32 = 0xa1b2c3d4;

/// The account format version written by account creation.
pub const VERSION_2: u32 = 2;

/// What an oracle account holds, stored as a 4-byte tag.
#[derive(Copy, Clone, Debug, PartialEq, Eq, Structural)]
pub enum AccountType {
    Unknown,
    Mapping,
    Product,
    Price,
}

/// The 4-byte tag of an account type, in declaration order.
pub open spec fn spec_account_type_u32(t: AccountType) -> u32 {
    match t {
        AccountType::Unknown => 0,
        AccountType::Mapping => 1,
        AccountType::Product => 2,
        AccountType::Price => 3,
    }
}

/// The 4-byte tag of an account type, as an executable value.
pub fn account_type_u32(t: AccountType) -> (r: u32)
    ensures
        r == spec_account_type_u32(t),
{
    match t {
        AccountType::Unknown => 0,
        AccountType::Mapping => 1,
        AccountType::Product => 2,
        AccountType::Price => 3,
    }
}

/// Whether a price feed is currently usable, stored as a 4-byte tag.
#[derive(Copy, Clone, Debug, PartialEq, Eq, Structural)]
pub enum PriceStatus {
    /// The price feed is not currently updating for an unknown reason.
    Unknown,
    /// The price feed is updating as expected.
    Trading,
    /// Trading in the product has been halted.
    Halted,
    /// An auction is setting the price.
    Auction,
}

/// The 4-byte tag of a price status, in declaration order.
pub open spec fn spec_price_status_u32(s: PriceStatus) -> u32 {
    match s {
        PriceStatus::Unknown => 0,
        PriceStatus::Trading => 1,
        PriceStatus::Halted => 2,
        PriceStatus::Auction => 3,
    }
}

/// The price status named by `tag`, if any.
pub open spec fn spec_price_status_from_u32(tag: u32) -> Option<PriceStatus> {
    if tag == 0 {
        Some(PriceStatus::Unknown)
    } else if tag == 1 {
        Some(PriceStatus::Trading)
    } else if tag == 2 {
        Some(PriceStatus::Halted)
    } else if tag == 3 {
        Some(PriceStatus::Auction)
    } else {
        None
    }
}

/// The 4-byte tag of a price status, as an executable value.
pub fn price_status_u32(s: PriceStatus) -> (r: u32)
    ensures
        r == spec_price_status_u32(s),
{
    match s {
        PriceStatus::Unknown => 0,
        PriceStatus::Trading => 1,
        PriceStatus::Halted => 2,
        PriceStatus::Auction => 3,
    }
}

/// The price status named by `tag`, if any, as an executable value.
pub fn price_status_from_u32(tag: u32) -> (r: Option<PriceStatus>)
    ensures
        r == spec_price_status_from_u32(tag),
{
    if tag == 0 {
        Some(PriceStatus::Unknown)
    } else if tag == 1 {
        Some(PriceStatus::Trading)
    } else if tag == 2 {
        Some(PriceStatus::Halted)
    } else if tag == 3 {
        Some(PriceStatus::Auction)
    } else {
        None
    }
}

/// Notification of a corporate action, stored as a 4-byte tag.
#[derive(Copy, Clone, Debug, PartialEq, Eq, Structural)]
pub enum CorpAction {
    NoCorpAct,
}

/// The 4-byte tag of a corporate action.
pub open spec fn spec_corp_action_u32(c: CorpAction) -> u32 {
    match c {
        CorpAction::NoCorpAct => 0,
    }
}

/// The corporate action named by `tag`, if any.
pub open spec fn spec_corp_action_from_u32(tag: u32) -> Option<CorpAction> {
    if tag == 0 {
        Some(CorpAction::NoCorpAct)
    } else {
        None
    }
}

/// The 4-byte tag of a corporate action, as an executable value.
pub fn corp_action_u32(c: CorpAction) -> (r: u32)
    ensures
        r == spec_corp_action_u32(c),
{
    match c {
        CorpAction::NoCorpAct => 0,
    }
}

/// The corporate action named by `tag`, if any, as an executable value.
pub fn corp_action_from_u32(tag: u32) -> (r: Option<CorpAction>)
    ensures
        r == spec_corp_action_from_u32(tag),
{
    if tag == 0 {
        Some(CorpAction::NoCorpAct)
    } else {
        None
    }
}

/// How a price account's value is to be read, stored as a 4-byte tag.
#[derive(Copy, Clone, Debug, PartialEq, Eq, Structural)]
pub enum PriceType {
    Unknown,
    Price,
}

/// The 4-byte tag of a price type, in declaration order.
pub open spec fn spec_price_type_u32(t: PriceType) -> u32 {
    match t {
        PriceType::Unknown => 0,
        PriceType::Price => 1,
    }
}

/// The price type named by `tag`, if any.
pub open spec fn spec_price_type_from_u32(tag: u32) -> Option<PriceType> {
    if tag == 0 {
        Some(PriceType::Unknown)
    } else if tag == 1 {
        Some(PriceType::Price)
    } else {
        None
    }
}

/// The 4-byte tag of a price type, as an executable value.
pub fn price_type_u32(t: PriceType) -> (r: u32)
    ensures
        r == spec_price_type_u32(t),
{
    match t {
        PriceType::Unknown => 0,
        PriceType::Price => 1,
    }
}

/// The price type named by `tag`, if any, as an executable value.
pub fn price_type_from_u32(tag: u32) -> (r: Option<PriceType>)
    ensures
        r == spec_price_type_from_u32(tag),
{
    if tag == 0 {
        Some(PriceType::Unknown)
    } else if tag == 1 {
        Some(PriceType::Price)
    } else {
        None
    }
}

/// A 32-byte key identifying another account; opaque beyond equality.
#[derive(Copy, Clone, Debug, PartialEq, Eq)]
pub struct AccKey {
    pub val: [u8; 32],
}

/// The 32-byte array holding the first `i` of the bytes of `s`, the rest
/// zero: the specification-level construction of a key's byte array.
pub open spec fn spec_key_bytes_rec(s: Seq<u8>, i: int) -> [u8; 32]
    decreases i,
{
    if i <= 0 {
        spec_array_fill_for_copy_type(0u8)
    } else {
        spec_array_update(spec_key_bytes_rec(s, i - 1), i - 1, s[i - 1])
    }
}

/// The key whose bytes are the first 32 bytes of `s`.
pub open spec fn spec_key_from_bytes(s: Seq<u8>) -> AccKey {
    AccKey { val: spec_key_bytes_rec(s, 32) }
}

proof fn lemma_key_bytes_rec(s: Seq<u8>, i: int)
    requires
        0 <= i <= 32,
    ensures
        forall|j: int| 0 <= j < i ==> spec_key_bytes_rec(s, i)@[j] == s[j],
        forall|j: int| i <= j < 32 ==> spec_key_bytes_rec(s, i)@[j] == 0u8,
    decreases i,
{
    if i > 0 {
        lemma_key_bytes_rec(s, i - 1);
        assert(spec_key_bytes_rec(s, i - 1)@.len() == 32);
        assert(spec_key_bytes_rec(s, i)@ == spec_key_bytes_rec(s, i - 1)@.update(i - 1, s[i - 1]));
    } else {
        let a = spec_array_fill_for_copy_type::<u8, 32>(0u8);
        assert(forall|j: int| 0 <= j < 32 ==> a@[j] == 0u8);
    }
}

/// The construction is faithful: the key built from a 32-byte sequence has
/// exactly those bytes.
pub proof fn lemma_key_from_bytes_view(s: Seq<u8>)
    requires
        s.len() == 32,
    ensures
        spec_key_from_bytes(s).val@ == s,
{
    lemma_key_bytes_rec(s, 32);
    assert(spec_key_from_bytes(s).val@ =~= s);
}

/// A key survives the round trip through its 32-byte image: rebuilding a
/// key from its own bytes yields the same key.
pub proof fn lemma_key_roundtrip(k: AccKey)
    ensures
        spec_key_from_bytes(k.val@) == k,
{
    lemma_key_from_bytes_view(k.val@);
    assert(spec_key_from_bytes(k.val@).val =~= k.val);
}

/// Reads the 32-byte key stored at `offset`.
pub fn read_key(src: &[u8], offset: usize) -> (r: AccKey)
    requires
        offset + 32 <= src@.len(),
    ensures
        r == spec_key_from_bytes(src@.subrange(offset as int, offset + 32)),
        r.val@ == src@.subrange(offset as int, offset + 32),
{
    let _src_len = src.len();
    let mut val: [u8; 32] = [0u8; 32];
    let mut k: usize = 0;
    while k < 32
        invariant
            k <= 32,
            offset + 32 <= src@.len(),
            src@.len() <= usize::MAX,
            val@.len() == 32,
            forall|j: int| 0 <= j < k ==> val@[j] == src@[offset + j],
            forall|j: int| k <= j < 32 ==> val@[j] == 0u8,
        decreases 32 - k,
    {
        val[k] = src[offset + k];
        k = k + 1;
    }
    proof {
        let ghost s = src@.subrange(offset as int, offset + 32);
        lemma_key_from_bytes_view(s);
        assert(val@ =~= s);
        assert(val =~= spec_key_from_bytes(s).val);
    }
    AccKey { val }
}

/// Writes the 32 bytes of `key` at `offset`, leaving every other byte of
/// `dst` unchanged.
pub fn write_key(dst: &mut Vec<u8>, offset: usize, key: &AccKey)
    requires
        offset + 32 <= old(dst)@.len(),
    ensures
        final(dst)@.len() == old(dst)@.len(),
        final(dst)@.subrange(offset as int, offset + 32) == key.val@,
        forall|i: int|
            0 <= i < final(dst)@.len() && !(offset <= i < offset + 32) ==> final(dst)@[i] == old(dst)@[i],
{
    write_bytes(dst, offset, key.val.as_slice());
}

/// The price and its metadata published for a price account: either the
/// aggregate or a single publisher's latest contribution. 32 bytes.
#[derive(Copy, Clone, Debug, PartialEq, Eq)]
pub struct PriceInfo {
    /// The current price.
    pub price: i64,
    /// Confidence interval around the price.
    pub conf: u64,
    /// Status of the price (`Trading` is valid).
    pub status: PriceStatus,
    /// Notification of any corporate action.
    pub corp_act: CorpAction,
    /// Slot at which the price was published.
    pub pub_slot: u64,
}

impl PythPack for PriceInfo {
    open spec fn spec_len() -> nat {
        32
    }

    open spec fn spec_pack(&self) -> Seq<u8> {
        spec_i64_le_bytes(self.price) + spec_u64_le_bytes(self.conf)
            + spec_u32_le_bytes(spec_price_status_u32(self.status)) + spec_u32_le_bytes(
            spec_corp_action_u32(self.corp_act),
        ) + spec_u64_le_bytes(self.pub_slot)
    }

    open spec fn bytes_valid(s: Seq<u8>) -> bool {
        &&& spec_price_status_from_u32(spec_u32_from_le(s.subrange(16, 20))) is Some
        &&& spec_corp_action_from_u32(spec_u32_from_le(s.subrange(20, 24))) is Some
    }

    open spec fn spec_unpack(s: Seq<u8>) -> Self {
        PriceInfo {
            price: spec_i64_from_le(s.subrange(0, 8)),
            conf: spec_u64_from_le(s.subrange(8, 16)),
            status: match spec_price_status_from_u32(spec_u32_from_le(s.subrange(16, 20))) {
                Some(st) => st,
                None => PriceStatus::Unknown,
            },
            corp_act: match spec_corp_action_from_u32(
                spec_u32_from_le(s.subrange(20, 24)),
            ) {
                Some(ca) => ca,
                None => CorpAction::NoCorpAct,
            },
            pub_slot: spec_u64_from_le(s.subrange(24, 32)),
        }
    }

    fn packed_len() -> usize {
        32
    }

    proof fn lemma_pack_roundtrip(&self) {
        lemma_auto_i64_le_bytes();
        lemma_auto_u64_le_bytes();
        lemma_auto_u32_le_bytes();
        lemma_price_info_pack_subranges(*self);
    }

    proof fn lemma_unpack_roundtrip(s: Seq<u8>) {
        lemma_auto_i64_le_bytes();
        lemma_auto_u64_le_bytes();
        lemma_auto_u32_le_bytes();
        assert(Self::spec_unpack(s).spec_pack() =~= s);
    }

    fn unpack_from_slice(src: &[u8]) -> (r: Result<Self, PythError>) {
        let src_len = src.len();
        if src_len < 32 {
            return Err(PythError::CouldNotDecodeInstruction);
        }
        proof {
            assert(src@.take(32).subrange(0, 8) =~= src@.subrange(0, 8));
            assert(src@.take(32).subrange(8, 16) =~= src@.subrange(8, 16));
            assert(src@.take(32).subrange(16, 20) =~= src@.subrange(16, 20));
            assert(src@.take(32).subrange(20, 24) =~= src@.subrange(20, 24));
            assert(src@.take(32).subrange(24, 32) =~= src@.subrange(24, 32));
        }
        let price = read_i64_le(src, 0);
        let conf = read_u64_le(src, 8);
        let status = match price_status_from_u32(read_u32_le(src, 16)) {
            Some(st) => st,
            None => {
                return Err(PythError::CouldNotDecodeInstruction);
            },
        };
        let corp_act = match corp_action_from_u32(read_u32_le(src, 20)) {
            Some(ca) => ca,
            None => {
                return Err(PythError::CouldNotDecodeInstruction);
            },
        };
        let pub_slot = read_u64_le(src, 24);
        Ok(PriceInfo { price, conf, status, corp_act, pub_slot })
    }

    fn pack_into_slice(&self, dst: &mut Vec<u8>, offset: usize) -> (r: Result<(), PythError>) {
        let _dst_len = dst.len();
        write_i64_le(dst, offset, self.price);
        write_u64_le(dst, offset + 8, self.conf);
        write_u32_le(dst, offset + 16, price_status_u32(self.status));
        write_u32_le(dst, offset + 20, corp_action_u32(self.corp_act));
        write_u64_le(dst, offset + 24, self.pub_slot);
        proof {
            assert(dst@.subrange(offset as int, offset + 8) =~= spec_i64_le_bytes(self.price));
            assert(dst@.subrange(offset + 8, offset + 16) =~= spec_u64_le_bytes(self.conf));
            assert(dst@.subrange(offset + 16, offset + 20) =~= spec_u32_le_bytes(
                spec_price_status_u32(self.status),
            ));
            assert(dst@.subrange(offset + 20, offset + 24) =~= spec_u32_le_bytes(
                spec_corp_action_u32(self.corp_act),
            ));
            assert(dst@.subrange(offset + 24, offset + 32) =~= spec_u64_le_bytes(self.pub_slot));
            lemma_subrange_split(dst@, offset as int, offset + 8, offset + 16);
            lemma_subrange_split(dst@, offset as int, offset + 16, offset + 20);
            lemma_subrange_split(dst@, offset as int, offset + 20, offset + 24);
            lemma_subrange_split(dst@, offset as int, offset + 24, offset + 32);
        }
        Ok(())
    }
}

/// Where each field of a packed `PriceInfo` lies in its 32-byte image.
pub proof fn lemma_price_info_pack_subranges(a: PriceInfo)
    ensures
        a.spec_pack().len() == 32,
        a.spec_pack().subrange(0, 8) == spec_i64_le_bytes(a.price),
        a.spec_pack().subrange(8, 16) == spec_u64_le_bytes(a.conf),
        a.spec_pack().subrange(16, 20) == spec_u32_le_bytes(spec_price_status_u32(a.status)),
        a.spec_pack().subrange(20, 24) == spec_u32_le_bytes(spec_corp_action_u32(a.corp_act)),
        a.spec_pack().subrange(24, 32) == spec_u64_le_bytes(a.pub_slot),
{
    lemma_auto_i64_le_bytes();
    lemma_auto_u64_le_bytes();
    lemma_auto_u32_le_bytes();
    let b = a.spec_pack();
    assert(b.subrange(0, 8) =~= spec_i64_le_bytes(a.price));
    assert(b.subrange(8, 16) =~= spec_u64_le_bytes(a.conf));
    assert(b.subrange(16, 20) =~= spec_u32_le_bytes(spec_price_status_u32(a.status)));
    assert(b.subrange(20, 24) =~= spec_u32_le_bytes(spec_corp_action_u32(a.corp_act)));
    assert(b.subrange(24, 32) =~= spec_u64_le_bytes(a.pub_slot));
}

/// An exponentially-weighted moving average and the running state for its
/// next update. 24 bytes. Present in the layout; not recomputed by the
/// implemented operations.
#[derive(Copy, Clone, Debug, PartialEq, Eq)]
pub struct Ema {
    /// The current value of the average.
    pub val: i64,
    /// Numerator state for the next update.
    pub numer: i64,
    /// Denominator state for the next update.
    pub denom: i64,
}

impl PythPack for Ema {
    open spec fn spec_len() -> nat {
        24
    }

    open spec fn spec_pack(&self) -> Seq<u8> {
        spec_i64_le_bytes(self.val) + spec_i64_le_bytes(self.numer) + spec_i64_le_bytes(
            self.denom,
        )
    }

    open spec fn bytes_valid(s: Seq<u8>) -> bool {
        true
    }

    open spec fn spec_unpack(s: Seq<u8>) -> Self {
        Ema {
            val: spec_i64_from_le(s.subrange(0, 8)),
            numer: spec_i64_from_le(s.subrange(8, 16)),
            denom: spec_i64_from_le(s.subrange(16, 24)),
        }
    }

    fn packed_len() -> usize {
        24
    }

    proof fn lemma_pack_roundtrip(&self) {
        lemma_auto_i64_le_bytes();
        let b = self.spec_pack();
        assert(b.subrange(0, 8) =~= spec_i64_le_bytes(self.val));
        assert(b.subrange(8, 16) =~= spec_i64_le_bytes(self.numer));
        assert(b.subrange(16, 24) =~= spec_i64_le_bytes(self.denom));
    }

    proof fn lemma_unpack_roundtrip(s: Seq<u8>) {
        lemma_auto_i64_le_bytes();
        assert(Self::spec_unpack(s).spec_pack() =~= s);
    }

    fn unpack_from_slice(src: &[u8]) -> (r: Result<Self, PythError>) {
        let src_len = src.len();
        if src_len < 24 {
            return Err(PythError::CouldNotDecodeInstruction);
        }
        proof {
            assert(src@.take(24).subrange(0, 8) =~= src@.subrange(0, 8));
            assert(src@.take(24).subrange(8, 16) =~= src@.subrange(8, 16));
            assert(src@.take(24).subrange(16, 24) =~= src@.subrange(16, 24));
        }
        let val = read_i64_le(src, 0);
        let numer = read_i64_le(src, 8);
        let denom = read_i64_le(src, 16);
        Ok(Ema { val, numer, denom })
    }

    fn pack_into_slice(&self, dst: &mut Vec<u8>, offset: usize) -> (r: Result<(), PythError>) {
        let _dst_len = dst.len();
        write_i64_le(dst, offset, self.val);
        write_i64_le(dst, offset + 8, self.numer);
        write_i64_le(dst, offset + 16, self.denom);
        proof {
            assert(dst@.subrange(offset as int, offset + 8) =~= spec_i64_le_bytes(self.val));
            assert(dst@.subrange(offset + 8, offset + 16) =~= spec_i64_le_bytes(self.numer));
            assert(dst@.subrange(offset + 16, offset + 24) =~= spec_i64_le_bytes(self.denom));
            lemma_subrange_split(dst@, offset as int, offset + 8, offset + 16);
            lemma_subrange_split(dst@, offset as int, offset + 16, offset + 24);
        }
        Ok(())
    }
}

/// The price and confidence contributed by one publisher: the publisher's
/// key, its contribution to the current aggregate, and its latest
/// contribution. 96 bytes. Reserved for the aggregation subsystem; not
/// populated by the implemented operations.
#[derive(Copy, Clone, Debug, PartialEq, Eq)]
pub struct PriceComp {
    /// Key of the contributing publisher.
    pub publisher: AccKey,
    /// The price used to compute the current aggregate price.
    pub agg: PriceInfo,
    /// The publisher's latest price, to be folded into the aggregate when
    /// aggregation next runs.
    pub latest: PriceInfo,
}

impl PythPack for PriceComp {
    open spec fn spec_len() -> nat {
        96
    }

    open spec fn spec_pack(&self) -> Seq<u8> {
        self.publisher.val@ + self.agg.spec_pack() + self.latest.spec_pack()
    }

    open spec fn bytes_valid(s: Seq<u8>) -> bool {
        &&& PriceInfo::bytes_valid(s.subrange(32, 64))
        &&& PriceInfo::bytes_valid(s.subrange(64, 96))
    }

    open spec fn spec_unpack(s: Seq<u8>) -> Self {
        PriceComp {
            publisher: spec_key_from_bytes(s.subrange(0, 32)),
            agg: PriceInfo::spec_unpack(s.subrange(32, 64)),
            latest: PriceInfo::spec_unpack(s.subrange(64, 96)),
        }
    }

    fn packed_len() -> usize {
        96
    }

    proof fn lemma_pack_roundtrip(&self) {
        self.agg.lemma_pack_roundtrip();
        self.latest.lemma_pack_roundtrip();
        let b = self.spec_pack();
        assert(b.subrange(0, 32) =~= self.publisher.val@);
        assert(b.subrange(32, 64) =~= self.agg.spec_pack());
        assert(b.subrange(64, 96) =~= self.latest.spec_pack());
        lemma_key_roundtrip(self.publisher);
    }

    proof fn lemma_unpack_roundtrip(s: Seq<u8>) {
        PriceInfo::lemma_unpack_roundtrip(s.subrange(32, 64));
        PriceInfo::lemma_unpack_roundtrip(s.subrange(64, 96));
        lemma_key_from_bytes_view(s.subrange(0, 32));
        assert(Self::spec_unpack(s).spec_pack() =~= s);
    }

    fn unpack_from_slice(src: &[u8]) -> (r: Result<Self, PythError>) {
        let src_len = src.len();
        if src_len < 96 {
            return Err(PythError::CouldNotDecodeInstruction);
        }
        proof {
            assert(src@.take(96).subrange(0, 32) =~= src@.subrange(0, 32));
            assert(src@.take(96).subrange(32, 64) =~= src@.subrange(32, 64));
            assert(src@.take(96).subrange(64, 96) =~= src@.subrange(64, 96));
        }
        let publisher = read_key(src, 0);
        let agg_bytes = vstd::slice::slice_subrange(src, 32, 64);
        let agg = match PriceInfo::unpack_from_slice(agg_bytes) {
            Ok(p) => p,
            Err(e) => {
                proof {
                    assert(agg_bytes@.take(32) =~= src@.subrange(32, 64));
                }
                return Err(e);
            },
        };
        let latest_bytes = vstd::slice::slice_subrange(src, 64, 96);
        let latest = match PriceInfo::unpack_from_slice(latest_bytes) {
            Ok(p) => p,
            Err(e) => {
                proof {
                    assert(latest_bytes@.take(32) =~= src@.subrange(64, 96));
                }
                return Err(e);
            },
        };
        proof {
            assert(agg_bytes@.take(32) =~= src@.subrange(32, 64));
            assert(latest_bytes@.take(32) =~= src@.subrange(64, 96));
        }
        Ok(PriceComp { publisher, agg, latest })
    }

    fn pack_into_slice(&self, dst: &mut Vec<u8>, offset: usize) -> (r: Result<(), PythError>) {
        let _dst_len = dst.len();
        write_key(dst, offset, &self.publisher);
        let r_agg = self.agg.pack_into_slice(dst, offset + 32);
        match r_agg {
            Ok(_) => {},
            Err(e) => {
                return Err(e);
            },
        }
        let r_latest = self.latest.pack_into_slice(dst, offset + 64);
        match r_latest {
            Ok(_) => {},
            Err(e) => {
                return Err(e);
            },
        }
        proof {
            self.agg.lemma_pack_roundtrip();
            self.latest.lemma_pack_roundtrip();
            assert(dst@.subrange(offset as int, offset + 32) =~= self.publisher.val@);
            assert(dst@.subrange(offset + 32, offset + 64) =~= self.agg.spec_pack());
            assert(dst@.subrange(offset + 64, offset + 96) =~= self.latest.spec_pack());
            lemma_subrange_split(dst@, offset as int, offset + 32, offset + 64);
            lemma_subrange_split(dst@, offset as int, offset + 64, offset + 96);
        }
        Ok(())
    }
}

/// The root oracle account record: the header, the running statistics, the
/// linked-list and product keys, the previous update, and the aggregate
/// price. 240 bytes exactly; the per-publisher component array a full
/// oracle account would carry behind it is omitted.
#[derive(Copy, Clone, Debug, PartialEq, Eq)]
pub struct Price {
    /// The oracle magic number.
    pub magic: u32,
    /// Program version.
    pub ver: u32,
    /// Account type tag, stored raw.
    pub atype: u32,
    /// Price account size.
    pub size: u32,
    /// Price or calculation type.
    pub ptype: PriceType,
    /// Price exponent.
    pub expo: i32,
    /// Number of component prices.
    pub num: u32,
    /// Number of quoters that make up the aggregate.
    pub num_qt: u32,
    /// Slot of the last valid (not unknown) aggregate price.
    pub last_slot: u64,
    /// Valid slot-time of the aggregate price.
    pub valid_slot: u64,
    /// Time-weighted average price.
    pub twap: Ema,
    /// Time-weighted average confidence interval.
    pub twac: Ema,
    /// Space for future derived values.
    pub drv1: i64,
    /// Space for future derived values.
    pub drv2: i64,
    /// Product account key.
    pub prod: AccKey,
    /// Next price account in the linked list.
    pub next: AccKey,
    /// Valid slot of the previous update.
    pub prev_slot: u64,
    /// Aggregate price of the previous update.
    pub prev_price: i64,
    /// Confidence interval of the previous update.
    pub prev_conf: u64,
    /// Space for future derived values.
    pub drv3: i64,
    /// Aggregate price info.
    pub agg: PriceInfo,
}

/// The first 48 bytes of a packed `Price`: the ten header fields.
pub open spec fn spec_price_header_bytes(p: Price) -> Seq<u8> {
    spec_u32_le_bytes(p.magic) + spec_u32_le_bytes(p.ver) + spec_u32_le_bytes(p.atype)
        + spec_u32_le_bytes(p.size) + spec_u32_le_bytes(spec_price_type_u32(p.ptype))
        + spec_i32_le_bytes(p.expo) + spec_u32_le_bytes(p.num) + spec_u32_le_bytes(p.num_qt)
        + spec_u64_le_bytes(p.last_slot) + spec_u64_le_bytes(p.valid_slot)
}

/// Bytes 96..208 of a packed `Price`: the derived-value fields, the two
/// account keys, and the previous-update fields.
pub open spec fn spec_price_mid_bytes(p: Price) -> Seq<u8> {
    spec_i64_le_bytes(p.drv1) + spec_i64_le_bytes(p.drv2) + p.prod.val@ + p.next.val@
        + spec_u64_le_bytes(p.prev_slot) + spec_i64_le_bytes(p.prev_price)
        + spec_u64_le_bytes(p.prev_conf) + spec_i64_le_bytes(p.drv3)
}

/// Where each header field lies in the 48-byte header segment.
proof fn lemma_price_header_bytes_subranges(p: Price)
    ensures
        spec_price_header_bytes(p).len() == 48,
        spec_price_header_bytes(p).subrange(0, 4) == spec_u32_le_bytes(p.magic),
        spec_price_header_bytes(p).subrange(4, 8) == spec_u32_le_bytes(p.ver),
        spec_price_header_bytes(p).subrange(8, 12) == spec_u32_le_bytes(p.atype),
        spec_price_header_bytes(p).subrange(12, 16) == spec_u32_le_bytes(p.size),
        spec_price_header_bytes(p).subrange(16, 20) == spec_u32_le_bytes(
            spec_price_type_u32(p.ptype),
        ),
        spec_price_header_bytes(p).subrange(20, 24) == spec_i32_le_bytes(p.expo),
        spec_price_header_bytes(p).subrange(24, 28) == spec_u32_le_bytes(p.num),
        spec_price_header_bytes(p).subrange(28, 32) == spec_u32_le_bytes(p.num_qt),
        spec_price_header_bytes(p).subrange(32, 40) == spec_u64_le_bytes(p.last_slot),
        spec_price_header_bytes(p).subrange(40, 48) == spec_u64_le_bytes(p.valid_slot),
{
    lemma_auto_u32_le_bytes();
    lemma_auto_u64_le_bytes();
    lemma_auto_i32_le_bytes();
    let h = spec_price_header_bytes(p);
    assert(h.subrange(0, 4) =~= spec_u32_le_bytes(p.magic));
    assert(h.subrange(4, 8) =~= spec_u32_le_bytes(p.ver));
    assert(h.subrange(8, 12) =~= spec_u32_le_bytes(p.atype));
    assert(h.subrange(12, 16) =~= spec_u32_le_bytes(p.size));
    assert(h.subrange(16, 20) =~= spec_u32_le_bytes(spec_price_type_u32(p.ptype)));
    assert(h.subrange(20, 24) =~= spec_i32_le_bytes(p.expo));
    assert(h.subrange(24, 28) =~= spec_u32_le_bytes(p.num));
    assert(h.subrange(28, 32) =~= spec_u32_le_bytes(p.num_qt));
    assert(h.subrange(32, 40) =~= spec_u64_le_bytes(p.last_slot));
    assert(h.subrange(40, 48) =~= spec_u64_le_bytes(p.valid_slot));
}

/// Where each field lies in the 112-byte middle segment.
proof fn lemma_price_mid_bytes_subranges(p: Price)
    ensures
        spec_price_mid_bytes(p).len() == 112,
        spec_price_mid_bytes(p).subrange(0, 8) == spec_i64_le_bytes(p.drv1),
        spec_price_mid_bytes(p).subrange(8, 16) == spec_i64_le_bytes(p.drv2),
        spec_price_mid_bytes(p).subrange(16, 48) == p.prod.val@,
        spec_price_mid_bytes(p).subrange(48, 80) == p.next.val@,
        spec_price_mid_bytes(p).subrange(80, 88) == spec_u64_le_bytes(p.prev_slot),
        spec_price_mid_bytes(p).subrange(88, 96) == spec_i64_le_bytes(p.prev_price),
        spec_price_mid_bytes(p).subrange(96, 104) == spec_u64_le_bytes(p.prev_conf),
        spec_price_mid_bytes(p).subrange(104, 112) == spec_i64_le_bytes(p.drv3),
{
    lemma_auto_u64_le_bytes();
    lemma_auto_i64_le_bytes();
    let m = spec_price_mid_bytes(p);
    assert(m.subrange(0, 8) =~= spec_i64_le_bytes(p.drv1));
    assert(m.subrange(8, 16) =~= spec_i64_le_bytes(p.drv2));
    assert(m.subrange(16, 48) =~= p.prod.val@);
    assert(m.subrange(48, 80) =~= p.next.val@);
    assert(m.subrange(80, 88) =~= spec_u64_le_bytes(p.prev_slot));
    assert(m.subrange(88, 96) =~= spec_i64_le_bytes(p.prev_price));
    assert(m.subrange(96, 104) =~= spec_u64_le_bytes(p.prev_conf));
    assert(m.subrange(104, 112) =~= spec_i64_le_bytes(p.drv3));
}

/// Where each field of a packed `Price` lies in its 240-byte image.
#[verifier::rlimit(100)]
pub proof fn lemma_price_pack_subranges(p: Price)
    ensures
        p.spec_pack().len() == 240,
        p.spec_pack().subrange(0, 4) == spec_u32_le_bytes(p.magic),
        p.spec_pack().subrange(4, 8) == spec_u32_le_bytes(p.ver),
        p.spec_pack().subrange(8, 12) == spec_u32_le_bytes(p.atype),
        p.spec_pack().subrange(12, 16) == spec_u32_le_bytes(p.size),
        p.spec_pack().subrange(16, 20) == spec_u32_le_bytes(spec_price_type_u32(p.ptype)),
        p.spec_pack().subrange(20, 24) == spec_i32_le_bytes(p.expo),
        p.spec_pack().subrange(24, 28) == spec_u32_le_bytes(p.num),
        p.spec_pack().subrange(28, 32) == spec_u32_le_bytes(p.num_qt),
        p.spec_pack().subrange(32, 40) == spec_u64_le_bytes(p.last_slot),
        p.spec_pack().subrange(40, 48) == spec_u64_le_bytes(p.valid_slot),
        p.spec_pack().subrange(48, 72) == p.twap.spec_pack(),
        p.spec_pack().subrange(72, 96) == p.twac.spec_pack(),
        p.spec_pack().subrange(96, 104) == spec_i64_le_bytes(p.drv1),
        p.spec_pack().subrange(104, 112) == spec_i64_le_bytes(p.drv2),
        p.spec_pack().subrange(112, 144) == p.prod.val@,
        p.spec_pack().subrange(144, 176) == p.next.val@,
        p.spec_pack().subrange(176, 184) == spec_u64_le_bytes(p.prev_slot),
        p.spec_pack().subrange(184, 192) == spec_i64_le_bytes(p.prev_price),
        p.spec_pack().subrange(192, 200) == spec_u64_le_bytes(p.prev_conf),
        p.spec_pack().subrange(200, 208) == spec_i64_le_bytes(p.drv3),
        p.spec_pack().subrange(208, 240) == p.agg.spec_pack(),
{
    lemma_price_header_bytes_subranges(p);
    lemma_price_mid_bytes_subranges(p);
    p.twap.lemma_pack_roundtrip();
    p.twac.lemma_pack_roundtrip();
    p.agg.lemma_pack_roundtrip();
    let b = p.spec_pack();
    let h = spec_price_header_bytes(p);
    let t1 = p.twap.spec_pack();
    let t2 = p.twac.spec_pack();
    let m = spec_price_mid_bytes(p);
    lemma_concat_parts(((h + t1) + t2) + m, p.agg.spec_pack());
    lemma_concat_parts((h + t1) + t2, m);
    lemma_concat_parts(h + t1, t2);
    lemma_concat_parts(h, t1);
    lemma_subrange_of_subrange(b, 0, 208, 0, 96);
    lemma_subrange_of_subrange(b, 0, 208, 96, 208);
    lemma_subrange_of_subrange(b, 0, 96, 0, 72);
    lemma_subrange_of_subrange(b, 0, 96, 72, 96);
    lemma_subrange_of_subrange(b, 0, 72, 0, 48);
    lemma_subrange_of_subrange(b, 0, 72, 48, 72);
    lemma_subrange_of_subrange(b, 0, 48, 0, 4);
    lemma_subrange_of_subrange(b, 0, 48, 4, 8);
    lemma_subrange_of_subrange(b, 0, 48, 8, 12);
    lemma_subrange_of_subrange(b, 0, 48, 12, 16);
    lemma_subrange_of_subrange(b, 0, 48, 16, 20);
    lemma_subrange_of_subrange(b, 0, 48, 20, 24);
    lemma_subrange_of_subrange(b, 0, 48, 24, 28);
    lemma_subrange_of_subrange(b, 0, 48, 28, 32);
    lemma_subrange_of_subrange(b, 0, 48, 32, 40);
    lemma_subrange_of_subrange(b, 0, 48, 40, 48);
    lemma_subrange_of_subrange(b, 96, 208, 96, 104);
    lemma_subrange_of_subrange(b, 96, 208, 104, 112);
    lemma_subrange_of_subrange(b, 96, 208, 112, 144);
    lemma_subrange_of_subrange(b, 96, 208, 144, 176);
    lemma_subrange_of_subrange(b, 96, 208, 176, 184);
    lemma_subrange_of_subrange(b, 96, 208, 184, 192);
    lemma_subrange_of_subrange(b, 96, 208, 192, 200);
    lemma_subrange_of_subrange(b, 96, 208, 200, 208);
}

/// A buffer whose five segments each hold the packed form of their part
/// of `p` holds the packed form of `p`.
proof fn lemma_price_segments_compose(p: Price, s: Seq<u8>, offset: int)
    requires
        0 <= offset,
        offset + 240 <= s.len(),
        s.subrange(offset, offset + 48) == spec_price_header_bytes(p),
        s.subrange(offset + 48, offset + 72) == p.twap.spec_pack(),
        s.subrange(offset + 72, offset + 96) == p.twac.spec_pack(),
        s.subrange(offset + 96, offset + 208) == spec_price_mid_bytes(p),
        s.subrange(offset + 208, offset + 240) == p.agg.spec_pack(),
    ensures
        s.subrange(offset, offset + 240) == p.spec_pack(),
{
    lemma_subrange_split(s, offset, offset + 48, offset + 72);
    lemma_subrange_split(s, offset, offset + 72, offset + 96);
    lemma_subrange_split(s, offset, offset + 96, offset + 208);
    lemma_subrange_split(s, offset, offset + 208, offset + 240);
}

impl PythPack for Price {
    open spec fn spec_len() -> nat {
        240
    }

    open spec fn spec_pack(&self) -> Seq<u8> {
        spec_price_header_bytes(*self) + self.twap.spec_pack() + self.twac.spec_pack()
            + spec_price_mid_bytes(*self) + self.agg.spec_pack()
    }

    open spec fn bytes_valid(s: Seq<u8>) -> bool {
        &&& spec_price_type_from_u32(spec_u32_from_le(s.subrange(16, 20))) is Some
        &&& PriceInfo::bytes_valid(s.subrange(208, 240))
    }

    open spec fn spec_unpack(s: Seq<u8>) -> Self {
        Price {
            magic: spec_u32_from_le(s.subrange(0, 4)),
            ver: spec_u32_from_le(s.subrange(4, 8)),
            atype: spec_u32_from_le(s.subrange(8, 12)),
            size: spec_u32_from_le(s.subrange(12, 16)),
            ptype: match spec_price_type_from_u32(spec_u32_from_le(s.subrange(16, 20))) {
                Some(pt) => pt,
                None => PriceType::Unknown,
            },
            expo: spec_i32_from_le(s.subrange(20, 24)),
            num: spec_u32_from_le(s.subrange(24, 28)),
            num_qt: spec_u32_from_le(s.subrange(28, 32)),
            last_slot: spec_u64_from_le(s.subrange(32, 40)),
            valid_slot: spec_u64_from_le(s.subrange(40, 48)),
            twap: Ema::spec_unpack(s.subrange(48, 72)),
            twac: Ema::spec_unpack(s.subrange(72, 96)),
            drv1: spec_i64_from_le(s.subrange(96, 104)),
            drv2: spec_i64_from_le(s.subrange(104, 112)),
            prod: spec_key_from_bytes(s.subrange(112, 144)),
            next: spec_key_from_bytes(s.subrange(144, 176)),
            prev_slot: spec_u64_from_le(s.subrange(176, 184)),
            prev_price: spec_i64_from_le(s.subrange(184, 192)),
            prev_conf: spec_u64_from_le(s.subrange(192, 200)),
            drv3: spec_i64_from_le(s.subrange(200, 208)),
            agg: PriceInfo::spec_unpack(s.subrange(208, 240)),
        }
    }

    fn packed_len() -> usize {
        240
    }

    #[verifier::rlimit(100)]
    proof fn lemma_pack_roundtrip(&self) {
        lemma_auto_u32_le_bytes();
        lemma_auto_u64_le_bytes();
        lemma_auto_i32_le_bytes();
        lemma_auto_i64_le_bytes();
        self.twap.lemma_pack_roundtrip();
        self.twac.lemma_pack_roundtrip();
        self.agg.lemma_pack_roundtrip();
        lemma_key_roundtrip(self.prod);
        lemma_key_roundtrip(self.next);
        lemma_price_pack_subranges(*self);
    }

    proof fn lemma_unpack_roundtrip(s: Seq<u8>) {
        lemma_auto_u32_le_bytes();
        lemma_auto_u64_le_bytes();
        lemma_auto_i32_le_bytes();
        lemma_auto_i64_le_bytes();
        Ema::lemma_unpack_roundtrip(s.subrange(48, 72));
        Ema::lemma_unpack_roundtrip(s.subrange(72, 96));
        PriceInfo::lemma_unpack_roundtrip(s.subrange(208, 240));
        lemma_key_from_bytes_view(s.subrange(112, 144));
        lemma_key_from_bytes_view(s.subrange(144, 176));
        let v = Self::spec_unpack(s);
        assert(s.subrange(0, 4) == spec_u32_le_bytes(v.magic));
        assert(s.subrange(4, 8) == spec_u32_le_bytes(v.ver));
        assert(s.subrange(8, 12) == spec_u32_le_bytes(v.atype));
        assert(s.subrange(12, 16) == spec_u32_le_bytes(v.size));
        assert(spec_price_type_u32(v.ptype) == spec_u32_from_le(s.subrange(16, 20)));
        assert(s.subrange(16, 20) == spec_u32_le_bytes(spec_price_type_u32(v.ptype)));
        assert(s.subrange(20, 24) == spec_i32_le_bytes(v.expo));
        assert(s.subrange(24, 28) == spec_u32_le_bytes(v.num));
        assert(s.subrange(28, 32) == spec_u32_le_bytes(v.num_qt));
        assert(s.subrange(32, 40) == spec_u64_le_bytes(v.last_slot));
        assert(s.subrange(40, 48) == spec_u64_le_bytes(v.valid_slot));
        lemma_subrange_split(s, 0, 4, 8);
        lemma_subrange_split(s, 0, 8, 12);
        lemma_subrange_split(s, 0, 12, 16);
        lemma_subrange_split(s, 0, 16, 20);
        lemma_subrange_split(s, 0, 20, 24);
        lemma_subrange_split(s, 0, 24, 28);
        lemma_subrange_split(s, 0, 28, 32);
        lemma_subrange_split(s, 0, 32, 40);
        lemma_subrange_split(s, 0, 40, 48);
        assert(s.subrange(0, 48) == spec_price_header_bytes(v));
        assert(s.subrange(48, 72) == v.twap.spec_pack());
        assert(s.subrange(72, 96) == v.twac.spec_pack());
        assert(s.subrange(96, 104) == spec_i64_le_bytes(v.drv1));
        assert(s.subrange(104, 112) == spec_i64_le_bytes(v.drv2));
        assert(s.subrange(112, 144) == v.prod.val@);
        assert(s.subrange(144, 176) == v.next.val@);
        assert(s.subrange(176, 184) == spec_u64_le_bytes(v.prev_slot));
        assert(s.subrange(184, 192) == spec_i64_le_bytes(v.prev_price));
        assert(s.subrange(192, 200) == spec_u64_le_bytes(v.prev_conf));
        assert(s.subrange(200, 208) == spec_i64_le_bytes(v.drv3));
        lemma_subrange_split(s, 96, 104, 112);
        lemma_subrange_split(s, 96, 112, 144);
        lemma_subrange_split(s, 96, 144, 176);
        lemma_subrange_split(s, 96, 176, 184);
        lemma_subrange_split(s, 96, 184, 192);
        lemma_subrange_split(s, 96, 192, 200);
        lemma_subrange_split(s, 96, 200, 208);
        assert(s.subrange(96, 208) == spec_price_mid_bytes(v));
        assert(s.subrange(208, 240) == v.agg.spec_pack());
        lemma_price_segments_compose(v, s, 0);
        assert(s.subrange(0, 240) =~= s);
    }

    #[verifier::rlimit(100)]
    fn unpack_from_slice(src: &[u8]) -> (r: Result<Self, PythError>) {
        let src_len = src.len();
        if src_len < 240 {
            return Err(PythError::CouldNotDecodeInstruction);
        }
        proof {
            assert(src@.take(240).subrange(0, 4) =~= src@.subrange(0, 4));
            assert(src@.take(240).subrange(4, 8) =~= src@.subrange(4, 8));
            assert(src@.take(240).subrange(8, 12) =~= src@.subrange(8, 12));
            assert(src@.take(240).subrange(12, 16) =~= src@.subrange(12, 16));
            assert(src@.take(240).subrange(16, 20) =~= src@.subrange(16, 20));
            assert(src@.take(240).subrange(20, 24) =~= src@.subrange(20, 24));
            assert(src@.take(240).subrange(24, 28) =~= src@.subrange(24, 28));
            assert(src@.take(240).subrange(28, 32) =~= src@.subrange(28, 32));
            assert(src@.take(240).subrange(32, 40) =~= src@.subrange(32, 40));
            assert(src@.take(240).subrange(40, 48) =~= src@.subrange(40, 48));
            assert(src@.take(240).subrange(48, 72) =~= src@.subrange(48, 72));
            assert(src@.take(240).subrange(72, 96) =~= src@.subrange(72, 96));
            assert(src@.take(240).subrange(96, 104) =~= src@.subrange(96, 104));
            assert(src@.take(240).subrange(104, 112) =~= src@.subrange(104, 112));
            assert(src@.take(240).subrange(112, 144) =~= src@.subrange(112, 144));
            assert(src@.take(240).subrange(144, 176) =~= src@.subrange(144, 176));
            assert(src@.take(240).subrange(176, 184) =~= src@.subrange(176, 184));
            assert(src@.take(240).subrange(184, 192) =~= src@.subrange(184, 192));
            assert(src@.take(240).subrange(192, 200) =~= src@.subrange(192, 200));
            assert(src@.take(240).subrange(200, 208) =~= src@.subrange(200, 208));
            assert(src@.take(240).subrange(208, 240) =~= src@.subrange(208, 240));
        }
        let magic = read_u32_le(src, 0);
        let ver = read_u32_le(src, 4);
        let atype = read_u32_le(src, 8);
        let size = read_u32_le(src, 12);
        let ptype = match price_type_from_u32(read_u32_le(src, 16)) {
            Some(pt) => pt,
            None => {
                return Err(PythError::CouldNotDecodeInstruction);
            },
        };
        let expo = read_i32_le(src, 20);
        let num = read_u32_le(src, 24);
        let num_qt = read_u32_le(src, 28);
        let last_slot = read_u64_le(src, 32);
        let valid_slot = read_u64_le(src, 40);
        let twap_bytes = vstd::slice::slice_subrange(src, 48, 72);
        proof {
            assert(twap_bytes@.take(24) =~= src@.subrange(48, 72));
        }
        let twap = match Ema::unpack_from_slice(twap_bytes) {
            Ok(e) => e,
            Err(e) => {
                return Err(e);
            },
        };
        let twac_bytes = vstd::slice::slice_subrange(src, 72, 96);
        proof {
            assert(twac_bytes@.take(24) =~= src@.subrange(72, 96));
        }
        let twac = match Ema::unpack_from_slice(twac_bytes) {
            Ok(e) => e,
            Err(e) => {
                return Err(e);
            },
        };
        let drv1 = read_i64_le(src, 96);
        let drv2 = read_i64_le(src, 104);
        let prod = read_key(src, 112);
        let next = read_key(src, 144);
        let prev_slot = read_u64_le(src, 176);
        let prev_price = read_i64_le(src, 184);
        let prev_conf = read_u64_le(src, 192);
        let drv3 = read_i64_le(src, 200);
        let agg_bytes = vstd::slice::slice_subrange(src, 208, 240);
        proof {
            assert(agg_bytes@.take(32) =~= src@.subrange(208, 240));
        }
        let agg = match PriceInfo::unpack_from_slice(agg_bytes) {
            Ok(p) => p,
            Err(e) => {
                return Err(e);
            },
        };
        Ok(
            Price {
                magic,
                ver,
                atype,
                size,
                ptype,
                expo,
                num,
                num_qt,
                last_slot,
                valid_slot,
                twap,
                twac,
                drv1,
                drv2,
                prod,
                next,
                prev_slot,
                prev_price,
                prev_conf,
                drv3,
                agg,
            },
        )
    }

    #[verifier::rlimit(100)]
    fn pack_into_slice(&self, dst: &mut Vec<u8>, offset: usize) -> (r: Result<(), PythError>) {
        let _dst_len = dst.len();
        self.pack_header(dst, offset);
        let r_twap = self.twap.pack_into_slice(dst, offset + 48);
        match r_twap {
            Ok(_) => {},
            Err(e) => {
                return Err(e);
            },
        }
        let r_twac = self.twac.pack_into_slice(dst, offset + 72);
        match r_twac {
            Ok(_) => {},
            Err(e) => {
                return Err(e);
            },
        }
        self.pack_mid(dst, offset + 96);
        let r_agg = self.agg.pack_into_slice(dst, offset + 208);
        match r_agg {
            Ok(_) => {},
            Err(e) => {
                return Err(e);
            },
        }
        proof {
            self.twap.lemma_pack_roundtrip();
            self.twac.lemma_pack_roundtrip();
            self.agg.lemma_pack_roundtrip();
            assert(dst@.subrange(offset as int, offset + 48) =~= spec_price_header_bytes(*self));
            assert(dst@.subrange(offset + 48, offset + 72) =~= self.twap.spec_pack());
            assert(dst@.subrange(offset + 72, offset + 96) =~= self.twac.spec_pack());
            assert(dst@.subrange(offset + 96, offset + 208) =~= spec_price_mid_bytes(*self));
            assert(dst@.subrange(offset + 208, offset + 240) =~= self.agg.spec_pack());
            lemma_price_segments_compose(*self, dst@, offset as int);
        }
        Ok(())
    }
}

impl Price {
    /// Writes the ten header fields at `offset` (bytes 0..48 of the
    /// record), leaving every other byte of `dst` unchanged.
    fn pack_header(&self, dst: &mut Vec<u8>, offset: usize)
        requires
            offset + 48 <= old(dst)@.len(),
        ensures
            final(dst)@.len() == old(dst)@.len(),
            final(dst)@.subrange(offset as int, offset + 48) == spec_price_header_bytes(*self),
            forall|i: int|
                0 <= i < final(dst)@.len() && !(offset <= i < offset + 48) ==> final(dst)@[i]
                    == old(dst)@[i],
    {
        let _dst_len = dst.len();
        let ghost h1 = spec_u32_le_bytes(self.magic);
        let ghost h2 = spec_u32_le_bytes(self.ver);
        let ghost h3 = spec_u32_le_bytes(self.atype);
        let ghost h4 = spec_u32_le_bytes(self.size);
        let ghost h5 = spec_u32_le_bytes(spec_price_type_u32(self.ptype));
        let ghost h6 = spec_i32_le_bytes(self.expo);
        let ghost h7 = spec_u32_le_bytes(self.num);
        let ghost h8 = spec_u32_le_bytes(self.num_qt);
        let ghost h9 = spec_u64_le_bytes(self.last_slot);
        let ghost h10 = spec_u64_le_bytes(self.valid_slot);
        write_u32_le(dst, offset, self.magic);
        write_u32_le(dst, offset + 4, self.ver);
        write_u32_le(dst, offset + 8, self.atype);
        write_u32_le(dst, offset + 12, self.size);
        write_u32_le(dst, offset + 16, price_type_u32(self.ptype));
        write_i32_le(dst, offset + 20, self.expo);
        write_u32_le(dst, offset + 24, self.num);
        write_u32_le(dst, offset + 28, self.num_qt);
        write_u64_le(dst, offset + 32, self.last_slot);
        write_u64_le(dst, offset + 40, self.valid_slot);
        proof {
            assert(dst@.subrange(offset as int, offset + 4) =~= h1);
            assert(dst@.subrange(offset + 4, offset + 8) =~= h2);
            assert(dst@.subrange(offset + 8, offset + 12) =~= h3);
            assert(dst@.subrange(offset + 12, offset + 16) =~= h4);
            assert(dst@.subrange(offset + 16, offset + 20) =~= h5);
            assert(dst@.subrange(offset + 20, offset + 24) =~= h6);
            assert(dst@.subrange(offset + 24, offset + 28) =~= h7);
            assert(dst@.subrange(offset + 28, offset + 32) =~= h8);
            assert(dst@.subrange(offset + 32, offset + 40) =~= h9);
            assert(dst@.subrange(offset + 40, offset + 48) =~= h10);
            lemma_subrange_split(dst@, offset as int, offset + 4, offset + 8);
            lemma_subrange_split(dst@, offset as int, offset + 8, offset + 12);
            lemma_subrange_split(dst@, offset as int, offset + 12, offset + 16);
            lemma_subrange_split(dst@, offset as int, offset + 16, offset + 20);
            lemma_subrange_split(dst@, offset as int, offset + 20, offset + 24);
            lemma_subrange_split(dst@, offset as int, offset + 24, offset + 28);
            lemma_subrange_split(dst@, offset as int, offset + 28, offset + 32);
            lemma_subrange_split(dst@, offset as int, offset + 32, offset + 40);
            lemma_subrange_split(dst@, offset as int, offset + 40, offset + 48);
        }
    }

    /// Writes the derived values, the two keys and the previous-update
    /// fields at `offset` (bytes 96..208 of the record), leaving every
    /// other byte of `dst` unchanged.
    fn pack_mid(&self, dst: &mut Vec<u8>, offset: usize)
        requires
            offset + 112 <= old(dst)@.len(),
        ensures
            final(dst)@.len() == old(dst)@.len(),
            final(dst)@.subrange(offset as int, offset + 112) == spec_price_mid_bytes(*self),
            forall|i: int|
                0 <= i < final(dst)@.len() && !(offset <= i < offset + 112) ==> final(dst)@[i]
                    == old(dst)@[i],
    {
        let _dst_len = dst.len();
        let ghost m1 = spec_i64_le_bytes(self.drv1);
        let ghost m2 = spec_i64_le_bytes(self.drv2);
        let ghost m3 = self.prod.val@;
        let ghost m4 = self.next.val@;
        let ghost m5 = spec_u64_le_bytes(self.prev_slot);
        let ghost m6 = spec_i64_le_bytes(self.prev_price);
        let ghost m7 = spec_u64_le_bytes(self.prev_conf);
        let ghost m8 = spec_i64_le_bytes(self.drv3);
        write_i64_le(dst, offset, self.drv1);
        write_i64_le(dst, offset + 8, self.drv2);
        write_key(dst, offset + 16, &self.prod);
        write_key(dst, offset + 48, &self.next);
        write_u64_le(dst, offset + 80, self.prev_slot);
        write_i64_le(dst, offset + 88, self.prev_price);
        write_u64_le(dst, offset + 96, self.prev_conf);
        write_i64_le(dst, offset + 104, self.drv3);
        proof {
            assert(dst@.subrange(offset as int, offset + 8) =~= m1);
            assert(dst@.subrange(offset + 8, offset + 16) =~= m2);
            assert(dst@.subrange(offset + 16, offset + 48) =~= m3);
            assert(dst@.subrange(offset + 48, offset + 80) =~= m4);
            assert(dst@.subrange(offset + 80, offset + 88) =~= m5);
            assert(dst@.subrange(offset + 88, offset + 96) =~= m6);
            assert(dst@.subrange(offset + 96, offset + 104) =~= m7);
            assert(dst@.subrange(offset + 104, offset + 112) =~= m8);
            lemma_subrange_split(dst@, offset as int, offset + 8, offset + 16);
            lemma_subrange_split(dst@, offset as int, offset + 16, offset + 48);
            lemma_subrange_split(dst@, offset as int, offset + 48, offset + 80);
            lemma_subrange_split(dst@, offset as int, offset + 80, offset + 88);
            lemma_subrange_split(dst@, offset as int, offset + 88, offset + 96);
            lemma_subrange_split(dst@, offset as int, offset + 96, offset + 104);
            lemma_subrange_split(dst@, offset as int, offset + 104, offset + 112);
        }
    }
}

} // verus!
