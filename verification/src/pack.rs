//! The binary codec contract: every fixed-length record type packs to and
//! unpacks from a byte buffer at fixed offsets, and every instruction payload
//! additionally carries a one-byte opcode prefix.

use crate::error::PythError;
use crate::instruction::{instruction_id_to_u8, spec_instruction_id_u8, PythInstructionId};
use vstd::prelude::*;
use vstd::slice::slice_subrange;

verus! {

/// The `k`-th back-to-back chunk of `n` bytes of `s`, starting at `offset`.
pub open spec fn spec_chunk_at(s: Seq<u8>, offset: int, k: int, n: nat) -> Seq<u8> {
    s.subrange(offset + k * n, offset + k * n + n)
}

/// A fixed-length record with an exact little-endian byte image.
///
/// `spec_pack` is the byte image of a value, always `spec_len()` bytes long;
/// `bytes_valid` says whether a `spec_len()`-byte buffer decodes without
/// error (an enumerated tag out of range is the only way it cannot); and
/// `spec_unpack` is the decoded value of such a buffer. The two proof
/// obligations make the pack/unpack pair a bijection between values and
/// valid byte images, for every implementing type.
///
/// Packing writes at a caller-chosen offset so that enclosing records can
/// lay out their sub-records back to back in one destination buffer.
pub trait PythPack: Sized {
    /// Length of the packed record, in bytes.
    spec fn spec_len() -> nat;

    /// The exact byte image of `self`.
    spec fn spec_pack(&self) -> Seq<u8>;

    /// Whether the first `spec_len()` bytes of `s` decode without error.
    spec fn bytes_valid(s: Seq<u8>) -> bool;

    /// The value stored in `s` (expected to hold `spec_len()` bytes).
    spec fn spec_unpack(s: Seq<u8>) -> Self;

    /// Length of the packed record, as an executable value.
    fn packed_len() -> (n: usize)
        ensures
            n == Self::spec_len(),
    ;

    /// Packing then unpacking recovers the value, for all field values; the
    /// byte image is exactly `spec_len()` bytes and always decodes.
    proof fn lemma_pack_roundtrip(&self)
        ensures
            self.spec_pack().len() == Self::spec_len(),
            Self::bytes_valid(self.spec_pack()),
            Self::spec_unpack(self.spec_pack()) == *self,
    ;

    /// Unpacking then packing reproduces any valid byte image, byte for
    /// byte.
    proof fn lemma_unpack_roundtrip(s: Seq<u8>)
        requires
            s.len() == Self::spec_len(),
            Self::bytes_valid(s),
        ensures
            Self::spec_unpack(s).spec_pack() == s,
    ;

    /// Decodes the record stored in the first `spec_len()` bytes of `src`.
    /// Fails, reading nothing out of bounds, when `src` is shorter than the
    /// record or a field's constraints are violated; no partial result.
    fn unpack_from_slice(src: &[u8]) -> (r: Result<Self, PythError>)
        ensures
            r is Ok <==> src@.len() >= Self::spec_len() && Self::bytes_valid(
                src@.take(Self::spec_len() as int),
            ),
            r is Ok ==> r->Ok_0 == Self::spec_unpack(src@.take(Self::spec_len() as int)),
            r is Err ==> r->Err_0 == PythError::CouldNotDecodeInstruction,
    ;

    /// Writes exactly `spec_len()` bytes of `self` into `dst` at `offset`,
    /// never reading the destination's prior content and leaving every byte
    /// outside the written range unchanged.
    fn pack_into_slice(&self, dst: &mut Vec<u8>, offset: usize) -> (r: Result<(), PythError>)
        requires
            offset + Self::spec_len() <= old(dst)@.len(),
        ensures
            r is Ok,
            final(dst)@.len() == old(dst)@.len(),
            final(dst)@.subrange(offset as int, offset + Self::spec_len()) == self.spec_pack(),
            forall|i: int|
                0 <= i < final(dst)@.len() && !(offset <= i < offset + Self::spec_len())
                    ==> final(dst)@[i] == old(dst)@[i],
    ;

    /// Decodes `count` back-to-back records from the front of `src`. Fails
    /// when `src` is too short or any single record fails to decode.
    fn unpack_items_from_slice(count: usize, src: &[u8]) -> (r: Result<Vec<Self>, PythError>)
        ensures
            r is Ok <==> count * Self::spec_len() <= src@.len() && (forall|k: int|
                0 <= k < count ==> Self::bytes_valid(
                    #[trigger] spec_chunk_at(src@, 0, k, Self::spec_len()),
                )),
            r is Ok ==> r->Ok_0@.len() == count && (forall|k: int|
                0 <= k < count ==> r->Ok_0@[k] == Self::spec_unpack(
                    #[trigger] spec_chunk_at(src@, 0, k, Self::spec_len()),
                )),
            r is Err ==> r->Err_0 == PythError::CouldNotDecodeInstruction,
    {
        let src_len = src.len();
        let n = Self::packed_len();
        let total = match count.checked_mul(n) {
            Some(t) => t,
            None => {
                return Err(PythError::CouldNotDecodeInstruction);
            },
        };
        if total > src_len {
            return Err(PythError::CouldNotDecodeInstruction);
        }
        let mut result: Vec<Self> = Vec::new();
        let mut start: usize = 0;
        let mut k: usize = 0;
        while k < count
            invariant
                n == Self::spec_len(),
                count * n <= src@.len(),
                src@.len() <= usize::MAX,
                k <= count,
                start == k * n,
                result@.len() == k,
                forall|j: int|
                    0 <= j < k ==> Self::bytes_valid(
                        #[trigger] spec_chunk_at(src@, 0, j, Self::spec_len()),
                    ),
                forall|j: int|
                    0 <= j < k ==> result@[j] == Self::spec_unpack(
                        #[trigger] spec_chunk_at(src@, 0, j, Self::spec_len()),
                    ),
            decreases count - k,
        {
            proof {
                assert((k + 1) * n == k * n + n) by (nonlinear_arith);
                assert((k + 1) * n <= count * n) by (nonlinear_arith)
                    requires
                        k < count,
                        0 <= n,
                ;
            }
            let bytes = slice_subrange(src, start, start + n);
            proof {
                assert(bytes@.take(Self::spec_len() as int) =~= spec_chunk_at(
                    src@,
                    0,
                    k as int,
                    Self::spec_len(),
                ));
            }
            let item = match Self::unpack_from_slice(bytes) {
                Ok(item) => item,
                Err(e) => {
                    return Err(e);
                },
            };
            result.push(item);
            start = start + n;
            k = k + 1;
        }
        Ok(result)
    }

    /// Allocates a buffer of exactly `spec_len()` bytes holding the packed
    /// record.
    fn pack_into_vec(&self) -> (r: Result<Vec<u8>, PythError>)
        ensures
            r is Ok,
            r->Ok_0@ == self.spec_pack(),
    {
        let n = Self::packed_len();
        let mut buf: Vec<u8> = Vec::new();
        while buf.len() < n
            invariant
                buf@.len() <= n,
            decreases n - buf@.len(),
        {
            buf.push(0);
        }
        let r = self.pack_into_slice(&mut buf, 0);
        match r {
            Ok(_) => {
                proof {
                    self.lemma_pack_roundtrip();
                    assert(buf@ =~= buf@.subrange(0, Self::spec_len() as int));
                }
                Ok(buf)
            },
            Err(e) => Err(e),
        }
    }

    /// Packs the records of `items` back to back into `dst` starting at
    /// `offset`, leaving every byte outside the written range unchanged.
    fn pack_items_into_slice(items: &[Self], dst: &mut Vec<u8>, offset: usize) -> (r: Result<
        (),
        PythError,
    >)
        requires
            offset + items@.len() * Self::spec_len() <= old(dst)@.len(),
        ensures
            r is Ok,
            final(dst)@.len() == old(dst)@.len(),
            forall|k: int|
                0 <= k < items@.len() ==> #[trigger] spec_chunk_at(
                    final(dst)@,
                    offset as int,
                    k,
                    Self::spec_len(),
                ) == items@[k].spec_pack(),
            forall|i: int|
                0 <= i < final(dst)@.len() && !(offset <= i < offset + items@.len()
                    * Self::spec_len()) ==> final(dst)@[i] == old(dst)@[i],
    {
        let _dst_len = dst.len();
        let n = Self::packed_len();
        let m = items.len();
        let mut k: usize = 0;
        let mut start: usize = offset;
        while k < m
            invariant
                n == Self::spec_len(),
                m == items@.len(),
                offset + m * n <= old(dst)@.len(),
                dst@.len() == old(dst)@.len(),
                old(dst)@.len() <= usize::MAX,
                k <= m,
                start == offset + k * n,
                forall|j: int|
                    0 <= j < k ==> #[trigger] spec_chunk_at(dst@, offset as int, j, Self::spec_len())
                        == items@[j].spec_pack(),
                forall|i: int|
                    0 <= i < dst@.len() && !(offset <= i < start) ==> dst@[i] == old(dst)@[i],
            decreases m - k,
        {
            proof {
                assert((k + 1) * n == k * n + n) by (nonlinear_arith);
                assert((k + 1) * n <= m * n) by (nonlinear_arith)
                    requires
                        k < m,
                        0 <= n,
                ;
            }
            let ghost prev = dst@;
            let r = items[k].pack_into_slice(dst, start);
            match r {
                Ok(_) => {},
                Err(e) => {
                    return Err(e);
                },
            }
            proof {
                assert forall|j: int| 0 <= j < k + 1 implies #[trigger] spec_chunk_at(
                    dst@,
                    offset as int,
                    j,
                    Self::spec_len(),
                ) == items@[j].spec_pack() by {
                    items@[j].lemma_pack_roundtrip();
                    if j < k {
                        assert((j + 1) * n <= k * n) by (nonlinear_arith)
                            requires
                                j < k,
                                0 <= n,
                        ;
                        assert((j + 1) * n == j * n + n) by (nonlinear_arith);
                        assert(j * n >= 0) by (nonlinear_arith)
                            requires
                                0 <= j,
                                0 <= n,
                        ;
                        assert(k * n <= m * n) by (nonlinear_arith)
                            requires
                                k <= m,
                                0 <= n,
                        ;
                        let cj_new = spec_chunk_at(dst@, offset as int, j, Self::spec_len());
                        let cj_old = spec_chunk_at(prev, offset as int, j, Self::spec_len());
                        assert forall|t: int| 0 <= t < n implies cj_new[t] == cj_old[t] by {
                            assert(cj_new[t] == dst@[offset + j * n + t]);
                            assert(cj_old[t] == prev[offset + j * n + t]);
                            assert(offset + j * n + t < start);
                        }
                        assert(cj_new =~= cj_old);
                    } else {
                        assert(spec_chunk_at(dst@, offset as int, j, Self::spec_len())
                            =~= dst@.subrange(start as int, start + n));
                    }
                }
            }
            start = start + n;
            k = k + 1;
        }
        Ok(())
    }
}

/// A packable record that is additionally an instruction payload: it owns
/// one opcode of the enumerated opcode space, carried as a one-byte prefix
/// in front of the packed payload.
pub trait PythInstruction: PythPack {
    /// The opcode this payload type answers to.
    spec fn spec_id() -> PythInstructionId;

    /// The opcode, as an executable value.
    fn id() -> (r: PythInstructionId)
        ensures
            r == Self::spec_id(),
    ;

    /// Decodes a whole instruction: the first byte must equal this type's
    /// opcode, and the rest is the payload. An empty buffer or a short or
    /// malformed payload fails decode; a wrong opcode byte is reported as
    /// the operation not being implemented by this type.
    fn unpack_instruction(src: &[u8]) -> (r: Result<Self, PythError>)
        ensures
            src@.len() == 0 ==> r == Err::<Self, PythError>(PythError::CouldNotDecodeInstruction),
            src@.len() > 0 && src@[0] != spec_instruction_id_u8(Self::spec_id()) ==> r == Err::<
                Self,
                PythError,
            >(PythError::NotImplemented),
            src@.len() > 0 && src@[0] == spec_instruction_id_u8(Self::spec_id()) ==> {
                &&& r is Ok <==> src@.len() >= Self::spec_len() + 1 && Self::bytes_valid(
                    src@.skip(1).take(Self::spec_len() as int),
                )
                &&& r is Ok ==> r->Ok_0 == Self::spec_unpack(
                    src@.skip(1).take(Self::spec_len() as int),
                )
                &&& r is Err ==> r->Err_0 == PythError::CouldNotDecodeInstruction
            },
    {
        let src_len = src.len();
        if src_len == 0 {
            return Err(PythError::CouldNotDecodeInstruction);
        }
        let id = instruction_id_to_u8(Self::id());
        if src[0] != id {
            Err(PythError::NotImplemented)
        } else {
            let payload = slice_subrange(src, 1, src_len);
            proof {
                assert(payload@ =~= src@.skip(1));
            }
            Self::unpack_from_slice(payload)
        }
    }

    /// Packs a whole instruction into the front of `dst`: the opcode byte at
    /// offset 0, the payload right behind it.
    fn pack_instruction(&self, dst: &mut Vec<u8>) -> (r: Result<(), PythError>)
        requires
            Self::spec_len() + 1 <= old(dst)@.len(),
        ensures
            r is Ok,
            final(dst)@.len() == old(dst)@.len(),
            final(dst)@[0] == spec_instruction_id_u8(Self::spec_id()),
            final(dst)@.subrange(1, 1 + Self::spec_len() as int) == self.spec_pack(),
            forall|i: int|
                1 + Self::spec_len() <= i < final(dst)@.len() ==> final(dst)@[i] == old(dst)@[i],
    {
        let _dst_len = dst.len();
        let id = instruction_id_to_u8(Self::id());
        dst[0] = id;
        self.pack_into_slice(dst, 1)
    }

    /// Allocates a buffer of exactly `spec_len() + 1` bytes holding the
    /// opcode byte followed by the packed payload.
    fn pack_instruction_into_vec(&self) -> (r: Result<Vec<u8>, PythError>)
        ensures
            r is Ok,
            r->Ok_0@ == seq![spec_instruction_id_u8(Self::spec_id())] + self.spec_pack(),
    {
        let n = Self::packed_len();
        proof {
            self.lemma_pack_roundtrip();
        }
        let mut buf: Vec<u8> = Vec::new();
        buf.push(instruction_id_to_u8(Self::id()));
        while buf.len() <= n
            invariant
                1 <= buf@.len() <= n + 1,
                buf@[0] == spec_instruction_id_u8(Self::spec_id()),
            decreases n + 1 - buf@.len(),
        {
            buf.push(0);
        }
        let r = self.pack_into_slice(&mut buf, 1);
        match r {
            Ok(_) => {
                proof {
                    assert(buf@ =~= seq![spec_instruction_id_u8(Self::spec_id())]
                        + self.spec_pack());
                }
                Ok(buf)
            },
            Err(e) => Err(e),
        }
    }
}

/// Opcode fidelity: decoding the encoded form of any instruction payload
/// recovers the payload value, and the encoded form carries the payload
/// type's own opcode in its first byte.
pub proof fn lemma_instruction_roundtrip<T: PythInstruction>(x: T)
    ensures
        ({
            let bytes = seq![spec_instruction_id_u8(T::spec_id())] + x.spec_pack();
            &&& bytes.len() == T::spec_len() + 1
            &&& bytes[0] == spec_instruction_id_u8(T::spec_id())
            &&& T::bytes_valid(bytes.skip(1).take(T::spec_len() as int))
            &&& T::spec_unpack(bytes.skip(1).take(T::spec_len() as int)) == x
        }),
{
    x.lemma_pack_roundtrip();
    let bytes = seq![spec_instruction_id_u8(T::spec_id())] + x.spec_pack();
    assert(bytes.skip(1).take(T::spec_len() as int) =~= x.spec_pack());
}

} // verus!
