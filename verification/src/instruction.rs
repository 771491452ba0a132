//! Instruction wire-format codec.
//!
//! The wire format is exactly 9 octets: a discriminator octet (only defined
//! value `0`) followed by the deadline as a signed 64-bit integer in
//! little-endian byte order.

use vstd::bytes::lemma_auto_spec_u64_to_from_le_bytes;
use vstd::bytes::spec_u64_from_le_bytes;
use vstd::bytes::spec_u64_to_le_bytes;
use vstd::bytes::u64_from_le_bytes;
use vstd::bytes::u64_to_le_bytes;
use vstd::prelude::*;
use vstd::slice::slice_index_get;
use vstd::slice::slice_subrange;

verus! {

/// Instructions supported by the deadline validator program.
#[derive(Clone, Copy, Debug, PartialEq, Eq, Structural)]
pub enum DeadlineInstruction {
    /// Validates that the current unix timestamp is at or before the given
    /// deadline.
    ///
    /// Instruction data layout:
    /// - Byte 0: discriminator (`0` = `ValidateDeadline`)
    /// - Bytes 1-8: deadline (`i64`, little-endian)
    ///
    /// A deadline of `0` means "never expires"; a negative deadline is
    /// always expired, since valid current-time readings are positive.
    ValidateDeadline {
        /// Unix timestamp deadline (seconds since epoch); `0` for "never
        /// expires".
        deadline: i64,
    },
}

/// Structural defects a byte buffer can have, as found by [`DeadlineInstruction::unpack`].
#[derive(Clone, Copy, Debug, PartialEq, Eq, Structural)]
pub enum DecodeError {
    /// The input buffer holds no bytes at all.
    Empty,
    /// The discriminator octet is not a defined instruction tag.
    UnknownDiscriminator,
    /// The payload after the discriminator is not exactly 8 bytes.
    WrongLength,
}

/// The deadline encoded by an 8-byte little-endian payload.
pub open spec fn spec_i64_from_le_bytes(s: Seq<u8>) -> i64
    recommends
        s.len() == 8,
{
    spec_u64_from_le_bytes(s) as i64
}

/// The 8-byte little-endian payload encoding a deadline.
pub open spec fn spec_i64_to_le_bytes(x: i64) -> Seq<u8> {
    spec_u64_to_le_bytes(x as u64)
}

/// The byte buffer that encodes an instruction: the discriminator octet
/// followed by the deadline's 8 little-endian octets.
pub open spec fn spec_pack(instr: DeadlineInstruction) -> Seq<u8> {
    match instr {
        DeadlineInstruction::ValidateDeadline { deadline } => seq![0u8] + spec_i64_to_le_bytes(
            deadline,
        ),
    }
}

/// The instruction a byte buffer decodes to, or the defect that makes it
/// malformed. The format is fixed-size and strict: any length other than 9
/// and any discriminator other than `0` is rejected.
pub open spec fn spec_unpack(input: Seq<u8>) -> Result<DeadlineInstruction, DecodeError> {
    if input.len() == 0 {
        Err(DecodeError::Empty)
    } else if input[0] != 0 {
        Err(DecodeError::UnknownDiscriminator)
    } else if input.len() != 9 {
        Err(DecodeError::WrongLength)
    } else {
        Ok(
            DeadlineInstruction::ValidateDeadline {
                deadline: spec_i64_from_le_bytes(input.subrange(1, 9)),
            },
        )
    }
}

impl DeadlineInstruction {
    /// Unpacks an instruction from a byte buffer.
    ///
    /// Expected format:
    /// - Byte 0: discriminator (must be `0`)
    /// - Bytes 1-8: deadline as `i64`, little-endian
    pub fn unpack(input: &[u8]) -> (result: Result<Self, DecodeError>)
        ensures
            result == spec_unpack(input@),
    {
        if input.len() == 0 {
            return Err(DecodeError::Empty);
        }
        let variant = *slice_index_get(input, 0);
        if variant != 0 {
            return Err(DecodeError::UnknownDiscriminator);
        }
        if input.len() != 9 {
            return Err(DecodeError::WrongLength);
        }
        let payload = slice_subrange(input, 1, 9);
        let bits = u64_from_le_bytes(payload);
        let deadline = #[verifier::truncate] (bits as i64);
        Ok(DeadlineInstruction::ValidateDeadline { deadline })
    }

    /// Packs an instruction into a byte buffer of exactly 9 octets.
    pub fn pack(&self) -> (buf: Vec<u8>)
        ensures
            buf@ == spec_pack(*self),
            buf@.len() == 9,
    {
        match self {
            DeadlineInstruction::ValidateDeadline { deadline } => {
                let mut buf: Vec<u8> = Vec::with_capacity(9);
                buf.push(0);
                let mut tail = u64_to_le_bytes(#[verifier::truncate] (*deadline as u64));
                buf.append(&mut tail);
                proof {
                    assert(buf@ =~= spec_pack(*self));
                }
                buf
            },
        }
    }
}

/// Law: packing an instruction and unpacking the result gives the
/// instruction back, for every representable deadline.
pub proof fn lemma_pack_unpack_roundtrip(instr: DeadlineInstruction)
    ensures
        spec_unpack(spec_pack(instr)) == Ok::<DeadlineInstruction, DecodeError>(instr),
{
    let deadline = instr->deadline;
    let bytes = spec_pack(instr);
    lemma_auto_spec_u64_to_from_le_bytes();
    assert(bytes.subrange(1, 9) =~= spec_u64_to_le_bytes(deadline as u64));
    assert((deadline as u64) as i64 == deadline) by (bit_vector);
}

/// Law: `pack` is the one encoding that `unpack` accepts — any buffer that
/// decodes successfully is exactly the packed form of its decoded value.
pub proof fn lemma_unpack_canonical(bytes: Seq<u8>, instr: DeadlineInstruction)
    requires
        spec_unpack(bytes) == Ok::<DeadlineInstruction, DecodeError>(instr),
    ensures
        bytes == spec_pack(instr),
{
    let payload = bytes.subrange(1, 9);
    let bits = spec_u64_from_le_bytes(payload);
    let deadline = instr->deadline;
    lemma_auto_spec_u64_to_from_le_bytes();
    assert(deadline == bits as i64);
    assert((bits as i64) as u64 == bits) by (bit_vector);
    assert(spec_pack(instr) =~= bytes);
}

} // verus!
