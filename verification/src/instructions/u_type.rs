//! The U-type instruction format.

use vstd::prelude::*;
use crate::arch::{Word, XWord};
use crate::bits::{bits, lemma_field_bounds, sign_extend, spec_bits, spec_sign_extend};

verus! {

/// A RISC-V U-Type instruction.
#[derive(Debug, Clone, Copy, PartialEq, Eq, Structural)]
pub struct UType {
    /// The destination register.
    pub rd: u8,
    /// The sign-extended immediate
    pub imm: XWord,
}

/// The immediate of a word read as a U-type instruction: bits `[12, 32)`
/// shifted left by 12 and sign-extended from bit 31.
pub open spec fn imm_u(w: u32) -> u64 {
    spec_sign_extend(spec_bits(w as u64, 12, 32) << 12, 31)
}

/// The word that holds the given U-type fields at their places.
pub open spec fn pack_u(rd: u8, imm: u64) -> u32 {
    ((rd as u32) << 7) | ((imm & 0xFFFF_F000) as u32)
}

impl UType {
    /// The register fits its width in the encoding, and the immediate is a
    /// multiple of 4096 that is sign-extended from its 32 bits.
    pub open spec fn wf(self) -> bool {
        &&& self.rd < 32
        &&& spec_sign_extend(self.imm, 31) == self.imm
        &&& self.imm & 0xFFF == 0
    }

    /// The fields of a 32-bit word read as a U-type instruction.
    pub open spec fn spec_decode(instruction: Word) -> UType {
        UType { rd: spec_bits(instruction as u64, 7, 12) as u8, imm: imm_u(instruction) }
    }

    /// The word that holds the fields at their places, with a zero opcode.
    pub open spec fn spec_encode(self) -> Word {
        pack_u(self.rd, self.imm)
    }

    /// Decodes a [UType] instruction from a 32-bit [Word].
    pub fn decode(instruction: Word) -> (r: Self)
        ensures
            r == Self::spec_decode(instruction),
            r.wf(),
    {
        proof {
            lemma_field_bounds(instruction as u64, 7);
            lemma_u_type_imm(instruction);
        }
        Self {
            rd: bits(instruction as u64, 7, 12) as u8,
            imm: sign_extend(bits(instruction as u64, 12, 32) << 12, 31),
        }
    }

    /// Encodes the fields into a 32-bit [Word] whose opcode bits are zero.
    pub fn encode(&self) -> (w: Word)
        ensures
            w == self.spec_encode(),
    {
        ((self.rd as u32) << 7) | ((self.imm & 0xFFFF_F000) as u32)
    }
}

impl Default for UType {
    fn default() -> (r: Self)
        ensures
            r == (UType { rd: 0, imm: 0 }),
    {
        UType { rd: 0, imm: 0 }
    }
}

proof fn lemma_u_type_imm(w: u32)
    by (bit_vector)
    ensures
        spec_sign_extend(imm_u(w), 31) == imm_u(w),
        imm_u(w) & 0xFFF == 0,
{
}

proof fn lemma_u_type_unpack_pack(w: u32)
    by (bit_vector)
    ensures
        pack_u(spec_bits(w as u64, 7, 12) as u8, imm_u(w)) == w & 0xFFFF_FF80,
{
}

proof fn lemma_u_type_pack_unpack(rd: u8, imm: u64)
    by (bit_vector)
    requires
        rd < 32,
        spec_sign_extend(imm, 31) == imm,
        imm & 0xFFF == 0,
    ensures
        spec_bits(pack_u(rd, imm) as u64, 7, 12) as u8 == rd,
        imm_u(pack_u(rd, imm)) == imm,
{
}

/// Encoding the fields read from a word gives the word back without its opcode
/// bits, so decoding once more changes nothing.
pub proof fn lemma_u_type_decode_encode(w: Word)
    ensures
        UType::spec_decode(w).wf(),
        UType::spec_decode(w).spec_encode() == w & 0xFFFF_FF80,
        UType::spec_decode(UType::spec_decode(w).spec_encode()) == UType::spec_decode(w),
{
    lemma_u_type_unpack_pack(w);
    let t = UType::spec_decode(w);
    lemma_field_bounds(w as u64, 7);
    lemma_u_type_imm(w);
    lemma_u_type_pack_unpack(t.rd, t.imm);
}

/// Decoding the encoding of well-formed fields gives the fields back.
pub proof fn lemma_u_type_encode_decode(t: UType)
    requires
        t.wf(),
    ensures
        UType::spec_decode(t.spec_encode()) == t,
{
    lemma_u_type_pack_unpack(t.rd, t.imm);
}

} // verus!
