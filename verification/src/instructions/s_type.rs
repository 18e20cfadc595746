//! The S-type instruction format.

use vstd::prelude::*;
use crate::arch::{Word, XWord};
use crate::bits::{
    bits, concat, concat_bits, lemma_field_bounds, sign_extend, spec_bits, spec_sign_extend,
};

verus! {

/// A RISC-V S-Type instruction.
#[derive(Debug, Clone, Copy, PartialEq, Eq, Structural)]
pub struct SType {
    /// funct3 field.
    pub funct3: u8,
    /// The first source register.
    pub rs1: u8,
    /// The second source register.
    pub rs2: u8,
    /// The sign-extended immediate
    pub imm: XWord,
}

/// The immediate of a word read as an S-type instruction: bits `[25, 32)`
/// followed by bits `[7, 12)`, sign-extended from bit 11.
pub open spec fn imm_s(w: u32) -> u64 {
    spec_sign_extend(concat_bits(spec_bits(w as u64, 25, 32), spec_bits(w as u64, 7, 12), 5), 11)
}

/// The word that holds the given S-type fields at their places.
pub open spec fn pack_s(funct3: u8, rs1: u8, rs2: u8, imm: u64) -> u32 {
    (((imm & 0x1F) as u32) << 7) | ((funct3 as u32) << 12) | ((rs1 as u32) << 15) | ((rs2 as u32)
        << 20) | ((((imm >> 5) & 0x7F) as u32) << 25)
}

impl SType {
    /// Every field fits its width in the encoding, and the immediate is
    /// sign-extended from its 12 bits.
    pub open spec fn wf(self) -> bool {
        &&& self.funct3 < 8
        &&& self.rs1 < 32
        &&& self.rs2 < 32
        &&& spec_sign_extend(self.imm, 11) == self.imm
    }

    /// The fields of a 32-bit word read as an S-type instruction.
    pub open spec fn spec_decode(instruction: Word) -> SType {
        SType {
            funct3: spec_bits(instruction as u64, 12, 15) as u8,
            rs1: spec_bits(instruction as u64, 15, 20) as u8,
            rs2: spec_bits(instruction as u64, 20, 25) as u8,
            imm: imm_s(instruction),
        }
    }

    /// The word that holds the fields at their places, with a zero opcode.
    pub open spec fn spec_encode(self) -> Word {
        pack_s(self.funct3, self.rs1, self.rs2, self.imm)
    }

    /// Decodes an [SType] instruction from a 32-bit [Word].
    pub fn decode(instruction: Word) -> (r: Self)
        ensures
            r == Self::spec_decode(instruction),
            r.wf(),
    {
        proof {
            lemma_field_bounds(instruction as u64, 12);
            lemma_field_bounds(instruction as u64, 15);
            lemma_field_bounds(instruction as u64, 20);
            lemma_s_type_imm(instruction);
        }
        let high: XWord = bits(instruction as u64, 25, 32);
        let low: XWord = bits(instruction as u64, 7, 12);
        Self {
            funct3: bits(instruction as u64, 12, 15) as u8,
            rs1: bits(instruction as u64, 15, 20) as u8,
            rs2: bits(instruction as u64, 20, 25) as u8,
            imm: sign_extend(concat(high, low, 5), 11),
        }
    }

    /// Encodes the fields into a 32-bit [Word] whose opcode bits are zero.
    pub fn encode(&self) -> (w: Word)
        ensures
            w == self.spec_encode(),
    {
        (((self.imm & 0x1F) as u32) << 7) | ((self.funct3 as u32) << 12) | ((self.rs1 as u32)
            << 15) | ((self.rs2 as u32) << 20) | ((((self.imm >> 5) & 0x7F) as u32) << 25)
    }
}

impl Default for SType {
    fn default() -> (r: Self)
        ensures
            r == (SType { funct3: 0, rs1: 0, rs2: 0, imm: 0 }),
    {
        SType { funct3: 0, rs1: 0, rs2: 0, imm: 0 }
    }
}

proof fn lemma_s_type_imm(w: u32)
    by (bit_vector)
    ensures
        spec_sign_extend(imm_s(w), 11) == imm_s(w),
{
}

proof fn lemma_s_type_unpack_pack(w: u32)
    by (bit_vector)
    ensures
        pack_s(
            spec_bits(w as u64, 12, 15) as u8,
            spec_bits(w as u64, 15, 20) as u8,
            spec_bits(w as u64, 20, 25) as u8,
            imm_s(w),
        ) == w & 0xFFFF_FF80,
{
}

proof fn lemma_s_type_pack_unpack(funct3: u8, rs1: u8, rs2: u8, imm: u64)
    by (bit_vector)
    requires
        funct3 < 8,
        rs1 < 32,
        rs2 < 32,
        spec_sign_extend(imm, 11) == imm,
    ensures
        spec_bits(pack_s(funct3, rs1, rs2, imm) as u64, 12, 15) as u8 == funct3,
        spec_bits(pack_s(funct3, rs1, rs2, imm) as u64, 15, 20) as u8 == rs1,
        spec_bits(pack_s(funct3, rs1, rs2, imm) as u64, 20, 25) as u8 == rs2,
        imm_s(pack_s(funct3, rs1, rs2, imm)) == imm,
{
}

/// Encoding the fields read from a word gives the word back without its opcode
/// bits, so decoding once more changes nothing.
pub proof fn lemma_s_type_decode_encode(w: Word)
    ensures
        SType::spec_decode(w).wf(),
        SType::spec_decode(w).spec_encode() == w & 0xFFFF_FF80,
        SType::spec_decode(SType::spec_decode(w).spec_encode()) == SType::spec_decode(w),
{
    lemma_s_type_unpack_pack(w);
    let t = SType::spec_decode(w);
    lemma_field_bounds(w as u64, 12);
    lemma_field_bounds(w as u64, 15);
    lemma_field_bounds(w as u64, 20);
    lemma_s_type_imm(w);
    lemma_s_type_pack_unpack(t.funct3, t.rs1, t.rs2, t.imm);
}

/// Decoding the encoding of well-formed fields gives the fields back.
pub proof fn lemma_s_type_encode_decode(t: SType)
    requires
        t.wf(),
    ensures
        SType::spec_decode(t.spec_encode()) == t,
{
    lemma_s_type_pack_unpack(t.funct3, t.rs1, t.rs2, t.imm);
}

} // verus!
