//! The B-type instruction format.

use vstd::prelude::*;
use crate::arch::{Word, XWord};
use crate::bits::{
    bits, concat, concat_bits, lemma_field_bounds, sign_extend, spec_bits, spec_sign_extend,
};

verus! {

/// A RISC-V B-Type instruction.
#[derive(Debug, Clone, Copy, PartialEq, Eq, Structural)]
pub struct BType {
    /// funct3 field.
    pub funct3: u8,
    /// The first source register.
    pub rs1: u8,
    /// The second source register.
    pub rs2: u8,
    /// The sign-extended immediate
    pub imm: XWord,
}

/// The immediate of a word read as a B-type instruction: bit 31, bit 7, bits
/// `[25, 31)` and bits `[8, 12)` in this order, shifted left by one and
/// sign-extended from bit 12.
pub open spec fn imm_b(w: u32) -> u64 {
    spec_sign_extend(
        concat_bits(
            concat_bits(
                concat_bits(spec_bits(w as u64, 31, 32), spec_bits(w as u64, 7, 8), 1),
                spec_bits(w as u64, 25, 31),
                6,
            ),
            spec_bits(w as u64, 8, 12),
            4,
        ) << 1,
        12,
    )
}

/// The word that holds the given B-type fields at their places.
pub open spec fn pack_b(funct3: u8, rs1: u8, rs2: u8, imm: u64) -> u32 {
    ((((imm >> 11) & 1) as u32) << 7) | ((((imm >> 1) & 0xF) as u32) << 8) | ((funct3 as u32)
        << 12) | ((rs1 as u32) << 15) | ((rs2 as u32) << 20) | ((((imm >> 5) & 0x3F) as u32)
        << 25) | ((((imm >> 12) & 1) as u32) << 31)
}

impl BType {
    /// Every field fits its width in the encoding, and the immediate is even
    /// and sign-extended from its 13 bits.
    pub open spec fn wf(self) -> bool {
        &&& self.funct3 < 8
        &&& self.rs1 < 32
        &&& self.rs2 < 32
        &&& spec_sign_extend(self.imm, 12) == self.imm
        &&& self.imm & 1 == 0
    }

    /// The fields of a 32-bit word read as a B-type instruction.
    pub open spec fn spec_decode(instruction: Word) -> BType {
        BType {
            funct3: spec_bits(instruction as u64, 12, 15) as u8,
            rs1: spec_bits(instruction as u64, 15, 20) as u8,
            rs2: spec_bits(instruction as u64, 20, 25) as u8,
            imm: imm_b(instruction),
        }
    }

    /// The word that holds the fields at their places, with a zero opcode.
    pub open spec fn spec_encode(self) -> Word {
        pack_b(self.funct3, self.rs1, self.rs2, self.imm)
    }

    /// Decodes a [BType] instruction from a 32-bit [Word].
    pub fn decode(instruction: Word) -> (r: Self)
        ensures
            r == Self::spec_decode(instruction),
            r.wf(),
    {
        proof {
            lemma_field_bounds(instruction as u64, 12);
            lemma_field_bounds(instruction as u64, 15);
            lemma_field_bounds(instruction as u64, 20);
            lemma_b_type_imm(instruction);
        }
        let sign: XWord = bits(instruction as u64, 31, 32);
        let bit_11: XWord = bits(instruction as u64, 7, 8);
        let high: XWord = bits(instruction as u64, 25, 31);
        let low: XWord = bits(instruction as u64, 8, 12);
        let spliced: XWord = concat(concat(concat(sign, bit_11, 1), high, 6), low, 4);
        Self {
            funct3: bits(instruction as u64, 12, 15) as u8,
            rs1: bits(instruction as u64, 15, 20) as u8,
            rs2: bits(instruction as u64, 20, 25) as u8,
            imm: sign_extend(spliced << 1, 12),
        }
    }

    /// Encodes the fields into a 32-bit [Word] whose opcode bits are zero.
    pub fn encode(&self) -> (w: Word)
        ensures
            w == self.spec_encode(),
    {
        ((((self.imm >> 11) & 1) as u32) << 7) | ((((self.imm >> 1) & 0xF) as u32) << 8) | ((
        self.funct3 as u32) << 12) | ((self.rs1 as u32) << 15) | ((self.rs2 as u32) << 20) | ((((
        self.imm >> 5) & 0x3F) as u32) << 25) | ((((self.imm >> 12) & 1) as u32) << 31)
    }
}

impl Default for BType {
    fn default() -> (r: Self)
        ensures
            r == (BType { funct3: 0, rs1: 0, rs2: 0, imm: 0 }),
    {
        BType { funct3: 0, rs1: 0, rs2: 0, imm: 0 }
    }
}

proof fn lemma_b_type_imm(w: u32)
    by (bit_vector)
    ensures
        spec_sign_extend(imm_b(w), 12) == imm_b(w),
        imm_b(w) & 1 == 0,
{
}

proof fn lemma_b_type_unpack_pack(w: u32)
    by (bit_vector)
    ensures
        pack_b(
            spec_bits(w as u64, 12, 15) as u8,
            spec_bits(w as u64, 15, 20) as u8,
            spec_bits(w as u64, 20, 25) as u8,
            imm_b(w),
        ) == w & 0xFFFF_FF80,
{
}

proof fn lemma_b_type_pack_unpack(funct3: u8, rs1: u8, rs2: u8, imm: u64)
    by (bit_vector)
    requires
        funct3 < 8,
        rs1 < 32,
        rs2 < 32,
        spec_sign_extend(imm, 12) == imm,
        imm & 1 == 0,
    ensures
        spec_bits(pack_b(funct3, rs1, rs2, imm) as u64, 12, 15) as u8 == funct3,
        spec_bits(pack_b(funct3, rs1, rs2, imm) as u64, 15, 20) as u8 == rs1,
        spec_bits(pack_b(funct3, rs1, rs2, imm) as u64, 20, 25) as u8 == rs2,
        imm_b(pack_b(funct3, rs1, rs2, imm)) == imm,
{
}

/// Encoding the fields read from a word gives the word back without its opcode
/// bits, so decoding once more changes nothing.
pub proof fn lemma_b_type_decode_encode(w: Word)
    ensures
        BType::spec_decode(w).wf(),
        BType::spec_decode(w).spec_encode() == w & 0xFFFF_FF80,
        BType::spec_decode(BType::spec_decode(w).spec_encode()) == BType::spec_decode(w),
{
    lemma_b_type_unpack_pack(w);
    let t = BType::spec_decode(w);
    lemma_field_bounds(w as u64, 12);
    lemma_field_bounds(w as u64, 15);
    lemma_field_bounds(w as u64, 20);
    lemma_b_type_imm(w);
    lemma_b_type_pack_unpack(t.funct3, t.rs1, t.rs2, t.imm);
}

/// Decoding the encoding of well-formed fields gives the fields back.
pub proof fn lemma_b_type_encode_decode(t: BType)
    requires
        t.wf(),
    ensures
        BType::spec_decode(t.spec_encode()) == t,
{
    lemma_b_type_pack_unpack(t.funct3, t.rs1, t.rs2, t.imm);
}

} // verus!
