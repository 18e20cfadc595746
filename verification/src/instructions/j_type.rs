//! The J-type instruction format.

use vstd::prelude::*;
use crate::arch::{Word, XWord};
use crate::bits::{
    bits, concat, concat_bits, lemma_field_bounds, sign_extend, spec_bits, spec_sign_extend,
};

verus! {

/// A RISC-V J-Type instruction.
#[derive(Debug, Clone, Copy, PartialEq, Eq, Structural)]
pub struct JType {
    /// The destination register.
    pub rd: u8,
    /// The sign-extended immediate
    pub imm: XWord,
}

/// The immediate of a word read as a J-type instruction: bit 31, bits
/// `[12, 20)`, bit 20 and bits `[21, 31)` in this order, shifted left by one and
/// sign-extended from bit 20.
pub open spec fn imm_j(w: u32) -> u64 {
    spec_sign_extend(
        concat_bits(
            concat_bits(
                concat_bits(spec_bits(w as u64, 31, 32), spec_bits(w as u64, 12, 20), 8),
                spec_bits(w as u64, 20, 21),
                1,
            ),
            spec_bits(w as u64, 21, 31),
            10,
        ) << 1,
        20,
    )
}

/// The word that holds the given J-type fields at their places.
pub open spec fn pack_j(rd: u8, imm: u64) -> u32 {
    ((rd as u32) << 7) | ((((imm >> 12) & 0xFF) as u32) << 12) | ((((imm >> 11) & 1) as u32)
        << 20) | ((((imm >> 1) & 0x3FF) as u32) << 21) | ((((imm >> 20) & 1) as u32) << 31)
}

impl JType {
    /// The register fits its width in the encoding, and the immediate is even
    /// and sign-extended from its 21 bits.
    pub open spec fn wf(self) -> bool {
        &&& self.rd < 32
        &&& spec_sign_extend(self.imm, 20) == self.imm
        &&& self.imm & 1 == 0
    }

    /// The fields of a 32-bit word read as a J-type instruction.
    pub open spec fn spec_decode(instruction: Word) -> JType {
        JType { rd: spec_bits(instruction as u64, 7, 12) as u8, imm: imm_j(instruction) }
    }

    /// The word that holds the fields at their places, with a zero opcode.
    pub open spec fn spec_encode(self) -> Word {
        pack_j(self.rd, self.imm)
    }

    /// Decodes a [JType] instruction from a 32-bit [Word].
    pub fn decode(instruction: Word) -> (r: Self)
        ensures
            r == Self::spec_decode(instruction),
            r.wf(),
    {
        proof {
            lemma_field_bounds(instruction as u64, 7);
            lemma_j_type_imm(instruction);
        }
        let sign: XWord = bits(instruction as u64, 31, 32);
        let high: XWord = bits(instruction as u64, 12, 20);
        let bit_11: XWord = bits(instruction as u64, 20, 21);
        let low: XWord = bits(instruction as u64, 21, 31);
        let spliced: XWord = concat(concat(concat(sign, high, 8), bit_11, 1), low, 10);
        Self { rd: bits(instruction as u64, 7, 12) as u8, imm: sign_extend(spliced << 1, 20) }
    }

    /// Encodes the fields into a 32-bit [Word] whose opcode bits are zero.
    pub fn encode(&self) -> (w: Word)
        ensures
            w == self.spec_encode(),
    {
        ((self.rd as u32) << 7) | ((((self.imm >> 12) & 0xFF) as u32) << 12) | ((((self.imm >> 11)
            & 1) as u32) << 20) | ((((self.imm >> 1) & 0x3FF) as u32) << 21) | ((((self.imm >> 20)
            & 1) as u32) << 31)
    }
}

impl Default for JType {
    fn default() -> (r: Self)
        ensures
            r == (JType { rd: 0, imm: 0 }),
    {
        JType { rd: 0, imm: 0 }
    }
}

proof fn lemma_j_type_imm(w: u32)
    by (bit_vector)
    ensures
        spec_sign_extend(imm_j(w), 20) == imm_j(w),
        imm_j(w) & 1 == 0,
{
}

proof fn lemma_j_type_unpack_pack(w: u32)
    by (bit_vector)
    ensures
        pack_j(spec_bits(w as u64, 7, 12) as u8, imm_j(w)) == w & 0xFFFF_FF80,
{
}

proof fn lemma_j_type_pack_unpack(rd: u8, imm: u64)
    by (bit_vector)
    requires
        rd < 32,
        spec_sign_extend(imm, 20) == imm,
        imm & 1 == 0,
    ensures
        spec_bits(pack_j(rd, imm) as u64, 7, 12) as u8 == rd,
        imm_j(pack_j(rd, imm)) == imm,
{
}

/// Encoding the fields read from a word gives the word back without its opcode
/// bits, so decoding once more changes nothing.
pub proof fn lemma_j_type_decode_encode(w: Word)
    ensures
        JType::spec_decode(w).wf(),
        JType::spec_decode(w).spec_encode() == w & 0xFFFF_FF80,
        JType::spec_decode(JType::spec_decode(w).spec_encode()) == JType::spec_decode(w),
{
    lemma_j_type_unpack_pack(w);
    let t = JType::spec_decode(w);
    lemma_field_bounds(w as u64, 7);
    lemma_j_type_imm(w);
    lemma_j_type_pack_unpack(t.rd, t.imm);
}

/// Decoding the encoding of well-formed fields gives the fields back.
pub proof fn lemma_j_type_encode_decode(t: JType)
    requires
        t.wf(),
    ensures
        JType::spec_decode(t.spec_encode()) == t,
{
    lemma_j_type_pack_unpack(t.rd, t.imm);
}

} // verus!
