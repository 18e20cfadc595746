//! The I-type instruction format.

use vstd::prelude::*;
use crate::arch::{Word, XWord};
use crate::bits::{bits, lemma_field_bounds, sign_extend, spec_bits, spec_sign_extend};

verus! {

/// A RISC-V I-Type instruction.
#[derive(Debug, Clone, Copy, PartialEq, Eq, Structural)]
pub struct IType {
    /// The destination register.
    pub rd: u8,
    /// funct3 field.
    pub funct3: u8,
    /// The source register.
    pub rs1: u8,
    /// The sign-extended immediate
    pub imm: XWord,
}

/// The immediate of a word read as an I-type instruction: bits `[20, 32)`,
/// sign-extended from bit 11.
pub open spec fn imm_i(w: u32) -> u64 {
    spec_sign_extend(spec_bits(w as u64, 20, 32), 11)
}

/// The word that holds the given I-type fields at their places.
pub open spec fn pack_i(rd: u8, funct3: u8, rs1: u8, imm: u64) -> u32 {
    ((rd as u32) << 7) | ((funct3 as u32) << 12) | ((rs1 as u32) << 15) | (((imm & 0xFFF) as u32)
        << 20)
}

impl IType {
    /// Every field fits its width in the encoding, and the immediate is
    /// sign-extended from its 12 bits.
    pub open spec fn wf(self) -> bool {
        &&& self.rd < 32
        &&& self.funct3 < 8
        &&& self.rs1 < 32
        &&& spec_sign_extend(self.imm, 11) == self.imm
    }

    /// The fields of a 32-bit word read as an I-type instruction.
    pub open spec fn spec_decode(instruction: Word) -> IType {
        IType {
            rd: spec_bits(instruction as u64, 7, 12) as u8,
            funct3: spec_bits(instruction as u64, 12, 15) as u8,
            rs1: spec_bits(instruction as u64, 15, 20) as u8,
            imm: imm_i(instruction),
        }
    }

    /// The word that holds the fields at their places, with a zero opcode.
    pub open spec fn spec_encode(self) -> Word {
        pack_i(self.rd, self.funct3, self.rs1, self.imm)
    }

    /// Decodes an [IType] instruction from a 32-bit [Word].
    pub fn decode(instruction: Word) -> (r: Self)
        ensures
            r == Self::spec_decode(instruction),
            r.wf(),
    {
        proof {
            lemma_field_bounds(instruction as u64, 7);
            lemma_field_bounds(instruction as u64, 12);
            lemma_field_bounds(instruction as u64, 15);
            lemma_i_type_imm(instruction);
        }
        Self {
            rd: bits(instruction as u64, 7, 12) as u8,
            funct3: bits(instruction as u64, 12, 15) as u8,
            rs1: bits(instruction as u64, 15, 20) as u8,
            imm: sign_extend(bits(instruction as u64, 20, 32), 11),
        }
    }

    /// Encodes the fields into a 32-bit [Word] whose opcode bits are zero.
    pub fn encode(&self) -> (w: Word)
        ensures
            w == self.spec_encode(),
    {
        ((self.rd as u32) << 7) | ((self.funct3 as u32) << 12) | ((self.rs1 as u32) << 15) | (((
        self.imm & 0xFFF) as u32) << 20)
    }
}

impl Default for IType {
    fn default() -> (r: Self)
        ensures
            r == (IType { rd: 0, funct3: 0, rs1: 0, imm: 0 }),
    {
        IType { rd: 0, funct3: 0, rs1: 0, imm: 0 }
    }
}

proof fn lemma_i_type_imm(w: u32)
    by (bit_vector)
    ensures
        spec_sign_extend(imm_i(w), 11) == imm_i(w),
{
}

proof fn lemma_i_type_unpack_pack(w: u32)
    by (bit_vector)
    ensures
        pack_i(
            spec_bits(w as u64, 7, 12) as u8,
            spec_bits(w as u64, 12, 15) as u8,
            spec_bits(w as u64, 15, 20) as u8,
            imm_i(w),
        ) == w & 0xFFFF_FF80,
{
}

proof fn lemma_i_type_pack_unpack(rd: u8, funct3: u8, rs1: u8, imm: u64)
    by (bit_vector)
    requires
        rd < 32,
        funct3 < 8,
        rs1 < 32,
        spec_sign_extend(imm, 11) == imm,
    ensures
        spec_bits(pack_i(rd, funct3, rs1, imm) as u64, 7, 12) as u8 == rd,
        spec_bits(pack_i(rd, funct3, rs1, imm) as u64, 12, 15) as u8 == funct3,
        spec_bits(pack_i(rd, funct3, rs1, imm) as u64, 15, 20) as u8 == rs1,
        imm_i(pack_i(rd, funct3, rs1, imm)) == imm,
{
}

/// Encoding the fields read from a word gives the word back without its opcode
/// bits, so decoding once more changes nothing.
pub proof fn lemma_i_type_decode_encode(w: Word)
    ensures
        IType::spec_decode(w).wf(),
        IType::spec_decode(w).spec_encode() == w & 0xFFFF_FF80,
        IType::spec_decode(IType::spec_decode(w).spec_encode()) == IType::spec_decode(w),
{
    lemma_i_type_unpack_pack(w);
    let t = IType::spec_decode(w);
    lemma_field_bounds(w as u64, 7);
    lemma_field_bounds(w as u64, 12);
    lemma_field_bounds(w as u64, 15);
    lemma_i_type_imm(w);
    lemma_i_type_pack_unpack(t.rd, t.funct3, t.rs1, t.imm);
}

/// Decoding the encoding of well-formed fields gives the fields back.
pub proof fn lemma_i_type_encode_decode(t: IType)
    requires
        t.wf(),
    ensures
        IType::spec_decode(t.spec_encode()) == t,
{
    lemma_i_type_pack_unpack(t.rd, t.funct3, t.rs1, t.imm);
}

} // verus!
