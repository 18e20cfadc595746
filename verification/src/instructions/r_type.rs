//! The R-type instruction format.

use vstd::prelude::*;
use crate::arch::Word;
use crate::bits::{bits, spec_bits, lemma_field_bounds};

verus! {

/// A RISC-V R-Type instruction.
#[derive(Debug, Clone, Copy, PartialEq, Eq, Structural)]
pub struct RType {
    /// The destination register.
    pub rd: u8,
    /// funct3 field.
    pub funct3: u8,
    /// The source register (1).
    pub rs1: u8,
    /// The source register (2).
    pub rs2: u8,
    /// funct7 field.
    pub funct7: u8,
}

/// The word that holds the given R-type fields at their places.
pub open spec fn pack_r(rd: u8, funct3: u8, rs1: u8, rs2: u8, funct7: u8) -> u32 {
    ((rd as u32) << 7) | ((funct3 as u32) << 12) | ((rs1 as u32) << 15) | ((rs2 as u32) << 20) | ((
    funct7 as u32) << 25)
}

impl RType {
    /// Every field fits its width in the encoding.
    pub open spec fn wf(self) -> bool {
        &&& self.rd < 32
        &&& self.funct3 < 8
        &&& self.rs1 < 32
        &&& self.rs2 < 32
        &&& self.funct7 < 128
    }

    /// The fields of a 32-bit word read as an R-type instruction.
    pub open spec fn spec_decode(instruction: Word) -> RType {
        RType {
            rd: spec_bits(instruction as u64, 7, 12) as u8,
            funct3: spec_bits(instruction as u64, 12, 15) as u8,
            rs1: spec_bits(instruction as u64, 15, 20) as u8,
            rs2: spec_bits(instruction as u64, 20, 25) as u8,
            funct7: spec_bits(instruction as u64, 25, 32) as u8,
        }
    }

    /// The word that holds the fields at their places, with a zero opcode.
    pub open spec fn spec_encode(self) -> Word {
        pack_r(self.rd, self.funct3, self.rs1, self.rs2, self.funct7)
    }

    /// Decodes an [RType] instruction from a 32-bit [Word].
    pub fn decode(instruction: Word) -> (r: Self)
        ensures
            r == Self::spec_decode(instruction),
            r.wf(),
    {
        proof {
            lemma_field_bounds(instruction as u64, 7);
            lemma_field_bounds(instruction as u64, 12);
            lemma_field_bounds(instruction as u64, 15);
            lemma_field_bounds(instruction as u64, 20);
            lemma_field_bounds(instruction as u64, 25);
        }
        Self {
            rd: bits(instruction as u64, 7, 12) as u8,
            funct3: bits(instruction as u64, 12, 15) as u8,
            rs1: bits(instruction as u64, 15, 20) as u8,
            rs2: bits(instruction as u64, 20, 25) as u8,
            funct7: bits(instruction as u64, 25, 32) as u8,
        }
    }

    /// Encodes the fields into a 32-bit [Word] whose opcode bits are zero.
    pub fn encode(&self) -> (w: Word)
        ensures
            w == self.spec_encode(),
    {
        ((self.rd as u32) << 7) | ((self.funct3 as u32) << 12) | ((self.rs1 as u32) << 15) | ((
        self.rs2 as u32) << 20) | ((self.funct7 as u32) << 25)
    }
}

impl Default for RType {
    fn default() -> (r: Self)
        ensures
            r == (RType { rd: 0, funct3: 0, rs1: 0, rs2: 0, funct7: 0 }),
    {
        RType { rd: 0, funct3: 0, rs1: 0, rs2: 0, funct7: 0 }
    }
}

proof fn lemma_r_type_unpack_pack(w: u32)
    by (bit_vector)
    ensures
        pack_r(
            spec_bits(w as u64, 7, 12) as u8,
            spec_bits(w as u64, 12, 15) as u8,
            spec_bits(w as u64, 15, 20) as u8,
            spec_bits(w as u64, 20, 25) as u8,
            spec_bits(w as u64, 25, 32) as u8,
        ) == w & 0xFFFF_FF80,
{
}

proof fn lemma_r_type_pack_unpack(rd: u8, funct3: u8, rs1: u8, rs2: u8, funct7: u8)
    by (bit_vector)
    requires
        rd < 32,
        funct3 < 8,
        rs1 < 32,
        rs2 < 32,
        funct7 < 128,
    ensures
        spec_bits(pack_r(rd, funct3, rs1, rs2, funct7) as u64, 7, 12) as u8 == rd,
        spec_bits(pack_r(rd, funct3, rs1, rs2, funct7) as u64, 12, 15) as u8 == funct3,
        spec_bits(pack_r(rd, funct3, rs1, rs2, funct7) as u64, 15, 20) as u8 == rs1,
        spec_bits(pack_r(rd, funct3, rs1, rs2, funct7) as u64, 20, 25) as u8 == rs2,
        spec_bits(pack_r(rd, funct3, rs1, rs2, funct7) as u64, 25, 32) as u8 == funct7,
{
}

/// Encoding the fields read from a word gives the word back without its opcode
/// bits, so decoding once more changes nothing.
pub proof fn lemma_r_type_decode_encode(w: Word)
    ensures
        RType::spec_decode(w).wf(),
        RType::spec_decode(w).spec_encode() == w & 0xFFFF_FF80,
        RType::spec_decode(RType::spec_decode(w).spec_encode()) == RType::spec_decode(w),
{
    lemma_r_type_unpack_pack(w);
    let t = RType::spec_decode(w);
    lemma_field_bounds(w as u64, 7);
    lemma_field_bounds(w as u64, 12);
    lemma_field_bounds(w as u64, 15);
    lemma_field_bounds(w as u64, 20);
    lemma_field_bounds(w as u64, 25);
    lemma_r_type_pack_unpack(t.rd, t.funct3, t.rs1, t.rs2, t.funct7);
}

/// Decoding the encoding of well-formed fields gives the fields back.
pub proof fn lemma_r_type_encode_decode(t: RType)
    requires
        t.wf(),
    ensures
        RType::spec_decode(t.spec_encode()) == t,
{
    lemma_r_type_pack_unpack(t.rd, t.funct3, t.rs1, t.rs2, t.funct7);
}

} // verus!
