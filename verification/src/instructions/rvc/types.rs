//! The formats of the 16-bit instructions of the `C` extension.

use vstd::prelude::*;
use crate::arch::HalfWord;
use crate::bits::{bits, concat, concat_bits, lemma_field_bounds, spec_bits};

verus! {

/// A RISC-V CR-Type instruction.
#[derive(Debug, Clone, Copy, PartialEq, Eq, Structural)]
pub struct CRType {
    /// The first source register or destination register.
    pub rs1_rd: u8,
    /// The second source register.
    pub rs2: u8,
    /// The funct4 field.
    pub funct4: u8,
}

impl CRType {
    /// The register and function fields fit their widths in the encoding.
    pub open spec fn wf(self) -> bool {
        &&& self.rs1_rd < 32
        &&& self.rs2 < 32
        &&& self.funct4 < 16
    }

    /// The fields of a 16-bit word read as a CR-type instruction: `rs1_rd` is bits
    /// `[7, 12)`, `rs2` is bits `[2, 7)`, `funct4` is bits `[12, 16)`.
    pub open spec fn spec_decode(instruction: HalfWord) -> CRType {
        let word = instruction as u64;
        CRType {
            rs1_rd: spec_bits(word, 7, 12) as u8,
            rs2: spec_bits(word, 2, 7) as u8,
            funct4: spec_bits(word, 12, 16) as u8,
        }
    }

    /// Decodes a [CRType] instruction from a 16-bit [HalfWord].
    pub fn decode(instruction: HalfWord) -> (r: Self)
        ensures
            r == Self::spec_decode(instruction),
            r.wf(),
    {
        let word: u64 = instruction as u64;
        proof {
            lemma_compressed_fields(instruction);
        }
        Self {
            rs1_rd: bits(word, 7, 12) as u8,
            rs2: bits(word, 2, 7) as u8,
            funct4: bits(word, 12, 16) as u8,
        }
    }
}

/// A RISC-V CI-Type instruction.
#[derive(Debug, Clone, Copy, PartialEq, Eq, Structural)]
pub struct CIType {
    /// The source register or destination register.
    pub rs1_rd: u8,
    /// The funct3 field.
    pub funct3: u8,
    /// The immediate.
    pub imm: HalfWord,
}

impl CIType {
    /// The register and function fields fit their widths in the encoding.
    pub open spec fn wf(self) -> bool {
        &&& self.rs1_rd < 32
        &&& self.funct3 < 8
    }

    /// The fields of a 16-bit word read as a CI-type instruction: `rs1_rd` is bits
    /// `[7, 12)`, `funct3` is bits `[13, 16)`, `imm` is bits `[12, 13)` followed by
    /// `[2, 7)`.
    pub open spec fn spec_decode(instruction: HalfWord) -> CIType {
        let word = instruction as u64;
        CIType {
            rs1_rd: spec_bits(word, 7, 12) as u8,
            funct3: spec_bits(word, 13, 16) as u8,
            imm: concat_bits(spec_bits(word, 12, 13), spec_bits(word, 2, 7), 5) as u16,
        }
    }

    /// Decodes a [CIType] instruction from a 16-bit [HalfWord].
    pub fn decode(instruction: HalfWord) -> (r: Self)
        ensures
            r == Self::spec_decode(instruction),
            r.wf(),
    {
        let word: u64 = instruction as u64;
        proof {
            lemma_compressed_fields(instruction);
        }
        Self {
            rs1_rd: bits(word, 7, 12) as u8,
            funct3: bits(word, 13, 16) as u8,
            imm: concat(bits(word, 12, 13), bits(word, 2, 7), 5) as u16,
        }
    }
}

/// A RISC-V CSS-Type instruction.
#[derive(Debug, Clone, Copy, PartialEq, Eq, Structural)]
pub struct CSSType {
    /// The source register.
    pub rs2: u8,
    /// The funct3 field.
    pub funct3: u8,
    /// The immediate.
    pub imm: HalfWord,
}

impl CSSType {
    /// The register and function fields fit their widths in the encoding.
    pub open spec fn wf(self) -> bool {
        &&& self.rs2 < 32
        &&& self.funct3 < 8
    }

    /// The fields of a 16-bit word read as a CSS-type instruction: `rs2` is bits
    /// `[2, 7)`, `funct3` is bits `[13, 16)`, `imm` is bits `[7, 13)`.
    pub open spec fn spec_decode(instruction: HalfWord) -> CSSType {
        let word = instruction as u64;
        CSSType {
            rs2: spec_bits(word, 2, 7) as u8,
            funct3: spec_bits(word, 13, 16) as u8,
            imm: spec_bits(word, 7, 13) as u16,
        }
    }

    /// Decodes a [CSSType] instruction from a 16-bit [HalfWord].
    pub fn decode(instruction: HalfWord) -> (r: Self)
        ensures
            r == Self::spec_decode(instruction),
            r.wf(),
    {
        let word: u64 = instruction as u64;
        proof {
            lemma_compressed_fields(instruction);
        }
        Self {
            rs2: bits(word, 2, 7) as u8,
            funct3: bits(word, 13, 16) as u8,
            imm: bits(word, 7, 13) as u16,
        }
    }
}

/// A RISC-V CIW-Type instruction.
#[derive(Debug, Clone, Copy, PartialEq, Eq, Structural)]
pub struct CIWType {
    /// The destination register.
    pub rd: u8,
    /// The funct3 field.
    pub funct3: u8,
    /// The immediate.
    pub imm: HalfWord,
}

impl CIWType {
    /// The register and function fields fit their widths in the encoding.
    pub open spec fn wf(self) -> bool {
        &&& self.rd < 8
        &&& self.funct3 < 8
    }

    /// The fields of a 16-bit word read as a CIW-type instruction: `rd` is bits
    /// `[2, 5)`, `funct3` is bits `[13, 16)`, `imm` is bits `[5, 13)`.
    pub open spec fn spec_decode(instruction: HalfWord) -> CIWType {
        let word = instruction as u64;
        CIWType {
            rd: spec_bits(word, 2, 5) as u8,
            funct3: spec_bits(word, 13, 16) as u8,
            imm: spec_bits(word, 5, 13) as u16,
        }
    }

    /// Decodes a [CIWType] instruction from a 16-bit [HalfWord].
    pub fn decode(instruction: HalfWord) -> (r: Self)
        ensures
            r == Self::spec_decode(instruction),
            r.wf(),
    {
        let word: u64 = instruction as u64;
        proof {
            lemma_compressed_fields(instruction);
        }
        Self {
            rd: bits(word, 2, 5) as u8,
            funct3: bits(word, 13, 16) as u8,
            imm: bits(word, 5, 13) as u16,
        }
    }
}

/// A RISC-V CL-Type instruction.
#[derive(Debug, Clone, Copy, PartialEq, Eq, Structural)]
pub struct CLType {
    /// The destination register.
    pub rd: u8,
    /// The source register.
    pub rs1: u8,
    /// The funct3 field.
    pub funct3: u8,
    /// The immediate.
    pub imm: HalfWord,
}

impl CLType {
    /// The register and function fields fit their widths in the encoding.
    pub open spec fn wf(self) -> bool {
        &&& self.rd < 8
        &&& self.rs1 < 8
        &&& self.funct3 < 8
    }

    /// The fields of a 16-bit word read as a CL-type instruction: `rd` is bits `[2,
    /// 5)`, `rs1` is bits `[7, 10)`, `funct3` is bits `[13, 16)`, `imm` is bits
    /// `[10, 13)` followed by `[5, 7)`.
    pub open spec fn spec_decode(instruction: HalfWord) -> CLType {
        let word = instruction as u64;
        CLType {
            rd: spec_bits(word, 2, 5) as u8,
            rs1: spec_bits(word, 7, 10) as u8,
            funct3: spec_bits(word, 13, 16) as u8,
            imm: concat_bits(spec_bits(word, 10, 13), spec_bits(word, 5, 7), 2) as u16,
        }
    }

    /// Decodes a [CLType] instruction from a 16-bit [HalfWord].
    pub fn decode(instruction: HalfWord) -> (r: Self)
        ensures
            r == Self::spec_decode(instruction),
            r.wf(),
    {
        let word: u64 = instruction as u64;
        proof {
            lemma_compressed_fields(instruction);
        }
        Self {
            rd: bits(word, 2, 5) as u8,
            rs1: bits(word, 7, 10) as u8,
            funct3: bits(word, 13, 16) as u8,
            imm: concat(bits(word, 10, 13), bits(word, 5, 7), 2) as u16,
        }
    }
}

/// A RISC-V CS-Type instruction.
#[derive(Debug, Clone, Copy, PartialEq, Eq, Structural)]
pub struct CSType {
    /// The first source register.
    pub rs1: u8,
    /// The second source register.
    pub rs2: u8,
    /// The funct3 field.
    pub funct3: u8,
    /// The immediate.
    pub imm: HalfWord,
}

impl CSType {
    /// The register and function fields fit their widths in the encoding.
    pub open spec fn wf(self) -> bool {
        &&& self.rs1 < 8
        &&& self.rs2 < 8
        &&& self.funct3 < 8
    }

    /// The fields of a 16-bit word read as a CS-type instruction: `rs1` is bits
    /// `[7, 10)`, `rs2` is bits `[2, 5)`, `funct3` is bits `[13, 16)`, `imm` is
    /// bits `[10, 13)` followed by `[5, 7)`.
    pub open spec fn spec_decode(instruction: HalfWord) -> CSType {
        let word = instruction as u64;
        CSType {
            rs1: spec_bits(word, 7, 10) as u8,
            rs2: spec_bits(word, 2, 5) as u8,
            funct3: spec_bits(word, 13, 16) as u8,
            imm: concat_bits(spec_bits(word, 10, 13), spec_bits(word, 5, 7), 2) as u16,
        }
    }

    /// Decodes a [CSType] instruction from a 16-bit [HalfWord].
    pub fn decode(instruction: HalfWord) -> (r: Self)
        ensures
            r == Self::spec_decode(instruction),
            r.wf(),
    {
        let word: u64 = instruction as u64;
        proof {
            lemma_compressed_fields(instruction);
        }
        Self {
            rs1: bits(word, 7, 10) as u8,
            rs2: bits(word, 2, 5) as u8,
            funct3: bits(word, 13, 16) as u8,
            imm: concat(bits(word, 10, 13), bits(word, 5, 7), 2) as u16,
        }
    }
}

/// A RISC-V CB-Type instruction.
#[derive(Debug, Clone, Copy, PartialEq, Eq, Structural)]
pub struct CBType {
    /// The first source register.
    pub rs1: u8,
    /// The funct3 field.
    pub funct3: u8,
    /// The memory offset.
    pub offset: HalfWord,
}

impl CBType {
    /// The register and function fields fit their widths in the encoding.
    pub open spec fn wf(self) -> bool {
        &&& self.rs1 < 8
        &&& self.funct3 < 8
    }

    /// The fields of a 16-bit word read as a CB-type instruction: `rs1` is bits
    /// `[7, 10)`, `funct3` is bits `[13, 16)`, `offset` is bits `[10, 13)` followed
    /// by `[2, 7)`.
    pub open spec fn spec_decode(instruction: HalfWord) -> CBType {
        let word = instruction as u64;
        CBType {
            rs1: spec_bits(word, 7, 10) as u8,
            funct3: spec_bits(word, 13, 16) as u8,
            offset: concat_bits(spec_bits(word, 10, 13), spec_bits(word, 2, 7), 5) as u16,
        }
    }

    /// Decodes a [CBType] instruction from a 16-bit [HalfWord].
    pub fn decode(instruction: HalfWord) -> (r: Self)
        ensures
            r == Self::spec_decode(instruction),
            r.wf(),
    {
        let word: u64 = instruction as u64;
        proof {
            lemma_compressed_fields(instruction);
        }
        Self {
            rs1: bits(word, 7, 10) as u8,
            funct3: bits(word, 13, 16) as u8,
            offset: concat(bits(word, 10, 13), bits(word, 2, 7), 5) as u16,
        }
    }
}

/// A RISC-V CJ-Type instruction.
#[derive(Debug, Clone, Copy, PartialEq, Eq, Structural)]
pub struct CJType {
    /// The funct3 field.
    pub funct3: u8,
    /// The jump target.
    pub target: HalfWord,
}

impl CJType {
    /// The register and function fields fit their widths in the encoding.
    pub open spec fn wf(self) -> bool {
        &&& self.funct3 < 8
    }

    /// The fields of a 16-bit word read as a CJ-type instruction: `funct3` is bits
    /// `[13, 16)`, `target` is bits `[2, 13)`.
    pub open spec fn spec_decode(instruction: HalfWord) -> CJType {
        let word = instruction as u64;
        CJType {
            funct3: spec_bits(word, 13, 16) as u8,
            target: spec_bits(word, 2, 13) as u16,
        }
    }

    /// Decodes a [CJType] instruction from a 16-bit [HalfWord].
    pub fn decode(instruction: HalfWord) -> (r: Self)
        ensures
            r == Self::spec_decode(instruction),
            r.wf(),
    {
        let word: u64 = instruction as u64;
        proof {
            lemma_compressed_fields(instruction);
        }
        Self {
            funct3: bits(word, 13, 16) as u8,
            target: bits(word, 2, 13) as u16,
        }
    }
}

/// The register and function fields that the formats read from a word fit
/// their widths.
pub proof fn lemma_compressed_fields(instruction: HalfWord)
    ensures
        CRType::spec_decode(instruction).wf(),
        CIType::spec_decode(instruction).wf(),
        CSSType::spec_decode(instruction).wf(),
        CIWType::spec_decode(instruction).wf(),
        CLType::spec_decode(instruction).wf(),
        CSType::spec_decode(instruction).wf(),
        CBType::spec_decode(instruction).wf(),
        CJType::spec_decode(instruction).wf(),
{
    let word = instruction as u64;
    lemma_field_bounds(word, 2);
    lemma_field_bounds(word, 7);
    lemma_field_bounds(word, 12);
    lemma_field_bounds(word, 13);
}

} // verus!
