//! RISC-V instruction types.

use vstd::prelude::*;
use crate::arch::{HalfWord, Word, XWord};
use crate::errors::InstructionDecodeError;
use crate::functions::{
    AmoFunction, BranchFunction, EnvironmentFunction, ImmediateArithmeticFunction,
    ImmediateArithmeticWordFunction, LoadFunction, RegisterArithmeticFunction,
    RegisterArithmeticWordFunction, StoreFunction,
};
use crate::instructions::b_type::{lemma_b_type_decode_encode, lemma_b_type_encode_decode, BType};
use crate::instructions::i_type::{lemma_i_type_decode_encode, lemma_i_type_encode_decode, IType};
use crate::instructions::j_type::{lemma_j_type_decode_encode, lemma_j_type_encode_decode, JType};
use crate::instructions::r_type::{lemma_r_type_decode_encode, lemma_r_type_encode_decode, RType};
use crate::instructions::rvc::{
    is_compressed, lemma_compressed_decode_wf, lemma_expansion_canonical, CompressedInstruction,
};
use crate::instructions::s_type::{lemma_s_type_decode_encode, lemma_s_type_encode_decode, SType};
use crate::instructions::u_type::{lemma_u_type_decode_encode, lemma_u_type_encode_decode, UType};

pub mod b_type;
pub mod i_type;
pub mod j_type;
pub mod r_type;
pub mod rvc;
pub mod s_type;
pub mod u_type;

verus! {

/// RISC-V instructions in their decoded form.
///
/// Each variant stands for one opcode and holds the decoded fields and, where
/// the opcode has several, the function that the instruction performs.
#[derive(Debug, Clone, Copy, PartialEq, Eq, Structural)]
pub enum Instruction {
    /// Memory load operations (RV32I), opcode `0000011`.
    MemoryLoad(IType, LoadFunction),
    /// Memory store operations (RV32I), opcode `0100011`.
    MemoryStore(SType, StoreFunction),
    /// Branching operations (RV32I), opcode `1100011`.
    Branch(BType, BranchFunction),
    /// Immediate arithmetic operations (RV32I), opcode `0010011`.
    ImmediateArithmetic(IType, ImmediateArithmeticFunction),
    /// Register arithmetic operations (RV32I), opcode `0110011`.
    RegisterArithmetic(RType, RegisterArithmeticFunction),
    /// Load upper immediate (RV32I), opcode `0110111`.
    Lui(UType),
    /// Add upper immediate to PC (RV32I), opcode `0010111`.
    Auipc(UType),
    /// Jump and link (RV32I), opcode `1101111`.
    Jal(JType),
    /// Jump and link register (RV32I), opcode `1100111`.
    Jalr(IType),
    /// Environment (RV32I), opcode `1110011`.
    Environment(IType, EnvironmentFunction),
    /// Fence operations (RV32I), opcode `0001111`.
    Fence,
    /// Immediate arithmetic word operations (RV64I), opcode `0011011`.
    ImmediateArithmeticWord(IType, ImmediateArithmeticWordFunction),
    /// Register arithmetic word operations (RV64I), opcode `0111011`.
    RegisterArithmeticWord(RType, RegisterArithmeticWordFunction),
    /// AMO operations (RV32A), opcode `0101111`.
    Amo(RType, AmoFunction),
}

impl Instruction {
    /// The index of the first source register, for the variants that have one.
    pub open spec fn spec_rs1(self) -> Option<u8> {
        match self {
            Self::MemoryLoad(i_type, _) => Some(i_type.rs1),
            Self::MemoryStore(s_type, _) => Some(s_type.rs1),
            Self::Branch(b_type, _) => Some(b_type.rs1),
            Self::ImmediateArithmetic(i_type, _) => Some(i_type.rs1),
            Self::RegisterArithmetic(r_type, _) => Some(r_type.rs1),
            Self::Jalr(i_type) => Some(i_type.rs1),
            Self::Environment(i_type, _) => Some(i_type.rs1),
            Self::ImmediateArithmeticWord(i_type, _) => Some(i_type.rs1),
            Self::RegisterArithmeticWord(r_type, _) => Some(r_type.rs1),
            Self::Amo(r_type, _) => Some(r_type.rs1),
            _ => None,
        }
    }

    /// The index of the second source register, for the variants that have one.
    pub open spec fn spec_rs2(self) -> Option<u8> {
        match self {
            Self::MemoryStore(s_type, _) => Some(s_type.rs2),
            Self::Branch(b_type, _) => Some(b_type.rs2),
            Self::RegisterArithmetic(r_type, _) => Some(r_type.rs2),
            Self::RegisterArithmeticWord(r_type, _) => Some(r_type.rs2),
            Self::Amo(r_type, _) => Some(r_type.rs2),
            _ => None,
        }
    }

    /// The index of the destination register, for the variants that have one.
    pub open spec fn spec_rd(self) -> Option<u8> {
        match self {
            Self::MemoryLoad(i_type, _) => Some(i_type.rd),
            Self::ImmediateArithmetic(i_type, _) => Some(i_type.rd),
            Self::RegisterArithmetic(r_type, _) => Some(r_type.rd),
            Self::Lui(u_type) => Some(u_type.rd),
            Self::Auipc(u_type) => Some(u_type.rd),
            Self::Jal(j_type) => Some(j_type.rd),
            Self::Jalr(i_type) => Some(i_type.rd),
            Self::Environment(i_type, _) => Some(i_type.rd),
            Self::ImmediateArithmeticWord(i_type, _) => Some(i_type.rd),
            Self::RegisterArithmeticWord(r_type, _) => Some(r_type.rd),
            Self::Amo(r_type, _) => Some(r_type.rd),
            _ => None,
        }
    }

    /// The immediate, for the variants that have one.
    pub open spec fn spec_immediate(self) -> Option<XWord> {
        match self {
            Self::MemoryLoad(i_type, _) => Some(i_type.imm),
            Self::MemoryStore(s_type, _) => Some(s_type.imm),
            Self::Branch(b_type, _) => Some(b_type.imm),
            Self::ImmediateArithmetic(i_type, _) => Some(i_type.imm),
            Self::Lui(u_type) => Some(u_type.imm),
            Self::Auipc(u_type) => Some(u_type.imm),
            Self::Jal(j_type) => Some(j_type.imm),
            Self::Jalr(i_type) => Some(i_type.imm),
            Self::Environment(i_type, _) => Some(i_type.imm),
            Self::ImmediateArithmeticWord(i_type, _) => Some(i_type.imm),
            _ => None,
        }
    }

    /// Whether the instruction is `ECALL`.
    pub open spec fn spec_is_system_call(self) -> bool {
        self matches Self::Environment(_, EnvironmentFunction::Ecall)
    }

    /// Every register that the instruction names is one of the 32 of the
    /// register file, and the width field of an atomic operation has three bits.
    pub open spec fn wf(self) -> bool {
        &&& self.spec_rs1() matches Some(r) ==> r < 32
        &&& self.spec_rs2() matches Some(r) ==> r < 32
        &&& self.spec_rd() matches Some(r) ==> r < 32
        &&& self matches Self::Amo(r_type, _) ==> r_type.funct3 < 8
    }

    /// Every field of the instruction fits its width in the encoding of its
    /// format, and its immediate is extended from its sign bit.
    pub open spec fn canonical(self) -> bool {
        match self {
            Self::MemoryLoad(i_type, _) => i_type.wf(),
            Self::MemoryStore(s_type, _) => s_type.wf(),
            Self::Branch(b_type, _) => b_type.wf(),
            Self::ImmediateArithmetic(i_type, _) => i_type.wf(),
            Self::RegisterArithmetic(r_type, _) => r_type.wf(),
            Self::Lui(u_type) => u_type.wf(),
            Self::Auipc(u_type) => u_type.wf(),
            Self::Jal(j_type) => j_type.wf(),
            Self::Jalr(i_type) => i_type.wf(),
            Self::Environment(i_type, _) => i_type.wf(),
            Self::Fence => true,
            Self::ImmediateArithmeticWord(i_type, _) => i_type.wf(),
            Self::RegisterArithmeticWord(r_type, _) => r_type.wf(),
            Self::Amo(r_type, _) => r_type.wf(),
        }
    }

    /// Whether encoding the fields of the instruction in their format and
    /// decoding the word in this format gives the fields back.
    pub open spec fn round_trips(self) -> bool {
        match self {
            Self::MemoryLoad(i_type, _) => IType::spec_decode(i_type.spec_encode()) == i_type,
            Self::MemoryStore(s_type, _) => SType::spec_decode(s_type.spec_encode()) == s_type,
            Self::Branch(b_type, _) => BType::spec_decode(b_type.spec_encode()) == b_type,
            Self::ImmediateArithmetic(i_type, _) => IType::spec_decode(i_type.spec_encode())
                == i_type,
            Self::RegisterArithmetic(r_type, _) => RType::spec_decode(r_type.spec_encode())
                == r_type,
            Self::Lui(u_type) => UType::spec_decode(u_type.spec_encode()) == u_type,
            Self::Auipc(u_type) => UType::spec_decode(u_type.spec_encode()) == u_type,
            Self::Jal(j_type) => JType::spec_decode(j_type.spec_encode()) == j_type,
            Self::Jalr(i_type) => IType::spec_decode(i_type.spec_encode()) == i_type,
            Self::Environment(i_type, _) => IType::spec_decode(i_type.spec_encode()) == i_type,
            Self::Fence => true,
            Self::ImmediateArithmeticWord(i_type, _) => IType::spec_decode(i_type.spec_encode())
                == i_type,
            Self::RegisterArithmeticWord(r_type, _) => RType::spec_decode(r_type.spec_encode())
                == r_type,
            Self::Amo(r_type, _) => RType::spec_decode(r_type.spec_encode()) == r_type,
        }
    }

    /// The instruction that a 32-bit word encodes.
    ///
    /// A word whose low two bits are not both set holds a 16-bit instruction: its
    /// low half is decoded and expanded. Otherwise the low seven bits select the
    /// variant, the word is read in the variant's format, and the function is
    /// classified from the fields. An opcode outside the table is
    /// `InvalidOpcode`.
    #[verifier::opaque]
    pub open spec fn spec_try_from(value: Word) -> Result<Instruction, InstructionDecodeError> {
        if is_compressed(value) {
            match CompressedInstruction::spec_decode(value as HalfWord) {
                Ok(c) => Ok(c.spec_expand()),
                Err(e) => Err(e),
            }
        } else {
            let opcode = (value & 0x7F) as u8;
            let i_type = IType::spec_decode(value);
            let r_type = RType::spec_decode(value);
            let s_type = SType::spec_decode(value);
            let b_type = BType::spec_decode(value);
            if opcode == 0b000_0011 {
                match LoadFunction::spec_try_from(i_type) {
                    Ok(f) => Ok(Self::MemoryLoad(i_type, f)),
                    Err(e) => Err(e),
                }
            } else if opcode == 0b010_0011 {
                match StoreFunction::spec_try_from(s_type) {
                    Ok(f) => Ok(Self::MemoryStore(s_type, f)),
                    Err(e) => Err(e),
                }
            } else if opcode == 0b110_0011 {
                match BranchFunction::spec_try_from(b_type) {
                    Ok(f) => Ok(Self::Branch(b_type, f)),
                    Err(e) => Err(e),
                }
            } else if opcode == 0b001_0011 {
                match ImmediateArithmeticFunction::spec_try_from(i_type) {
                    Ok(f) => Ok(Self::ImmediateArithmetic(i_type, f)),
                    Err(e) => Err(e),
                }
            } else if opcode == 0b011_0011 {
                match RegisterArithmeticFunction::spec_try_from(r_type) {
                    Ok(f) => Ok(Self::RegisterArithmetic(r_type, f)),
                    Err(e) => Err(e),
                }
            } else if opcode == 0b011_0111 {
                Ok(Self::Lui(UType::spec_decode(value)))
            } else if opcode == 0b001_0111 {
                Ok(Self::Auipc(UType::spec_decode(value)))
            } else if opcode == 0b110_1111 {
                Ok(Self::Jal(JType::spec_decode(value)))
            } else if opcode == 0b110_0111 {
                Ok(Self::Jalr(i_type))
            } else if opcode == 0b111_0011 {
                match EnvironmentFunction::spec_try_from(i_type) {
                    Ok(f) => Ok(Self::Environment(i_type, f)),
                    Err(e) => Err(e),
                }
            } else if opcode == 0b000_1111 {
                Ok(Self::Fence)
            } else if opcode == 0b001_1011 {
                match ImmediateArithmeticWordFunction::spec_try_from(i_type) {
                    Ok(f) => Ok(Self::ImmediateArithmeticWord(i_type, f)),
                    Err(e) => Err(e),
                }
            } else if opcode == 0b011_1011 {
                match RegisterArithmeticWordFunction::spec_try_from(r_type) {
                    Ok(f) => Ok(Self::RegisterArithmeticWord(r_type, f)),
                    Err(e) => Err(e),
                }
            } else if opcode == 0b010_1111 {
                match AmoFunction::spec_try_from(r_type) {
                    Ok(f) => Ok(Self::Amo(r_type, f)),
                    Err(e) => Err(e),
                }
            } else {
                Err(InstructionDecodeError::InvalidOpcode(opcode))
            }
        }
    }

    /// Returns the `rs1` value of the instruction, if applicable for the instruction type.
    pub fn rs1(&self) -> (r: Option<u8>)
        ensures
            r == self.spec_rs1(),
    {
        match self {
            Self::MemoryLoad(i_type, _) => Some(i_type.rs1),
            Self::MemoryStore(s_type, _) => Some(s_type.rs1),
            Self::Branch(b_type, _) => Some(b_type.rs1),
            Self::ImmediateArithmetic(i_type, _) => Some(i_type.rs1),
            Self::RegisterArithmetic(r_type, _) => Some(r_type.rs1),
            Self::Jalr(i_type) => Some(i_type.rs1),
            Self::Environment(i_type, _) => Some(i_type.rs1),
            Self::ImmediateArithmeticWord(i_type, _) => Some(i_type.rs1),
            Self::RegisterArithmeticWord(r_type, _) => Some(r_type.rs1),
            Self::Amo(r_type, _) => Some(r_type.rs1),
            _ => None,
        }
    }

    /// Returns the `rs2` value of the instruction, if applicable for the instruction type.
    pub fn rs2(&self) -> (r: Option<u8>)
        ensures
            r == self.spec_rs2(),
    {
        match self {
            Self::MemoryStore(s_type, _) => Some(s_type.rs2),
            Self::Branch(b_type, _) => Some(b_type.rs2),
            Self::RegisterArithmetic(r_type, _) => Some(r_type.rs2),
            Self::RegisterArithmeticWord(r_type, _) => Some(r_type.rs2),
            Self::Amo(r_type, _) => Some(r_type.rs2),
            _ => None,
        }
    }

    /// Returns the `rd` value of the instruction, if applicable for the instruction type.
    pub fn rd(&self) -> (r: Option<u8>)
        ensures
            r == self.spec_rd(),
    {
        match self {
            Self::MemoryLoad(i_type, _) => Some(i_type.rd),
            Self::ImmediateArithmetic(i_type, _) => Some(i_type.rd),
            Self::RegisterArithmetic(r_type, _) => Some(r_type.rd),
            Self::Lui(u_type) => Some(u_type.rd),
            Self::Auipc(u_type) => Some(u_type.rd),
            Self::Jal(j_type) => Some(j_type.rd),
            Self::Jalr(i_type) => Some(i_type.rd),
            Self::Environment(i_type, _) => Some(i_type.rd),
            Self::ImmediateArithmeticWord(i_type, _) => Some(i_type.rd),
            Self::RegisterArithmeticWord(r_type, _) => Some(r_type.rd),
            Self::Amo(r_type, _) => Some(r_type.rd),
            _ => None,
        }
    }

    /// Returns the immediate value of the instruction, if applicable for the instruction type.
    pub fn immediate(&self) -> (r: Option<XWord>)
        ensures
            r == self.spec_immediate(),
    {
        match self {
            Self::MemoryLoad(i_type, _) => Some(i_type.imm),
            Self::MemoryStore(s_type, _) => Some(s_type.imm),
            Self::Branch(b_type, _) => Some(b_type.imm),
            Self::ImmediateArithmetic(i_type, _) => Some(i_type.imm),
            Self::Lui(u_type) => Some(u_type.imm),
            Self::Auipc(u_type) => Some(u_type.imm),
            Self::Jal(j_type) => Some(j_type.imm),
            Self::Jalr(i_type) => Some(i_type.imm),
            Self::Environment(i_type, _) => Some(i_type.imm),
            Self::ImmediateArithmeticWord(i_type, _) => Some(i_type.imm),
            _ => None,
        }
    }

    /// Returns whether the instruction is a system call.
    pub fn is_system_call(&self) -> (r: bool)
        ensures
            r == self.spec_is_system_call(),
    {
        match self {
            Self::Environment(_, EnvironmentFunction::Ecall) => true,
            _ => false,
        }
    }

    /// Decodes the instruction that a 32-bit [Word] holds; a 16-bit instruction
    /// in its low half is expanded to the 32-bit instruction it abbreviates.
    pub fn try_from(value: Word) -> (r: Result<Self, InstructionDecodeError>)
        ensures
            r == Self::spec_try_from(value),
            r matches Ok(i) ==> i.wf() && i.canonical(),
    {
        proof {
            reveal(Instruction::spec_try_from);
            lemma_decoded_canonical(value);
        }
        if is_compressed(value) {
            return match CompressedInstruction::decode(value as HalfWord) {
                Ok(c) => Ok(c.expand()),
                Err(e) => Err(e),
            };
        }
        let opcode: u8 = (value & 0x7F) as u8;
        if opcode == 0b000_0011 {
            let i_type = IType::decode(value);
            match LoadFunction::try_from(&i_type) {
                Ok(f) => Ok(Self::MemoryLoad(i_type, f)),
                Err(e) => Err(e),
            }
        } else if opcode == 0b010_0011 {
            let s_type = SType::decode(value);
            match StoreFunction::try_from(&s_type) {
                Ok(f) => Ok(Self::MemoryStore(s_type, f)),
                Err(e) => Err(e),
            }
        } else if opcode == 0b110_0011 {
            let b_type = BType::decode(value);
            match BranchFunction::try_from(&b_type) {
                Ok(f) => Ok(Self::Branch(b_type, f)),
                Err(e) => Err(e),
            }
        } else if opcode == 0b001_0011 {
            let i_type = IType::decode(value);
            match ImmediateArithmeticFunction::try_from(&i_type) {
                Ok(f) => Ok(Self::ImmediateArithmetic(i_type, f)),
                Err(e) => Err(e),
            }
        } else if opcode == 0b011_0011 {
            let r_type = RType::decode(value);
            match RegisterArithmeticFunction::try_from(&r_type) {
                Ok(f) => Ok(Self::RegisterArithmetic(r_type, f)),
                Err(e) => Err(e),
            }
        } else if opcode == 0b011_0111 {
            Ok(Self::Lui(UType::decode(value)))
        } else if opcode == 0b001_0111 {
            Ok(Self::Auipc(UType::decode(value)))
        } else if opcode == 0b110_1111 {
            Ok(Self::Jal(JType::decode(value)))
        } else if opcode == 0b110_0111 {
            Ok(Self::Jalr(IType::decode(value)))
        } else if opcode == 0b111_0011 {
            let i_type = IType::decode(value);
            match EnvironmentFunction::try_from(&i_type) {
                Ok(f) => Ok(Self::Environment(i_type, f)),
                Err(e) => Err(e),
            }
        } else if opcode == 0b000_1111 {
            Ok(Self::Fence)
        } else if opcode == 0b001_1011 {
            let i_type = IType::decode(value);
            match ImmediateArithmeticWordFunction::try_from(&i_type) {
                Ok(f) => Ok(Self::ImmediateArithmeticWord(i_type, f)),
                Err(e) => Err(e),
            }
        } else if opcode == 0b011_1011 {
            let r_type = RType::decode(value);
            match RegisterArithmeticWordFunction::try_from(&r_type) {
                Ok(f) => Ok(Self::RegisterArithmeticWord(r_type, f)),
                Err(e) => Err(e),
            }
        } else if opcode == 0b010_1111 {
            let r_type = RType::decode(value);
            match AmoFunction::try_from(&r_type) {
                Ok(f) => Ok(Self::Amo(r_type, f)),
                Err(e) => Err(e),
            }
        } else {
            Err(InstructionDecodeError::InvalidOpcode(opcode))
        }
    }
}

/// Every instruction that is decoded from a word, compressed or not, has fields
/// that its format can encode.
pub proof fn lemma_decoded_canonical(raw: Word)
    ensures
        Instruction::spec_try_from(raw) matches Ok(instruction) ==> instruction.canonical()
            && instruction.wf(),
{
    reveal(Instruction::spec_try_from);
    if is_compressed(raw) {
        lemma_compressed_decode_wf(raw as HalfWord);
        if let Ok(compressed) = CompressedInstruction::spec_decode(raw as HalfWord) {
            lemma_expansion_canonical(compressed);
        }
    } else {
        lemma_r_type_decode_encode(raw);
        lemma_i_type_decode_encode(raw);
        lemma_s_type_decode_encode(raw);
        lemma_b_type_decode_encode(raw);
        lemma_u_type_decode_encode(raw);
        lemma_j_type_decode_encode(raw);
    }
}

/// For every decoded instruction, encoding its fields again and decoding them
/// once more changes nothing.
pub proof fn lemma_decoded_round_trips(raw: Word)
    ensures
        Instruction::spec_try_from(raw) matches Ok(instruction) ==> instruction.round_trips(),
{
    lemma_decoded_canonical(raw);
    if let Ok(instruction) = Instruction::spec_try_from(raw) {
        lemma_canonical_round_trips(instruction);
    }
}

/// Encoding the fields of an instruction that its format can encode and
/// decoding them again gives the fields back.
pub proof fn lemma_canonical_round_trips(instruction: Instruction)
    requires
        instruction.canonical(),
    ensures
        instruction.round_trips(),
{
    match instruction {
        Instruction::MemoryLoad(i_type, _) => lemma_i_type_encode_decode(i_type),
        Instruction::MemoryStore(s_type, _) => lemma_s_type_encode_decode(s_type),
        Instruction::Branch(b_type, _) => lemma_b_type_encode_decode(b_type),
        Instruction::ImmediateArithmetic(i_type, _) => lemma_i_type_encode_decode(i_type),
        Instruction::RegisterArithmetic(r_type, _) => lemma_r_type_encode_decode(r_type),
        Instruction::Lui(u_type) => lemma_u_type_encode_decode(u_type),
        Instruction::Auipc(u_type) => lemma_u_type_encode_decode(u_type),
        Instruction::Jal(j_type) => lemma_j_type_encode_decode(j_type),
        Instruction::Jalr(i_type) => lemma_i_type_encode_decode(i_type),
        Instruction::Environment(i_type, _) => lemma_i_type_encode_decode(i_type),
        Instruction::Fence => {},
        Instruction::ImmediateArithmeticWord(i_type, _) => lemma_i_type_encode_decode(i_type),
        Instruction::RegisterArithmeticWord(r_type, _) => lemma_r_type_encode_decode(r_type),
        Instruction::Amo(r_type, _) => lemma_r_type_encode_decode(r_type),
    }
}

} // verus!
