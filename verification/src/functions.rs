//! The operations that each opcode class selects by its function fields.

use vstd::prelude::*;
use crate::bits::{bits, spec_bits};
use crate::errors::InstructionDecodeError;
use crate::instructions::b_type::BType;
use crate::instructions::i_type::IType;
use crate::instructions::r_type::RType;
use crate::instructions::s_type::SType;

verus! {

/// Functions for Integer Register-Register Instructions.
#[derive(Debug, Clone, Copy, PartialEq, Eq, Hash, Structural)]
pub enum RegisterArithmeticFunction {
    /// The `ADD` function.
    Add,
    /// The `SUB` function.
    Sub,
    /// The `XOR` function.
    Xor,
    /// The `OR` function.
    Or,
    /// The `AND` function.
    And,
    /// The `SLL` function.
    Sll,
    /// The `SRL` function.
    Srl,
    /// The `SRA` function.
    Sra,
    /// The `SLT` function.
    Slt,
    /// The `SLTU` function.
    Sltu,
    /// The `MUL` function.
    Mul,
    /// The `MULH` function.
    Mulh,
    /// The `MULHSU` function.
    Mulhsu,
    /// The `MULHU` function.
    Mulhu,
    /// The `DIV` function.
    Div,
    /// The `DIVU` function.
    Divu,
    /// The `REM` function.
    Rem,
    /// The `REMU` function.
    Remu,
}

impl RegisterArithmeticFunction {
    /// The function that `funct3` and `funct7` select, or the error that names both.
    pub open spec fn spec_try_from(value: RType) -> Result<Self, InstructionDecodeError> {
        match (value.funct3, value.funct7) {
            (0x00, 0x00) => Ok(Self::Add),
            (0x00, 0x20) => Ok(Self::Sub),
            (0x04, 0x00) => Ok(Self::Xor),
            (0x06, 0x00) => Ok(Self::Or),
            (0x07, 0x00) => Ok(Self::And),
            (0x01, 0x00) => Ok(Self::Sll),
            (0x05, 0x00) => Ok(Self::Srl),
            (0x05, 0x20) => Ok(Self::Sra),
            (0x02, 0x00) => Ok(Self::Slt),
            (0x03, 0x00) => Ok(Self::Sltu),
            (0x00, 0x01) => Ok(Self::Mul),
            (0x01, 0x01) => Ok(Self::Mulh),
            (0x02, 0x01) => Ok(Self::Mulhsu),
            (0x03, 0x01) => Ok(Self::Mulhu),
            (0x04, 0x01) => Ok(Self::Div),
            (0x05, 0x01) => Ok(Self::Divu),
            (0x06, 0x01) => Ok(Self::Rem),
            (0x07, 0x01) => Ok(Self::Remu),
            _ => Err(
                InstructionDecodeError::InvalidFunction { q_a: value.funct3, q_b: value.funct7 },
            ),
        }
    }

    /// Classifies a register-register instruction by `funct3` and `funct7`.
    pub fn try_from(value: &RType) -> (r: Result<Self, InstructionDecodeError>)
        ensures
            r == Self::spec_try_from(*value),
    {
        match (value.funct3, value.funct7) {
            (0x00, 0x00) => Ok(Self::Add),
            (0x00, 0x20) => Ok(Self::Sub),
            (0x04, 0x00) => Ok(Self::Xor),
            (0x06, 0x00) => Ok(Self::Or),
            (0x07, 0x00) => Ok(Self::And),
            (0x01, 0x00) => Ok(Self::Sll),
            (0x05, 0x00) => Ok(Self::Srl),
            (0x05, 0x20) => Ok(Self::Sra),
            (0x02, 0x00) => Ok(Self::Slt),
            (0x03, 0x00) => Ok(Self::Sltu),
            (0x00, 0x01) => Ok(Self::Mul),
            (0x01, 0x01) => Ok(Self::Mulh),
            (0x02, 0x01) => Ok(Self::Mulhsu),
            (0x03, 0x01) => Ok(Self::Mulhu),
            (0x04, 0x01) => Ok(Self::Div),
            (0x05, 0x01) => Ok(Self::Divu),
            (0x06, 0x01) => Ok(Self::Rem),
            (0x07, 0x01) => Ok(Self::Remu),
            _ => Err(
                InstructionDecodeError::InvalidFunction { q_a: value.funct3, q_b: value.funct7 },
            ),
        }
    }
}

/// Functions for Integer Register-Register Word Instructions.
#[derive(Debug, Clone, Copy, PartialEq, Eq, Hash, Structural)]
pub enum RegisterArithmeticWordFunction {
    /// The `ADDW` function.
    Addw,
    /// The `SUBW` function.
    Subw,
    /// The `SLLW` function.
    Sllw,
    /// The `SRLW` function.
    Srlw,
    /// The `SRAW` function.
    Sraw,
    /// The `MULW` function.
    Mulw,
    /// The `DIVW` function.
    Divw,
    /// The `DIVUW` function.
    Divuw,
    /// The `REMW` function.
    Remw,
    /// The `REMUW` function.
    Remuw,
}

impl RegisterArithmeticWordFunction {
    /// The function that `funct3` and `funct7` select, or the error that names both.
    pub open spec fn spec_try_from(value: RType) -> Result<Self, InstructionDecodeError> {
        match (value.funct3, value.funct7) {
            (0x00, 0x00) => Ok(Self::Addw),
            (0x00, 0x20) => Ok(Self::Subw),
            (0x01, 0x00) => Ok(Self::Sllw),
            (0x05, 0x00) => Ok(Self::Srlw),
            (0x05, 0x20) => Ok(Self::Sraw),
            (0x00, 0x01) => Ok(Self::Mulw),
            (0x04, 0x01) => Ok(Self::Divw),
            (0x05, 0x01) => Ok(Self::Divuw),
            (0x06, 0x01) => Ok(Self::Remw),
            (0x07, 0x01) => Ok(Self::Remuw),
            _ => Err(
                InstructionDecodeError::InvalidFunction { q_a: value.funct3, q_b: value.funct7 },
            ),
        }
    }

    /// Classifies a register-register word instruction by `funct3` and `funct7`.
    pub fn try_from(value: &RType) -> (r: Result<Self, InstructionDecodeError>)
        ensures
            r == Self::spec_try_from(*value),
    {
        match (value.funct3, value.funct7) {
            (0x00, 0x00) => Ok(Self::Addw),
            (0x00, 0x20) => Ok(Self::Subw),
            (0x01, 0x00) => Ok(Self::Sllw),
            (0x05, 0x00) => Ok(Self::Srlw),
            (0x05, 0x20) => Ok(Self::Sraw),
            (0x00, 0x01) => Ok(Self::Mulw),
            (0x04, 0x01) => Ok(Self::Divw),
            (0x05, 0x01) => Ok(Self::Divuw),
            (0x06, 0x01) => Ok(Self::Remw),
            (0x07, 0x01) => Ok(Self::Remuw),
            _ => Err(
                InstructionDecodeError::InvalidFunction { q_a: value.funct3, q_b: value.funct7 },
            ),
        }
    }
}

/// Functions for Integer Register-Immediate Instructions.
#[derive(Debug, Clone, Copy, PartialEq, Eq, Hash, Structural)]
pub enum ImmediateArithmeticFunction {
    /// The `ADDI` function.
    Addi,
    /// The `XORI` function.
    Xori,
    /// The `ORI` function.
    Ori,
    /// The `ANDI` function.
    Andi,
    /// The `SLLI` function.
    Slli,
    /// The `SRLI` function.
    Srli,
    /// The `SRAI` function.
    Srai,
    /// The `SLTI` function.
    Slti,
    /// The `SLTIU` function.
    Sltiu,
}

impl ImmediateArithmeticFunction {
    /// The function that `funct3` selects; a right shift is logical or
    /// arithmetic by bits `[6, 12)` of the immediate, and the error names `funct3`
    /// and bits `[5, 12)` of the immediate.
    pub open spec fn spec_try_from(value: IType) -> Result<Self, InstructionDecodeError> {
        let top = spec_bits(value.imm, 6, 12) as u8;
        match value.funct3 {
            0x00 => Ok(Self::Addi),
            0x01 => Ok(Self::Slli),
            0x02 => Ok(Self::Slti),
            0x03 => Ok(Self::Sltiu),
            0x04 => Ok(Self::Xori),
            0x06 => Ok(Self::Ori),
            0x07 => Ok(Self::Andi),
            _ => if value.funct3 == 0x05 && top == 0 {
                Ok(Self::Srli)
            } else if value.funct3 == 0x05 && top == 0x10 {
                Ok(Self::Srai)
            } else {
                Err(
                    InstructionDecodeError::InvalidFunction {
                        q_a: value.funct3,
                        q_b: spec_bits(value.imm, 5, 12) as u8,
                    },
                )
            },
        }
    }

    /// Classifies a register-immediate instruction by `funct3` and, for right
    /// shifts, by the top bits of the immediate.
    pub fn try_from(value: &IType) -> (r: Result<Self, InstructionDecodeError>)
        ensures
            r == Self::spec_try_from(*value),
    {
        let top: u8 = bits(value.imm, 6, 12) as u8;
        match value.funct3 {
            0x00 => Ok(Self::Addi),
            0x01 => Ok(Self::Slli),
            0x02 => Ok(Self::Slti),
            0x03 => Ok(Self::Sltiu),
            0x04 => Ok(Self::Xori),
            0x06 => Ok(Self::Ori),
            0x07 => Ok(Self::Andi),
            _ => if value.funct3 == 0x05 && top == 0 {
                Ok(Self::Srli)
            } else if value.funct3 == 0x05 && top == 0x10 {
                Ok(Self::Srai)
            } else {
                Err(
                    InstructionDecodeError::InvalidFunction {
                        q_a: value.funct3,
                        q_b: bits(value.imm, 5, 12) as u8,
                    },
                )
            },
        }
    }
}

/// Functions for Integer Register-Immediate Word Instructions.
#[derive(Debug, Clone, Copy, PartialEq, Eq, Hash, Structural)]
pub enum ImmediateArithmeticWordFunction {
    /// The `ADDIW` function.
    Addiw,
    /// The `SLLIW` function.
    Slliw,
    /// The `SRLIW` function.
    Srliw,
    /// The `SRAIW` function.
    Sraiw,
}

impl ImmediateArithmeticWordFunction {
    /// The function that `funct3` selects; the shifts are told apart by bits
    /// `[5, 12)` of the immediate, which the error names beside `funct3`.
    pub open spec fn spec_try_from(value: IType) -> Result<Self, InstructionDecodeError> {
        let top = spec_bits(value.imm, 5, 12) as u8;
        if value.funct3 == 0x00 {
            Ok(Self::Addiw)
        } else if value.funct3 == 0x01 && top == 0 {
            Ok(Self::Slliw)
        } else if value.funct3 == 0x05 && top == 0 {
            Ok(Self::Srliw)
        } else if value.funct3 == 0x05 && top == 0x20 {
            Ok(Self::Sraiw)
        } else {
            Err(InstructionDecodeError::InvalidFunction { q_a: value.funct3, q_b: top })
        }
    }

    /// Classifies a register-immediate word instruction by `funct3` and the top
    /// bits of the immediate.
    pub fn try_from(value: &IType) -> (r: Result<Self, InstructionDecodeError>)
        ensures
            r == Self::spec_try_from(*value),
    {
        let top: u8 = bits(value.imm, 5, 12) as u8;
        if value.funct3 == 0x00 {
            Ok(Self::Addiw)
        } else if value.funct3 == 0x01 && top == 0 {
            Ok(Self::Slliw)
        } else if value.funct3 == 0x05 && top == 0 {
            Ok(Self::Srliw)
        } else if value.funct3 == 0x05 && top == 0x20 {
            Ok(Self::Sraiw)
        } else {
            Err(InstructionDecodeError::InvalidFunction { q_a: value.funct3, q_b: top })
        }
    }
}

/// Functions for Load Instructions.
#[derive(Debug, Clone, Copy, PartialEq, Eq, Hash, Structural)]
pub enum LoadFunction {
    /// The `LB` function.
    Lb,
    /// The `LH` function.
    Lh,
    /// The `LW` function.
    Lw,
    /// The `LBU` function.
    Lbu,
    /// The `LHU` function.
    Lhu,
    /// The `LWU` function.
    Lwu,
    /// The `LD` function.
    Ld,
}

impl LoadFunction {
    /// The function that `funct3` selects, or the error that names it.
    pub open spec fn spec_try_from(value: IType) -> Result<Self, InstructionDecodeError> {
        match value.funct3 {
            0x00 => Ok(Self::Lb),
            0x01 => Ok(Self::Lh),
            0x02 => Ok(Self::Lw),
            0x04 => Ok(Self::Lbu),
            0x05 => Ok(Self::Lhu),
            0x06 => Ok(Self::Lwu),
            0x03 => Ok(Self::Ld),
            _ => Err(InstructionDecodeError::InvalidFunction { q_a: value.funct3, q_b: 0 }),
        }
    }

    /// Classifies a load by `funct3`.
    pub fn try_from(value: &IType) -> (r: Result<Self, InstructionDecodeError>)
        ensures
            r == Self::spec_try_from(*value),
    {
        match value.funct3 {
            0x00 => Ok(Self::Lb),
            0x01 => Ok(Self::Lh),
            0x02 => Ok(Self::Lw),
            0x04 => Ok(Self::Lbu),
            0x05 => Ok(Self::Lhu),
            0x06 => Ok(Self::Lwu),
            0x03 => Ok(Self::Ld),
            _ => Err(InstructionDecodeError::InvalidFunction { q_a: value.funct3, q_b: 0 }),
        }
    }
}

/// Functions for Store Instructions.
#[derive(Debug, Clone, Copy, PartialEq, Eq, Hash, Structural)]
pub enum StoreFunction {
    /// The `SB` function.
    Sb,
    /// The `SH` function.
    Sh,
    /// The `SW` function.
    Sw,
    /// The `SD` function.
    Sd,
}

impl StoreFunction {
    /// The function that `funct3` selects, or the error that names it.
    pub open spec fn spec_try_from(value: SType) -> Result<Self, InstructionDecodeError> {
        match value.funct3 {
            0x00 => Ok(Self::Sb),
            0x01 => Ok(Self::Sh),
            0x02 => Ok(Self::Sw),
            0x03 => Ok(Self::Sd),
            _ => Err(InstructionDecodeError::InvalidFunction { q_a: value.funct3, q_b: 0 }),
        }
    }

    /// Classifies a store by `funct3`.
    pub fn try_from(value: &SType) -> (r: Result<Self, InstructionDecodeError>)
        ensures
            r == Self::spec_try_from(*value),
    {
        match value.funct3 {
            0x00 => Ok(Self::Sb),
            0x01 => Ok(Self::Sh),
            0x02 => Ok(Self::Sw),
            0x03 => Ok(Self::Sd),
            _ => Err(InstructionDecodeError::InvalidFunction { q_a: value.funct3, q_b: 0 }),
        }
    }
}

/// Functions for Branch Instructions.
#[derive(Debug, Clone, Copy, PartialEq, Eq, Hash, Structural)]
pub enum BranchFunction {
    /// The `BEQ` function.
    Beq,
    /// The `BNE` function.
    Bne,
    /// The `BLT` function.
    Blt,
    /// The `BGE` function.
    Bge,
    /// The `BLTU` function.
    Bltu,
    /// The `BGEU` function.
    Bgeu,
}

impl BranchFunction {
    /// The function that `funct3` selects, or the error that names it.
    pub open spec fn spec_try_from(value: BType) -> Result<Self, InstructionDecodeError> {
        match value.funct3 {
            0x00 => Ok(Self::Beq),
            0x01 => Ok(Self::Bne),
            0x04 => Ok(Self::Blt),
            0x05 => Ok(Self::Bge),
            0x06 => Ok(Self::Bltu),
            0x07 => Ok(Self::Bgeu),
            _ => Err(InstructionDecodeError::InvalidFunction { q_a: value.funct3, q_b: 0 }),
        }
    }

    /// Classifies a branch by `funct3`.
    pub fn try_from(value: &BType) -> (r: Result<Self, InstructionDecodeError>)
        ensures
            r == Self::spec_try_from(*value),
    {
        match value.funct3 {
            0x00 => Ok(Self::Beq),
            0x01 => Ok(Self::Bne),
            0x04 => Ok(Self::Blt),
            0x05 => Ok(Self::Bge),
            0x06 => Ok(Self::Bltu),
            0x07 => Ok(Self::Bgeu),
            _ => Err(InstructionDecodeError::InvalidFunction { q_a: value.funct3, q_b: 0 }),
        }
    }
}

/// Functions for Environment Instruction.
#[derive(Debug, Clone, Copy, PartialEq, Eq, Hash, Structural)]
pub enum EnvironmentFunction {
    /// The `ECALL` function.
    Ecall,
    /// The `EBREAK` function.
    Ebreak,
}

impl EnvironmentFunction {
    /// `ECALL` where `funct3` and the immediate are both zero, `EBREAK` otherwise.
    pub open spec fn spec_try_from(value: IType) -> Result<Self, InstructionDecodeError> {
        if value.funct3 == 0 && value.imm == 0 {
            Ok(Self::Ecall)
        } else {
            Ok(Self::Ebreak)
        }
    }

    /// Classifies an environment instruction; it never fails.
    pub fn try_from(value: &IType) -> (r: Result<Self, InstructionDecodeError>)
        ensures
            r == Self::spec_try_from(*value),
    {
        if value.funct3 == 0 && value.imm == 0 {
            Ok(Self::Ecall)
        } else {
            Ok(Self::Ebreak)
        }
    }
}

/// Functions for the "A" extension.
#[derive(Debug, Clone, Copy, PartialEq, Eq, Hash, Structural)]
pub enum AmoFunction {
    /// The `LR` function.
    Lr,
    /// The `SC` function.
    Sc,
    /// The `AMOSWAP` function.
    Amoswap,
    /// The `AMOADD` function.
    Amoadd,
    /// The `AMOXOR` function.
    Amoxor,
    /// The `AMOAND` function.
    Amoand,
    /// The `AMOOR` function.
    Amoor,
    /// The `AMOMIN` function.
    Amomin,
    /// The `AMOMAX` function.
    Amomax,
    /// The `AMOMINU` function.
    Amominu,
    /// The `AMOMAXU` function.
    Amomaxu,
}

impl AmoFunction {
    /// The function that bits `[2, 7)` of `funct7` select, or the error that
    /// names them.
    pub open spec fn spec_try_from(value: RType) -> Result<Self, InstructionDecodeError> {
        let afunct5 = spec_bits(value.funct7 as u64, 2, 7) as u8;
        match afunct5 {
            0b00010 => Ok(Self::Lr),
            0b00011 => Ok(Self::Sc),
            0b00001 => Ok(Self::Amoswap),
            0b00000 => Ok(Self::Amoadd),
            0b00100 => Ok(Self::Amoxor),
            0b01100 => Ok(Self::Amoand),
            0b01000 => Ok(Self::Amoor),
            0b10000 => Ok(Self::Amomin),
            0b10100 => Ok(Self::Amomax),
            0b11000 => Ok(Self::Amominu),
            0b11100 => Ok(Self::Amomaxu),
            _ => Err(InstructionDecodeError::InvalidFunction { q_a: afunct5, q_b: 0 }),
        }
    }

    /// Classifies an atomic memory operation by the five high bits of `funct7`.
    pub fn try_from(value: &RType) -> (r: Result<Self, InstructionDecodeError>)
        ensures
            r == Self::spec_try_from(*value),
    {
        let afunct5: u8 = bits(value.funct7 as u64, 2, 7) as u8;
        match afunct5 {
            0b00010 => Ok(Self::Lr),
            0b00011 => Ok(Self::Sc),
            0b00001 => Ok(Self::Amoswap),
            0b00000 => Ok(Self::Amoadd),
            0b00100 => Ok(Self::Amoxor),
            0b01100 => Ok(Self::Amoand),
            0b01000 => Ok(Self::Amoor),
            0b10000 => Ok(Self::Amomin),
            0b10100 => Ok(Self::Amomax),
            0b11000 => Ok(Self::Amominu),
            0b11100 => Ok(Self::Amomaxu),
            _ => Err(InstructionDecodeError::InvalidFunction { q_a: afunct5, q_b: 0 }),
        }
    }
}

} // verus!
