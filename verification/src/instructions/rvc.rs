//! Compressed instructions, from the RISC-V `C` extension.

use vstd::prelude::*;
use crate::arch::{HalfWord, Word, XWord};
use crate::bits::{bits, concat, concat_bits, sign_extend, spec_bits, spec_sign_extend};
use crate::errors::InstructionDecodeError;
use crate::functions::{
    BranchFunction, EnvironmentFunction, ImmediateArithmeticFunction,
    ImmediateArithmeticWordFunction, LoadFunction, RegisterArithmeticFunction,
    RegisterArithmeticWordFunction, StoreFunction,
};
use crate::instructions::b_type::BType;
use crate::instructions::i_type::IType;
use crate::instructions::j_type::JType;
use crate::instructions::r_type::RType;
use crate::instructions::rvc::types::{
    lemma_compressed_fields, CBType, CIType, CIWType, CJType, CLType, CRType, CSSType, CSType,
};
use crate::instructions::s_type::SType;
use crate::instructions::u_type::UType;
use crate::instructions::Instruction;

pub mod types;

verus! {

/// The offset of the register mapping from the `C` instructions to regular 32 bit
/// instructions. In the `C` extension, register fields are only allotted 3 bits,
/// allowing for 8 possible register designations.
pub const C_REG_OFFSET: u8 = 8;

/// Whether the low two bits of the word are not both set.
pub open spec fn spec_is_compressed(instr: Word) -> bool {
    instr & 0b11 != 0b11
}

/// Returns `true` if the given instruction is compressed. In RISC-V, compressed
/// instructions are the ones whose two least significant bits are not both set.
#[verifier::when_used_as_spec(spec_is_compressed)]
pub fn is_compressed(instr: Word) -> (r: bool)
    ensures
        r == spec_is_compressed(instr),
{
    instr & 0b11 != 0b11
}

/// The regular register that a compressed register index names: `x8` for 0 up
/// to `x15` for 7.
pub open spec fn spec_map_compressed_reg_idx(reg: u8) -> u8 {
    (reg + C_REG_OFFSET) as u8
}

/// Maps a compressed register index to a regular register index, by adding
/// [C_REG_OFFSET].
#[verifier::when_used_as_spec(spec_map_compressed_reg_idx)]
pub fn map_compressed_reg_idx(reg: u8) -> (r: u8)
    requires
        reg + C_REG_OFFSET <= u8::MAX,
    ensures
        r == spec_map_compressed_reg_idx(reg),
        r == reg + 8,
{
    reg + C_REG_OFFSET
}

/// The byte offset of `C.ADDI4SPN`: bits `[2, 6)`, `[6, 8)`, `[0, 1)` and `[1, 2)` of the
/// format's immediate in this order, times 4.
pub open spec fn spec_addi4spn_imm(value: HalfWord) -> XWord {
    let v = value as u64;
    let spliced = spec_bits(v, 2, 6);
    let spliced = concat_bits(spliced, spec_bits(v, 6, 8), 2);
    let spliced = concat_bits(spliced, spec_bits(v, 0, 1), 1);
    let spliced = concat_bits(spliced, spec_bits(v, 1, 2), 1);
    spliced << 2
}

fn addi4spn_imm(value: HalfWord) -> (r: XWord)
    ensures
        r == spec_addi4spn_imm(value),
{
    let v: u64 = value as u64;
    let spliced: XWord = bits(v, 2, 6);
    let spliced: XWord = concat(spliced, bits(v, 6, 8), 2);
    let spliced: XWord = concat(spliced, bits(v, 0, 1), 1);
    let spliced: XWord = concat(spliced, bits(v, 1, 2), 1);
    spliced << 2
}

/// The byte offset of `C.LW` and `C.SW`: bits `[0, 1)`, `[2, 5)` and `[1, 2)` of the
/// format's immediate in this order, times 4.
pub open spec fn spec_word_offset(value: HalfWord) -> XWord {
    let v = value as u64;
    let spliced = spec_bits(v, 0, 1);
    let spliced = concat_bits(spliced, spec_bits(v, 2, 5), 3);
    let spliced = concat_bits(spliced, spec_bits(v, 1, 2), 1);
    spliced << 2
}

fn word_offset(value: HalfWord) -> (r: XWord)
    ensures
        r == spec_word_offset(value),
{
    let v: u64 = value as u64;
    let spliced: XWord = bits(v, 0, 1);
    let spliced: XWord = concat(spliced, bits(v, 2, 5), 3);
    let spliced: XWord = concat(spliced, bits(v, 1, 2), 1);
    spliced << 2
}

/// The byte offset of `C.LD` and `C.SD`: bits `[0, 2)` and `[2, 5)` of the format's
/// immediate in this order, times 8.
pub open spec fn spec_doubleword_offset(value: HalfWord) -> XWord {
    let v = value as u64;
    let spliced = spec_bits(v, 0, 2);
    let spliced = concat_bits(spliced, spec_bits(v, 2, 5), 3);
    spliced << 3
}

fn doubleword_offset(value: HalfWord) -> (r: XWord)
    ensures
        r == spec_doubleword_offset(value),
{
    let v: u64 = value as u64;
    let spliced: XWord = bits(v, 0, 2);
    let spliced: XWord = concat(spliced, bits(v, 2, 5), 3);
    spliced << 3
}

/// The offset of `C.J` and `C.JAL`: bits `[10, 11)`, `[6, 7)`, `[7, 9)`, `[4, 5)`,
/// `[5, 6)`, `[0, 1)`, `[9, 10)` and `[1, 4)` of the target in this order, times 2,
/// sign-extended from bit 11.
pub open spec fn spec_jump_offset(value: HalfWord) -> XWord {
    let v = value as u64;
    let spliced = spec_bits(v, 10, 11);
    let spliced = concat_bits(spliced, spec_bits(v, 6, 7), 1);
    let spliced = concat_bits(spliced, spec_bits(v, 7, 9), 2);
    let spliced = concat_bits(spliced, spec_bits(v, 4, 5), 1);
    let spliced = concat_bits(spliced, spec_bits(v, 5, 6), 1);
    let spliced = concat_bits(spliced, spec_bits(v, 0, 1), 1);
    let spliced = concat_bits(spliced, spec_bits(v, 9, 10), 1);
    let spliced = concat_bits(spliced, spec_bits(v, 1, 4), 3);
    spec_sign_extend(spliced << 1, 11)
}

fn jump_offset(value: HalfWord) -> (r: XWord)
    ensures
        r == spec_jump_offset(value),
{
    let v: u64 = value as u64;
    let spliced: XWord = bits(v, 10, 11);
    let spliced: XWord = concat(spliced, bits(v, 6, 7), 1);
    let spliced: XWord = concat(spliced, bits(v, 7, 9), 2);
    let spliced: XWord = concat(spliced, bits(v, 4, 5), 1);
    let spliced: XWord = concat(spliced, bits(v, 5, 6), 1);
    let spliced: XWord = concat(spliced, bits(v, 0, 1), 1);
    let spliced: XWord = concat(spliced, bits(v, 9, 10), 1);
    let spliced: XWord = concat(spliced, bits(v, 1, 4), 3);
    sign_extend(spliced << 1, 11)
}

/// The immediate of `C.ADDI16SP`: bits `[5, 6)`, `[1, 3)`, `[3, 4)`, `[0, 1)` and
/// `[4, 5)` of the format's immediate in this order, times 16, sign-extended from
/// bit 9.
pub open spec fn spec_addi16sp_imm(value: HalfWord) -> XWord {
    let v = value as u64;
    let spliced = spec_bits(v, 5, 6);
    let spliced = concat_bits(spliced, spec_bits(v, 1, 3), 2);
    let spliced = concat_bits(spliced, spec_bits(v, 3, 4), 1);
    let spliced = concat_bits(spliced, spec_bits(v, 0, 1), 1);
    let spliced = concat_bits(spliced, spec_bits(v, 4, 5), 1);
    spec_sign_extend(spliced << 4, 9)
}

fn addi16sp_imm(value: HalfWord) -> (r: XWord)
    ensures
        r == spec_addi16sp_imm(value),
{
    let v: u64 = value as u64;
    let spliced: XWord = bits(v, 5, 6);
    let spliced: XWord = concat(spliced, bits(v, 1, 3), 2);
    let spliced: XWord = concat(spliced, bits(v, 3, 4), 1);
    let spliced: XWord = concat(spliced, bits(v, 0, 1), 1);
    let spliced: XWord = concat(spliced, bits(v, 4, 5), 1);
    sign_extend(spliced << 4, 9)
}

/// The offset of `C.BEQZ` and `C.BNEZ`: bits `[7, 8)`, `[3, 5)`, `[0, 1)`, `[5, 7)`
/// and `[1, 3)` of the format's offset in this order, times 2, sign-extended from
/// bit 8.
pub open spec fn spec_branch_offset(value: HalfWord) -> XWord {
    let v = value as u64;
    let spliced = spec_bits(v, 7, 8);
    let spliced = concat_bits(spliced, spec_bits(v, 3, 5), 2);
    let spliced = concat_bits(spliced, spec_bits(v, 0, 1), 1);
    let spliced = concat_bits(spliced, spec_bits(v, 5, 7), 2);
    let spliced = concat_bits(spliced, spec_bits(v, 1, 3), 2);
    spec_sign_extend(spliced << 1, 8)
}

fn branch_offset(value: HalfWord) -> (r: XWord)
    ensures
        r == spec_branch_offset(value),
{
    let v: u64 = value as u64;
    let spliced: XWord = bits(v, 7, 8);
    let spliced: XWord = concat(spliced, bits(v, 3, 5), 2);
    let spliced: XWord = concat(spliced, bits(v, 0, 1), 1);
    let spliced: XWord = concat(spliced, bits(v, 5, 7), 2);
    let spliced: XWord = concat(spliced, bits(v, 1, 3), 2);
    sign_extend(spliced << 1, 8)
}

/// The shift amount of `C.SRLI` and `C.SRAI`, and the immediate of `C.ANDI` before
/// its sign extension: bits `[7, 8)` and `[0, 5)` of the format's offset in this
/// order.
pub open spec fn spec_shift_amount(value: HalfWord) -> XWord {
    let v = value as u64;
    let spliced = spec_bits(v, 7, 8);
    let spliced = concat_bits(spliced, spec_bits(v, 0, 5), 5);
    spliced
}

fn shift_amount(value: HalfWord) -> (r: XWord)
    ensures
        r == spec_shift_amount(value),
{
    let v: u64 = value as u64;
    let spliced: XWord = bits(v, 7, 8);
    let spliced: XWord = concat(spliced, bits(v, 0, 5), 5);
    spliced
}

/// The byte offset of `C.LWSP` and `C.SWSP`: bits `[0, 2)` and `[2, 6)` of the
/// format's immediate in this order, times 4.
pub open spec fn spec_word_sp_offset(value: HalfWord) -> XWord {
    let v = value as u64;
    let spliced = spec_bits(v, 0, 2);
    let spliced = concat_bits(spliced, spec_bits(v, 2, 6), 4);
    spliced << 2
}

fn word_sp_offset(value: HalfWord) -> (r: XWord)
    ensures
        r == spec_word_sp_offset(value),
{
    let v: u64 = value as u64;
    let spliced: XWord = bits(v, 0, 2);
    let spliced: XWord = concat(spliced, bits(v, 2, 6), 4);
    spliced << 2
}

/// The byte offset of `C.LDSP` and `C.SDSP`: bits `[0, 3)` and `[3, 6)` of the
/// format's immediate in this order, times 8.
pub open spec fn spec_doubleword_sp_offset(value: HalfWord) -> XWord {
    let v = value as u64;
    let spliced = spec_bits(v, 0, 3);
    let spliced = concat_bits(spliced, spec_bits(v, 3, 6), 3);
    spliced << 3
}

fn doubleword_sp_offset(value: HalfWord) -> (r: XWord)
    ensures
        r == spec_doubleword_sp_offset(value),
{
    let v: u64 = value as u64;
    let spliced: XWord = bits(v, 0, 3);
    let spliced: XWord = concat(spliced, bits(v, 3, 6), 3);
    spliced << 3
}

proof fn lemma_immediates(value: HalfWord)
    by (bit_vector)
    ensures
        spec_sign_extend(spec_addi4spn_imm(value), 11) == spec_addi4spn_imm(value),
        spec_sign_extend(spec_word_offset(value), 11) == spec_word_offset(value),
        spec_sign_extend(spec_doubleword_offset(value), 11) == spec_doubleword_offset(value),
        spec_sign_extend(spec_word_sp_offset(value), 11) == spec_word_sp_offset(value),
        spec_sign_extend(spec_doubleword_sp_offset(value), 11) == spec_doubleword_sp_offset(
            value,
        ),
        spec_sign_extend(spec_addi16sp_imm(value), 11) == spec_addi16sp_imm(value),
        spec_sign_extend(spec_shift_amount(value), 11) == spec_shift_amount(value),
        spec_sign_extend(spec_shift_amount(value) | 0x400, 11) == spec_shift_amount(value) | 0x400,
        spec_sign_extend(spec_sign_extend(spec_shift_amount(value), 5), 11) == spec_sign_extend(
            spec_shift_amount(value),
            5,
        ),
        spec_sign_extend(spec_sign_extend(value as XWord, 5), 11) == spec_sign_extend(
            value as XWord,
            5,
        ),
        spec_sign_extend((value & 0x3F) as XWord, 11) == (value & 0x3F) as XWord,
        spec_sign_extend(spec_sign_extend((value as XWord) << 12, 17), 31) == spec_sign_extend(
            (value as XWord) << 12,
            17,
        ),
        spec_sign_extend((value as XWord) << 12, 17) & 0xFFF == 0,
        spec_sign_extend(spec_jump_offset(value), 20) == spec_jump_offset(value),
        spec_jump_offset(value) & 1 == 0,
        spec_sign_extend(spec_branch_offset(value), 12) == spec_branch_offset(value),
        spec_branch_offset(value) & 1 == 0,
        spec_sign_extend(0, 11) == 0,
{
}

/// The regular instruction that a compressed instruction abbreviates has
/// fields that its format can encode.
pub proof fn lemma_expansion_canonical(compressed: CompressedInstruction)
    requires
        compressed.wf(),
    ensures
        compressed.spec_expand().canonical(),
{
    match compressed {
        CompressedInstruction::C0(c0) => match c0 {
            C0::CAddi4spn(ciw) => lemma_immediates(ciw.imm),
            C0::CLw(cl) => lemma_immediates(cl.imm),
            C0::CSw(cs) => lemma_immediates(cs.imm),
            C0::CLd(cl) => lemma_immediates(cl.imm),
            C0::CSd(cs) => lemma_immediates(cs.imm),
        },
        CompressedInstruction::C1(c1) => match c1 {
            C1::CAddi(ci) => lemma_immediates(ci.imm),
            C1::CJal(cj) => lemma_immediates(cj.target),
            C1::CLi(ci) => lemma_immediates(ci.imm),
            C1::CAddi16sp(ci) => lemma_immediates(ci.imm),
            C1::CLui(ci) => lemma_immediates(ci.imm),
            C1::SubFunct(sub_funct) => match sub_funct {
                C1SubFunct::CSrli(cb) => lemma_immediates(cb.offset),
                C1SubFunct::CSrai(cb) => lemma_immediates(cb.offset),
                C1SubFunct::CAndi(cb) => lemma_immediates(cb.offset),
                _ => {},
            },
            C1::CJ(cj) => lemma_immediates(cj.target),
            C1::CBeqz(cb) => lemma_immediates(cb.offset),
            C1::CBnez(cb) => lemma_immediates(cb.offset),
            C1::CAddiw(ci) => lemma_immediates(ci.imm),
        },
        CompressedInstruction::C2(c2) => match c2 {
            C2::CSlli(ci) => lemma_immediates(ci.imm),
            C2::CLwsp(ci) => lemma_immediates(ci.imm),
            C2::CSwsp(css) => lemma_immediates(css.imm),
            C2::SubFunct(_) => lemma_immediates(0),
            C2::CLdsp(ci) => lemma_immediates(ci.imm),
            C2::CSdsp(css) => lemma_immediates(css.imm),
        },
    }
}

/// The fields of a compressed instruction that was decoded from a word fit
/// their widths.
pub proof fn lemma_compressed_decode_wf(instruction: HalfWord)
    ensures
        CompressedInstruction::spec_decode(instruction) matches Ok(compressed)
            ==> compressed.wf(),
{
    lemma_compressed_fields(instruction);
}

/// A compressed RISC-V instruction, with variants for each compressed opcode.
#[derive(Debug, Clone, Copy, PartialEq, Eq, Structural)]
pub enum CompressedInstruction {
    /// C0 quadrant instruction, low bits `00`.
    C0(C0),
    /// C1 quadrant instruction, low bits `01`.
    C1(C1),
    /// C2 quadrant instruction, low bits `10`.
    C2(C2),
}

impl CompressedInstruction {
    /// The fields that the decoders read fit their widths.
    pub open spec fn wf(self) -> bool {
        match self {
            Self::C0(c0) => c0.wf(),
            Self::C1(c1) => c1.wf(),
            Self::C2(c2) => c2.wf(),
        }
    }

    /// The compressed instruction that a 16-bit word encodes: the low two bits
    /// select the quadrant, and `11` is `InvalidOpcode`.
    pub open spec fn spec_decode(instruction: HalfWord) -> Result<Self, InstructionDecodeError> {
        let opcode = instruction & 0b11;
        if opcode == 0b00 {
            match C0::spec_decode(instruction) {
                Ok(c) => Ok(Self::C0(c)),
                Err(e) => Err(e),
            }
        } else if opcode == 0b01 {
            match C1::spec_decode(instruction) {
                Ok(c) => Ok(Self::C1(c)),
                Err(e) => Err(e),
            }
        } else if opcode == 0b10 {
            match C2::spec_decode(instruction) {
                Ok(c) => Ok(Self::C2(c)),
                Err(e) => Err(e),
            }
        } else {
            Err(InstructionDecodeError::InvalidOpcode(opcode as u8))
        }
    }

    /// The regular instruction that the compressed instruction abbreviates.
    pub open spec fn spec_expand(self) -> Instruction {
        match self {
            Self::C0(c0) => c0.spec_expand(),
            Self::C1(c1) => c1.spec_expand(),
            Self::C2(c2) => c2.spec_expand(),
        }
    }

    /// Decodes a [CompressedInstruction] from a 16-bit [HalfWord].
    pub fn decode(instruction: HalfWord) -> (r: Result<Self, InstructionDecodeError>)
        ensures
            r == Self::spec_decode(instruction),
            r matches Ok(c) ==> c.wf(),
    {
        let opcode: u16 = instruction & 0b11;
        if opcode == 0b00 {
            match C0::decode(instruction) {
                Ok(c) => Ok(Self::C0(c)),
                Err(e) => Err(e),
            }
        } else if opcode == 0b01 {
            match C1::decode(instruction) {
                Ok(c) => Ok(Self::C1(c)),
                Err(e) => Err(e),
            }
        } else if opcode == 0b10 {
            match C2::decode(instruction) {
                Ok(c) => Ok(Self::C2(c)),
                Err(e) => Err(e),
            }
        } else {
            Err(InstructionDecodeError::InvalidOpcode(opcode as u8))
        }
    }

    /// Maps the [CompressedInstruction] to a regular RISC-V [Instruction].
    pub fn expand(self) -> (r: Instruction)
        requires
            self.wf(),
        ensures
            r == self.spec_expand(),
            r.wf(),
    {
        match self {
            Self::C0(c0) => c0.expand(),
            Self::C1(c1) => c1.expand(),
            Self::C2(c2) => c2.expand(),
        }
    }
}

/// A RISC-V C0 instruction.
#[derive(Debug, Clone, Copy, PartialEq, Eq, Structural)]
pub enum C0 {
    /// C.ADDI4SPN instruction.
    CAddi4spn(CIWType),
    /// C.LW instruction.
    CLw(CLType),
    /// C.SW instruction.
    CSw(CSType),
    /// C.LD instruction.
    CLd(CLType),
    /// C.SD instruction.
    CSd(CSType),
}

impl C0 {
    /// The fields of the format fit their widths.
    pub open spec fn wf(self) -> bool {
        match self {
            Self::CAddi4spn(ciw) => ciw.wf(),
            Self::CLw(cl) => cl.wf(),
            Self::CSw(cs) => cs.wf(),
            Self::CLd(cl) => cl.wf(),
            Self::CSd(cs) => cs.wf(),
        }
    }

    /// The C0 instruction that `funct3`, bits `[13, 16)`, selects. `C.ADDI4SPN`
    /// with a zero immediate is reserved, and like an unused `funct3` it is
    /// `InvalidFunction` of `funct3` and zero.
    pub open spec fn spec_decode(instruction: HalfWord) -> Result<Self, InstructionDecodeError> {
        let funct3 = spec_bits(instruction as u64, 13, 16) as u8;
        if funct3 == 0b000 && spec_bits(instruction as u64, 5, 13) != 0 {
            Ok(Self::CAddi4spn(CIWType::spec_decode(instruction)))
        } else if funct3 == 0b010 {
            Ok(Self::CLw(CLType::spec_decode(instruction)))
        } else if funct3 == 0b110 {
            Ok(Self::CSw(CSType::spec_decode(instruction)))
        } else if funct3 == 0b011 {
            Ok(Self::CLd(CLType::spec_decode(instruction)))
        } else if funct3 == 0b111 {
            Ok(Self::CSd(CSType::spec_decode(instruction)))
        } else {
            Err(InstructionDecodeError::InvalidFunction { q_a: funct3, q_b: 0 })
        }
    }

    /// The regular instruction that the C0 instruction abbreviates.
    pub open spec fn spec_expand(self) -> Instruction {
        match self {
            // `addi rd', x2, nzuimm`
            Self::CAddi4spn(ciw) => Instruction::ImmediateArithmetic(
                IType {
                    rd: map_compressed_reg_idx(ciw.rd),
                    funct3: 0,
                    rs1: 2,
                    imm: spec_addi4spn_imm(ciw.imm),
                },
                ImmediateArithmeticFunction::Addi,
            ),
            // `lw rd', offset(rs1')`
            Self::CLw(cl) => Instruction::MemoryLoad(
                IType {
                    rd: map_compressed_reg_idx(cl.rd),
                    funct3: 0b010,
                    rs1: map_compressed_reg_idx(cl.rs1),
                    imm: spec_word_offset(cl.imm),
                },
                LoadFunction::Lw,
            ),
            // `sw rs2', offset(rs1')`
            Self::CSw(cs) => Instruction::MemoryStore(
                SType {
                    funct3: 0b010,
                    rs1: map_compressed_reg_idx(cs.rs1),
                    rs2: map_compressed_reg_idx(cs.rs2),
                    imm: spec_word_offset(cs.imm),
                },
                StoreFunction::Sw,
            ),
            // `ld rd', offset(rs1')`
            Self::CLd(cl) => Instruction::MemoryLoad(
                IType {
                    rd: map_compressed_reg_idx(cl.rd),
                    funct3: cl.funct3,
                    rs1: map_compressed_reg_idx(cl.rs1),
                    imm: spec_doubleword_offset(cl.imm),
                },
                LoadFunction::Ld,
            ),
            // `sd rs2', offset(rs1')`
            Self::CSd(cs) => Instruction::MemoryStore(
                SType {
                    funct3: cs.funct3,
                    rs1: map_compressed_reg_idx(cs.rs1),
                    rs2: map_compressed_reg_idx(cs.rs2),
                    imm: spec_doubleword_offset(cs.imm),
                },
                StoreFunction::Sd,
            ),
        }
    }

    /// Decodes a [C0] instruction from a 16-bit [HalfWord].
    pub fn decode(instruction: HalfWord) -> (r: Result<Self, InstructionDecodeError>)
        ensures
            r == Self::spec_decode(instruction),
            r matches Ok(c) ==> c.wf(),
    {
        let funct3: u8 = bits(instruction as u64, 13, 16) as u8;
        if funct3 == 0b000 && bits(instruction as u64, 5, 13) != 0 {
            Ok(Self::CAddi4spn(CIWType::decode(instruction)))
        } else if funct3 == 0b010 {
            Ok(Self::CLw(CLType::decode(instruction)))
        } else if funct3 == 0b110 {
            Ok(Self::CSw(CSType::decode(instruction)))
        } else if funct3 == 0b011 {
            Ok(Self::CLd(CLType::decode(instruction)))
        } else if funct3 == 0b111 {
            Ok(Self::CSd(CSType::decode(instruction)))
        } else {
            Err(InstructionDecodeError::InvalidFunction { q_a: funct3, q_b: 0 })
        }
    }

    /// Maps the compressed instruction to a regular RISC-V [Instruction].
    pub fn expand(self) -> (r: Instruction)
        requires
            self.wf(),
        ensures
            r == self.spec_expand(),
            r.wf(),
    {
        match self {
            Self::CAddi4spn(ciw) => {
                let i_type = IType {
                    rd: map_compressed_reg_idx(ciw.rd),
                    funct3: 0,
                    rs1: 2,
                    imm: addi4spn_imm(ciw.imm),
                };
                Instruction::ImmediateArithmetic(i_type, ImmediateArithmeticFunction::Addi)
            },
            Self::CLw(cl) => {
                let i_type = IType {
                    rd: map_compressed_reg_idx(cl.rd),
                    funct3: 0b010,
                    rs1: map_compressed_reg_idx(cl.rs1),
                    imm: word_offset(cl.imm),
                };
                Instruction::MemoryLoad(i_type, LoadFunction::Lw)
            },
            Self::CSw(cs) => {
                let s_type = SType {
                    funct3: 0b010,
                    rs1: map_compressed_reg_idx(cs.rs1),
                    rs2: map_compressed_reg_idx(cs.rs2),
                    imm: word_offset(cs.imm),
                };
                Instruction::MemoryStore(s_type, StoreFunction::Sw)
            },
            Self::CLd(cl) => {
                let i_type = IType {
                    rd: map_compressed_reg_idx(cl.rd),
                    funct3: cl.funct3,
                    rs1: map_compressed_reg_idx(cl.rs1),
                    imm: doubleword_offset(cl.imm),
                };
                Instruction::MemoryLoad(i_type, LoadFunction::Ld)
            },
            Self::CSd(cs) => {
                let s_type = SType {
                    funct3: cs.funct3,
                    rs1: map_compressed_reg_idx(cs.rs1),
                    rs2: map_compressed_reg_idx(cs.rs2),
                    imm: doubleword_offset(cs.imm),
                };
                Instruction::MemoryStore(s_type, StoreFunction::Sd)
            },
        }
    }
}

/// A RISC-V C1 instruction.
#[derive(Debug, Clone, Copy, PartialEq, Eq, Structural)]
pub enum C1 {
    /// C.NOP / C.ADDI instruction.
    CAddi(CIType),
    /// C.JAL instruction.
    CJal(CJType),
    /// C.LI instruction.
    CLi(CIType),
    /// C.ADDI16SP instruction.
    CAddi16sp(CIType),
    /// C.LUI instruction.
    CLui(CIType),
    /// C.SRLI, C.SRAI, C.ANDI, C.SUB, C.XOR, C.OR, C.AND, C.SUBW, C.ADDW instructions.
    SubFunct(C1SubFunct),
    /// C.J instruction.
    CJ(CJType),
    /// C.BEQZ instruction.
    CBeqz(CBType),
    /// C.BNEZ instruction.
    CBnez(CBType),
    /// C.ADDIW instruction.
    CAddiw(CIType),
}

impl C1 {
    /// The fields of the format fit their widths.
    pub open spec fn wf(self) -> bool {
        match self {
            Self::CAddi(ci) => ci.wf(),
            Self::CJal(cj) => cj.wf(),
            Self::CLi(ci) => ci.wf(),
            Self::CAddi16sp(ci) => ci.wf(),
            Self::CLui(ci) => ci.wf(),
            Self::SubFunct(sub_funct) => sub_funct.wf(),
            Self::CJ(cj) => cj.wf(),
            Self::CBeqz(cb) => cb.wf(),
            Self::CBnez(cb) => cb.wf(),
            Self::CAddiw(ci) => ci.wf(),
        }
    }

    /// The C1 instruction that `funct3`, bits `[13, 16)`, selects. `001` is
    /// `C.ADDIW`, which needs a destination other than `x0`; `011` is
    /// `C.ADDI16SP` for `x2` and `C.LUI` for every other register but `x0`. A
    /// slot that is left out is `InvalidFunction` of `funct3` and zero.
    pub open spec fn spec_decode(instruction: HalfWord) -> Result<Self, InstructionDecodeError> {
        let funct3 = spec_bits(instruction as u64, 13, 16) as u8;
        let rs1_rd = spec_bits(instruction as u64, 7, 12) as u8;
        if funct3 == 0b000 {
            Ok(Self::CAddi(CIType::spec_decode(instruction)))
        } else if funct3 == 0b001 && rs1_rd != 0 {
            Ok(Self::CAddiw(CIType::spec_decode(instruction)))
        } else if funct3 == 0b010 {
            Ok(Self::CLi(CIType::spec_decode(instruction)))
        } else if funct3 == 0b011 && rs1_rd == 2 {
            Ok(Self::CAddi16sp(CIType::spec_decode(instruction)))
        } else if funct3 == 0b011 && rs1_rd != 0 {
            Ok(Self::CLui(CIType::spec_decode(instruction)))
        } else if funct3 == 0b100 {
            match C1SubFunct::spec_decode(instruction) {
                Ok(sub_funct) => Ok(Self::SubFunct(sub_funct)),
                Err(e) => Err(e),
            }
        } else if funct3 == 0b101 {
            Ok(Self::CJ(CJType::spec_decode(instruction)))
        } else if funct3 == 0b110 {
            Ok(Self::CBeqz(CBType::spec_decode(instruction)))
        } else if funct3 == 0b111 {
            Ok(Self::CBnez(CBType::spec_decode(instruction)))
        } else {
            Err(InstructionDecodeError::InvalidFunction { q_a: funct3, q_b: 0 })
        }
    }

    /// The regular instruction that the C1 instruction abbreviates.
    pub open spec fn spec_expand(self) -> Instruction {
        match self {
            // `addi rd, rd, imm`
            Self::CAddi(ci) => Instruction::ImmediateArithmetic(
                IType {
                    rd: ci.rs1_rd,
                    funct3: 0,
                    rs1: ci.rs1_rd,
                    imm: spec_sign_extend(ci.imm as XWord, 5),
                },
                ImmediateArithmeticFunction::Addi,
            ),
            // `jal x1, offset`
            Self::CJal(cj) => Instruction::Jal(JType { rd: 1, imm: spec_jump_offset(cj.target) }),
            // `addi rd, x0, imm`
            Self::CLi(ci) => Instruction::ImmediateArithmetic(
                IType {
                    rd: ci.rs1_rd,
                    funct3: 0,
                    rs1: 0,
                    imm: spec_sign_extend(ci.imm as XWord, 5),
                },
                ImmediateArithmeticFunction::Addi,
            ),
            // `addi x2, x2, nzimm`
            Self::CAddi16sp(ci) => Instruction::ImmediateArithmetic(
                IType { rd: 2, funct3: 0, rs1: 2, imm: spec_addi16sp_imm(ci.imm) },
                ImmediateArithmeticFunction::Addi,
            ),
            // `lui rd, imm`
            Self::CLui(ci) => Instruction::Lui(
                UType { rd: ci.rs1_rd, imm: spec_sign_extend((ci.imm as XWord) << 12, 17) },
            ),
            Self::SubFunct(sub_funct) => sub_funct.spec_map(),
            // `jal x0, offset`
            Self::CJ(cj) => Instruction::Jal(JType { rd: 0, imm: spec_jump_offset(cj.target) }),
            // `beq rs1', x0, offset`
            Self::CBeqz(cb) => Instruction::Branch(
                BType {
                    funct3: 0,
                    rs1: map_compressed_reg_idx(cb.rs1),
                    rs2: 0,
                    imm: spec_branch_offset(cb.offset),
                },
                BranchFunction::Beq,
            ),
            // `bne rs1', x0, offset`
            Self::CBnez(cb) => Instruction::Branch(
                BType {
                    funct3: 1,
                    rs1: map_compressed_reg_idx(cb.rs1),
                    rs2: 0,
                    imm: spec_branch_offset(cb.offset),
                },
                BranchFunction::Bne,
            ),
            // `addiw rd, rd, imm`
            Self::CAddiw(ci) => Instruction::ImmediateArithmeticWord(
                IType {
                    rd: ci.rs1_rd,
                    funct3: 0,
                    rs1: ci.rs1_rd,
                    imm: spec_sign_extend(ci.imm as XWord, 5),
                },
                ImmediateArithmeticWordFunction::Addiw,
            ),
        }
    }

    /// Decodes a [C1] instruction from a 16-bit [HalfWord].
    pub fn decode(instruction: HalfWord) -> (r: Result<Self, InstructionDecodeError>)
        ensures
            r == Self::spec_decode(instruction),
            r matches Ok(c) ==> c.wf(),
    {
        let funct3: u8 = bits(instruction as u64, 13, 16) as u8;
        let rs1_rd: u8 = bits(instruction as u64, 7, 12) as u8;
        if funct3 == 0b000 {
            Ok(Self::CAddi(CIType::decode(instruction)))
        } else if funct3 == 0b001 && rs1_rd != 0 {
            Ok(Self::CAddiw(CIType::decode(instruction)))
        } else if funct3 == 0b010 {
            Ok(Self::CLi(CIType::decode(instruction)))
        } else if funct3 == 0b011 && rs1_rd == 2 {
            Ok(Self::CAddi16sp(CIType::decode(instruction)))
        } else if funct3 == 0b011 && rs1_rd != 0 {
            Ok(Self::CLui(CIType::decode(instruction)))
        } else if funct3 == 0b100 {
            match C1SubFunct::decode(instruction) {
                Ok(sub_funct) => Ok(Self::SubFunct(sub_funct)),
                Err(e) => Err(e),
            }
        } else if funct3 == 0b101 {
            Ok(Self::CJ(CJType::decode(instruction)))
        } else if funct3 == 0b110 {
            Ok(Self::CBeqz(CBType::decode(instruction)))
        } else if funct3 == 0b111 {
            Ok(Self::CBnez(CBType::decode(instruction)))
        } else {
            Err(InstructionDecodeError::InvalidFunction { q_a: funct3, q_b: 0 })
        }
    }

    /// Maps the compressed instruction to a regular RISC-V [Instruction].
    pub fn expand(self) -> (r: Instruction)
        requires
            self.wf(),
        ensures
            r == self.spec_expand(),
            r.wf(),
    {
        match self {
            Self::CAddi(ci) => {
                let i_type = IType {
                    rd: ci.rs1_rd,
                    funct3: 0,
                    rs1: ci.rs1_rd,
                    imm: sign_extend(ci.imm as XWord, 5),
                };
                Instruction::ImmediateArithmetic(i_type, ImmediateArithmeticFunction::Addi)
            },
            Self::CJal(cj) => {
                let j_type = JType { rd: 1, imm: jump_offset(cj.target) };
                Instruction::Jal(j_type)
            },
            Self::CLi(ci) => {
                let i_type = IType {
                    rd: ci.rs1_rd,
                    funct3: 0,
                    rs1: 0,
                    imm: sign_extend(ci.imm as XWord, 5),
                };
                Instruction::ImmediateArithmetic(i_type, ImmediateArithmeticFunction::Addi)
            },
            Self::CAddi16sp(ci) => {
                let i_type = IType { rd: 2, funct3: 0, rs1: 2, imm: addi16sp_imm(ci.imm) };
                Instruction::ImmediateArithmetic(i_type, ImmediateArithmeticFunction::Addi)
            },
            Self::CLui(ci) => {
                let u_type = UType { rd: ci.rs1_rd, imm: sign_extend((ci.imm as XWord) << 12, 17) };
                Instruction::Lui(u_type)
            },
            Self::SubFunct(sub_funct) => sub_funct.map(),
            Self::CJ(cj) => {
                let j_type = JType { rd: 0, imm: jump_offset(cj.target) };
                Instruction::Jal(j_type)
            },
            Self::CBeqz(cb) => {
                let b_type = BType {
                    funct3: 0,
                    rs1: map_compressed_reg_idx(cb.rs1),
                    rs2: 0,
                    imm: branch_offset(cb.offset),
                };
                Instruction::Branch(b_type, BranchFunction::Beq)
            },
            Self::CBnez(cb) => {
                let b_type = BType {
                    funct3: 1,
                    rs1: map_compressed_reg_idx(cb.rs1),
                    rs2: 0,
                    imm: branch_offset(cb.offset),
                };
                Instruction::Branch(b_type, BranchFunction::Bne)
            },
            Self::CAddiw(ci) => {
                let i_type = IType {
                    rd: ci.rs1_rd,
                    funct3: 0,
                    rs1: ci.rs1_rd,
                    imm: sign_extend(ci.imm as XWord, 5),
                };
                Instruction::ImmediateArithmeticWord(i_type, ImmediateArithmeticWordFunction::Addiw)
            },
        }
    }
}

/// Sub-functions of the [C1] `4` funct3.
#[derive(Debug, Clone, Copy, PartialEq, Eq, Structural)]
pub enum C1SubFunct {
    /// C.SRLI instruction.
    CSrli(CBType),
    /// C.SRAI instruction.
    CSrai(CBType),
    /// C.ANDI instruction.
    CAndi(CBType),
    /// C.SUB instruction.
    CSub(CSType),
    /// C.XOR instruction.
    CXor(CSType),
    /// C.OR instruction.
    COr(CSType),
    /// C.AND instruction.
    CAnd(CSType),
    /// C.SUBW instruction.
    CSubw(CSType),
    /// C.ADDW instruction.
    CAddw(CSType),
}

impl C1SubFunct {
    /// The fields of the format fit their widths.
    pub open spec fn wf(self) -> bool {
        match self {
            Self::CSrli(cb) => cb.wf(),
            Self::CSrai(cb) => cb.wf(),
            Self::CAndi(cb) => cb.wf(),
            Self::CSub(cs) => cs.wf(),
            Self::CXor(cs) => cs.wf(),
            Self::COr(cs) => cs.wf(),
            Self::CAnd(cs) => cs.wf(),
            Self::CSubw(cs) => cs.wf(),
            Self::CAddw(cs) => cs.wf(),
        }
    }

    /// The instruction that bits `[10, 12)` select and, where they are `11`,
    /// bits `[5, 7)` with bit 12, which tells the word forms from the others.
    pub open spec fn spec_decode(instruction: HalfWord) -> Result<Self, InstructionDecodeError> {
        let funct6_low = spec_bits(instruction as u64, 10, 12) as u8;
        let funct2 = spec_bits(instruction as u64, 5, 7) as u8;
        let arch_sel = spec_bits(instruction as u64, 12, 13) as u8;
        if funct6_low == 0b00 {
            Ok(Self::CSrli(CBType::spec_decode(instruction)))
        } else if funct6_low == 0b01 {
            Ok(Self::CSrai(CBType::spec_decode(instruction)))
        } else if funct6_low == 0b10 {
            Ok(Self::CAndi(CBType::spec_decode(instruction)))
        } else if funct6_low == 0b11 {
            if funct2 == 0b00 && arch_sel == 0 {
                Ok(Self::CSub(CSType::spec_decode(instruction)))
            } else if funct2 == 0b01 && arch_sel == 0 {
                Ok(Self::CXor(CSType::spec_decode(instruction)))
            } else if funct2 == 0b10 {
                Ok(Self::COr(CSType::spec_decode(instruction)))
            } else if funct2 == 0b11 {
                Ok(Self::CAnd(CSType::spec_decode(instruction)))
            } else if funct2 == 0b00 && arch_sel == 1 {
                Ok(Self::CSubw(CSType::spec_decode(instruction)))
            } else if funct2 == 0b01 && arch_sel == 1 {
                Ok(Self::CAddw(CSType::spec_decode(instruction)))
            } else {
                Err(InstructionDecodeError::InvalidFunction { q_a: funct2, q_b: arch_sel })
            }
        } else {
            Err(InstructionDecodeError::InvalidFunction { q_a: funct6_low, q_b: 0 })
        }
    }

    /// The regular instruction that the compressed instruction abbreviates; its
    /// destination is its first source.
    pub open spec fn spec_map(self) -> Instruction {
        match self {
            // `srli rd', rd', shamt`
            Self::CSrli(cb) => Instruction::ImmediateArithmetic(
                IType {
                    rd: map_compressed_reg_idx(cb.rs1),
                    funct3: 0b101,
                    rs1: map_compressed_reg_idx(cb.rs1),
                    imm: spec_shift_amount(cb.offset),
                },
                ImmediateArithmeticFunction::Srli,
            ),
            // `srai rd', rd', shamt`
            Self::CSrai(cb) => Instruction::ImmediateArithmetic(
                IType {
                    rd: map_compressed_reg_idx(cb.rs1),
                    funct3: 0b101,
                    rs1: map_compressed_reg_idx(cb.rs1),
                    imm: spec_shift_amount(cb.offset) | 0x400,
                },
                ImmediateArithmeticFunction::Srai,
            ),
            // `andi rd', rd', imm`
            Self::CAndi(cb) => Instruction::ImmediateArithmetic(
                IType {
                    rd: map_compressed_reg_idx(cb.rs1),
                    funct3: 0b111,
                    rs1: map_compressed_reg_idx(cb.rs1),
                    imm: spec_sign_extend(spec_shift_amount(cb.offset), 5),
                },
                ImmediateArithmeticFunction::Andi,
            ),
            // `sub rd', rd', rs2'`
            Self::CSub(cs) => Instruction::RegisterArithmetic(
                spec_register_pair(cs, 0b000, 0x20),
                RegisterArithmeticFunction::Sub,
            ),
            // `xor rd', rd', rs2'`
            Self::CXor(cs) => Instruction::RegisterArithmetic(
                spec_register_pair(cs, 0b100, 0),
                RegisterArithmeticFunction::Xor,
            ),
            // `or rd', rd', rs2'`
            Self::COr(cs) => Instruction::RegisterArithmetic(
                spec_register_pair(cs, 0b110, 0),
                RegisterArithmeticFunction::Or,
            ),
            // `and rd', rd', rs2'`
            Self::CAnd(cs) => Instruction::RegisterArithmetic(
                spec_register_pair(cs, 0b111, 0),
                RegisterArithmeticFunction::And,
            ),
            // `subw rd', rd', rs2'`
            Self::CSubw(cs) => Instruction::RegisterArithmeticWord(
                spec_register_pair(cs, 0b000, 0x20),
                RegisterArithmeticWordFunction::Subw,
            ),
            // `addw rd', rd', rs2'`
            Self::CAddw(cs) => Instruction::RegisterArithmeticWord(
                spec_register_pair(cs, 0b000, 0),
                RegisterArithmeticWordFunction::Addw,
            ),
        }
    }

    /// Decodes a [C1SubFunct] instruction from a 16-bit [HalfWord].
    pub fn decode(instruction: HalfWord) -> (r: Result<Self, InstructionDecodeError>)
        ensures
            r == Self::spec_decode(instruction),
            r matches Ok(c) ==> c.wf(),
    {
        let funct6_low: u8 = bits(instruction as u64, 10, 12) as u8;
        let funct2: u8 = bits(instruction as u64, 5, 7) as u8;
        let arch_sel: u8 = bits(instruction as u64, 12, 13) as u8;
        if funct6_low == 0b00 {
            Ok(Self::CSrli(CBType::decode(instruction)))
        } else if funct6_low == 0b01 {
            Ok(Self::CSrai(CBType::decode(instruction)))
        } else if funct6_low == 0b10 {
            Ok(Self::CAndi(CBType::decode(instruction)))
        } else if funct6_low == 0b11 {
            if funct2 == 0b00 && arch_sel == 0 {
                Ok(Self::CSub(CSType::decode(instruction)))
            } else if funct2 == 0b01 && arch_sel == 0 {
                Ok(Self::CXor(CSType::decode(instruction)))
            } else if funct2 == 0b10 {
                Ok(Self::COr(CSType::decode(instruction)))
            } else if funct2 == 0b11 {
                Ok(Self::CAnd(CSType::decode(instruction)))
            } else if funct2 == 0b00 && arch_sel == 1 {
                Ok(Self::CSubw(CSType::decode(instruction)))
            } else if funct2 == 0b01 && arch_sel == 1 {
                Ok(Self::CAddw(CSType::decode(instruction)))
            } else {
                Err(InstructionDecodeError::InvalidFunction { q_a: funct2, q_b: arch_sel })
            }
        } else {
            Err(InstructionDecodeError::InvalidFunction { q_a: funct6_low, q_b: 0 })
        }
    }

    /// Maps the compressed instruction to a regular RISC-V [Instruction].
    pub fn map(self) -> (r: Instruction)
        requires
            self.wf(),
        ensures
            r == self.spec_map(),
            r.wf(),
    {
        match self {
            Self::CSrli(cb) => {
                let i_type = IType {
                    rd: map_compressed_reg_idx(cb.rs1),
                    funct3: 0b101,
                    rs1: map_compressed_reg_idx(cb.rs1),
                    imm: shift_amount(cb.offset),
                };
                Instruction::ImmediateArithmetic(i_type, ImmediateArithmeticFunction::Srli)
            },
            Self::CSrai(cb) => {
                let i_type = IType {
                    rd: map_compressed_reg_idx(cb.rs1),
                    funct3: 0b101,
                    rs1: map_compressed_reg_idx(cb.rs1),
                    imm: shift_amount(cb.offset) | 0x400,
                };
                Instruction::ImmediateArithmetic(i_type, ImmediateArithmeticFunction::Srai)
            },
            Self::CAndi(cb) => {
                let i_type = IType {
                    rd: map_compressed_reg_idx(cb.rs1),
                    funct3: 0b111,
                    rs1: map_compressed_reg_idx(cb.rs1),
                    imm: sign_extend(shift_amount(cb.offset), 5),
                };
                Instruction::ImmediateArithmetic(i_type, ImmediateArithmeticFunction::Andi)
            },
            Self::CSub(cs) => {
                Instruction::RegisterArithmetic(
                    register_pair(cs, 0b000, 0x20),
                    RegisterArithmeticFunction::Sub,
                )
            },
            Self::CXor(cs) => {
                Instruction::RegisterArithmetic(
                    register_pair(cs, 0b100, 0),
                    RegisterArithmeticFunction::Xor,
                )
            },
            Self::COr(cs) => {
                Instruction::RegisterArithmetic(
                    register_pair(cs, 0b110, 0),
                    RegisterArithmeticFunction::Or,
                )
            },
            Self::CAnd(cs) => {
                Instruction::RegisterArithmetic(
                    register_pair(cs, 0b111, 0),
                    RegisterArithmeticFunction::And,
                )
            },
            Self::CSubw(cs) => {
                Instruction::RegisterArithmeticWord(
                    register_pair(cs, 0b000, 0x20),
                    RegisterArithmeticWordFunction::Subw,
                )
            },
            Self::CAddw(cs) => {
                Instruction::RegisterArithmeticWord(
                    register_pair(cs, 0b000, 0),
                    RegisterArithmeticWordFunction::Addw,
                )
            },
        }
    }
}

/// The R-type fields of a two-register compressed instruction: the destination
/// and first source are `rs1'`, the second source is `rs2'`.
pub open spec fn spec_register_pair(cs: CSType, funct3: u8, funct7: u8) -> RType {
    RType {
        rd: map_compressed_reg_idx(cs.rs1),
        funct3,
        rs1: map_compressed_reg_idx(cs.rs1),
        rs2: map_compressed_reg_idx(cs.rs2),
        funct7,
    }
}

fn register_pair(cs: CSType, funct3: u8, funct7: u8) -> (r: RType)
    requires
        cs.wf(),
    ensures
        r == spec_register_pair(cs, funct3, funct7),
{
    RType {
        rd: map_compressed_reg_idx(cs.rs1),
        funct3,
        rs1: map_compressed_reg_idx(cs.rs1),
        rs2: map_compressed_reg_idx(cs.rs2),
        funct7,
    }
}

/// A RISC-V C2 instruction.
#[derive(Debug, Clone, Copy, PartialEq, Eq, Structural)]
pub enum C2 {
    /// C.SLLI instruction.
    CSlli(CIType),
    /// C.LWSP instruction.
    CLwsp(CIType),
    /// C.SWSP instruction.
    CSwsp(CSSType),
    /// Sub-functions.
    SubFunct(C2SubFunct),
    /// C.LDSP instruction.
    CLdsp(CIType),
    /// C.SDSP instruction.
    CSdsp(CSSType),
}

impl C2 {
    /// The fields of the format fit their widths.
    pub open spec fn wf(self) -> bool {
        match self {
            Self::CSlli(ci) => ci.wf(),
            Self::CLwsp(ci) => ci.wf(),
            Self::CSwsp(css) => css.wf(),
            Self::SubFunct(sub_funct) => sub_funct.wf(),
            Self::CLdsp(ci) => ci.wf(),
            Self::CSdsp(css) => css.wf(),
        }
    }

    /// The C2 instruction that `funct3`, bits `[13, 16)`, selects. The shift and
    /// the loads need a destination other than `x0`. A slot that is left out is
    /// `InvalidFunction` of `funct3` and zero.
    pub open spec fn spec_decode(instruction: HalfWord) -> Result<Self, InstructionDecodeError> {
        let funct3 = spec_bits(instruction as u64, 13, 16) as u8;
        let rd = spec_bits(instruction as u64, 7, 12) as u8;
        if funct3 == 0b000 && rd != 0 {
            Ok(Self::CSlli(CIType::spec_decode(instruction)))
        } else if funct3 == 0b010 && rd != 0 {
            Ok(Self::CLwsp(CIType::spec_decode(instruction)))
        } else if funct3 == 0b100 {
            match C2SubFunct::spec_decode(instruction) {
                Ok(sub_funct) => Ok(Self::SubFunct(sub_funct)),
                Err(e) => Err(e),
            }
        } else if funct3 == 0b110 {
            Ok(Self::CSwsp(CSSType::spec_decode(instruction)))
        } else if funct3 == 0b011 && rd != 0 {
            Ok(Self::CLdsp(CIType::spec_decode(instruction)))
        } else if funct3 == 0b111 {
            Ok(Self::CSdsp(CSSType::spec_decode(instruction)))
        } else {
            Err(InstructionDecodeError::InvalidFunction { q_a: funct3, q_b: 0 })
        }
    }

    /// The regular instruction that the C2 instruction abbreviates.
    pub open spec fn spec_expand(self) -> Instruction {
        match self {
            // `slli rd, rd, shamt`
            Self::CSlli(ci) => Instruction::ImmediateArithmetic(
                IType { rd: ci.rs1_rd, funct3: 1, rs1: ci.rs1_rd, imm: (ci.imm & 0x3F) as XWord },
                ImmediateArithmeticFunction::Slli,
            ),
            // `lw rd, offset(x2)`
            Self::CLwsp(ci) => Instruction::MemoryLoad(
                IType { rd: ci.rs1_rd, funct3: 2, rs1: 2, imm: spec_word_sp_offset(ci.imm) },
                LoadFunction::Lw,
            ),
            // `sw rs2, offset(x2)`
            Self::CSwsp(css) => Instruction::MemoryStore(
                SType { funct3: 2, rs1: 2, rs2: css.rs2, imm: spec_word_sp_offset(css.imm) },
                StoreFunction::Sw,
            ),
            Self::SubFunct(sub_funct) => sub_funct.spec_map(),
            // `ld rd, offset(x2)`
            Self::CLdsp(ci) => Instruction::MemoryLoad(
                IType { rd: ci.rs1_rd, funct3: 3, rs1: 2, imm: spec_doubleword_sp_offset(ci.imm) },
                LoadFunction::Ld,
            ),
            // `sd rs2, offset(x2)`
            Self::CSdsp(css) => Instruction::MemoryStore(
                SType { funct3: 3, rs1: 2, rs2: css.rs2, imm: spec_doubleword_sp_offset(css.imm) },
                StoreFunction::Sd,
            ),
        }
    }

    /// Decodes a [C2] instruction from a 16-bit [HalfWord].
    pub fn decode(instruction: HalfWord) -> (r: Result<Self, InstructionDecodeError>)
        ensures
            r == Self::spec_decode(instruction),
            r matches Ok(c) ==> c.wf(),
    {
        let funct3: u8 = bits(instruction as u64, 13, 16) as u8;
        let rd: u8 = bits(instruction as u64, 7, 12) as u8;
        if funct3 == 0b000 && rd != 0 {
            Ok(Self::CSlli(CIType::decode(instruction)))
        } else if funct3 == 0b010 && rd != 0 {
            Ok(Self::CLwsp(CIType::decode(instruction)))
        } else if funct3 == 0b100 {
            match C2SubFunct::decode(instruction) {
                Ok(sub_funct) => Ok(Self::SubFunct(sub_funct)),
                Err(e) => Err(e),
            }
        } else if funct3 == 0b110 {
            Ok(Self::CSwsp(CSSType::decode(instruction)))
        } else if funct3 == 0b011 && rd != 0 {
            Ok(Self::CLdsp(CIType::decode(instruction)))
        } else if funct3 == 0b111 {
            Ok(Self::CSdsp(CSSType::decode(instruction)))
        } else {
            Err(InstructionDecodeError::InvalidFunction { q_a: funct3, q_b: 0 })
        }
    }

    /// Maps the compressed instruction to a regular RISC-V [Instruction].
    pub fn expand(self) -> (r: Instruction)
        requires
            self.wf(),
        ensures
            r == self.spec_expand(),
            r.wf(),
    {
        match self {
            Self::CSlli(ci) => {
                let i_type = IType {
                    rd: ci.rs1_rd,
                    funct3: 1,
                    rs1: ci.rs1_rd,
                    imm: (ci.imm & 0x3F) as XWord,
                };
                Instruction::ImmediateArithmetic(i_type, ImmediateArithmeticFunction::Slli)
            },
            Self::CLwsp(ci) => {
                let i_type = IType {
                    rd: ci.rs1_rd,
                    funct3: 2,
                    rs1: 2,
                    imm: word_sp_offset(ci.imm),
                };
                Instruction::MemoryLoad(i_type, LoadFunction::Lw)
            },
            Self::CSwsp(css) => {
                let s_type = SType {
                    funct3: 2,
                    rs1: 2,
                    rs2: css.rs2,
                    imm: word_sp_offset(css.imm),
                };
                Instruction::MemoryStore(s_type, StoreFunction::Sw)
            },
            Self::SubFunct(sub_funct) => sub_funct.map(),
            Self::CLdsp(ci) => {
                let i_type = IType {
                    rd: ci.rs1_rd,
                    funct3: 3,
                    rs1: 2,
                    imm: doubleword_sp_offset(ci.imm),
                };
                Instruction::MemoryLoad(i_type, LoadFunction::Ld)
            },
            Self::CSdsp(css) => {
                let s_type = SType {
                    funct3: 3,
                    rs1: 2,
                    rs2: css.rs2,
                    imm: doubleword_sp_offset(css.imm),
                };
                Instruction::MemoryStore(s_type, StoreFunction::Sd)
            },
        }
    }
}

/// Sub-functions of the [C2] `4` funct3.
#[derive(Debug, Clone, Copy, PartialEq, Eq, Structural)]
pub enum C2SubFunct {
    /// C.JR instruction.
    CJr(CRType),
    /// C.MV instruction.
    CMv(CRType),
    /// C.EBREAK instruction.
    CEBreak,
    /// C.JALR instruction.
    CJalr(CRType),
    /// C.ADD instruction.
    CAdd(CRType),
}

impl C2SubFunct {
    /// The fields of the format fit their widths.
    pub open spec fn wf(self) -> bool {
        match self {
            Self::CJr(cr) => cr.wf(),
            Self::CMv(cr) => cr.wf(),
            Self::CEBreak => true,
            Self::CJalr(cr) => cr.wf(),
            Self::CAdd(cr) => cr.wf(),
        }
    }

    /// The instruction that bit 12 and the two register fields select. With the
    /// bit clear, a zero `rs2` is `C.JR` and any other is `C.MV`. With the bit
    /// set, both registers zero is `C.EBREAK`, a zero `rs2` alone is `C.JALR`,
    /// both nonzero is `C.ADD`, and a zero `rs1` alone is `InvalidFunction` of
    /// the bit and zero.
    pub open spec fn spec_decode(instruction: HalfWord) -> Result<Self, InstructionDecodeError> {
        let sel = spec_bits(instruction as u64, 12, 13) as u8;
        let cr = CRType::spec_decode(instruction);
        if sel == 0 {
            if cr.rs2 == 0 {
                Ok(Self::CJr(cr))
            } else {
                Ok(Self::CMv(cr))
            }
        } else if sel == 1 {
            if cr.rs2 == 0 && cr.rs1_rd == 0 {
                Ok(Self::CEBreak)
            } else if cr.rs2 == 0 {
                Ok(Self::CJalr(cr))
            } else if cr.rs1_rd != 0 {
                Ok(Self::CAdd(cr))
            } else {
                Err(InstructionDecodeError::InvalidFunction { q_a: sel, q_b: 0 })
            }
        } else {
            Err(InstructionDecodeError::InvalidFunction { q_a: sel, q_b: 0 })
        }
    }

    /// The regular instruction that the compressed instruction abbreviates.
    pub open spec fn spec_map(self) -> Instruction {
        match self {
            // `jalr x0, rs1, 0`
            Self::CJr(cr) => Instruction::Jalr(IType { rd: 0, funct3: 0, rs1: cr.rs1_rd, imm: 0 }),
            // `add rd, x0, rs2`
            Self::CMv(cr) => Instruction::RegisterArithmetic(
                RType { rd: cr.rs1_rd, funct3: 0, rs1: 0, rs2: cr.rs2, funct7: 0 },
                RegisterArithmeticFunction::Add,
            ),
            // `jalr x1, rs1, 0`
            Self::CJalr(cr) => Instruction::Jalr(
                IType { rd: 1, funct3: 0, rs1: cr.rs1_rd, imm: 0 },
            ),
            // `add rd, rd, rs2`
            Self::CAdd(cr) => Instruction::RegisterArithmetic(
                RType { rd: cr.rs1_rd, funct3: 0, rs1: cr.rs1_rd, rs2: cr.rs2, funct7: 0 },
                RegisterArithmeticFunction::Add,
            ),
            // `ebreak`
            Self::CEBreak => Instruction::Environment(
                IType { rd: 0, funct3: 0, rs1: 0, imm: 0 },
                EnvironmentFunction::Ebreak,
            ),
        }
    }

    /// Decodes a [C2SubFunct] instruction from a 16-bit [HalfWord].
    pub fn decode(instruction: HalfWord) -> (r: Result<Self, InstructionDecodeError>)
        ensures
            r == Self::spec_decode(instruction),
            r matches Ok(c) ==> c.wf(),
    {
        let sel: u8 = bits(instruction as u64, 12, 13) as u8;
        let cr = CRType::decode(instruction);
        if sel == 0 {
            if cr.rs2 == 0 {
                Ok(Self::CJr(cr))
            } else {
                Ok(Self::CMv(cr))
            }
        } else if sel == 1 {
            if cr.rs2 == 0 && cr.rs1_rd == 0 {
                Ok(Self::CEBreak)
            } else if cr.rs2 == 0 {
                Ok(Self::CJalr(cr))
            } else if cr.rs1_rd != 0 {
                Ok(Self::CAdd(cr))
            } else {
                Err(InstructionDecodeError::InvalidFunction { q_a: sel, q_b: 0 })
            }
        } else {
            Err(InstructionDecodeError::InvalidFunction { q_a: sel, q_b: 0 })
        }
    }

    /// Maps the compressed instruction to a regular RISC-V [Instruction].
    pub fn map(self) -> (r: Instruction)
        requires
            self.wf(),
        ensures
            r == self.spec_map(),
            r.wf(),
    {
        match self {
            Self::CJr(cr) => {
                let i_type = IType { rd: 0, funct3: 0, rs1: cr.rs1_rd, imm: 0 };
                Instruction::Jalr(i_type)
            },
            Self::CMv(cr) => {
                let r_type = RType { rd: cr.rs1_rd, funct3: 0, rs1: 0, rs2: cr.rs2, funct7: 0 };
                Instruction::RegisterArithmetic(r_type, RegisterArithmeticFunction::Add)
            },
            Self::CJalr(cr) => {
                let i_type = IType { rd: 1, funct3: 0, rs1: cr.rs1_rd, imm: 0 };
                Instruction::Jalr(i_type)
            },
            Self::CAdd(cr) => {
                let r_type = RType {
                    rd: cr.rs1_rd,
                    funct3: 0,
                    rs1: cr.rs1_rd,
                    rs2: cr.rs2,
                    funct7: 0,
                };
                Instruction::RegisterArithmetic(r_type, RegisterArithmeticFunction::Add)
            },
            Self::CEBreak => {
                Instruction::Environment(IType::default(), EnvironmentFunction::Ebreak)
            },
        }
    }
}

} // verus!
