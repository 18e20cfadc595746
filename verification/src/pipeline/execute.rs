//! The instruction execution stage of the pipeline.

use vstd::prelude::*;
use crate::arch::XWord;
use crate::bits::{sign_extend, spec_sign_extend};
use crate::errors::{PipelineError, PipelineResult};
use crate::functions::{
    BranchFunction, EnvironmentFunction, ImmediateArithmeticFunction,
    ImmediateArithmeticWordFunction, RegisterArithmeticFunction, RegisterArithmeticWordFunction,
};
use crate::instructions::i_type::IType;
use crate::instructions::Instruction;
use crate::pipeline::register::{PipelineRegister, Staged};

verus! {

/// The integer that a word stands for in two's complement.
pub open spec fn signed(x: XWord) -> int {
    if x < 0x8000_0000_0000_0000 {
        x as int
    } else {
        x - 0x1_0000_0000_0000_0000
    }
}

/// The word that stands for an integer modulo 2^64.
pub open spec fn unsigned(v: int) -> XWord {
    (v % 0x1_0000_0000_0000_0000) as XWord
}

/// The absolute value of an integer.
pub open spec fn magnitude(v: int) -> int {
    if v < 0 {
        -v
    } else {
        v
    }
}

/// The quotient of `x` by `d`, rounded toward zero.
pub open spec fn quotient(x: int, d: int) -> int {
    if (x < 0) == (d < 0) {
        magnitude(x) / magnitude(d)
    } else {
        -(magnitude(x) / magnitude(d))
    }
}

/// The remainder that goes with [quotient]: it has the sign of `x`.
pub open spec fn remainder(x: int, d: int) -> int {
    if x < 0 {
        -(magnitude(x) % magnitude(d))
    } else {
        magnitude(x) % magnitude(d)
    }
}

/// The low 32 bits of a word, sign-extended to the whole word.
pub open spec fn word(x: XWord) -> XWord {
    spec_sign_extend(x & 0xFFFF_FFFF, 31)
}

/// `DIV`: the signed quotient rounded toward zero, modulo 2^64; all ones for a
/// zero divisor.
pub open spec fn spec_div(rs1: XWord, rs2: XWord) -> XWord {
    if rs2 == 0 {
        XWord::MAX
    } else {
        unsigned(quotient(signed(rs1), signed(rs2)))
    }
}

/// `DIVU`: the unsigned quotient; all ones for a zero divisor.
pub open spec fn spec_divu(rs1: XWord, rs2: XWord) -> XWord {
    if rs2 == 0 {
        XWord::MAX
    } else {
        rs1 / rs2
    }
}

/// `REM`: the signed remainder, with the sign of the dividend; the dividend for
/// a zero divisor.
pub open spec fn spec_rem(rs1: XWord, rs2: XWord) -> XWord {
    if rs2 == 0 {
        rs1
    } else {
        unsigned(remainder(signed(rs1), signed(rs2)))
    }
}

/// `REMU`: the unsigned remainder; the dividend for a zero divisor.
pub open spec fn spec_remu(rs1: XWord, rs2: XWord) -> XWord {
    if rs2 == 0 {
        rs1
    } else {
        rs1 % rs2
    }
}

/// `MULH`: the high 64 bits of the 128-bit product of the two signed operands.
pub open spec fn spec_mulh(rs1: XWord, rs2: XWord) -> XWord {
    (((signed(rs1) * signed(rs2)) as i128) >> 64u32) as XWord
}

/// `MULHSU`: the high 64 bits of the 128-bit product of the signed first and the
/// unsigned second operand.
pub open spec fn spec_mulhsu(rs1: XWord, rs2: XWord) -> XWord {
    (((signed(rs1) * rs2) as i128) >> 64u32) as XWord
}

/// `MULHU`: the high 64 bits of the 128-bit product of the two unsigned operands.
pub open spec fn spec_mulhu(rs1: XWord, rs2: XWord) -> XWord {
    ((rs1 * rs2) / 0x1_0000_0000_0000_0000) as XWord
}

/// 1 for `true` and 0 for `false`.
pub open spec fn flag(b: bool) -> XWord {
    if b {
        1
    } else {
        0
    }
}

/// The result of a register-immediate operation. Sums wrap, shifts take the
/// low six bits of the immediate as their amount, `SRAI` shifts in the sign,
/// and the comparisons give 0 or 1.
pub open spec fn spec_imm_arithmetic(
    funct: ImmediateArithmeticFunction,
    rs1: XWord,
    imm: XWord,
) -> XWord {
    match funct {
        ImmediateArithmeticFunction::Addi => imm.wrapping_add(rs1),
        ImmediateArithmeticFunction::Xori => imm ^ rs1,
        ImmediateArithmeticFunction::Ori => imm | rs1,
        ImmediateArithmeticFunction::Andi => imm & rs1,
        ImmediateArithmeticFunction::Slli => rs1 << (imm & 0x3F),
        ImmediateArithmeticFunction::Srli => rs1 >> (imm & 0x3F),
        ImmediateArithmeticFunction::Srai => ((rs1 as i64) >> (imm & 0x3F)) as XWord,
        ImmediateArithmeticFunction::Slti => flag(signed(rs1) < signed(imm)),
        ImmediateArithmeticFunction::Sltiu => flag(rs1 < imm),
    }
}

/// The result of a register-register operation. Sums, differences and `MUL`
/// wrap, shifts take the low six bits of the second operand as their amount,
/// `SRA` shifts in the sign, and the comparisons give 0 or 1.
pub open spec fn spec_reg_arithmetic(
    funct: RegisterArithmeticFunction,
    rs1: XWord,
    rs2: XWord,
) -> XWord {
    match funct {
        RegisterArithmeticFunction::Add => rs1.wrapping_add(rs2),
        RegisterArithmeticFunction::Sub => rs1.wrapping_sub(rs2),
        RegisterArithmeticFunction::Xor => rs1 ^ rs2,
        RegisterArithmeticFunction::Or => rs1 | rs2,
        RegisterArithmeticFunction::And => rs1 & rs2,
        RegisterArithmeticFunction::Sll => rs1 << (rs2 & 0x3F),
        RegisterArithmeticFunction::Srl => rs1 >> (rs2 & 0x3F),
        RegisterArithmeticFunction::Sra => ((rs1 as i64) >> (rs2 & 0x3F)) as XWord,
        RegisterArithmeticFunction::Slt => flag(signed(rs1) < signed(rs2)),
        RegisterArithmeticFunction::Sltu => flag(rs1 < rs2),
        RegisterArithmeticFunction::Mul => rs1.wrapping_mul(rs2),
        RegisterArithmeticFunction::Mulh => spec_mulh(rs1, rs2),
        RegisterArithmeticFunction::Mulhsu => spec_mulhsu(rs1, rs2),
        RegisterArithmeticFunction::Mulhu => spec_mulhu(rs1, rs2),
        RegisterArithmeticFunction::Div => spec_div(rs1, rs2),
        RegisterArithmeticFunction::Divu => spec_divu(rs1, rs2),
        RegisterArithmeticFunction::Rem => spec_rem(rs1, rs2),
        RegisterArithmeticFunction::Remu => spec_remu(rs1, rs2),
    }
}

/// The result of a register-immediate word operation: the operation on the low
/// 32 bits, with the low five bits of the immediate as the shift amount,
/// sign-extended from bit 31.
pub open spec fn spec_imm_arithmetic_word(
    funct: ImmediateArithmeticWordFunction,
    rs1: XWord,
    imm: XWord,
) -> XWord {
    match funct {
        ImmediateArithmeticWordFunction::Addiw => word(imm.wrapping_add(rs1)),
        ImmediateArithmeticWordFunction::Slliw => word(rs1 << (imm & 0x1F)),
        ImmediateArithmeticWordFunction::Srliw => word((rs1 & 0xFFFF_FFFF) >> (imm & 0x1F)),
        ImmediateArithmeticWordFunction::Sraiw => word(
            ((word(rs1) as i64) >> (imm & 0x1F)) as XWord,
        ),
    }
}

/// The result of a register-register word operation: the operation on the low
/// 32 bits of the operands, with the low five bits of the second as the shift
/// amount, sign-extended from bit 31. A division by zero gives all ones, a
/// remainder by zero the sign-extended low 32 bits of the dividend.
pub open spec fn spec_reg_arithmetic_word(
    funct: RegisterArithmeticWordFunction,
    rs1: XWord,
    rs2: XWord,
) -> XWord {
    match funct {
        RegisterArithmeticWordFunction::Addw => word(rs1.wrapping_add(rs2)),
        RegisterArithmeticWordFunction::Subw => word(rs1.wrapping_sub(rs2)),
        RegisterArithmeticWordFunction::Sllw => word(rs1 << (rs2 & 0x1F)),
        RegisterArithmeticWordFunction::Srlw => word((rs1 & 0xFFFF_FFFF) >> (rs2 & 0x1F)),
        RegisterArithmeticWordFunction::Sraw => word(((word(rs1) as i64) >> (rs2 & 0x1F)) as XWord),
        RegisterArithmeticWordFunction::Mulw => word(rs1.wrapping_mul(rs2)),
        RegisterArithmeticWordFunction::Divw => word(spec_div(word(rs1), word(rs2))),
        RegisterArithmeticWordFunction::Divuw => word(
            spec_divu(rs1 & 0xFFFF_FFFF, rs2 & 0xFFFF_FFFF),
        ),
        RegisterArithmeticWordFunction::Remw => word(spec_rem(word(rs1), word(rs2))),
        RegisterArithmeticWordFunction::Remuw => word(
            spec_remu(rs1 & 0xFFFF_FFFF, rs2 & 0xFFFF_FFFF),
        ),
    }
}

/// Whether a branch is taken: `BLT` and `BGE` compare the operands as signed,
/// `BLTU` and `BGEU` as unsigned.
pub open spec fn spec_branch_taken(funct: BranchFunction, rs1: XWord, rs2: XWord) -> bool {
    match funct {
        BranchFunction::Beq => rs1 == rs2,
        BranchFunction::Bne => rs1 != rs2,
        BranchFunction::Blt => signed(rs1) < signed(rs2),
        BranchFunction::Bge => signed(rs1) >= signed(rs2),
        BranchFunction::Bltu => rs1 < rs2,
        BranchFunction::Bgeu => rs1 >= rs2,
    }
}

/// A stage that failed: the register as it was, and the error.
pub open spec fn failed(register: PipelineRegister, error: PipelineError) -> Staged {
    Staged { register, result: Err(error) }
}

/// The execute stage that computed `value` and left the next program counter
/// as `next_pc`.
pub open spec fn executed(register: PipelineRegister, value: XWord, next_pc: XWord) -> Staged {
    Staged {
        register: PipelineRegister { alu_result: Some(value), next_pc, ..register },
        result: Ok(()),
    }
}

/// The pipeline register after the execute stage, with what the stage returns.
///
/// The stage fails with `MissingState` where the instruction or an operand that
/// it needs is not there, and leaves the register as it was. Otherwise
/// `alu_result` holds: for loads and stores the effective address; for
/// arithmetic the result; for `LUI` the immediate and for `AUIPC` the program
/// counter plus the immediate; for jumps the fetched next program counter, with
/// the next program counter set to the target, which `JALR` makes even; for a
/// branch the target if it is taken, else the fetched next program counter,
/// which is also the next program counter; and zero for `FENCE`, `EBREAK`
/// and the atomic operations. `ECALL` raises `SyscallException` with `a7`.
pub open spec fn spec_execute(register: PipelineRegister) -> Staged {
    match register.instruction {
        None => failed(register, PipelineError::MissingState("instruction")),
        Some(instruction) => match instruction {
            Instruction::MemoryLoad(_, _) | Instruction::MemoryStore(_, _) => {
                match register.spec_effective_address() {
                    Some(address) => executed(register, address, register.next_pc),
                    None => failed(register, PipelineError::MissingState("effective_address")),
                }
            },
            Instruction::Branch(b_type, funct) => match (register.rs1_value, register.rs2_value) {
                (None, _) => failed(register, PipelineError::MissingState("rs1_value")),
                (Some(_), None) => failed(register, PipelineError::MissingState("rs2_value")),
                (Some(rs1), Some(rs2)) => {
                    let target = if spec_branch_taken(funct, rs1, rs2) {
                        register.pc.wrapping_add(b_type.imm)
                    } else {
                        register.next_pc
                    };
                    executed(register, target, target)
                },
            },
            Instruction::ImmediateArithmetic(i_type, funct) => match register.rs1_value {
                None => failed(register, PipelineError::MissingState("rs1_value")),
                Some(rs1) => executed(
                    register,
                    spec_imm_arithmetic(funct, rs1, i_type.imm),
                    register.next_pc,
                ),
            },
            Instruction::RegisterArithmetic(_, funct) => match (
                register.rs1_value,
                register.rs2_value,
            ) {
                (None, _) => failed(register, PipelineError::MissingState("rs1_value")),
                (Some(_), None) => failed(register, PipelineError::MissingState("rs2_value")),
                (Some(rs1), Some(rs2)) => executed(
                    register,
                    spec_reg_arithmetic(funct, rs1, rs2),
                    register.next_pc,
                ),
            },
            Instruction::Lui(u_type) => executed(register, u_type.imm, register.next_pc),
            Instruction::Auipc(u_type) => executed(
                register,
                register.pc.wrapping_add(u_type.imm),
                register.next_pc,
            ),
            Instruction::Jal(j_type) => executed(
                register,
                register.next_pc,
                register.pc.wrapping_add(j_type.imm),
            ),
            Instruction::Jalr(i_type) => match register.rs1_value {
                None => failed(register, PipelineError::MissingState("rs1_value")),
                Some(rs1) => executed(
                    register,
                    register.next_pc,
                    rs1.wrapping_add(i_type.imm) & !1u64,
                ),
            },
            Instruction::Fence => executed(register, 0, register.next_pc),
            Instruction::Environment(_, funct) => match funct {
                EnvironmentFunction::Ecall => failed(
                    register,
                    PipelineError::SyscallException(register.registers[17]),
                ),
                EnvironmentFunction::Ebreak => executed(register, 0, register.next_pc),
            },
            Instruction::ImmediateArithmeticWord(i_type, funct) => match register.rs1_value {
                None => failed(register, PipelineError::MissingState("rs1_value")),
                Some(rs1) => executed(
                    register,
                    spec_imm_arithmetic_word(funct, rs1, i_type.imm),
                    register.next_pc,
                ),
            },
            Instruction::RegisterArithmeticWord(_, funct) => match (
                register.rs1_value,
                register.rs2_value,
            ) {
                (None, _) => failed(register, PipelineError::MissingState("rs1_value")),
                (Some(_), None) => failed(register, PipelineError::MissingState("rs2_value")),
                (Some(rs1), Some(rs2)) => executed(
                    register,
                    spec_reg_arithmetic_word(funct, rs1, rs2),
                    register.next_pc,
                ),
            },
            Instruction::Amo(_, _) => executed(register, 0, register.next_pc),
        },
    }
}

/// A word cast to a signed word is the integer it stands for in two's
/// complement, and the shift masks leave an amount below the width.
proof fn lemma_casts(x: XWord)
    by (bit_vector)
    ensures
        x < 0x8000_0000_0000_0000 ==> (x as i64) == x,
        x >= 0x8000_0000_0000_0000 ==> (x as i64) == x - 0x1_0000_0000_0000_0000,
        x & 0x3F < 64,
        x & 0x1F < 32,
{
}

proof fn lemma_product_bounds(x: int, y: int)
    by (nonlinear_arith)
    requires
        -0x8000_0000_0000_0000 <= x < 0x1_0000_0000_0000_0000,
        -0x8000_0000_0000_0000 <= y < 0x1_0000_0000_0000_0000,
    ensures
        x >= 0 && y >= 0 ==> 0 <= x * y <= 0xFFFF_FFFF_FFFF_FFFF * 0xFFFF_FFFF_FFFF_FFFF,
        (x < 0x8000_0000_0000_0000 || y < 0x8000_0000_0000_0000) ==> -0x8000_0000_0000_0000
            * 0x1_0000_0000_0000_0000 < x * y < 0x8000_0000_0000_0000 * 0x1_0000_0000_0000_0000,
{
}

/// Whether the word stands for a negative integer.
fn negative(x: XWord) -> (r: bool)
    ensures
        r == (signed(x) < 0),
{
    x >= 0x8000_0000_0000_0000
}

/// The absolute value of the integer that the word stands for.
fn magnitude_of(x: XWord) -> (r: XWord)
    ensures
        r == magnitude(signed(x)),
{
    if x >= 0x8000_0000_0000_0000 {
        (u64::MAX - x) + 1
    } else {
        x
    }
}

/// The word cast to a signed word.
fn as_signed(x: XWord) -> (r: i64)
    ensures
        r == signed(x),
        r == x as i64,
{
    proof {
        lemma_casts(x);
    }
    x as i64
}

fn div(rs1: XWord, rs2: XWord) -> (r: XWord)
    ensures
        r == spec_div(rs1, rs2),
{
    if rs2 == 0 {
        return XWord::MAX;
    }
    let q: XWord = magnitude_of(rs1) / magnitude_of(rs2);
    proof {
        vstd::arithmetic::div_mod::lemma_div_nonincreasing(
            magnitude(signed(rs1)),
            magnitude(signed(rs2)),
        );
    }
    if negative(rs1) != negative(rs2) {
        0u64.wrapping_sub(q)
    } else {
        q
    }
}

fn rem(rs1: XWord, rs2: XWord) -> (r: XWord)
    ensures
        r == spec_rem(rs1, rs2),
{
    if rs2 == 0 {
        return rs1;
    }
    let m: XWord = magnitude_of(rs1) % magnitude_of(rs2);
    if negative(rs1) {
        0u64.wrapping_sub(m)
    } else {
        m
    }
}

fn divu(rs1: XWord, rs2: XWord) -> (r: XWord)
    ensures
        r == spec_divu(rs1, rs2),
{
    if rs2 == 0 {
        XWord::MAX
    } else {
        rs1 / rs2
    }
}

fn remu(rs1: XWord, rs2: XWord) -> (r: XWord)
    ensures
        r == spec_remu(rs1, rs2),
{
    if rs2 == 0 {
        rs1
    } else {
        rs1 % rs2
    }
}

fn mulh(rs1: XWord, rs2: XWord) -> (r: XWord)
    ensures
        r == spec_mulh(rs1, rs2),
{
    let x: i128 = as_signed(rs1) as i128;
    let y: i128 = as_signed(rs2) as i128;
    proof {
        lemma_product_bounds(x as int, y as int);
    }
    ((x * y) >> 64u32) as XWord
}

fn mulhsu(rs1: XWord, rs2: XWord) -> (r: XWord)
    ensures
        r == spec_mulhsu(rs1, rs2),
{
    let x: i128 = as_signed(rs1) as i128;
    let y: i128 = rs2 as i128;
    proof {
        lemma_product_bounds(x as int, y as int);
    }
    ((x * y) >> 64u32) as XWord
}

fn mulhu(rs1: XWord, rs2: XWord) -> (r: XWord)
    ensures
        r == spec_mulhu(rs1, rs2),
{
    let x: u128 = rs1 as u128;
    let y: u128 = rs2 as u128;
    proof {
        lemma_product_bounds(x as int, y as int);
    }
    ((x * y) / 0x1_0000_0000_0000_0000) as XWord
}

/// The low 32 bits of a word, sign-extended to the whole word.
fn to_word(x: XWord) -> (r: XWord)
    ensures
        r == word(x),
{
    sign_extend(x & 0xFFFF_FFFF, 31)
}

/// 1 for `true` and 0 for `false`.
fn to_flag(b: bool) -> (r: XWord)
    ensures
        r == flag(b),
{
    if b {
        1
    } else {
        0
    }
}

/// Execute the ALU stage of the pipeline.
pub fn execute(p_reg: &mut PipelineRegister) -> (r: PipelineResult<()>)
    ensures
        *final(p_reg) == spec_execute(*old(p_reg)).register,
        r == spec_execute(*old(p_reg)).result,
{
    let instruction = match p_reg.instruction {
        Some(instruction) => instruction,
        None => {
            return Err(PipelineError::MissingState("instruction"));
        },
    };

    let result: XWord = match instruction {
        Instruction::MemoryLoad(_, _) | Instruction::MemoryStore(_, _) => execute_mem(p_reg)?,
        Instruction::Branch(b_type, funct) => {
            let target = execute_branch(p_reg, b_type.imm, funct)?;
            p_reg.next_pc = target;
            target
        },
        Instruction::ImmediateArithmetic(i_type, funct) => {
            execute_imm_arithmetic(p_reg, i_type, funct)?
        },
        Instruction::RegisterArithmetic(_, funct) => execute_reg_arithmetic(p_reg, funct)?,
        Instruction::Lui(u_type) => u_type.imm,
        Instruction::Auipc(u_type) => p_reg.pc.wrapping_add(u_type.imm),
        Instruction::Jal(j_type) => {
            let result = p_reg.next_pc;
            p_reg.next_pc = p_reg.pc.wrapping_add(j_type.imm);
            result
        },
        Instruction::Jalr(i_type) => {
            let result = p_reg.next_pc;
            let rs1 = match p_reg.rs1_value {
                Some(rs1) => rs1,
                None => {
                    return Err(PipelineError::MissingState("rs1_value"));
                },
            };
            p_reg.next_pc = rs1.wrapping_add(i_type.imm) & !1u64;
            result
        },
        Instruction::Fence => {
            // no-op FENCE operations. This emulator only supports a single RISC-V hart.
            0
        },
        Instruction::Environment(_, funct) => {
            match funct {
                EnvironmentFunction::Ecall => {
                    return Err(PipelineError::SyscallException(p_reg.registers[17]));
                },
                EnvironmentFunction::Ebreak => {
                    // no-op EBREAK operations.
                    0
                },
            }
        },
        Instruction::ImmediateArithmeticWord(i_type, funct) => {
            execute_imm_arithmetic_word(p_reg, i_type, funct)?
        },
        Instruction::RegisterArithmeticWord(_, funct) => execute_reg_arithmetic_word(p_reg, funct)?,
        Instruction::Amo(_, _) => 0,
    };

    p_reg.alu_result = Some(result);
    Ok(())
}

/// Executes a `MemoryLoad` or `MemoryStore` instruction.
fn execute_mem(p_reg: &PipelineRegister) -> (r: PipelineResult<XWord>)
    ensures
        match p_reg.spec_effective_address() {
            Some(address) => r == Ok::<XWord, PipelineError>(address),
            None => r == Err::<XWord, PipelineError>(
                PipelineError::MissingState("effective_address"),
            ),
        },
{
    match p_reg.effective_address() {
        Some(address) => Ok(address),
        None => Err(PipelineError::MissingState("effective_address")),
    }
}

/// Executes a [BranchFunction] instruction, returning the target address.
fn execute_branch(p_reg: &PipelineRegister, imm: XWord, funct: BranchFunction) -> (r:
    PipelineResult<XWord>)
    ensures
        match (p_reg.rs1_value, p_reg.rs2_value) {
            (None, _) => r == Err::<XWord, PipelineError>(PipelineError::MissingState("rs1_value")),
            (Some(_), None) => r == Err::<XWord, PipelineError>(
                PipelineError::MissingState("rs2_value"),
            ),
            (Some(rs1), Some(rs2)) => r == Ok::<XWord, PipelineError>(
                if spec_branch_taken(funct, rs1, rs2) {
                    p_reg.pc.wrapping_add(imm)
                } else {
                    p_reg.next_pc
                },
            ),
        },
{
    let rs1 = match p_reg.rs1_value {
        Some(rs1) => rs1,
        None => {
            return Err(PipelineError::MissingState("rs1_value"));
        },
    };
    let rs2 = match p_reg.rs2_value {
        Some(rs2) => rs2,
        None => {
            return Err(PipelineError::MissingState("rs2_value"));
        },
    };
    let target = p_reg.pc.wrapping_add(imm);

    let taken = match funct {
        BranchFunction::Beq => rs1 == rs2,
        BranchFunction::Bne => rs1 != rs2,
        BranchFunction::Blt => as_signed(rs1) < as_signed(rs2),
        BranchFunction::Bge => as_signed(rs1) >= as_signed(rs2),
        BranchFunction::Bltu => rs1 < rs2,
        BranchFunction::Bgeu => rs1 >= rs2,
    };
    if taken {
        Ok(target)
    } else {
        Ok(p_reg.next_pc)
    }
}

/// Executes an [ImmediateArithmeticFunction] instruction.
fn execute_imm_arithmetic(
    p_reg: &PipelineRegister,
    i_type: IType,
    funct: ImmediateArithmeticFunction,
) -> (r: PipelineResult<XWord>)
    ensures
        match p_reg.rs1_value {
            None => r == Err::<XWord, PipelineError>(PipelineError::MissingState("rs1_value")),
            Some(rs1) => r == Ok::<XWord, PipelineError>(
                spec_imm_arithmetic(funct, rs1, i_type.imm),
            ),
        },
{
    let rs1 = match p_reg.rs1_value {
        Some(rs1) => rs1,
        None => {
            return Err(PipelineError::MissingState("rs1_value"));
        },
    };
    let imm = i_type.imm;
    proof {
        lemma_casts(imm);
    }
    let res: XWord = match funct {
        ImmediateArithmeticFunction::Addi => imm.wrapping_add(rs1),
        ImmediateArithmeticFunction::Xori => imm ^ rs1,
        ImmediateArithmeticFunction::Ori => imm | rs1,
        ImmediateArithmeticFunction::Andi => imm & rs1,
        ImmediateArithmeticFunction::Slli => rs1 << (imm & 0x3F),
        ImmediateArithmeticFunction::Srli => rs1 >> (imm & 0x3F),
        ImmediateArithmeticFunction::Srai => ((rs1 as i64) >> (imm & 0x3F)) as XWord,
        ImmediateArithmeticFunction::Slti => to_flag(as_signed(rs1) < as_signed(imm)),
        ImmediateArithmeticFunction::Sltiu => to_flag(rs1 < imm),
    };

    Ok(res)
}

/// Executes a [RegisterArithmeticFunction] instruction.
fn execute_reg_arithmetic(p_reg: &PipelineRegister, funct: RegisterArithmeticFunction) -> (r:
    PipelineResult<XWord>)
    ensures
        match (p_reg.rs1_value, p_reg.rs2_value) {
            (None, _) => r == Err::<XWord, PipelineError>(PipelineError::MissingState("rs1_value")),
            (Some(_), None) => r == Err::<XWord, PipelineError>(
                PipelineError::MissingState("rs2_value"),
            ),
            (Some(rs1), Some(rs2)) => r == Ok::<XWord, PipelineError>(
                spec_reg_arithmetic(funct, rs1, rs2),
            ),
        },
{
    let rs1 = match p_reg.rs1_value {
        Some(rs1) => rs1,
        None => {
            return Err(PipelineError::MissingState("rs1_value"));
        },
    };
    let rs2 = match p_reg.rs2_value {
        Some(rs2) => rs2,
        None => {
            return Err(PipelineError::MissingState("rs2_value"));
        },
    };
    proof {
        lemma_casts(rs2);
    }
    let result: XWord = match funct {
        RegisterArithmeticFunction::Add => rs1.wrapping_add(rs2),
        RegisterArithmeticFunction::Sub => rs1.wrapping_sub(rs2),
        RegisterArithmeticFunction::Xor => rs1 ^ rs2,
        RegisterArithmeticFunction::Or => rs1 | rs2,
        RegisterArithmeticFunction::And => rs1 & rs2,
        RegisterArithmeticFunction::Sll => rs1 << (rs2 & 0x3F),
        RegisterArithmeticFunction::Srl => rs1 >> (rs2 & 0x3F),
        RegisterArithmeticFunction::Sra => ((rs1 as i64) >> (rs2 & 0x3F)) as XWord,
        RegisterArithmeticFunction::Slt => to_flag(as_signed(rs1) < as_signed(rs2)),
        RegisterArithmeticFunction::Sltu => to_flag(rs1 < rs2),
        RegisterArithmeticFunction::Mul => rs1.wrapping_mul(rs2),
        RegisterArithmeticFunction::Mulh => mulh(rs1, rs2),
        RegisterArithmeticFunction::Mulhsu => mulhsu(rs1, rs2),
        RegisterArithmeticFunction::Mulhu => mulhu(rs1, rs2),
        RegisterArithmeticFunction::Div => div(rs1, rs2),
        RegisterArithmeticFunction::Divu => divu(rs1, rs2),
        RegisterArithmeticFunction::Rem => rem(rs1, rs2),
        RegisterArithmeticFunction::Remu => remu(rs1, rs2),
    };

    Ok(result)
}

/// Executes an [ImmediateArithmeticWordFunction] instruction.
fn execute_imm_arithmetic_word(
    p_reg: &PipelineRegister,
    i_type: IType,
    funct: ImmediateArithmeticWordFunction,
) -> (r: PipelineResult<XWord>)
    ensures
        match p_reg.rs1_value {
            None => r == Err::<XWord, PipelineError>(PipelineError::MissingState("rs1_value")),
            Some(rs1) => r == Ok::<XWord, PipelineError>(
                spec_imm_arithmetic_word(funct, rs1, i_type.imm),
            ),
        },
{
    let rs1 = match p_reg.rs1_value {
        Some(rs1) => rs1,
        None => {
            return Err(PipelineError::MissingState("rs1_value"));
        },
    };
    let imm = i_type.imm;
    proof {
        lemma_casts(imm);
    }
    let result: XWord = match funct {
        ImmediateArithmeticWordFunction::Addiw => imm.wrapping_add(rs1),
        ImmediateArithmeticWordFunction::Slliw => rs1 << (imm & 0x1F),
        ImmediateArithmeticWordFunction::Srliw => (rs1 & 0xFFFF_FFFF) >> (imm & 0x1F),
        ImmediateArithmeticWordFunction::Sraiw => ((to_word(rs1) as i64) >> (imm & 0x1F)) as XWord,
    };

    Ok(to_word(result))
}

/// Executes a [RegisterArithmeticWordFunction] instruction.
fn execute_reg_arithmetic_word(
    p_reg: &PipelineRegister,
    funct: RegisterArithmeticWordFunction,
) -> (r: PipelineResult<XWord>)
    ensures
        match (p_reg.rs1_value, p_reg.rs2_value) {
            (None, _) => r == Err::<XWord, PipelineError>(PipelineError::MissingState("rs1_value")),
            (Some(_), None) => r == Err::<XWord, PipelineError>(
                PipelineError::MissingState("rs2_value"),
            ),
            (Some(rs1), Some(rs2)) => r == Ok::<XWord, PipelineError>(
                spec_reg_arithmetic_word(funct, rs1, rs2),
            ),
        },
{
    let rs1 = match p_reg.rs1_value {
        Some(rs1) => rs1,
        None => {
            return Err(PipelineError::MissingState("rs1_value"));
        },
    };
    let rs2 = match p_reg.rs2_value {
        Some(rs2) => rs2,
        None => {
            return Err(PipelineError::MissingState("rs2_value"));
        },
    };
    proof {
        lemma_casts(rs2);
    }
    let result: XWord = match funct {
        RegisterArithmeticWordFunction::Addw => rs1.wrapping_add(rs2),
        RegisterArithmeticWordFunction::Subw => rs1.wrapping_sub(rs2),
        RegisterArithmeticWordFunction::Sllw => rs1 << (rs2 & 0x1F),
        RegisterArithmeticWordFunction::Srlw => (rs1 & 0xFFFF_FFFF) >> (rs2 & 0x1F),
        RegisterArithmeticWordFunction::Sraw => ((to_word(rs1) as i64) >> (rs2 & 0x1F)) as XWord,
        RegisterArithmeticWordFunction::Mulw => rs1.wrapping_mul(rs2),
        RegisterArithmeticWordFunction::Divw => div(to_word(rs1), to_word(rs2)),
        RegisterArithmeticWordFunction::Divuw => divu(rs1 & 0xFFFF_FFFF, rs2 & 0xFFFF_FFFF),
        RegisterArithmeticWordFunction::Remw => rem(to_word(rs1), to_word(rs2)),
        RegisterArithmeticWordFunction::Remuw => remu(rs1 & 0xFFFF_FFFF, rs2 & 0xFFFF_FFFF),
    };

    Ok(to_word(result))
}

} // verus!
