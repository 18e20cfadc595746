use brisc::functions::ImmediateArithmeticFunction as Imm;
use brisc::functions::ImmediateArithmeticWordFunction as ImmW;
use brisc::functions::RegisterArithmeticFunction as Reg;
use brisc::functions::RegisterArithmeticWordFunction as RegW;
use brisc::instructions::i_type::IType;
use brisc::instructions::r_type::RType;
use brisc::instructions::Instruction;
use brisc::pipeline::execute::execute;
use brisc::pipeline::register::PipelineRegister;

fn run(instruction: Instruction, rs1: u64, rs2: u64) -> u64 {
    let mut register = PipelineRegister::new(0);
    register.instruction = Some(instruction);
    register.rs1_value = Some(rs1);
    register.rs2_value = Some(rs2);
    execute(&mut register).unwrap();
    register.alu_result.unwrap()
}

fn reg(funct: Reg, rs1: u64, rs2: u64) -> u64 {
    let r_type = RType { rd: 3, funct3: 0, rs1: 1, rs2: 2, funct7: 0 };
    run(Instruction::RegisterArithmetic(r_type, funct), rs1, rs2)
}

fn regw(funct: RegW, rs1: u64, rs2: u64) -> u64 {
    let r_type = RType { rd: 3, funct3: 0, rs1: 1, rs2: 2, funct7: 0 };
    run(Instruction::RegisterArithmeticWord(r_type, funct), rs1, rs2)
}

fn imm(funct: Imm, rs1: u64, imm: u64) -> u64 {
    run(Instruction::ImmediateArithmetic(IType { rd: 3, funct3: 0, rs1: 1, imm }, funct), rs1, 0)
}

fn immw(funct: ImmW, rs1: u64, imm: u64) -> u64 {
    let i_type = IType { rd: 3, funct3: 0, rs1: 1, imm };
    run(Instruction::ImmediateArithmeticWord(i_type, funct), rs1, 0)
}

/// Operands at the corners of the signed and unsigned ranges of both widths, and
/// many that are spread over the rest.
fn operands() -> Vec<u64> {
    let mut values = vec![
        0,
        1,
        2,
        7,
        u64::MAX,
        u64::MAX - 1,
        i64::MAX as u64,
        i64::MIN as u64,
        (i64::MIN + 1) as u64,
        0xFFFF_FFFF,
        0x8000_0000,
        0x7FFF_FFFF,
        0x1_0000_0000,
        0xFFFF_FFFF_8000_0000,
        0xFFFF_FFFF_7FFF_FFFF,
        0xFFFF_FFFF_0000_0000,
        0x1234_5678_8000_0000,
    ];
    let mut state = 0x9E37_79B9_7F4A_7C15u64;
    for _ in 0..60 {
        state ^= state << 13;
        state ^= state >> 7;
        state ^= state << 17;
        values.push(state);
        values.push(state >> 33);
    }
    values
}

/// The low word of `value`, sign-extended.
fn word(value: i32) -> u64 {
    value as i64 as u64
}

#[test]
fn register_operations_agree_with_the_machine() {
    for &a in &operands() {
        for &b in &operands() {
            let (sa, sb) = (a as i64, b as i64);
            assert_eq!(reg(Reg::Add, a, b), a.wrapping_add(b));
            assert_eq!(reg(Reg::Sub, a, b), a.wrapping_sub(b));
            assert_eq!(reg(Reg::Xor, a, b), a ^ b);
            assert_eq!(reg(Reg::Or, a, b), a | b);
            assert_eq!(reg(Reg::And, a, b), a & b);
            assert_eq!(reg(Reg::Sll, a, b), a.wrapping_shl(b as u32));
            assert_eq!(reg(Reg::Srl, a, b), a.wrapping_shr(b as u32));
            assert_eq!(reg(Reg::Sra, a, b), sa.wrapping_shr(b as u32) as u64);
            assert_eq!(reg(Reg::Slt, a, b), (sa < sb) as u64);
            assert_eq!(reg(Reg::Sltu, a, b), (a < b) as u64);
            assert_eq!(reg(Reg::Mul, a, b), a.wrapping_mul(b));
            assert_eq!(reg(Reg::Mulh, a, b), ((sa as i128 * sb as i128) >> 64) as u64);
            assert_eq!(reg(Reg::Mulhsu, a, b), ((sa as i128 * b as i128) >> 64) as u64);
            assert_eq!(reg(Reg::Mulhu, a, b), ((a as u128 * b as u128) >> 64) as u64);
            let div = if b == 0 { u64::MAX } else { sa.wrapping_div(sb) as u64 };
            assert_eq!(reg(Reg::Div, a, b), div);
            let divu = if b == 0 { u64::MAX } else { a / b };
            assert_eq!(reg(Reg::Divu, a, b), divu);
            let rem = if b == 0 { a } else { sa.wrapping_rem(sb) as u64 };
            assert_eq!(reg(Reg::Rem, a, b), rem);
            let remu = if b == 0 { a } else { a % b };
            assert_eq!(reg(Reg::Remu, a, b), remu);
        }
    }
}

#[test]
fn word_operations_agree_with_the_machine() {
    for &a in &operands() {
        for &b in &operands() {
            let (wa, wb) = (a as u32, b as u32);
            let (sa, sb) = (wa as i32, wb as i32);
            assert_eq!(regw(RegW::Addw, a, b), word(sa.wrapping_add(sb)));
            assert_eq!(regw(RegW::Subw, a, b), word(sa.wrapping_sub(sb)));
            assert_eq!(regw(RegW::Sllw, a, b), word(wa.wrapping_shl(wb) as i32));
            assert_eq!(regw(RegW::Srlw, a, b), word(wa.wrapping_shr(wb) as i32));
            assert_eq!(regw(RegW::Sraw, a, b), word(sa.wrapping_shr(wb)));
            assert_eq!(regw(RegW::Mulw, a, b), word(sa.wrapping_mul(sb)));
            let div = if wb == 0 { -1 } else { sa.wrapping_div(sb) };
            assert_eq!(regw(RegW::Divw, a, b), word(div));
            let divu = if wb == 0 { u32::MAX } else { wa / wb };
            assert_eq!(regw(RegW::Divuw, a, b), word(divu as i32));
            let rem = if wb == 0 { sa } else { sa.wrapping_rem(sb) };
            assert_eq!(regw(RegW::Remw, a, b), word(rem));
            let remu = if wb == 0 { wa } else { wa % wb };
            assert_eq!(regw(RegW::Remuw, a, b), word(remu as i32));
        }
    }
}

#[test]
fn immediate_operations_agree_with_the_machine() {
    for &a in &operands() {
        for &b in &operands() {
            let (sa, sb) = (a as i64, b as i64);
            assert_eq!(imm(Imm::Addi, a, b), a.wrapping_add(b));
            assert_eq!(imm(Imm::Xori, a, b), a ^ b);
            assert_eq!(imm(Imm::Ori, a, b), a | b);
            assert_eq!(imm(Imm::Andi, a, b), a & b);
            assert_eq!(imm(Imm::Slli, a, b), a.wrapping_shl(b as u32));
            assert_eq!(imm(Imm::Srli, a, b), a.wrapping_shr(b as u32));
            assert_eq!(imm(Imm::Srai, a, b), sa.wrapping_shr(b as u32) as u64);
            assert_eq!(imm(Imm::Slti, a, b), (sa < sb) as u64);
            assert_eq!(imm(Imm::Sltiu, a, b), (a < b) as u64);
            let (wa, wb) = (a as u32, b as u32);
            assert_eq!(immw(ImmW::Addiw, a, b), word((wa as i32).wrapping_add(wb as i32)));
            assert_eq!(immw(ImmW::Slliw, a, b), word(wa.wrapping_shl(wb) as i32));
            assert_eq!(immw(ImmW::Srliw, a, b), word(wa.wrapping_shr(wb) as i32));
            assert_eq!(immw(ImmW::Sraiw, a, b), word((wa as i32).wrapping_shr(wb)));
        }
    }
}
