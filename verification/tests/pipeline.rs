use brisc::errors::{InstructionDecodeError, PipelineError};
use brisc::functions::ImmediateArithmeticFunction as Imm;
use brisc::functions::ImmediateArithmeticWordFunction as ImmW;
use brisc::functions::RegisterArithmeticFunction as Reg;
use brisc::functions::RegisterArithmeticWordFunction as RegW;
use brisc::functions::{
    AmoFunction, BranchFunction, ImmediateArithmeticFunction, ImmediateArithmeticWordFunction,
    LoadFunction, RegisterArithmeticFunction, RegisterArithmeticWordFunction, StoreFunction,
};
use brisc::instructions::b_type::BType;
use brisc::instructions::i_type::IType;
use brisc::instructions::j_type::JType;
use brisc::instructions::r_type::RType;
use brisc::instructions::s_type::SType;
use brisc::instructions::u_type::UType;
use brisc::instructions::Instruction;
use brisc::memory::interface::Memory;
use brisc::memory::SimpleMemory;
use brisc::pipeline::decode::decode_instruction;
use brisc::pipeline::execute::execute;
use brisc::pipeline::fetch::instruction_fetch;
use brisc::pipeline::memory::mem_access;
use brisc::pipeline::register::PipelineRegister;
use brisc::pipeline::writeback::writeback;

fn missing(result: Result<(), PipelineError>, field: &str) -> bool {
    matches!(result, Err(PipelineError::MissingState(name)) if name == field)
}

#[test]
fn a_new_register_is_empty() {
    let register = PipelineRegister::new(0x8000_0000);
    assert_eq!(register.pc, 0x8000_0000);
    assert_eq!(register.next_pc, 0);
    assert_eq!(register.registers, [0u64; 32]);
    assert!(!register.exit);
    assert_eq!(register.exit_code, 0);
    assert_eq!(register.instruction_raw, None);
    assert_eq!(register.instruction, None);
    assert_eq!(register.rs1_value, None);
    assert_eq!(register.rs2_value, None);
    assert_eq!(register.immediate, None);
    assert_eq!(register.rd, None);
    assert_eq!(register.alu_result, None);
    assert_eq!(register.memory, None);
    assert_eq!(register.reservation, None);
    assert_eq!(PipelineRegister::default(), PipelineRegister::new(0));
}

#[test]
fn advance_clears_what_lives_for_a_cycle_and_keeps_the_rest() {
    let mut register = PipelineRegister::new(0x100);
    register.next_pc = 0x104;
    register.registers[5] = 55;
    register.exit_code = 3;
    register.reservation = Some(0x40);
    register.instruction_raw = Some(0x13);
    register.instruction = Some(Instruction::Fence);
    register.rs1_value = Some(1);
    register.rs2_value = Some(2);
    register.immediate = Some(3);
    register.rd = Some(4);
    register.alu_result = Some(5);
    register.memory = Some(6);
    register.advance();
    let mut expected = PipelineRegister::new(0x104);
    expected.registers[5] = 55;
    expected.exit_code = 3;
    expected.reservation = Some(0x40);
    assert_eq!(register, expected);
}

#[test]
fn effective_address_wraps() {
    let mut register = PipelineRegister::new(0);
    assert_eq!(register.effective_address(), None);
    register.rs1_value = Some(0x1000);
    assert_eq!(register.effective_address(), None);
    register.immediate = Some((-4i64) as u64);
    assert_eq!(register.effective_address(), Some(0xFFC));
    register.rs1_value = Some(2);
    assert_eq!(register.effective_address(), Some(u64::MAX - 1));
    register.rs1_value = None;
    assert_eq!(register.effective_address(), None);
}

#[test]
fn fetch_sets_the_next_pc_by_the_length_of_the_instruction() {
    let mut memory = SimpleMemory::new();
    memory.set_word(0x100, 0x0050_0093).unwrap();
    memory.set_word(0x104, 0xFFFF_440D).unwrap();
    let mut register = PipelineRegister::new(0x100);
    assert!(instruction_fetch(&mut register, &memory).is_ok());
    assert_eq!(register.instruction_raw, Some(0x0050_0093));
    assert_eq!(register.next_pc, 0x104);
    assert_eq!(register.pc, 0x100);
    assert_eq!(register.instruction, None);

    let mut register = PipelineRegister::new(0x104);
    assert!(instruction_fetch(&mut register, &memory).is_ok());
    assert_eq!(register.instruction_raw, Some(0xFFFF_440D));
    assert_eq!(register.next_pc, 0x106);

    // memory that is not mapped reads as zero, which is a compressed word
    let mut register = PipelineRegister::new(0x9000);
    assert!(instruction_fetch(&mut register, &memory).is_ok());
    assert_eq!(register.instruction_raw, Some(0));
    assert_eq!(register.next_pc, 0x9002);

    // the next pc wraps at the top of the address space
    memory.set_word(u64::MAX - 1, 0x0000_0013).unwrap();
    let mut register = PipelineRegister::new(u64::MAX - 1);
    assert!(instruction_fetch(&mut register, &memory).is_ok());
    assert_eq!(register.next_pc, 2);
}

#[test]
fn decode_reads_the_registers() {
    let mut register = PipelineRegister::new(0);
    assert!(missing(decode_instruction(&mut register), "instruction_raw"));
    assert_eq!(register, PipelineRegister::new(0));

    // add x3, x1, x2
    register.instruction_raw = Some(0x0020_81B3);
    register.registers[1] = 11;
    register.registers[2] = 22;
    assert!(decode_instruction(&mut register).is_ok());
    assert_eq!(
        register.instruction,
        Some(Instruction::RegisterArithmetic(
            RType { rd: 3, funct3: 0, rs1: 1, rs2: 2, funct7: 0 },
            RegisterArithmeticFunction::Add
        ))
    );
    assert_eq!(register.rs1_value, Some(11));
    assert_eq!(register.rs2_value, Some(22));
    assert_eq!(register.rd, Some(3));
    assert_eq!(register.immediate, None);

    // sd x2, -8(x1)
    let mut register = PipelineRegister::new(0);
    register.instruction_raw = Some(0xFE20_BC23);
    register.registers[1] = 11;
    register.registers[2] = 22;
    assert!(decode_instruction(&mut register).is_ok());
    assert_eq!(register.rs1_value, Some(11));
    assert_eq!(register.rs2_value, Some(22));
    assert_eq!(register.rd, None);
    assert_eq!(register.immediate, Some((-8i64) as u64));
}

#[test]
fn decode_raises_the_syscall_with_a7() {
    let mut register = PipelineRegister::new(0);
    register.instruction_raw = Some(0x0000_0073);
    register.registers[0] = 1;
    register.registers[10] = 2;
    register.registers[17] = 93;
    let result = decode_instruction(&mut register);
    assert!(matches!(result, Err(PipelineError::SyscallException(93))));
    assert!(register.instruction.unwrap().is_system_call());
    assert_eq!(register.rd, Some(0));

    // ebreak is no system call
    let mut register = PipelineRegister::new(0);
    register.instruction_raw = Some(0x0010_0073);
    assert!(decode_instruction(&mut register).is_ok());
}

#[test]
fn decode_passes_the_decoder_error_on() {
    let mut register = PipelineRegister::new(0);
    register.instruction_raw = Some(0xFFFF_FFFF);
    let before = register;
    let result = decode_instruction(&mut register);
    assert!(matches!(
        result,
        Err(PipelineError::InstructionDecodeError(InstructionDecodeError::InvalidOpcode(0x7F)))
    ));
    assert_eq!(register, before);
    register.instruction_raw = Some(0x0000_7003);
    assert!(matches!(
        decode_instruction(&mut register),
        Err(PipelineError::InstructionDecodeError(InstructionDecodeError::InvalidFunction {
            q_a: 7,
            q_b: 0
        }))
    ));
}

fn run(instruction: Instruction, rs1: u64, rs2: u64) -> PipelineRegister {
    let mut register = PipelineRegister::new(0x1000);
    register.next_pc = 0x1004;
    register.instruction = Some(instruction);
    register.rs1_value = instruction.rs1().map(|_| rs1);
    register.rs2_value = instruction.rs2().map(|_| rs2);
    register.immediate = instruction.immediate();
    register.rd = instruction.rd();
    execute(&mut register).unwrap();
    register
}

fn reg(funct: RegisterArithmeticFunction, rs1: u64, rs2: u64) -> u64 {
    let r_type = RType { rd: 3, funct3: 0, rs1: 1, rs2: 2, funct7: 0 };
    run(Instruction::RegisterArithmetic(r_type, funct), rs1, rs2).alu_result.unwrap()
}

fn regw(funct: RegisterArithmeticWordFunction, rs1: u64, rs2: u64) -> u64 {
    let r_type = RType { rd: 3, funct3: 0, rs1: 1, rs2: 2, funct7: 0 };
    run(Instruction::RegisterArithmeticWord(r_type, funct), rs1, rs2).alu_result.unwrap()
}

fn imm(funct: ImmediateArithmeticFunction, rs1: u64, imm: u64) -> u64 {
    let i_type = IType { rd: 3, funct3: 0, rs1: 1, imm };
    run(Instruction::ImmediateArithmetic(i_type, funct), rs1, 0).alu_result.unwrap()
}

fn immw(funct: ImmediateArithmeticWordFunction, rs1: u64, imm: u64) -> u64 {
    let i_type = IType { rd: 3, funct3: 0, rs1: 1, imm };
    run(Instruction::ImmediateArithmeticWord(i_type, funct), rs1, 0).alu_result.unwrap()
}

const MIN: u64 = 0x8000_0000_0000_0000;
const MINUS_1: u64 = u64::MAX;

#[test]
fn register_arithmetic() {
    assert_eq!(reg(Reg::Add, 5, 7), 12);
    assert_eq!(reg(Reg::Add, u64::MAX, 2), 1);
    assert_eq!(reg(Reg::Sub, 5, 7), (-2i64) as u64);
    assert_eq!(reg(Reg::Xor, 0b1100, 0b1010), 0b0110);
    assert_eq!(reg(Reg::Or, 0b1100, 0b1010), 0b1110);
    assert_eq!(reg(Reg::And, 0b1100, 0b1010), 0b1000);
    assert_eq!(reg(Reg::Sll, 1, 63), MIN);
    assert_eq!(reg(Reg::Sll, 1, 64), 1);
    assert_eq!(reg(Reg::Sll, 1, 65), 2);
    assert_eq!(reg(Reg::Srl, MIN, 63), 1);
    assert_eq!(reg(Reg::Srl, MIN, 0x43), MIN >> 3);
    assert_eq!(reg(Reg::Sra, MIN, 63), u64::MAX);
    assert_eq!(reg(Reg::Sra, MIN, 4), 0xF800_0000_0000_0000);
    assert_eq!(reg(Reg::Sra, 0x4000_0000_0000_0000, 4), 0x0400_0000_0000_0000);
    assert_eq!(reg(Reg::Slt, MINUS_1, 1), 1);
    assert_eq!(reg(Reg::Slt, 1, MINUS_1), 0);
    assert_eq!(reg(Reg::Slt, 3, 3), 0);
    assert_eq!(reg(Reg::Sltu, MINUS_1, 1), 0);
    assert_eq!(reg(Reg::Sltu, 1, MINUS_1), 1);
}

#[test]
fn multiplication() {
    assert_eq!(reg(Reg::Mul, 6, 7), 42);
    assert_eq!(reg(Reg::Mul, MINUS_1, MINUS_1), 1);
    assert_eq!(reg(Reg::Mul, MIN, 2), 0);
    assert_eq!(reg(Reg::Mul, 0x1_0000_0001, 0x1_0000_0001), 0x0000_0002_0000_0001);
    assert_eq!(reg(Reg::Mulh, MINUS_1, MINUS_1), 0);
    assert_eq!(reg(Reg::Mulh, MINUS_1, 1), MINUS_1);
    assert_eq!(reg(Reg::Mulh, MIN, MIN), 0x4000_0000_0000_0000);
    assert_eq!(reg(Reg::Mulh, MIN, 2), MINUS_1);
    assert_eq!(reg(Reg::Mulh, 0x7FFF_FFFF_FFFF_FFFF, 0x7FFF_FFFF_FFFF_FFFF), 0x3FFF_FFFF_FFFF_FFFF);
    assert_eq!(reg(Reg::Mulhsu, MINUS_1, MINUS_1), MINUS_1);
    assert_eq!(reg(Reg::Mulhsu, MINUS_1, 1), MINUS_1);
    assert_eq!(reg(Reg::Mulhsu, 2, MINUS_1), 1);
    assert_eq!(reg(Reg::Mulhsu, MIN, MINUS_1), 0x8000_0000_0000_0000);
    assert_eq!(reg(Reg::Mulhu, MINUS_1, MINUS_1), 0xFFFF_FFFF_FFFF_FFFE);
    assert_eq!(reg(Reg::Mulhu, MIN, 2), 1);
    assert_eq!(reg(Reg::Mulhu, 3, 4), 0);
}

#[test]
fn division() {
    assert_eq!(reg(Reg::Div, 7, 2), 3);
    assert_eq!(reg(Reg::Div, (-7i64) as u64, 2), (-3i64) as u64);
    assert_eq!(reg(Reg::Div, 7, (-2i64) as u64), (-3i64) as u64);
    assert_eq!(reg(Reg::Div, (-7i64) as u64, (-2i64) as u64), 3);
    assert_eq!(reg(Reg::Div, 7, 0), u64::MAX);
    assert_eq!(reg(Reg::Div, 0, 0), u64::MAX);
    assert_eq!(reg(Reg::Div, MIN, MINUS_1), MIN);
    assert_eq!(reg(Reg::Div, MIN, 1), MIN);
    assert_eq!(reg(Reg::Divu, 7, 2), 3);
    assert_eq!(reg(Reg::Divu, MINUS_1, 2), 0x7FFF_FFFF_FFFF_FFFF);
    assert_eq!(reg(Reg::Divu, 7, 0), u64::MAX);
    assert_eq!(reg(Reg::Rem, 7, 2), 1);
    assert_eq!(reg(Reg::Rem, (-7i64) as u64, 2), MINUS_1);
    assert_eq!(reg(Reg::Rem, 7, (-2i64) as u64), 1);
    assert_eq!(reg(Reg::Rem, (-7i64) as u64, (-2i64) as u64), MINUS_1);
    assert_eq!(reg(Reg::Rem, 7, 0), 7);
    assert_eq!(reg(Reg::Rem, (-7i64) as u64, 0), (-7i64) as u64);
    assert_eq!(reg(Reg::Rem, MIN, MINUS_1), 0);
    assert_eq!(reg(Reg::Remu, 7, 2), 1);
    assert_eq!(reg(Reg::Remu, MINUS_1, 16), 15);
    assert_eq!(reg(Reg::Remu, 7, 0), 7);
}

#[test]
fn immediate_arithmetic() {
    assert_eq!(imm(Imm::Addi, 5, 7), 12);
    assert_eq!(imm(Imm::Addi, 5, (-7i64) as u64), (-2i64) as u64);
    assert_eq!(imm(Imm::Xori, 0b1100, MINUS_1), !0b1100);
    assert_eq!(imm(Imm::Ori, 0b1100, 0b1010), 0b1110);
    assert_eq!(imm(Imm::Andi, 0b1100, 0b1010), 0b1000);
    assert_eq!(imm(Imm::Slli, 1, 63), MIN);
    assert_eq!(imm(Imm::Srli, MIN, 63), 1);
    assert_eq!(imm(Imm::Srai, MIN, 0x43F), MINUS_1);
    assert_eq!(imm(Imm::Srai, MIN, 0x401), 0xC000_0000_0000_0000);
    assert_eq!(imm(Imm::Slti, MINUS_1, 0), 1);
    assert_eq!(imm(Imm::Slti, 0, MINUS_1), 0);
    assert_eq!(imm(Imm::Sltiu, 0, MINUS_1), 1);
    assert_eq!(imm(Imm::Sltiu, MINUS_1, 0), 0);
}

#[test]
fn word_arithmetic() {
    let high = 0xABCD_EF01_0000_0000u64;
    assert_eq!(regw(RegW::Addw, 0x7FFF_FFFF, 1), 0xFFFF_FFFF_8000_0000);
    assert_eq!(regw(RegW::Addw, high | 5, high | 7), 12);
    assert_eq!(regw(RegW::Addw, 0xFFFF_FFFF, 1), 0);
    assert_eq!(regw(RegW::Subw, 0, 1), MINUS_1);
    assert_eq!(regw(RegW::Subw, high | 0x8000_0000, 1), 0x7FFF_FFFF);
    assert_eq!(regw(RegW::Sllw, 1, 31), 0xFFFF_FFFF_8000_0000);
    assert_eq!(regw(RegW::Sllw, high | 1, 32), 1);
    assert_eq!(regw(RegW::Sllw, 0xFFFF_FFFF, 4), 0xFFFF_FFFF_FFFF_FFF0);
    assert_eq!(regw(RegW::Srlw, high | 0x8000_0000, 31), 1);
    assert_eq!(regw(RegW::Srlw, high | 0x8000_0000, 0), 0xFFFF_FFFF_8000_0000);
    assert_eq!(regw(RegW::Sraw, high | 0x8000_0000, 31), MINUS_1);
    assert_eq!(regw(RegW::Sraw, high | 0x4000_0000, 30), 1);
    assert_eq!(regw(RegW::Mulw, 0x1_0000, 0x1_0000), 0);
    assert_eq!(regw(RegW::Mulw, 0xFFFF_FFFF, 0xFFFF_FFFF), 1);
    assert_eq!(regw(RegW::Mulw, 0x8000, 0x1_0000), 0xFFFF_FFFF_8000_0000);
    assert_eq!(regw(RegW::Divw, high | 7, high), MINUS_1);
    assert_eq!(regw(RegW::Divw, (-7i32) as u32 as u64, 2), (-3i64) as u64);
    assert_eq!(regw(RegW::Divw, 0x8000_0000, 0xFFFF_FFFF), 0xFFFF_FFFF_8000_0000);
    assert_eq!(regw(RegW::Divuw, 0xFFFF_FFFF, 2), 0x7FFF_FFFF);
    assert_eq!(regw(RegW::Divuw, high | 0xFFFF_FFFE, high | 1), 0xFFFF_FFFF_FFFF_FFFE);
    assert_eq!(regw(RegW::Divuw, 7, high), MINUS_1);
    assert_eq!(regw(RegW::Remw, (-7i32) as u32 as u64, 2), MINUS_1);
    assert_eq!(regw(RegW::Remw, high | 0x8000_0007, high), 0xFFFF_FFFF_8000_0007);
    assert_eq!(regw(RegW::Remw, 0x8000_0000, 0xFFFF_FFFF), 0);
    assert_eq!(regw(RegW::Remuw, 0xFFFF_FFFF, 16), 15);
    assert_eq!(regw(RegW::Remuw, high | 0x8000_0007, high), 0xFFFF_FFFF_8000_0007);
    assert_eq!(immw(ImmW::Addiw, 0x7FFF_FFFF, 1), 0xFFFF_FFFF_8000_0000);
    assert_eq!(immw(ImmW::Addiw, high, MINUS_1), MINUS_1);
    assert_eq!(immw(ImmW::Slliw, 1, 31), 0xFFFF_FFFF_8000_0000);
    assert_eq!(immw(ImmW::Srliw, high | 0x8000_0000, 31), 1);
    assert_eq!(immw(ImmW::Sraiw, high | 0x8000_0000, 0x41F), MINUS_1);
}

#[test]
fn branches() {
    let taken = |funct: BranchFunction, rs1: u64, rs2: u64| {
        let b_type = BType { funct3: 0, rs1: 1, rs2: 2, imm: (-16i64) as u64 };
        let register = run(Instruction::Branch(b_type, funct), rs1, rs2);
        assert_eq!(register.alu_result, Some(register.next_pc));
        assert!(register.next_pc == 0x0FF0 || register.next_pc == 0x1004);
        register.next_pc == 0x0FF0
    };
    assert!(taken(BranchFunction::Beq, 3, 3));
    assert!(!taken(BranchFunction::Beq, 3, 4));
    assert!(taken(BranchFunction::Bne, 3, 4));
    assert!(!taken(BranchFunction::Bne, 3, 3));
    assert!(taken(BranchFunction::Blt, MINUS_1, 0));
    assert!(!taken(BranchFunction::Blt, 0, MINUS_1));
    assert!(!taken(BranchFunction::Blt, 3, 3));
    assert!(taken(BranchFunction::Bge, 0, MINUS_1));
    assert!(taken(BranchFunction::Bge, 3, 3));
    assert!(!taken(BranchFunction::Bge, MIN, 0));
    assert!(taken(BranchFunction::Bltu, 0, MINUS_1));
    assert!(!taken(BranchFunction::Bltu, MINUS_1, 0));
    assert!(taken(BranchFunction::Bgeu, MINUS_1, 0));
    assert!(taken(BranchFunction::Bgeu, 3, 3));
    assert!(!taken(BranchFunction::Bgeu, 0, 1));
}

#[test]
fn jumps_and_upper_immediates() {
    let register = run(Instruction::Lui(UType { rd: 1, imm: 0xFFFF_FFFF_FFFF_F000 }), 0, 0);
    assert_eq!(register.alu_result, Some(0xFFFF_FFFF_FFFF_F000));
    assert_eq!(register.next_pc, 0x1004);
    let register = run(Instruction::Auipc(UType { rd: 1, imm: 0xFFFF_FFFF_FFFF_F000 }), 0, 0);
    assert_eq!(register.alu_result, Some(0));
    assert_eq!(register.next_pc, 0x1004);
    let register = run(Instruction::Jal(JType { rd: 1, imm: (-0x1000i64) as u64 }), 0, 0);
    assert_eq!(register.alu_result, Some(0x1004));
    assert_eq!(register.next_pc, 0);
    let jalr = Instruction::Jalr(IType { rd: 1, funct3: 0, rs1: 5, imm: 3 });
    let register = run(jalr, 0x2000, 0);
    assert_eq!(register.alu_result, Some(0x1004));
    assert_eq!(register.next_pc, 0x2002);
    let register = run(Instruction::Fence, 0, 0);
    assert_eq!(register.alu_result, Some(0));
    let ebreak = Instruction::try_from(0x0010_0073).unwrap();
    assert_eq!(run(ebreak, 0, 0).alu_result, Some(0));
    let r_type = RType { rd: 1, funct3: 2, rs1: 2, rs2: 3, funct7: 0 };
    let amo = Instruction::Amo(r_type, AmoFunction::Amoadd);
    assert_eq!(run(amo, 0x40, 1).alu_result, Some(0));
}

#[test]
fn loads_and_stores_compute_the_effective_address() {
    let load = Instruction::MemoryLoad(
        IType { rd: 1, funct3: 2, rs1: 2, imm: (-4i64) as u64 },
        LoadFunction::Lw,
    );
    assert_eq!(run(load, 0x1000, 0).alu_result, Some(0xFFC));
    let store = Instruction::MemoryStore(
        SType { funct3: 2, rs1: 2, rs2: 3, imm: 8 },
        StoreFunction::Sw,
    );
    assert_eq!(run(store, u64::MAX, 0).alu_result, Some(7));
}

#[test]
fn execute_without_its_inputs() {
    let mut register = PipelineRegister::new(0);
    assert!(missing(execute(&mut register), "instruction"));
    let r_type = RType { rd: 3, funct3: 0, rs1: 1, rs2: 2, funct7: 0 };
    register.instruction =
        Some(Instruction::RegisterArithmetic(r_type, RegisterArithmeticFunction::Add));
    assert!(missing(execute(&mut register), "rs1_value"));
    register.rs1_value = Some(1);
    assert!(missing(execute(&mut register), "rs2_value"));
    assert_eq!(register.alu_result, None);
    register.instruction = Some(Instruction::MemoryLoad(
        IType { rd: 1, funct3: 2, rs1: 2, imm: 0 },
        LoadFunction::Lw,
    ));
    assert!(missing(execute(&mut register), "effective_address"));
    register.instruction = Some(Instruction::Jalr(IType { rd: 1, funct3: 0, rs1: 2, imm: 0 }));
    register.rs1_value = None;
    assert!(missing(execute(&mut register), "rs1_value"));
}

#[test]
fn execute_of_ecall_raises_the_syscall_with_a7() {
    let mut register = PipelineRegister::new(0);
    register.registers[0] = 7;
    register.registers[17] = 64;
    register.instruction = Some(Instruction::try_from(0x0000_0073).unwrap());
    assert!(matches!(execute(&mut register), Err(PipelineError::SyscallException(64))));
}

fn access(
    instruction: Instruction,
    address: u64,
    rs2: Option<u64>,
    memory: &mut SimpleMemory,
) -> (PipelineRegister, Result<(), PipelineError>) {
    let mut register = PipelineRegister::new(0);
    register.instruction = Some(instruction);
    register.alu_result = Some(address);
    register.rs2_value = rs2;
    let result = mem_access(&mut register, memory);
    (register, result)
}

fn load(funct: LoadFunction, address: u64, memory: &mut SimpleMemory) -> u64 {
    let i_type = IType { rd: 1, funct3: 0, rs1: 2, imm: 0 };
    let (register, result) = access(Instruction::MemoryLoad(i_type, funct), address, None, memory);
    assert!(result.is_ok());
    register.memory.unwrap()
}

#[test]
fn loads_extend_what_they_read() {
    let mut memory = SimpleMemory::new();
    memory.set_doubleword(0x100, 0x8877_6655_C433_A291).unwrap();
    assert_eq!(load(LoadFunction::Lb, 0x100, &mut memory), 0xFFFF_FFFF_FFFF_FF91);
    assert_eq!(load(LoadFunction::Lbu, 0x100, &mut memory), 0x91);
    assert_eq!(load(LoadFunction::Lb, 0x102, &mut memory), 0x33);
    assert_eq!(load(LoadFunction::Lh, 0x100, &mut memory), 0xFFFF_FFFF_FFFF_A291);
    assert_eq!(load(LoadFunction::Lhu, 0x100, &mut memory), 0xA291);
    assert_eq!(load(LoadFunction::Lw, 0x100, &mut memory), 0xFFFF_FFFF_C433_A291);
    assert_eq!(load(LoadFunction::Lwu, 0x100, &mut memory), 0xC433_A291);
    assert_eq!(load(LoadFunction::Lw, 0x102, &mut memory), 0x6655_C433);
    assert_eq!(load(LoadFunction::Ld, 0x100, &mut memory), 0x8877_6655_C433_A291);
    assert_eq!(load(LoadFunction::Ld, 0x5000, &mut memory), 0);
    assert_eq!(memory.page_count(), 1);
}

#[test]
fn stores_truncate_what_they_write() {
    let value = 0x1122_3344_5566_7788u64;
    let store = |funct: StoreFunction| {
        let mut memory = SimpleMemory::new();
        let s_type = SType { funct3: 0, rs1: 1, rs2: 2, imm: 0 };
        let instruction = Instruction::MemoryStore(s_type, funct);
        let (register, result) = access(instruction, 0x100, Some(value), &mut memory);
        assert!(result.is_ok());
        assert_eq!(register.memory, None);
        memory.get_doubleword(0x100).unwrap()
    };
    assert_eq!(store(StoreFunction::Sb), 0x88);
    assert_eq!(store(StoreFunction::Sh), 0x7788);
    assert_eq!(store(StoreFunction::Sw), 0x5566_7788);
    assert_eq!(store(StoreFunction::Sd), value);
}

#[test]
fn the_memory_stage_without_its_inputs() {
    let mut memory = SimpleMemory::new();
    let mut register = PipelineRegister::new(0);
    assert!(missing(mem_access(&mut register, &mut memory), "instruction"));
    register.instruction = Some(Instruction::Fence);
    assert!(missing(mem_access(&mut register, &mut memory), "alu_result"));
    register.alu_result = Some(0);
    assert!(mem_access(&mut register, &mut memory).is_ok());
    let s_type = SType { funct3: 0, rs1: 1, rs2: 2, imm: 0 };
    register.instruction = Some(Instruction::MemoryStore(s_type, StoreFunction::Sb));
    assert!(missing(mem_access(&mut register, &mut memory), "rs2_value"));
    assert_eq!(memory.page_count(), 0);
}

fn amo(
    funct: AmoFunction,
    funct3: u8,
    address: Option<u64>,
    rs2: Option<u64>,
    reservation: Option<u64>,
    memory: &mut SimpleMemory,
) -> (PipelineRegister, Result<(), PipelineError>) {
    let r_type = RType { rd: 1, funct3, rs1: 2, rs2: 3, funct7: 0 };
    let mut register = PipelineRegister::new(0);
    register.instruction = Some(Instruction::Amo(r_type, funct));
    register.alu_result = Some(0);
    register.rs1_value = address;
    register.rs2_value = rs2;
    register.reservation = reservation;
    let result = mem_access(&mut register, memory);
    (register, result)
}

#[test]
fn atomic_sizes_and_alignment() {
    let mut memory = SimpleMemory::new();
    for (funct3, size) in [(0u8, 1u8), (1, 2), (4, 16), (5, 32), (6, 64), (7, 128)] {
        let (_, result) = amo(AmoFunction::Amoadd, funct3, Some(0), Some(1), None, &mut memory);
        assert!(matches!(result, Err(PipelineError::BadAmoSize(s)) if s == size));
        let (register, result) = amo(AmoFunction::Sc, funct3, Some(0), Some(1), None, &mut memory);
        assert!(matches!(result, Err(PipelineError::BadAmoSize(s)) if s == size));
        assert_eq!(register.memory, None);
    }
    let (_, result) = amo(AmoFunction::Lr, 2, None, None, None, &mut memory);
    assert!(missing(result, "rs1_value"));
    for address in [1u64, 2, 3, 5, 0x1002] {
        let (_, result) = amo(AmoFunction::Lr, 2, Some(address), None, None, &mut memory);
        assert!(matches!(result, Err(PipelineError::UnalignedAmo)));
    }
    for address in [1u64, 4, 12, 0x1004] {
        let (_, result) = amo(AmoFunction::Amoswap, 3, Some(address), Some(1), None, &mut memory);
        assert!(matches!(result, Err(PipelineError::UnalignedAmo)));
    }
    let (_, result) = amo(AmoFunction::Lr, 2, Some(4), None, None, &mut memory);
    assert!(result.is_ok());
    let (_, result) = amo(AmoFunction::Amoadd, 2, Some(8), None, None, &mut memory);
    assert!(missing(result, "rs2_value"));
    assert_eq!(memory.page_count(), 0);
}

#[test]
fn load_reserved_and_store_conditional() {
    let mut memory = SimpleMemory::new();
    memory.set_doubleword(0x40, 0x1111_2222_8333_4444).unwrap();
    let (register, result) = amo(AmoFunction::Lr, 3, Some(0x40), None, Some(0x80), &mut memory);
    assert!(result.is_ok());
    assert_eq!(register.memory, Some(0x1111_2222_8333_4444));
    assert_eq!(register.reservation, Some(0x40));
    // a word is read without its sign
    let (register, _) = amo(AmoFunction::Lr, 2, Some(0x40), None, None, &mut memory);
    assert_eq!(register.memory, Some(0x8333_4444));

    // the address is reserved: the store is done
    let (register, result) = amo(AmoFunction::Sc, 3, Some(0x40), Some(77), Some(0x40), &mut memory);
    assert!(result.is_ok());
    assert_eq!(register.memory, Some(0));
    assert_eq!(register.reservation, None);
    assert_eq!(memory.get_doubleword(0x40), Ok(77));

    // another address is reserved: nothing is stored
    let (register, result) = amo(AmoFunction::Sc, 3, Some(0x40), Some(88), Some(0x48), &mut memory);
    assert!(result.is_ok());
    assert_eq!(register.memory, Some(1));
    assert_eq!(register.reservation, None);
    assert_eq!(memory.get_doubleword(0x40), Ok(77));

    // nothing is reserved
    let (register, result) = amo(AmoFunction::Sc, 3, Some(0x40), Some(88), None, &mut memory);
    assert!(result.is_ok());
    assert_eq!(register.memory, Some(1));
    assert_eq!(memory.get_doubleword(0x40), Ok(77));

    // a word store writes four bytes
    memory.set_doubleword(0x40, u64::MAX).unwrap();
    let operand = Some(0x1_0000_0002);
    let (register, _) = amo(AmoFunction::Sc, 2, Some(0x40), operand, Some(0x40), &mut memory);
    assert_eq!(register.memory, Some(0));
    assert_eq!(memory.get_doubleword(0x40), Ok(0xFFFF_FFFF_0000_0002));

    // the operand is missing
    let (register, result) = amo(AmoFunction::Sc, 3, Some(0x40), None, Some(0x40), &mut memory);
    assert!(missing(result, "rs2_value"));
    assert_eq!(register.memory, Some(1));
    assert_eq!(register.reservation, Some(0x40));
}

#[test]
fn atomic_read_modify_write() {
    let apply = |funct: AmoFunction, funct3: u8, mem: u64, rs2: u64| {
        let mut memory = SimpleMemory::new();
        memory.set_doubleword(0x40, mem).unwrap();
        let (register, result) = amo(funct, funct3, Some(0x40), Some(rs2), None, &mut memory);
        assert!(result.is_ok());
        assert_eq!(register.reservation, None);
        (register.memory.unwrap(), memory.get_doubleword(0x40).unwrap())
    };
    assert_eq!(apply(AmoFunction::Amoswap, 3, 5, 7), (5, 7));
    assert_eq!(apply(AmoFunction::Amoadd, 3, 5, 7), (5, 12));
    assert_eq!(apply(AmoFunction::Amoadd, 3, u64::MAX, 2), (u64::MAX, 1));
    assert_eq!(apply(AmoFunction::Amoxor, 3, 0b1100, 0b1010), (0b1100, 0b0110));
    assert_eq!(apply(AmoFunction::Amoand, 3, 0b1100, 0b1010), (0b1100, 0b1000));
    assert_eq!(apply(AmoFunction::Amoor, 3, 0b1100, 0b1010), (0b1100, 0b1110));
    assert_eq!(apply(AmoFunction::Amomin, 3, MINUS_1, 1), (MINUS_1, MINUS_1));
    assert_eq!(apply(AmoFunction::Amomin, 3, 1, MINUS_1), (1, MINUS_1));
    assert_eq!(apply(AmoFunction::Amomax, 3, MINUS_1, 1), (MINUS_1, 1));
    assert_eq!(apply(AmoFunction::Amomax, 3, 1, MINUS_1), (1, 1));
    assert_eq!(apply(AmoFunction::Amominu, 3, MINUS_1, 1), (MINUS_1, 1));
    assert_eq!(apply(AmoFunction::Amomaxu, 3, MINUS_1, 1), (MINUS_1, MINUS_1));
    // words: the value read is sign-extended, and the high half of memory stays
    let mem = 0xAAAA_AAAA_8000_0001u64;
    let read = 0xFFFF_FFFF_8000_0001u64;
    let high = 0xAAAA_AAAA_0000_0000u64;
    assert_eq!(apply(AmoFunction::Amoswap, 2, mem, 0x5_0000_0007), (read, high | 7));
    assert_eq!(apply(AmoFunction::Amoadd, 2, mem, 0xFFFF_FFFF), (read, high | 0x8000_0000));
    assert_eq!(apply(AmoFunction::Amomin, 2, mem, 1), (read, high | 0x8000_0001));
    assert_eq!(apply(AmoFunction::Amomax, 2, mem, 1), (read, high | 1));
    assert_eq!(apply(AmoFunction::Amominu, 2, mem, 1), (read, high | 1));
    assert_eq!(apply(AmoFunction::Amomaxu, 2, mem, 1), (read, high | 0x8000_0001));
}

#[test]
fn writeback_writes_what_the_memory_stage_read_else_what_was_computed() {
    let mut register = PipelineRegister::new(0);
    register.registers[3] = 1;
    assert!(writeback(&mut register).is_ok());
    assert_eq!(register.registers[3], 1);
    register.rd = Some(3);
    assert!(writeback(&mut register).is_ok());
    assert_eq!(register.registers[3], 1);
    register.alu_result = Some(20);
    assert!(writeback(&mut register).is_ok());
    assert_eq!(register.registers[3], 20);
    register.memory = Some(30);
    assert!(writeback(&mut register).is_ok());
    assert_eq!(register.registers[3], 30);
    register.rd = Some(31);
    assert!(writeback(&mut register).is_ok());
    assert_eq!(register.registers[31], 30);
    let mut expected = [0u64; 32];
    expected[3] = 30;
    expected[31] = 30;
    assert_eq!(register.registers, expected);
}

#[test]
fn writes_to_register_0_are_discarded() {
    let mut register = PipelineRegister::new(0);
    register.registers[1] = 5;
    register.rd = Some(0);
    register.alu_result = Some(20);
    register.memory = Some(30);
    let before = register;
    assert!(writeback(&mut register).is_ok());
    assert_eq!(register, before);
    assert_eq!(register.registers[0], 0);
}
