use brisc::errors::InstructionDecodeError;
use brisc::functions::{
    BranchFunction, EnvironmentFunction, ImmediateArithmeticFunction,
    ImmediateArithmeticWordFunction, LoadFunction, RegisterArithmeticFunction,
    RegisterArithmeticWordFunction, StoreFunction,
};
use brisc::instructions::b_type::BType;
use brisc::instructions::i_type::IType;
use brisc::instructions::j_type::JType;
use brisc::instructions::r_type::RType;
use brisc::instructions::rvc::types::{
    CBType, CIType, CIWType, CJType, CLType, CRType, CSSType, CSType,
};
use brisc::instructions::rvc::{
    is_compressed, map_compressed_reg_idx, C1SubFunct, C2SubFunct, CompressedInstruction, C0, C1,
    C2, C_REG_OFFSET,
};
use brisc::instructions::s_type::SType;
use brisc::instructions::u_type::UType;
use brisc::instructions::Instruction;

fn expand(raw: u16) -> Instruction {
    CompressedInstruction::decode(raw).unwrap().expand()
}

fn addi(rd: u8, rs1: u8, imm: u64) -> Instruction {
    Instruction::ImmediateArithmetic(
        IType { rd, funct3: 0, rs1, imm },
        ImmediateArithmeticFunction::Addi,
    )
}

#[test]
fn compressed_words_have_low_bits_other_than_11() {
    assert!(is_compressed(0x0000_0000));
    assert!(is_compressed(0x0000_0001));
    assert!(is_compressed(0xFFFF_FFFE));
    assert!(!is_compressed(0x0000_0003));
    assert!(!is_compressed(0x0000_0013));
}

#[test]
fn compressed_registers_start_at_x8() {
    assert_eq!(C_REG_OFFSET, 8);
    assert_eq!(map_compressed_reg_idx(0), 8);
    assert_eq!(map_compressed_reg_idx(7), 15);
}

#[test]
fn format_fields() {
    // c.add x10, x11: 1001 01010 01011 10
    assert_eq!(CRType::decode(0x952E), CRType { rs1_rd: 10, rs2: 11, funct4: 0b1001 });
    // c.li x8, 3
    assert_eq!(CIType::decode(0x440D), CIType { rs1_rd: 8, funct3: 0b010, imm: 3 });
    // c.addi x8, -1: 000 1 01000 11111 01
    assert_eq!(CIType::decode(0x147D), CIType { rs1_rd: 8, funct3: 0, imm: 0x3F });
    // c.swsp x1, 8(sp): 110 000100 00001 10
    assert_eq!(CSSType::decode(0xC206), CSSType { rs2: 1, funct3: 0b110, imm: 0b000100 });
    // c.addi4spn x10, sp, 8
    assert_eq!(CIWType::decode(0x0028), CIWType { rd: 2, funct3: 0, imm: 1 });
    // c.lw x9, 4(x10): 010 000 010 10 001 00
    assert_eq!(CLType::decode(0x4144), CLType { rd: 1, rs1: 2, funct3: 0b010, imm: 0b00010 });
    // c.sw x9, 4(x10): 110 000 010 10 001 00
    assert_eq!(CSType::decode(0xC144), CSType { rs1: 2, rs2: 1, funct3: 0b110, imm: 0b00010 });
    // c.beqz x8, 0 with offset bits 12..10 = 101, 6..2 = 00110
    assert_eq!(CBType::decode(0xD419), CBType { rs1: 0, funct3: 0b110, offset: 0b1010_0110 });
    // c.j +4
    assert_eq!(CJType::decode(0xA011), CJType { funct3: 0b101, target: 0b000_0000_0100 });
}

#[test]
fn quadrant_0() {
    // c.addi4spn x10, sp, 8
    assert_eq!(expand(0x0028), addi(10, 2, 8));
    // c.addi4spn x8, sp, 16
    assert_eq!(expand(0x0800), addi(8, 2, 16));
    // c.addi4spn x8, sp, 1020
    assert_eq!(expand(0x1FE0), addi(8, 2, 1020));
    // c.addi4spn x8, sp, 4
    assert_eq!(expand(0x0040), addi(8, 2, 4));
    // c.addi4spn x8, sp, 512
    assert_eq!(expand(0x0400), addi(8, 2, 512));
    // c.lw x9, 4(x10)
    assert_eq!(
        expand(0x4144),
        Instruction::MemoryLoad(
            IType { rd: 9, funct3: 0b010, rs1: 10, imm: 4 },
            LoadFunction::Lw
        )
    );
    // c.sw x9, 64(x10): uimm[6] is bit 5
    assert_eq!(
        expand(0xC124),
        Instruction::MemoryStore(
            SType { funct3: 0b010, rs1: 10, rs2: 9, imm: 64 },
            StoreFunction::Sw
        )
    );
    // c.ld x9, 8(x10): 011 001 010 00 001 00
    assert_eq!(
        expand(0x6504),
        Instruction::MemoryLoad(
            IType { rd: 9, funct3: 0b011, rs1: 10, imm: 8 },
            LoadFunction::Ld
        )
    );
    // c.sd x9, 192(x10): uimm[7:6] = 11 in bits 6..5
    assert_eq!(
        expand(0xE164),
        Instruction::MemoryStore(
            SType { funct3: 0b111, rs1: 10, rs2: 9, imm: 192 },
            StoreFunction::Sd
        )
    );
}

#[test]
fn quadrant_0_reserved_and_unused() {
    // The all-zero halfword is C.ADDI4SPN with a zero immediate.
    assert_eq!(
        CompressedInstruction::decode(0x0000),
        Err(InstructionDecodeError::InvalidFunction { q_a: 0, q_b: 0 })
    );
    assert_eq!(
        C0::decode(0x001C),
        Err(InstructionDecodeError::InvalidFunction { q_a: 0, q_b: 0 })
    );
    // funct3 001, 100 and 101 are not used.
    assert_eq!(
        C0::decode(0x2000),
        Err(InstructionDecodeError::InvalidFunction { q_a: 1, q_b: 0 })
    );
    assert_eq!(
        C0::decode(0x8000),
        Err(InstructionDecodeError::InvalidFunction { q_a: 4, q_b: 0 })
    );
    assert_eq!(
        C0::decode(0xA000),
        Err(InstructionDecodeError::InvalidFunction { q_a: 5, q_b: 0 })
    );
}

#[test]
fn quadrant_1() {
    // c.nop
    assert_eq!(expand(0x0001), addi(0, 0, 0));
    // c.addi x8, 4
    assert_eq!(expand(0x0411), addi(8, 8, 4));
    // c.addi x8, -1
    assert_eq!(expand(0x147D), addi(8, 8, u64::MAX));
    // c.li x8, 3
    assert_eq!(expand(0x440D), addi(8, 0, 3));
    // c.addiw x8, 1: 001 0 01000 00001 01
    assert_eq!(
        expand(0x2405),
        Instruction::ImmediateArithmeticWord(
            IType { rd: 8, funct3: 0, rs1: 8, imm: 1 },
            ImmediateArithmeticWordFunction::Addiw
        )
    );
    // c.addi16sp sp, -64: 011 1 00010 00001 01 with nzimm = 0x3C0 sign-extended
    assert_eq!(expand(0x7139), addi(2, 2, (-64i64) as u64));
    // c.addi16sp sp, 16: nzimm[4] is bit 6
    assert_eq!(expand(0x6141), addi(2, 2, 16));
    // c.lui x8, 1: 011 0 01000 00001 01
    assert_eq!(expand(0x6405), Instruction::Lui(UType { rd: 8, imm: 0x1000 }));
    // c.lui x8, 0xFFFFF: 011 1 01000 11111 01
    assert_eq!(expand(0x747D), Instruction::Lui(UType { rd: 8, imm: 0xFFFF_FFFF_FFFF_F000 }));
    // c.j +4
    assert_eq!(expand(0xA011), Instruction::Jal(JType { rd: 0, imm: 4 }));
    // c.j -2: every offset bit set
    assert_eq!(expand(0xBFFD), Instruction::Jal(JType { rd: 0, imm: (-2i64) as u64 }));
    // c.beqz x8, +8: offset[3] is bit 10
    assert_eq!(
        expand(0xC401),
        Instruction::Branch(BType { funct3: 0, rs1: 8, rs2: 0, imm: 8 }, BranchFunction::Beq)
    );
    // c.bnez x9, -2
    assert_eq!(
        expand(0xFCFD),
        Instruction::Branch(
            BType { funct3: 1, rs1: 9, rs2: 0, imm: (-2i64) as u64 },
            BranchFunction::Bne
        )
    );
}

#[test]
fn quadrant_1_reserved() {
    // c.addiw with rd = 0
    assert_eq!(
        C1::decode(0x2001),
        Err(InstructionDecodeError::InvalidFunction { q_a: 1, q_b: 0 })
    );
    // C.JAL is not there: its slot is C.ADDIW, so C.JAL +4 has rd = 0.
    assert_eq!(
        C1::decode(0x2011),
        Err(InstructionDecodeError::InvalidFunction { q_a: 1, q_b: 0 })
    );
    // c.lui with rd = 0
    assert_eq!(
        C1::decode(0x6005),
        Err(InstructionDecodeError::InvalidFunction { q_a: 3, q_b: 0 })
    );
}

#[test]
fn c_jal_expands_to_a_linking_jump() {
    let cj = CJType::decode(0x2011);
    assert_eq!(C1::CJal(cj).expand(), Instruction::Jal(JType { rd: 1, imm: 4 }));
}

fn arith(rd: u8, funct3: u8, rs2: u8, funct7: u8, f: RegisterArithmeticFunction) -> Instruction {
    Instruction::RegisterArithmetic(RType { rd, funct3, rs1: rd, rs2, funct7 }, f)
}

#[test]
fn quadrant_1_sub_functions() {
    // c.srli x8, 63: 100 1 00 000 11111 01
    assert_eq!(
        expand(0x907D),
        Instruction::ImmediateArithmetic(
            IType { rd: 8, funct3: 0b101, rs1: 8, imm: 63 },
            ImmediateArithmeticFunction::Srli
        )
    );
    // c.srai x9, 1: 100 0 01 001 00001 01
    assert_eq!(
        expand(0x8485),
        Instruction::ImmediateArithmetic(
            IType { rd: 9, funct3: 0b101, rs1: 9, imm: 0x401 },
            ImmediateArithmeticFunction::Srai
        )
    );
    // c.andi x8, -1: 100 1 10 000 11111 01
    assert_eq!(
        expand(0x987D),
        Instruction::ImmediateArithmetic(
            IType { rd: 8, funct3: 0b111, rs1: 8, imm: u64::MAX },
            ImmediateArithmeticFunction::Andi
        )
    );
    // c.sub x8, x9: 100 0 11 000 00 001 01
    assert_eq!(expand(0x8C05), arith(8, 0, 9, 0x20, RegisterArithmeticFunction::Sub));
    // c.xor x8, x9
    assert_eq!(expand(0x8C25), arith(8, 0b100, 9, 0, RegisterArithmeticFunction::Xor));
    // c.or x8, x9
    assert_eq!(expand(0x8C45), arith(8, 0b110, 9, 0, RegisterArithmeticFunction::Or));
    // c.and x8, x9
    assert_eq!(expand(0x8C65), arith(8, 0b111, 9, 0, RegisterArithmeticFunction::And));
    // c.subw x8, x9: bit 12 set
    assert_eq!(
        expand(0x9C05),
        Instruction::RegisterArithmeticWord(
            RType { rd: 8, funct3: 0, rs1: 8, rs2: 9, funct7: 0x20 },
            RegisterArithmeticWordFunction::Subw
        )
    );
    // c.addw x8, x9
    assert_eq!(
        expand(0x9C25),
        Instruction::RegisterArithmeticWord(
            RType { rd: 8, funct3: 0, rs1: 8, rs2: 9, funct7: 0 },
            RegisterArithmeticWordFunction::Addw
        )
    );
    assert!(matches!(C1SubFunct::decode(0x8C05), Ok(C1SubFunct::CSub(_))));
}

#[test]
fn quadrant_2() {
    // c.slli x8, 63: 000 1 01000 11111 10
    assert_eq!(
        expand(0x147E),
        Instruction::ImmediateArithmetic(
            IType { rd: 8, funct3: 1, rs1: 8, imm: 63 },
            ImmediateArithmeticFunction::Slli
        )
    );
    // c.lwsp x8, 4(sp): 010 0 01000 00100 10
    assert_eq!(
        expand(0x4412),
        Instruction::MemoryLoad(IType { rd: 8, funct3: 2, rs1: 2, imm: 4 }, LoadFunction::Lw)
    );
    // c.lwsp x8, 192(sp): uimm[7:6] in bits 3..2
    assert_eq!(
        expand(0x440E),
        Instruction::MemoryLoad(IType { rd: 8, funct3: 2, rs1: 2, imm: 192 }, LoadFunction::Lw)
    );
    // c.ldsp x8, 8(sp): 011 0 01000 01000 10
    assert_eq!(
        expand(0x6422),
        Instruction::MemoryLoad(IType { rd: 8, funct3: 3, rs1: 2, imm: 8 }, LoadFunction::Ld)
    );
    // c.swsp x1, 8(sp)
    assert_eq!(
        expand(0xC406),
        Instruction::MemoryStore(SType { funct3: 2, rs1: 2, rs2: 1, imm: 8 }, StoreFunction::Sw)
    );
    // c.sdsp x1, 8(sp): 111 001000 00001 10
    assert_eq!(
        expand(0xE406),
        Instruction::MemoryStore(SType { funct3: 3, rs1: 2, rs2: 1, imm: 8 }, StoreFunction::Sd)
    );
    // c.sdsp x1, 256(sp): uimm[8] is bit 9
    assert_eq!(
        expand(0xE206),
        Instruction::MemoryStore(SType { funct3: 3, rs1: 2, rs2: 1, imm: 256 }, StoreFunction::Sd)
    );
}

#[test]
fn quadrant_2_sub_functions() {
    // c.jr x1: 100 0 00001 00000 10
    assert_eq!(expand(0x8082), Instruction::Jalr(IType { rd: 0, funct3: 0, rs1: 1, imm: 0 }));
    // c.mv x10, x11
    assert_eq!(
        expand(0x852E),
        Instruction::RegisterArithmetic(
            RType { rd: 10, funct3: 0, rs1: 0, rs2: 11, funct7: 0 },
            RegisterArithmeticFunction::Add
        )
    );
    // c.ebreak
    assert_eq!(
        expand(0x9002),
        Instruction::Environment(IType::default(), EnvironmentFunction::Ebreak)
    );
    // c.jalr x5
    assert_eq!(expand(0x9282), Instruction::Jalr(IType { rd: 1, funct3: 0, rs1: 5, imm: 0 }));
    // c.add x10, x11
    assert_eq!(
        expand(0x952E),
        Instruction::RegisterArithmetic(
            RType { rd: 10, funct3: 0, rs1: 10, rs2: 11, funct7: 0 },
            RegisterArithmeticFunction::Add
        )
    );
    assert_eq!(C2SubFunct::decode(0x9002), Ok(C2SubFunct::CEBreak));
}

#[test]
fn quadrant_2_reserved_and_unused() {
    // c.slli, c.lwsp and c.ldsp with rd = 0
    assert_eq!(
        C2::decode(0x0002),
        Err(InstructionDecodeError::InvalidFunction { q_a: 0, q_b: 0 })
    );
    assert_eq!(
        C2::decode(0x4002),
        Err(InstructionDecodeError::InvalidFunction { q_a: 2, q_b: 0 })
    );
    assert_eq!(
        C2::decode(0x6002),
        Err(InstructionDecodeError::InvalidFunction { q_a: 3, q_b: 0 })
    );
    // funct3 001 and 101 are not used.
    assert_eq!(
        C2::decode(0x2002),
        Err(InstructionDecodeError::InvalidFunction { q_a: 1, q_b: 0 })
    );
    assert_eq!(
        C2::decode(0xA002),
        Err(InstructionDecodeError::InvalidFunction { q_a: 5, q_b: 0 })
    );
    // bit 12 set, rs2 != 0, rd = 0
    assert_eq!(
        C2SubFunct::decode(0x9006),
        Err(InstructionDecodeError::InvalidFunction { q_a: 1, q_b: 0 })
    );
}

#[test]
fn a_word_with_a_compressed_low_half_decodes_to_the_expansion() {
    assert_eq!(Instruction::try_from(0xFFFF_440D), Ok(addi(8, 0, 3)));
    assert_eq!(Instruction::try_from(0x0000_0411), Ok(addi(8, 8, 4)));
    assert_eq!(
        Instruction::try_from(0x0000_0000),
        Err(InstructionDecodeError::InvalidFunction { q_a: 0, q_b: 0 })
    );
    assert_eq!(
        CompressedInstruction::decode(0x0003),
        Err(InstructionDecodeError::InvalidOpcode(3))
    );
}

#[test]
fn a_compressed_instruction_decodes_like_the_regular_one() {
    // c.addi x8, 4 and addi x8, x8, 4
    assert_eq!(Instruction::try_from(0x0411), Instruction::try_from(0x0044_0413));
    // c.lw x9, 4(x10) and lw x9, 4(x10)
    assert_eq!(Instruction::try_from(0x4144), Instruction::try_from(0x0045_2483));
    // c.sub x8, x9 and sub x8, x8, x9
    assert_eq!(Instruction::try_from(0x8C05), Instruction::try_from(0x4094_0433));
    // c.j +4 and jal x0, 4
    assert_eq!(Instruction::try_from(0xA011), Instruction::try_from(0x0040_006F));
}
