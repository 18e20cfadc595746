use brisc::linux::{sys_exit, sys_write, SYS_EXIT, SYS_WRITE};
use brisc::memory::errors::MemoryError;
use brisc::memory::interface::Memory;
use brisc::memory::SimpleMemory;
use brisc::pipeline::register::PipelineRegister;

#[test]
fn the_numbers_of_the_system_calls() {
    assert_eq!(SYS_EXIT, 93);
    assert_eq!(SYS_WRITE, 64);
}

#[test]
fn exit_takes_the_code_from_a0() {
    let mut register = PipelineRegister::new(0x10);
    register.registers[10] = 42;
    register.registers[17] = 93;
    register.next_pc = 0x14;
    let mut expected = register;
    sys_exit(&mut register);
    expected.exit = true;
    expected.exit_code = 42;
    assert_eq!(register, expected);
}

#[test]
fn write_hands_out_the_descriptor_and_the_message() {
    let mut memory = SimpleMemory::new();
    memory.set_memory_range(0x1FFD, b"hello").unwrap();
    let mut register = PipelineRegister::new(0);
    register.registers[10] = 2;
    register.registers[11] = 0x1FFD;
    register.registers[12] = 5;
    let before = register;
    assert_eq!(sys_write(&mut memory, &register), Ok((2, b"hello".to_vec())));
    assert_eq!(register, before);
    assert_eq!(memory.page_count(), 2);
    register.registers[12] = 0;
    assert_eq!(sys_write(&mut memory, &register), Ok((2, vec![])));
    register.registers[11] = 0x2FFF;
    register.registers[12] = 2;
    assert_eq!(sys_write(&mut memory, &register), Err(MemoryError::PageNotFound(3)));
}
