use brisc::errors::PipelineError;
use brisc::functions::{AmoFunction, LoadFunction};
use brisc::instructions::i_type::IType;
use brisc::instructions::r_type::RType;
use brisc::instructions::s_type::SType;
use brisc::instructions::Instruction;
use brisc::load::{load_segments, ElfLoadError, SegmentHeader, PT_LOAD};
use brisc::memory::errors::{MemoryError, MemoryResult};
use brisc::memory::interface::Memory;
use brisc::memory::page::{Page, PageIndex};
use brisc::pipeline::memory::mem_access;
use brisc::pipeline::register::PipelineRegister;
use brisc::st::run_stages;

/// A memory of two pages, with the indices 0 and 1, of which the second is mapped on demand.
struct TwoPages {
    first: Page,
    second: Option<Page>,
}

impl TwoPages {
    fn new() -> Self {
        TwoPages { first: [0u8; 4096], second: None }
    }
}

impl Memory for TwoPages {
    fn page_count(&self) -> usize {
        1 + self.second.iter().count()
    }

    fn allocate(&mut self, page_index: PageIndex) -> MemoryResult<&mut Page> {
        match page_index {
            0 => Ok(&mut self.first),
            1 => Ok(self.second.get_or_insert([0u8; 4096])),
            _ => Err(MemoryError::PageNotFound(page_index)),
        }
    }

    fn page(&self, page_index: PageIndex) -> Option<&Page> {
        match page_index {
            0 => Some(&self.first),
            1 => self.second.as_ref(),
            _ => None,
        }
    }

    fn page_mut(&mut self, page_index: PageIndex) -> Option<&mut Page> {
        match page_index {
            0 => Some(&mut self.first),
            1 => self.second.as_mut(),
            _ => None,
        }
    }
}

#[test]
fn a_write_that_the_memory_refuses_fails_and_changes_nothing() {
    let mut memory = TwoPages::new();
    assert_eq!(memory.set_byte(0x2000, 1), Err(MemoryError::PageNotFound(2)));
    assert_eq!(memory.set_word(0x5000, 1), Err(MemoryError::PageNotFound(5)));
    assert_eq!(memory.page_count(), 1);
    assert_eq!(memory.set_word(0x1000, 0x0102_0304), Ok(()));
    assert_eq!(memory.page_count(), 2);
    assert_eq!(memory.get_word(0x1000), Ok(0x0102_0304));
}

#[test]
fn a_write_across_a_boundary_that_is_refused_for_its_second_page_keeps_the_first_part() {
    let mut memory = TwoPages::new();
    assert_eq!(memory.set_word(0x1FFE, 0x0102_0304), Err(MemoryError::PageNotFound(2)));
    assert_eq!(memory.get_word(0x1FFC), Ok(0x0304_0000));
    assert_eq!(memory.set_memory_range(0x1FFE, &[1, 2, 3]), Err(MemoryError::PageNotFound(2)));
}

#[test]
fn a_store_that_the_memory_refuses_is_a_memory_error_of_the_pipeline() {
    let mut memory = TwoPages::new();
    // sb x2, 0(x1)
    let store = SType { funct3: 0, rs1: 1, rs2: 2, imm: 0 }.encode() | 0b010_0011;
    memory.set_word(0, store).unwrap();
    let mut register = PipelineRegister::new(0);
    register.registers[1] = 0x9000;
    let result = run_stages(&mut register, &mut memory);
    assert!(matches!(
        result,
        Err(PipelineError::MemoryError(MemoryError::PageNotFound(9)))
    ));
}

#[test]
fn a_segment_that_the_memory_refuses_ends_the_load() {
    let data = [1u8, 2, 3, 4];
    let headers = [SegmentHeader {
        p_type: PT_LOAD,
        p_offset: 0,
        p_vaddr: 0x3000,
        p_filesz: 4,
        p_memsz: 4,
    }];
    let result = load_segments(TwoPages::new(), &data, &headers, 0);
    assert!(matches!(result, Err(ElfLoadError::Memory(MemoryError::PageNotFound(3)))));
}

#[test]
fn a_range_that_is_refused_keeps_the_bytes_before_the_page_that_is_refused() {
    let mut memory = TwoPages::new();
    let data: Vec<u8> = (1..=10).collect();
    assert_eq!(memory.set_memory_range(0x1FFA, &data), Err(MemoryError::PageNotFound(2)));
    assert_eq!(memory.read_memory_range(0x1FFA, 6), Ok(vec![1, 2, 3, 4, 5, 6]));
    assert_eq!(memory.page_count(), 2);
    // a range that begins in a page that is refused writes nothing
    let mut memory = TwoPages::new();
    assert_eq!(memory.set_memory_range(0x2000, &data), Err(MemoryError::PageNotFound(2)));
    assert_eq!(memory.page_count(), 1);
}

fn atomic(funct: AmoFunction, address: u64, reservation: Option<u64>) -> PipelineRegister {
    let r_type = RType { rd: 1, funct3: 3, rs1: 2, rs2: 3, funct7: 0 };
    let mut register = PipelineRegister::new(0);
    register.instruction = Some(Instruction::Amo(r_type, funct));
    register.alu_result = Some(0);
    register.rs1_value = Some(address);
    register.rs2_value = Some(7);
    register.reservation = reservation;
    register
}

#[test]
fn what_the_memory_stage_leaves_where_its_write_is_refused() {
    let mut memory = TwoPages::new();
    // a store conditional has read 1 and keeps the reservation
    let mut register = atomic(AmoFunction::Sc, 0x2000, Some(0x2000));
    let mut expected = register;
    let result = mem_access(&mut register, &mut memory);
    assert!(matches!(result, Err(PipelineError::MemoryError(MemoryError::PageNotFound(2)))));
    expected.memory = Some(1);
    assert_eq!(register, expected);
    // any other atomic operation has read the value in memory
    let mut register = atomic(AmoFunction::Amoadd, 0x2000, None);
    let mut expected = register;
    let result = mem_access(&mut register, &mut memory);
    assert!(matches!(result, Err(PipelineError::MemoryError(MemoryError::PageNotFound(2)))));
    expected.memory = Some(0);
    assert_eq!(register, expected);
    assert_eq!(memory.page_count(), 1);
}

#[test]
fn a_stage_that_writes_nothing_never_fails_for_the_memory() {
    let mut memory = TwoPages::new();
    // a load from a page that the memory would refuse
    let mut register = PipelineRegister::new(0);
    let i_type = IType { rd: 1, funct3: 3, rs1: 2, imm: 0 };
    register.instruction = Some(Instruction::MemoryLoad(i_type, LoadFunction::Ld));
    register.alu_result = Some(0x5FFC);
    assert!(mem_access(&mut register, &mut memory).is_ok());
    assert_eq!(register.memory, Some(0));
    // a load reserved there, and a store conditional that finds another address reserved
    let mut register = atomic(AmoFunction::Lr, 0x5000, None);
    assert!(mem_access(&mut register, &mut memory).is_ok());
    assert_eq!(register.reservation, Some(0x5000));
    let mut register = atomic(AmoFunction::Sc, 0x5000, Some(0x5008));
    assert!(mem_access(&mut register, &mut memory).is_ok());
    assert_eq!(register.memory, Some(1));
    assert_eq!(register.reservation, None);
    // an address that is not aligned
    let mut register = atomic(AmoFunction::Amoswap, 0x5004, None);
    let before = register;
    assert!(matches!(mem_access(&mut register, &mut memory), Err(PipelineError::UnalignedAmo)));
    assert_eq!(register, before);
    assert_eq!(memory.page_count(), 1);
}

#[test]
fn a_file_whose_segments_are_skipped_or_refused_never_fails_for_the_memory() {
    let data = [1u8, 2, 3, 4];
    let segment = |p_type: u32, p_filesz: u64| SegmentHeader {
        p_type,
        p_offset: 0,
        p_vaddr: 0x9000,
        p_filesz,
        p_memsz: 4,
    };
    let skipped = [segment(0x7000_0003, 4)];
    assert!(load_segments(TwoPages::new(), &data, &skipped, 0).is_ok());
    let refused = [segment(PT_LOAD, 5)];
    let result = load_segments(TwoPages::new(), &data, &refused, 0);
    assert!(matches!(result, Err(ElfLoadError::SegmentData(0))));
}
