use brisc::load::{load_elf, load_segments, ElfLoadError, SegmentHeader, ADDRESS_LIMIT, PT_LOAD};
use brisc::memory::interface::Memory;
use brisc::memory::SimpleMemory;

fn put16(file: &mut Vec<u8>, value: u16) {
    file.extend_from_slice(&value.to_le_bytes());
}

fn put32(file: &mut Vec<u8>, value: u32) {
    file.extend_from_slice(&value.to_le_bytes());
}

fn put64(file: &mut Vec<u8>, value: u64) {
    file.extend_from_slice(&value.to_le_bytes());
}

/// A 64-bit little-endian ELF file with the given program headers, followed by `data`.
fn elf_file(entry: u64, headers: &[SegmentHeader], data: &[u8]) -> Vec<u8> {
    let mut file = vec![0x7F, b'E', b'L', b'F', 2, 1, 1, 0, 0, 0, 0, 0, 0, 0, 0, 0];
    put16(&mut file, 2);
    put16(&mut file, 0xF3);
    put32(&mut file, 1);
    put64(&mut file, entry);
    put64(&mut file, if headers.is_empty() { 0 } else { 64 });
    put64(&mut file, 0);
    put32(&mut file, 0);
    put16(&mut file, 64);
    put16(&mut file, 56);
    put16(&mut file, headers.len() as u16);
    put16(&mut file, 64);
    put16(&mut file, 0);
    put16(&mut file, 0);
    for header in headers {
        put32(&mut file, header.p_type);
        put32(&mut file, 5);
        put64(&mut file, header.p_offset);
        put64(&mut file, header.p_vaddr);
        put64(&mut file, header.p_vaddr);
        put64(&mut file, header.p_filesz);
        put64(&mut file, header.p_memsz);
        put64(&mut file, 0x1000);
    }
    file.extend_from_slice(data);
    file
}

fn header(p_type: u32, p_offset: u64, p_vaddr: u64, p_filesz: u64, p_memsz: u64) -> SegmentHeader {
    SegmentHeader { p_type, p_offset, p_vaddr, p_filesz, p_memsz }
}

fn failure(result: Result<(SimpleMemory, u64), ElfLoadError>) -> ElfLoadError {
    match result {
        Ok(_) => panic!("the file was loaded"),
        Err(error) => error,
    }
}

#[test]
fn a_load_segment_is_copied_and_filled_with_zeros() {
    let data = [1u8, 2, 3, 4, 5, 6, 7, 8];
    let offset = 64 + 56;
    let file = elf_file(0x1_0000, &[header(PT_LOAD, offset, 0x1_0FFC, 8, 20)], &data);
    // what is in memory before stays where the segment does not reach, and goes where it does
    let mut memory = SimpleMemory::new();
    memory.set_memory_range(0x1_0FF8, &[0xEE; 32]).unwrap();
    let (mut memory, entry) = load_elf(&file, memory).unwrap();
    assert_eq!(entry, 0x1_0000);
    let mut expected = vec![0xEEu8; 4];
    expected.extend_from_slice(&data);
    expected.extend_from_slice(&[0u8; 12]);
    expected.extend_from_slice(&[0xEEu8; 8]);
    assert_eq!(memory.read_memory_range(0x1_0FF8, 32), Ok(expected));
    assert_eq!(memory.page_count(), 2);
}

#[test]
fn segments_are_loaded_in_order() {
    let data = [0x11u8, 0x22, 0x33, 0x44];
    let offset = 64 + 3 * 56;
    let headers = [
        header(PT_LOAD, offset, 0x2000, 4, 4),
        // the architecture-specific segment is passed over, whatever it says
        header(0x7000_0003, u64::MAX, u64::MAX, 1, 2),
        // a later segment overwrites an earlier one; one that is no PT_LOAD is copied too
        header(6, offset + 2, 0x2001, 2, 2),
    ];
    let file = elf_file(0x2000, &headers, &data);
    let (memory, entry) = load_elf(&file, SimpleMemory::new()).unwrap();
    assert_eq!(entry, 0x2000);
    assert_eq!(memory.get_word(0x2000), Ok(0x4444_3311));
    assert_eq!(memory.page_count(), 1);
}

#[test]
fn a_file_without_segments_loads_nothing() {
    let (memory, entry) = load_segments(SimpleMemory::new(), &[], &[], 0x1234).unwrap();
    assert_eq!(entry, 0x1234);
    assert_eq!(memory.page_count(), 0);
}

#[test]
fn what_is_no_elf_file_is_refused() {
    assert_eq!(failure(load_elf(&[], SimpleMemory::new())), ElfLoadError::Parse);
    assert_eq!(failure(load_elf(&[0u8; 200], SimpleMemory::new())), ElfLoadError::Parse);
    let mut file = elf_file(0, &[header(PT_LOAD, 120, 0, 0, 0)], &[]);
    file[0] = 0x7E;
    assert_eq!(failure(load_elf(&file, SimpleMemory::new())), ElfLoadError::Parse);
    // a file without a table of program headers
    let file = elf_file(0, &[], &[]);
    assert_eq!(failure(load_elf(&file, SimpleMemory::new())), ElfLoadError::Parse);
    // a table that runs past the end of the file
    let file = elf_file(0, &[header(PT_LOAD, 120, 0, 0, 0)], &[]);
    assert_eq!(failure(load_elf(&file[..100], SimpleMemory::new())), ElfLoadError::Parse);
}

#[test]
fn a_segment_outside_the_file_is_refused() {
    let file = elf_file(0, &[header(PT_LOAD, 120, 0x1000, 4, 4)], &[1, 2, 3]);
    assert_eq!(failure(load_elf(&file, SimpleMemory::new())), ElfLoadError::SegmentData(0));
    let file = elf_file(0, &[header(PT_LOAD, u64::MAX, 0x1000, 2, 2)], &[1, 2, 3]);
    assert_eq!(failure(load_elf(&file, SimpleMemory::new())), ElfLoadError::SegmentData(0));
    // the data may end with the file
    let file = elf_file(0, &[header(PT_LOAD, 120, 0x1000, 3, 3)], &[1, 2, 3]);
    assert!(load_elf(&file, SimpleMemory::new()).is_ok());
}

#[test]
fn sizes_that_differ_are_refused_but_for_a_larger_load_segment() {
    let data = [1u8, 2, 3, 4];
    let load = |headers: &[SegmentHeader]| {
        load_segments(SimpleMemory::new(), &data, headers, 0)
    };
    assert_eq!(
        failure(load(&[header(PT_LOAD, 0, 0x1000, 4, 3)])),
        ElfLoadError::FileSizeExceedsMemSize(0)
    );
    assert_eq!(failure(load(&[header(6, 0, 0x1000, 3, 4)])), ElfLoadError::SizeMismatch(0));
    assert_eq!(failure(load(&[header(6, 0, 0x1000, 4, 3)])), ElfLoadError::SizeMismatch(0));
    assert_eq!(
        failure(load(&[header(PT_LOAD, 0, 0x1000, 4, 4), header(0, 0, 0x1000, 0, 1)])),
        ElfLoadError::SizeMismatch(1)
    );
    assert!(load(&[header(6, 0, 0x1000, 4, 4)]).is_ok());
    assert!(load(&[header(PT_LOAD, 0, 0x1000, 3, 4)]).is_ok());
}

#[test]
fn a_segment_that_reaches_the_address_limit_is_refused() {
    assert_eq!(ADDRESS_LIMIT, 1u64 << 47);
    let data = [1u8, 2, 3, 4];
    let load = |vaddr: u64, memsz: u64| {
        load_segments(SimpleMemory::new(), &data, &[header(PT_LOAD, 0, vaddr, 4, memsz)], 0)
    };
    assert_eq!(failure(load(ADDRESS_LIMIT - 4, 4)), ElfLoadError::OutOfRange(0));
    assert_eq!(failure(load(ADDRESS_LIMIT, 4)), ElfLoadError::OutOfRange(0));
    assert_eq!(failure(load(u64::MAX, 4)), ElfLoadError::OutOfRange(0));
    assert_eq!(failure(load(0, ADDRESS_LIMIT)), ElfLoadError::OutOfRange(0));
    let (memory, _) = load(ADDRESS_LIMIT - 5, 4).unwrap();
    assert_eq!(memory.get_word(ADDRESS_LIMIT - 5), Ok(0x0403_0201));
    // the sizes are looked at before the address
    assert_eq!(
        failure(load_segments(
            SimpleMemory::new(),
            &data,
            &[header(6, 0, ADDRESS_LIMIT, 4, 5)],
            0
        )),
        ElfLoadError::SizeMismatch(0)
    );
}

#[test]
fn the_first_segment_that_is_refused_ends_the_load() {
    let data = [1u8, 2, 3, 4];
    let headers = [header(PT_LOAD, 0, 0x1000, 4, 4), header(PT_LOAD, 4, 0x2000, 1, 1)];
    assert_eq!(
        failure(load_segments(SimpleMemory::new(), &data, &headers, 0)),
        ElfLoadError::SegmentData(1)
    );
}
