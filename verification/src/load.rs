//! ELF file loading.

use vstd::prelude::*;
use elf::endian::AnyEndian;
use elf::ElfBytes;
use crate::arch::XWord;
use crate::memory::errors::MemoryError;
use crate::memory::interface::{refused_after, store_range, Address, Memory};
use crate::memory::page::PageIndex;

verus! {

/// The type of a segment that is loaded into memory whatever its sizes are.
pub const PT_LOAD: u32 = 1;

/// The type of the segments that are passed over.
pub const PT_SKIPPED: u32 = 0x7000_0003;

/// The first address that no segment may reach: 2^47.
pub const ADDRESS_LIMIT: u64 = 0x8000_0000_0000;

/// What the loader reads of a program header.
#[derive(Debug, Clone, Copy, PartialEq, Eq, Structural)]
pub struct SegmentHeader {
    /// Program segment type.
    pub p_type: u32,
    /// Offset into the ELF file where this segment begins.
    pub p_offset: u64,
    /// Virtual address where this segment should be loaded.
    pub p_vaddr: u64,
    /// Size of this segment in the file.
    pub p_filesz: u64,
    /// Size of this segment in memory.
    pub p_memsz: u64,
}

/// Why an ELF file was not loaded.
#[derive(Debug, Clone, Copy, PartialEq, Eq, Structural)]
pub enum ElfLoadError {
    /// The bytes are not an ELF file, or the file has no program headers.
    Parse,
    /// The data of the segment with this index lies outside the file.
    SegmentData(usize),
    /// The segment with this index is a `PT_LOAD` segment that is larger in the
    /// file than in memory.
    FileSizeExceedsMemSize(usize),
    /// The segment with this index is not a `PT_LOAD` segment, and its sizes in
    /// the file and in memory differ.
    SizeMismatch(usize),
    /// The segment with this index reaches the address 2^47 or lies above it.
    OutOfRange(usize),
    /// The memory refused the data of a segment.
    Memory(MemoryError),
}

/// The entry point and the program headers of the ELF file that the bytes hold,
/// if they hold one with program headers.
pub uninterp spec fn elf_parsed(raw: Seq<u8>) -> Option<(u64, Seq<SegmentHeader>)>;

/// Parses the ELF file header and the program headers.
///
/// Calls `elf::ElfBytes::minimal_parse`, which reads the file header and finds
/// the tables; `ElfBytes::segments`, which is the table of program headers
/// where there is one; and the table's `iter`, which parses the headers in
/// order. The entry point is the field `e_entry` of the file header. What they
/// give for the same bytes is always the same, so it has a name; nothing is
/// said of what it is.
#[verifier::external_body]
fn parse_elf(raw: &[u8]) -> (r: Result<(u64, Vec<SegmentHeader>), ElfLoadError>)
    ensures
        match r {
            Ok((entry, headers)) => elf_parsed(raw@) == Some((entry, headers@)),
            Err(e) => elf_parsed(raw@) is None && e == ElfLoadError::Parse,
        },
{
    let elf = ElfBytes::<AnyEndian>::minimal_parse(raw).map_err(|_| ElfLoadError::Parse)?;
    let table = elf.segments().ok_or(ElfLoadError::Parse)?;
    let headers = table.iter().map(
        |h| SegmentHeader {
            p_type: h.p_type,
            p_offset: h.p_offset,
            p_vaddr: h.p_vaddr,
            p_filesz: h.p_filesz,
            p_memsz: h.p_memsz,
        },
    ).collect();
    Ok((elf.ehdr.e_entry, headers))
}

/// The bytes of a segment in the file, if they lie in the file.
pub open spec fn segment_file_bytes(raw: Seq<u8>, header: SegmentHeader) -> Option<Seq<u8>> {
    if header.p_offset + header.p_filesz <= raw.len() {
        Some(raw.subrange(header.p_offset as int, header.p_offset + header.p_filesz))
    } else {
        None
    }
}

/// What loading one segment does.
pub enum SegmentAction {
    /// The segment is passed over.
    Skip,
    /// The bytes are written at the address.
    Write(Address, Seq<u8>),
    /// The file is refused.
    Reject(ElfLoadError),
}

/// What loading the segment with the given index does.
///
/// A segment of the architecture-specific type `0x70000003` is passed over.
/// Any other is refused if its data lies outside the file; if its sizes in the
/// file and in memory differ, unless it is a `PT_LOAD` segment that is larger in
/// memory; or if its address plus its size in memory is 2^47 or more. Otherwise
/// its bytes in the file, followed by zeros up to its size in memory, are
/// written at its address.
pub open spec fn spec_segment_action(
    raw: Seq<u8>,
    header: SegmentHeader,
    index: usize,
) -> SegmentAction {
    if header.p_type == PT_SKIPPED {
        SegmentAction::Skip
    } else {
        match segment_file_bytes(raw, header) {
            None => SegmentAction::Reject(ElfLoadError::SegmentData(index)),
            Some(bytes) => if header.p_filesz > header.p_memsz && header.p_type == PT_LOAD {
                SegmentAction::Reject(ElfLoadError::FileSizeExceedsMemSize(index))
            } else if header.p_filesz != header.p_memsz && header.p_type != PT_LOAD {
                SegmentAction::Reject(ElfLoadError::SizeMismatch(index))
            } else if header.p_vaddr + header.p_memsz >= ADDRESS_LIMIT {
                SegmentAction::Reject(ElfLoadError::OutOfRange(index))
            } else {
                SegmentAction::Write(
                    header.p_vaddr,
                    bytes + Seq::new((header.p_memsz - header.p_filesz) as nat, |i: int| 0u8),
                )
            },
        }
    }
}

/// The pages after the segments from the one with index `from` on were loaded
/// in order into a memory that always allocates, or the error of the first
/// segment that is refused.
pub open spec fn spec_load_segments(
    pages: Map<PageIndex, Seq<u8>>,
    raw: Seq<u8>,
    headers: Seq<SegmentHeader>,
    from: int,
) -> Result<Map<PageIndex, Seq<u8>>, ElfLoadError>
    decreases headers.len() - from,
{
    if from < 0 || from >= headers.len() {
        Ok(pages)
    } else {
        match spec_segment_action(raw, headers[from], from as usize) {
            SegmentAction::Skip => spec_load_segments(pages, raw, headers, from + 1),
            SegmentAction::Write(address, bytes) => spec_load_segments(
                store_range(pages, address, bytes),
                raw,
                headers,
                from + 1,
            ),
            SegmentAction::Reject(e) => Err(e),
        }
    }
}

/// Whether a memory may refuse the load of the segments from the one with index
/// `from` on: a segment that is reached, before any that is refused, has bytes
/// of which one falls in a page that is not mapped when the bytes before it
/// are written.
pub open spec fn spec_may_refuse(
    pages: Map<PageIndex, Seq<u8>>,
    raw: Seq<u8>,
    headers: Seq<SegmentHeader>,
    from: int,
) -> bool
    decreases headers.len() - from,
{
    if from < 0 || from >= headers.len() {
        false
    } else {
        match spec_segment_action(raw, headers[from], from as usize) {
            SegmentAction::Skip => spec_may_refuse(pages, raw, headers, from + 1),
            SegmentAction::Write(address, bytes) => {
                ||| exists|after: Map<PageIndex, Seq<u8>>, written: int| #[trigger]
                    refused_after(pages, after, address, bytes, written)
                ||| spec_may_refuse(store_range(pages, address, bytes), raw, headers, from + 1)
            },
            SegmentAction::Reject(_) => false,
        }
    }
}

/// The bytes of a segment as they go to memory: its bytes in the file, followed
/// by zeros up to its size in memory.
fn segment_image(raw: &[u8], header: &SegmentHeader) -> (image: Vec<u8>)
    requires
        header.p_offset + header.p_filesz <= raw@.len(),
        header.p_filesz <= header.p_memsz,
        header.p_memsz < ADDRESS_LIMIT,
    ensures
        image@ == raw@.subrange(header.p_offset as int, header.p_offset + header.p_filesz)
            + Seq::new((header.p_memsz - header.p_filesz) as nat, |i: int| 0u8),
{
    let mut image: Vec<u8> = Vec::new();
    let file_len: usize = raw.len();
    let offset: usize = header.p_offset as usize;
    let file_size: usize = header.p_filesz as usize;
    let mut i: usize = 0;
    assert(image@ =~= raw@.subrange(offset as int, offset as int));
    while i < file_size
        invariant
            i <= file_size,
            offset + file_size <= raw@.len(),
            raw@.len() == file_len,
            image@ == raw@.subrange(offset as int, offset + i),
        decreases file_size - i,
    {
        image.push(raw[offset + i]);
        i += 1;
        assert(image@ =~= raw@.subrange(offset as int, offset + i));
    }
    let ghost file_bytes = image@;
    let mut zeros: u64 = header.p_memsz - header.p_filesz;
    let ghost total = zeros;
    assert(image@ =~= file_bytes + Seq::new(0, |i: int| 0u8));
    while zeros > 0
        invariant
            zeros <= total,
            image@ == file_bytes + Seq::new((total - zeros) as nat, |i: int| 0u8),
        decreases zeros,
    {
        image.push(0);
        zeros -= 1;
        assert(image@ =~= file_bytes + Seq::new((total - zeros) as nat, |i: int| 0u8));
    }
    image
}

/// Loads the segments of an ELF file into the memory and returns the memory
/// with the entry point.
///
/// The load fails with the error of the memory only where the memory refuses a
/// page for the bytes of a segment, which [spec_may_refuse] allows; a memory
/// that always allocates never does. In every other case the load does what
/// [spec_load_segments] says.
pub fn load_segments<M: Memory>(memory: M, raw: &[u8], headers: &[SegmentHeader], entry: u64) -> (r:
    Result<(M, XWord), ElfLoadError>)
    ensures
        r matches Err(ElfLoadError::Memory(_)) ==> !M::always_allocates() && spec_may_refuse(
            memory.pages(),
            raw@,
            headers@,
            0,
        ),
        !(r matches Err(ElfLoadError::Memory(_))) ==> match spec_load_segments(
            memory.pages(),
            raw@,
            headers@,
            0,
        ) {
            Ok(pages) => r matches Ok((loaded, start)) && loaded.pages() == pages && start
                == entry,
            Err(e) => r matches Err(error) && error == e,
        },
{
    let ghost initial = memory.pages();
    let mut loaded = memory;
    let mut i: usize = 0;
    while i < headers.len()
        invariant
            i <= headers@.len(),
            initial == memory.pages(),
            spec_load_segments(loaded.pages(), raw@, headers@, i as int) == spec_load_segments(
                initial,
                raw@,
                headers@,
                0,
            ),
            spec_may_refuse(loaded.pages(), raw@, headers@, i as int) ==> spec_may_refuse(
                initial,
                raw@,
                headers@,
                0,
            ),
        decreases headers@.len() - i,
    {
        let header = headers[i];
        if header.p_type != PT_SKIPPED {
            if header.p_offset > raw.len() as u64 || header.p_filesz > raw.len() as u64
                - header.p_offset {
                return Err(ElfLoadError::SegmentData(i));
            }
            if header.p_filesz != header.p_memsz {
                if header.p_type == PT_LOAD {
                    if header.p_filesz > header.p_memsz {
                        return Err(ElfLoadError::FileSizeExceedsMemSize(i));
                    }
                } else {
                    return Err(ElfLoadError::SizeMismatch(i));
                }
            }
            if header.p_vaddr >= ADDRESS_LIMIT || header.p_memsz >= ADDRESS_LIMIT - header.p_vaddr {
                return Err(ElfLoadError::OutOfRange(i));
            }
            let image = segment_image(raw, &header);
            match loaded.set_memory_range(header.p_vaddr, image.as_slice()) {
                Ok(()) => {},
                Err(e) => {
                    return Err(ElfLoadError::Memory(e));
                },
            }
        }
        i += 1;
    }
    Ok((loaded, entry))
}

/// Load a raw ELF file into the given memory, and return the memory with the
/// entry point of the program.
pub fn load_elf<M: Memory>(raw: &[u8], memory: M) -> (r: Result<(M, XWord), ElfLoadError>)
    ensures
        r matches Err(ElfLoadError::Memory(_)) ==> {
            &&& !M::always_allocates()
            &&& elf_parsed(raw@) matches Some((_, headers))
            &&& spec_may_refuse(memory.pages(), raw@, headers, 0)
        },
        !(r matches Err(ElfLoadError::Memory(_))) ==> match elf_parsed(raw@) {
            None => r matches Err(error) && error == ElfLoadError::Parse,
            Some((entry, headers)) => match spec_load_segments(memory.pages(), raw@, headers, 0) {
                Ok(pages) => r matches Ok((loaded, start)) && loaded.pages() == pages && start
                    == entry,
                Err(e) => r matches Err(error) && error == e,
            },
        },
{
    match parse_elf(raw) {
        Ok((entry, headers)) => load_segments(memory, raw, headers.as_slice(), entry),
        Err(e) => Err(e),
    }
}

} // verus!
