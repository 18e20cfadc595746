//! Memory read/write stage for the pipeline.

use vstd::prelude::*;
use crate::arch::{Byte, DoubleWord, HalfWord, Word, XWord};
use crate::bits::{sign_extend, spec_sign_extend};
use crate::errors::{PipelineError, PipelineResult};
use crate::functions::{AmoFunction, LoadFunction, StoreFunction};
use crate::instructions::Instruction;
use crate::memory::interface::{
    byte_at, le_bytes, le_value, lemma_doubleword_after_store, lemma_refused_would_map,
    lemma_store_bytes, lemma_word_after_store, load, page_or_zero, refused, store, Address, Memory,
};
use crate::memory::page::PageIndex;
use crate::pipeline::execute::{signed, word};
use crate::pipeline::register::PipelineRegister;
use crate::pipeline::writeback::spec_writeback;

verus! {

/// A pipeline register and the pages of the memory after the memory stage, with
/// what the stage returned.
pub struct Accessed {
    /// The pipeline register as the stage left it.
    pub register: PipelineRegister,
    /// The pages of the memory as the stage left them.
    pub pages: Map<PageIndex, Seq<u8>>,
    /// What the stage returned.
    pub result: PipelineResult<()>,
}

/// The value that a load reads at `address`: `LB`, `LH` and `LW` sign-extend
/// what they read, `LBU`, `LHU` and `LWU` zero-extend it.
pub open spec fn spec_load(
    funct: LoadFunction,
    pages: Map<PageIndex, Seq<u8>>,
    address: Address,
) -> XWord {
    match funct {
        LoadFunction::Lb => spec_sign_extend(byte_at(pages, address, 0) as XWord, 7),
        LoadFunction::Lbu => byte_at(pages, address, 0) as XWord,
        LoadFunction::Lh => spec_sign_extend(
            (le_value(load(pages, address, 2)) as HalfWord) as XWord,
            15,
        ),
        LoadFunction::Lhu => (le_value(load(pages, address, 2)) as HalfWord) as XWord,
        LoadFunction::Lw => spec_sign_extend(
            (le_value(load(pages, address, 4)) as Word) as XWord,
            31,
        ),
        LoadFunction::Lwu => (le_value(load(pages, address, 4)) as Word) as XWord,
        LoadFunction::Ld => le_value(load(pages, address, 8)) as DoubleWord,
    }
}

/// The bytes that a store writes: the low bytes of `value`, little-endian.
pub open spec fn spec_store_bytes(funct: StoreFunction, value: XWord) -> Seq<u8> {
    match funct {
        StoreFunction::Sb => seq![value as Byte],
        StoreFunction::Sh => le_bytes((value as HalfWord) as int, 2),
        StoreFunction::Sw => le_bytes((value as Word) as int, 4),
        StoreFunction::Sd => le_bytes(value as int, 8),
    }
}

/// The number of bytes that an atomic operation accesses.
pub open spec fn amo_size(funct3: u8) -> u8 {
    1u8 << funct3
}

/// The value that an atomic operation of `size` bytes reads at `address`,
/// zero-extended.
pub open spec fn amo_load(pages: Map<PageIndex, Seq<u8>>, address: Address, size: u8) -> XWord {
    if size == 4 {
        (le_value(load(pages, address, 4)) as Word) as XWord
    } else {
        le_value(load(pages, address, 8)) as DoubleWord
    }
}

/// An operand of an atomic operation of `size` bytes: for four bytes its low 32
/// bits, sign-extended.
pub open spec fn amo_operand(size: u8, value: XWord) -> XWord {
    if size == 4 {
        word(value)
    } else {
        value
    }
}

/// The bytes that an atomic operation of `size` bytes writes.
pub open spec fn amo_bytes(size: u8, value: XWord) -> Seq<u8> {
    if size == 4 {
        le_bytes((value as Word) as int, 4)
    } else {
        le_bytes(value as int, 8)
    }
}

/// The value that an atomic operation other than `LR` and `SC` writes, from the
/// value in memory and the second operand. The minimum and maximum compare as
/// signed, their `U` forms as unsigned.
pub open spec fn spec_amo_value(funct: AmoFunction, mem: XWord, rs2: XWord) -> XWord {
    match funct {
        AmoFunction::Amoswap => rs2,
        AmoFunction::Amoadd => mem.wrapping_add(rs2),
        AmoFunction::Amoxor => mem ^ rs2,
        AmoFunction::Amoand => mem & rs2,
        AmoFunction::Amoor => mem | rs2,
        AmoFunction::Amomin => if signed(rs2) <= signed(mem) {
            rs2
        } else {
            mem
        },
        AmoFunction::Amomax => if signed(rs2) >= signed(mem) {
            rs2
        } else {
            mem
        },
        AmoFunction::Amominu => if rs2 <= mem {
            rs2
        } else {
            mem
        },
        AmoFunction::Amomaxu => if rs2 >= mem {
            rs2
        } else {
            mem
        },
        _ => mem,
    }
}

/// The memory stage that failed before it changed anything.
pub open spec fn rejected(
    register: PipelineRegister,
    pages: Map<PageIndex, Seq<u8>>,
    error: PipelineError,
) -> Accessed {
    Accessed { register, pages, result: Err(error) }
}

/// The memory stage of an atomic operation.
///
/// The width is 4 bytes for `funct3` 2 and 8 bytes for 3; any other is
/// `BadAmoSize`. The address is `rs1_value`; it has to be a multiple of the
/// width, or the stage fails with `UnalignedAmo`.
/// `LR` reads the value and reserves the address. `SC` writes `rs2_value` and
/// reads 0 if the address is reserved, and reads 1 without writing if not;
/// either way no address is reserved afterwards. Every other operation reads
/// the value in memory and writes the value combined with `rs2_value`.
pub open spec fn spec_amo(
    register: PipelineRegister,
    pages: Map<PageIndex, Seq<u8>>,
    funct3: u8,
    funct: AmoFunction,
) -> Accessed {
    let size = amo_size(funct3);
    if funct3 != 2 && funct3 != 3 {
        rejected(register, pages, PipelineError::BadAmoSize(size))
    } else {
        match register.rs1_value {
            None => rejected(register, pages, PipelineError::MissingState("rs1_value")),
            Some(address) => if address % (size as XWord) != 0 {
                rejected(register, pages, PipelineError::UnalignedAmo)
            } else {
                match funct {
                    AmoFunction::Lr => Accessed {
                        register: PipelineRegister {
                            memory: Some(amo_load(pages, address, size)),
                            reservation: Some(address),
                            ..register
                        },
                        pages,
                        result: Ok(()),
                    },
                    AmoFunction::Sc => if register.reservation == Some(address) {
                        match register.rs2_value {
                            None => Accessed {
                                register: PipelineRegister { memory: Some(1), ..register },
                                pages,
                                result: Err(PipelineError::MissingState("rs2_value")),
                            },
                            Some(rs2) => Accessed {
                                register: PipelineRegister {
                                    memory: Some(0),
                                    reservation: None,
                                    ..register
                                },
                                pages: store(pages, address, amo_bytes(size, rs2)),
                                result: Ok(()),
                            },
                        }
                    } else {
                        Accessed {
                            register: PipelineRegister {
                                memory: Some(1),
                                reservation: None,
                                ..register
                            },
                            pages,
                            result: Ok(()),
                        }
                    },
                    _ => match register.rs2_value {
                        None => rejected(register, pages, PipelineError::MissingState("rs2_value")),
                        Some(rs2) => {
                            let mem = amo_operand(size, amo_load(pages, address, size));
                            let value = spec_amo_value(funct, mem, amo_operand(size, rs2));
                            Accessed {
                                register: PipelineRegister { memory: Some(mem), ..register },
                                pages: store(pages, address, amo_bytes(size, value)),
                                result: Ok(()),
                            }
                        },
                    },
                }
            },
        }
    }
}

/// The pipeline register and the pages after the memory stage, with what the
/// stage returns, for a memory that always allocates.
///
/// The stage fails with `MissingState` where the instruction, the result of
/// the execute stage or an operand that it needs is not there. A load reads at
/// the address that the execute stage computed and keeps the value in
/// `memory`; a store writes `rs2_value` there, truncated to its width; an atomic
/// operation is [spec_amo]. Every other instruction passes unchanged.
pub open spec fn spec_mem_access(
    register: PipelineRegister,
    pages: Map<PageIndex, Seq<u8>>,
) -> Accessed {
    match register.instruction {
        None => rejected(register, pages, PipelineError::MissingState("instruction")),
        Some(instruction) => match register.alu_result {
            None => rejected(register, pages, PipelineError::MissingState("alu_result")),
            Some(address) => match instruction {
                Instruction::MemoryLoad(_, funct) => Accessed {
                    register: PipelineRegister {
                        memory: Some(spec_load(funct, pages, address)),
                        ..register
                    },
                    pages,
                    result: Ok(()),
                },
                Instruction::MemoryStore(_, funct) => match register.rs2_value {
                    None => rejected(register, pages, PipelineError::MissingState("rs2_value")),
                    Some(value) => Accessed {
                        register,
                        pages: store(pages, address, spec_store_bytes(funct, value)),
                        result: Ok(()),
                    },
                },
                Instruction::Amo(r_type, funct) => spec_amo(register, pages, r_type.funct3, funct),
                _ => Accessed { register, pages, result: Ok(()) },
            },
        },
    }
}

/// The number of bytes that a load reads.
pub open spec fn load_size(funct: LoadFunction) -> nat {
    match funct {
        LoadFunction::Lb | LoadFunction::Lbu => 1,
        LoadFunction::Lh | LoadFunction::Lhu => 2,
        LoadFunction::Lw | LoadFunction::Lwu => 4,
        LoadFunction::Ld => 8,
    }
}

/// The places of the memory that the memory stage reads or writes, where it
/// does either: the address and the number of bytes. These are the places of
/// a load or a store, and of an atomic operation of 4 or 8 bytes at an aligned
/// address.
pub open spec fn spec_mem_range(register: PipelineRegister) -> Option<(Address, nat)> {
    match (register.instruction, register.alu_result) {
        (Some(Instruction::MemoryLoad(_, funct)), Some(address)) => Some(
            (address, load_size(funct)),
        ),
        (Some(Instruction::MemoryStore(_, funct)), Some(address)) => match register.rs2_value {
            Some(value) => Some((address, spec_store_bytes(funct, value).len())),
            None => None,
        },
        (Some(Instruction::Amo(r_type, _)), Some(_)) => match register.rs1_value {
            Some(address) => if r_type.funct3 == 2 && address % 4 == 0 {
                Some((address, 4nat))
            } else if r_type.funct3 == 3 && address % 8 == 0 {
                Some((address, 8nat))
            } else {
                None
            },
            None => None,
        },
        _ => None,
    }
}

/// Whether the places of an access, where there is one, lie outside the `len`
/// places from the place `start` on.
pub open spec fn keeps_off(range: Option<(Address, nat)>, start: int, len: int) -> bool {
    range matches Some((address, size)) ==> address + size <= start || start + len <= address
}

/// What the memory stage writes, where it writes: the address and the bytes.
///
/// A store writes `rs2_value`, truncated to its width, at the address that the
/// execute stage computed. Of the atomic operations of 4 or 8 bytes at an
/// aligned address, `SC` writes `rs2_value` where its address is reserved, and
/// every operation but `LR` and `SC` writes the combined value. Nothing else
/// writes, nor does a stage that lacks what it needs.
pub open spec fn spec_mem_write(
    register: PipelineRegister,
    pages: Map<PageIndex, Seq<u8>>,
) -> Option<(Address, Seq<u8>)> {
    match (register.instruction, register.alu_result, register.rs2_value) {
        (Some(Instruction::MemoryStore(_, funct)), Some(address), Some(value)) => Some(
            (address, spec_store_bytes(funct, value)),
        ),
        (Some(Instruction::Amo(r_type, funct)), Some(_), Some(rs2)) => {
            let size = amo_size(r_type.funct3);
            let sized = r_type.funct3 == 2 || r_type.funct3 == 3;
            match register.rs1_value {
                Some(address) => if !sized || address % (size as XWord) != 0 || funct is Lr {
                    None
                } else if funct is Sc {
                    if register.reservation == Some(address) {
                        Some((address, amo_bytes(size, rs2)))
                    } else {
                        None
                    }
                } else {
                    let mem = amo_operand(size, amo_load(pages, address, size));
                    let value = spec_amo_value(funct, mem, amo_operand(size, rs2));
                    Some((address, amo_bytes(size, value)))
                },
                None => None,
            }
        },
        _ => None,
    }
}

/// The pipeline register that the memory stage leaves where the memory refuses
/// what the stage writes: a store leaves it as it was, `SC` has read 1 and
/// keeps the reservation, and every other atomic operation has read the value
/// in memory.
pub open spec fn spec_mem_refused(
    register: PipelineRegister,
    pages: Map<PageIndex, Seq<u8>>,
) -> PipelineRegister {
    match (register.instruction, register.rs1_value) {
        (Some(Instruction::Amo(r_type, funct)), Some(address)) => if funct is Sc {
            PipelineRegister { memory: Some(1), ..register }
        } else {
            let size = amo_size(r_type.funct3);
            PipelineRegister {
                memory: Some(amo_operand(size, amo_load(pages, address, size))),
                ..register
            }
        },
        _ => register,
    }
}

/// The memory stage leaves the memory as it was where it writes nothing, and
/// where it writes, it returns without an error and leaves the memory with
/// the bytes stored.
pub proof fn lemma_mem_access_writes(register: PipelineRegister, pages: Map<PageIndex, Seq<u8>>)
    ensures
        match spec_mem_write(register, pages) {
            Some((address, bytes)) => spec_mem_access(register, pages).result is Ok
                && spec_mem_access(register, pages).pages == store(pages, address, bytes),
            None => spec_mem_access(register, pages).pages == pages,
        },
{
}

/// Whether the pipeline register is about to run the memory stage of the atomic
/// operation `funct` with the width field `funct3`, for 4 or 8 bytes, at the
/// aligned address `address`.
pub open spec fn runs_amo(
    register: PipelineRegister,
    funct: AmoFunction,
    funct3: u8,
    address: Address,
) -> bool {
    &&& register.instruction matches Some(Instruction::Amo(r_type, f))
    &&& f == funct
    &&& r_type.funct3 == funct3
    &&& (funct3 == 2 || funct3 == 3)
    &&& register.alu_result is Some
    &&& register.rs1_value == Some(address)
    &&& address % (amo_size(funct3) as XWord) == 0
}

/// `LR` succeeds and reserves its address, whatever was reserved before. It
/// leaves the memory as it is.
pub proof fn lemma_lr_reserves(
    register: PipelineRegister,
    pages: Map<PageIndex, Seq<u8>>,
    funct3: u8,
    address: Address,
)
    requires
        runs_amo(register, AmoFunction::Lr, funct3, address),
    ensures
        spec_mem_access(register, pages).result is Ok,
        spec_mem_access(register, pages).register.reservation == Some(address),
        spec_mem_access(register, pages).register.memory == Some(
            amo_load(pages, address, amo_size(funct3)),
        ),
        spec_mem_access(register, pages).pages == pages,
{
}

/// `SC` at the address that is reserved succeeds: it reads 0, writes its operand
/// to memory, and gives the reservation up. Afterwards the memory holds the
/// low bytes of the operand at the address, little-endian, and at every other
/// place the byte that was there before.
pub proof fn lemma_sc_at_reserved_address(
    register: PipelineRegister,
    pages: Map<PageIndex, Seq<u8>>,
    funct3: u8,
    address: Address,
    value: XWord,
)
    requires
        runs_amo(register, AmoFunction::Sc, funct3, address),
        register.reservation == Some(address),
        register.rs2_value == Some(value),
    ensures
        spec_mem_access(register, pages).result is Ok,
        spec_mem_access(register, pages).register.memory == Some(0u64),
        spec_mem_access(register, pages).register.reservation is None,
        spec_mem_access(register, pages).pages == store(
            pages,
            address,
            amo_bytes(amo_size(funct3), value),
        ),
        amo_load(spec_mem_access(register, pages).pages, address, amo_size(funct3)) == (if funct3
            == 2 {
            (value as Word) as XWord
        } else {
            value
        }),
        forall|page: PageIndex, offset: int|
            0 <= offset < 4096 && !(address <= page * 4096 + offset < address + amo_size(funct3))
                ==> #[trigger] page_or_zero(spec_mem_access(register, pages).pages, page)[offset]
                == page_or_zero(pages, page)[offset],
{
    lemma_amo_size(funct3);
    let bytes = amo_bytes(amo_size(funct3), value);
    let after = store(pages, address, bytes);
    if funct3 == 2 {
        lemma_word_after_store(pages, address, value as Word);
    } else {
        lemma_doubleword_after_store(pages, address, value);
    }
    assert forall|page: PageIndex, offset: int|
        0 <= offset < 4096 && !(address <= page * 4096 + offset < address + amo_size(
            funct3,
        )) implies #[trigger] page_or_zero(after, page)[offset] == page_or_zero(
        pages,
        page,
    )[offset] by {
        lemma_store_bytes(pages, address, bytes, page, offset);
    }
}

/// `SC` at an address other than the reserved one, or with nothing reserved,
/// fails: it reads 1, leaves the memory as it is, and gives the reservation up.
pub proof fn lemma_sc_at_other_address(
    register: PipelineRegister,
    pages: Map<PageIndex, Seq<u8>>,
    funct3: u8,
    address: Address,
)
    requires
        runs_amo(register, AmoFunction::Sc, funct3, address),
        register.reservation != Some(address),
    ensures
        spec_mem_access(register, pages).result is Ok,
        spec_mem_access(register, pages).register.memory == Some(1u64),
        spec_mem_access(register, pages).register.reservation is None,
        spec_mem_access(register, pages).pages == pages,
{
}

/// `LR` at an address followed by `SC` at the same address succeeds and writes
/// memory; with an `LR` at another address in between, the `SC` fails.
///
/// `lr` is the pipeline register before the memory stage of the `LR`, `between`
/// the one before the memory stage of an `LR` at another address, and `sc` the
/// one before the memory stage of the `SC`. Where `sc` holds the reservation
/// that `lr` left, the `SC` succeeds; where it holds the one that `between`
/// left, it fails. The writeback stage and the advance at the end of a cycle
/// keep the reservation.
pub proof fn lemma_lr_then_sc(
    lr: PipelineRegister,
    between: PipelineRegister,
    sc: PipelineRegister,
    pages: Map<PageIndex, Seq<u8>>,
    later: Map<PageIndex, Seq<u8>>,
    funct3: u8,
    address: Address,
    other: Address,
    value: XWord,
)
    requires
        runs_amo(lr, AmoFunction::Lr, funct3, address),
        runs_amo(between, AmoFunction::Lr, funct3, other),
        other != address,
        runs_amo(sc, AmoFunction::Sc, funct3, address),
        sc.rs2_value == Some(value),
    ensures
        spec_writeback(spec_mem_access(lr, pages).register).spec_advance().reservation
            == spec_mem_access(lr, pages).register.reservation,
        sc.reservation == spec_mem_access(lr, pages).register.reservation ==> {
            &&& spec_mem_access(sc, later).result is Ok
            &&& spec_mem_access(sc, later).register.memory == Some(0u64)
            &&& spec_mem_access(sc, later).pages == store(
                later,
                address,
                amo_bytes(amo_size(funct3), value),
            )
        },
        sc.reservation == spec_mem_access(between, pages).register.reservation ==> {
            &&& spec_mem_access(sc, later).result is Ok
            &&& spec_mem_access(sc, later).register.memory == Some(1u64)
            &&& spec_mem_access(sc, later).pages == later
        },
{
    lemma_lr_reserves(lr, pages, funct3, address);
    lemma_lr_reserves(between, pages, funct3, other);
    if sc.reservation == Some(address) {
        lemma_sc_at_reserved_address(sc, later, funct3, address, value);
    } else {
        lemma_sc_at_other_address(sc, later, funct3, address);
    }
}

/// The width fields 2 and 3 stand for 4 and 8 bytes.
pub(crate) proof fn lemma_amo_size(funct3: u8)
    by (bit_vector)
    requires
        funct3 < 8,
    ensures
        funct3 == 2 ==> 1u8 << funct3 == 4,
        funct3 == 3 ==> 1u8 << funct3 == 8,
{
}

/// Reads the value of an atomic operation of 4 or 8 bytes.
fn amo_read<M: Memory>(memory: &M, address: Address, size: u8) -> (r: PipelineResult<XWord>)
    ensures
        r == Ok::<XWord, PipelineError>(amo_load(memory.pages(), address, size)),
{
    if size == 4 {
        match memory.get_word(address) {
            Ok(value) => Ok(value as XWord),
            Err(e) => Err(PipelineError::MemoryError(e)),
        }
    } else {
        match memory.get_doubleword(address) {
            Ok(value) => Ok(value),
            Err(e) => Err(PipelineError::MemoryError(e)),
        }
    }
}

/// Writes the value of an atomic operation of 4 or 8 bytes.
fn amo_write<M: Memory>(memory: &mut M, address: Address, size: u8, value: XWord) -> (r:
    PipelineResult<()>)
    ensures
        M::always_allocates() ==> r is Ok,
        r is Ok ==> final(memory).pages() == store(
            old(memory).pages(),
            address,
            amo_bytes(size, value),
        ),
        r is Err ==> r matches Err(PipelineError::MemoryError(_)),
        r is Err ==> refused(
            old(memory).pages(),
            final(memory).pages(),
            address,
            amo_bytes(size, value),
        ),
{
    let written = if size == 4 {
        memory.set_word(address, value as Word)
    } else {
        memory.set_doubleword(address, value)
    };
    match written {
        Ok(()) => Ok(()),
        Err(e) => Err(PipelineError::MemoryError(e)),
    }
}

/// The value that an atomic operation other than `LR` and `SC` writes.
fn amo_value(funct: AmoFunction, mem: XWord, rs2: XWord) -> (r: XWord)
    ensures
        r == spec_amo_value(funct, mem, rs2),
{
    match funct {
        AmoFunction::Amoswap => rs2,
        AmoFunction::Amoadd => mem.wrapping_add(rs2),
        AmoFunction::Amoxor => mem ^ rs2,
        AmoFunction::Amoand => mem & rs2,
        AmoFunction::Amoor => mem | rs2,
        AmoFunction::Amomin => if at_most_signed(rs2, mem) {
            rs2
        } else {
            mem
        },
        AmoFunction::Amomax => if at_most_signed(mem, rs2) {
            rs2
        } else {
            mem
        },
        AmoFunction::Amominu => if rs2 <= mem {
            rs2
        } else {
            mem
        },
        AmoFunction::Amomaxu => if rs2 >= mem {
            rs2
        } else {
            mem
        },
        _ => mem,
    }
}

/// Whether `a` is at most `b` where both are read as signed.
fn at_most_signed(a: XWord, b: XWord) -> (r: bool)
    ensures
        r == (signed(a) <= signed(b)),
{
    let a_negative = a >= 0x8000_0000_0000_0000;
    let b_negative = b >= 0x8000_0000_0000_0000;
    if a_negative == b_negative {
        a <= b
    } else {
        a_negative
    }
}

/// Loads the value of a load instruction.
fn load_value<M: Memory>(memory: &M, funct: LoadFunction, address: Address) -> (r: PipelineResult<
    XWord,
>)
    ensures
        r == Ok::<XWord, PipelineError>(spec_load(funct, memory.pages(), address)),
{
    let loaded = match funct {
        LoadFunction::Lb => match memory.get_byte(address) {
            Ok(value) => Ok(sign_extend(value as XWord, 7)),
            Err(e) => Err(e),
        },
        LoadFunction::Lbu => match memory.get_byte(address) {
            Ok(value) => Ok(value as XWord),
            Err(e) => Err(e),
        },
        LoadFunction::Lh => match memory.get_halfword(address) {
            Ok(value) => Ok(sign_extend(value as XWord, 15)),
            Err(e) => Err(e),
        },
        LoadFunction::Lhu => match memory.get_halfword(address) {
            Ok(value) => Ok(value as XWord),
            Err(e) => Err(e),
        },
        LoadFunction::Lw => match memory.get_word(address) {
            Ok(value) => Ok(sign_extend(value as XWord, 31)),
            Err(e) => Err(e),
        },
        LoadFunction::Lwu => match memory.get_word(address) {
            Ok(value) => Ok(value as XWord),
            Err(e) => Err(e),
        },
        LoadFunction::Ld => memory.get_doubleword(address),
    };
    match loaded {
        Ok(value) => Ok(value),
        Err(e) => Err(PipelineError::MemoryError(e)),
    }
}

/// Stores the value of a store instruction.
fn store_value<M: Memory>(
    memory: &mut M,
    funct: StoreFunction,
    address: Address,
    value: XWord,
) -> (r: PipelineResult<()>)
    ensures
        M::always_allocates() ==> r is Ok,
        r is Ok ==> final(memory).pages() == store(
            old(memory).pages(),
            address,
            spec_store_bytes(funct, value),
        ),
        r is Err ==> r matches Err(PipelineError::MemoryError(_)),
        r is Err ==> refused(
            old(memory).pages(),
            final(memory).pages(),
            address,
            spec_store_bytes(funct, value),
        ),
{
    let stored = match funct {
        StoreFunction::Sb => memory.set_byte(address, value as Byte),
        StoreFunction::Sh => memory.set_halfword(address, value as HalfWord),
        StoreFunction::Sw => memory.set_word(address, value as Word),
        StoreFunction::Sd => memory.set_doubleword(address, value),
    };
    match stored {
        Ok(()) => Ok(()),
        Err(e) => Err(PipelineError::MemoryError(e)),
    }
}

/// Execute the Memory pipeline stage.
///
/// The stage fails with a memory error only where it writes and the memory
/// refuses a page for the write; a memory that always allocates never does.
/// Then the memory is left as the refused write leaves it, and the pipeline
/// register as [spec_mem_refused] says. In every other case, and so wherever
/// the stage writes nothing, it does what [spec_mem_access] says.
pub fn mem_access<M: Memory>(p_reg: &mut PipelineRegister, memory: &mut M) -> (r: PipelineResult<
    (),
>)
    requires
        old(p_reg).instruction matches Some(instruction) ==> instruction.wf(),
    ensures
        r matches Err(PipelineError::MemoryError(_)) ==> {
            &&& !M::always_allocates()
            &&& spec_mem_access(*old(p_reg), old(memory).pages()).pages != old(memory).pages()
            &&& spec_mem_write(*old(p_reg), old(memory).pages()) matches Some((address, bytes))
            &&& refused(old(memory).pages(), final(memory).pages(), address, bytes)
            &&& *final(p_reg) == spec_mem_refused(*old(p_reg), old(memory).pages())
        },
        !(r matches Err(PipelineError::MemoryError(_))) ==> {
            &&& *final(p_reg) == spec_mem_access(*old(p_reg), old(memory).pages()).register
            &&& final(memory).pages() == spec_mem_access(*old(p_reg), old(memory).pages()).pages
            &&& r == spec_mem_access(*old(p_reg), old(memory).pages()).result
        },
        final(p_reg).rd == old(p_reg).rd,
        final(p_reg).registers == old(p_reg).registers,
{
    proof {
        lemma_mem_access_writes(*old(p_reg), old(memory).pages());
    }
    let instruction = match p_reg.instruction {
        Some(instruction) => instruction,
        None => {
            return Err(PipelineError::MissingState("instruction"));
        },
    };
    let effective_address = match p_reg.alu_result {
        Some(address) => address,
        None => {
            return Err(PipelineError::MissingState("alu_result"));
        },
    };

    match instruction {
        Instruction::MemoryLoad(_, funct) => {
            // Load the value from memory.
            let value = load_value(memory, funct, effective_address)?;
            p_reg.memory = Some(value);
        },
        Instruction::MemoryStore(_, funct) => {
            // Store the value to memory.
            let value = match p_reg.rs2_value {
                Some(value) => value,
                None => {
                    return Err(PipelineError::MissingState("rs2_value"));
                },
            };
            let stored = store_value(memory, funct, effective_address, value);
            proof {
                if stored is Err {
                    lemma_refused_would_map(
                        old(memory).pages(),
                        memory.pages(),
                        effective_address,
                        spec_store_bytes(funct, value),
                    );
                }
            }
            stored?;
        },
        Instruction::Amo(r_type, funct) => {
            // Perform atomic memory operation.
            let size: u8 = 1u8 << r_type.funct3;
            proof {
                lemma_amo_size(r_type.funct3);
            }
            if r_type.funct3 != 2 && r_type.funct3 != 3 {
                return Err(PipelineError::BadAmoSize(size));
            }
            let addr = match p_reg.rs1_value {
                Some(addr) => addr,
                None => {
                    return Err(PipelineError::MissingState("rs1_value"));
                },
            };
            if addr % (size as XWord) != 0 {
                return Err(PipelineError::UnalignedAmo);
            }
            match funct {
                AmoFunction::Lr => {
                    let value = amo_read(memory, addr, size)?;
                    p_reg.memory = Some(value);
                    p_reg.reservation = Some(addr);
                },
                AmoFunction::Sc => {
                    p_reg.memory = Some(1);
                    if let Some(reservation) = p_reg.reservation {
                        if reservation == addr {
                            let rs2 = match p_reg.rs2_value {
                                Some(rs2) => rs2,
                                None => {
                                    return Err(PipelineError::MissingState("rs2_value"));
                                },
                            };
                            let written = amo_write(memory, addr, size, rs2);
                            proof {
                                if written is Err {
                                    lemma_refused_would_map(
                                        old(memory).pages(),
                                        memory.pages(),
                                        addr,
                                        amo_bytes(size, rs2),
                                    );
                                }
                            }
                            written?;
                            p_reg.memory = Some(0);
                        }
                    }
                    p_reg.reservation = None;
                },
                _ => {
                    let rs2 = match p_reg.rs2_value {
                        Some(rs2) => rs2,
                        None => {
                            return Err(PipelineError::MissingState("rs2_value"));
                        },
                    };
                    let loaded = amo_read(memory, addr, size)?;
                    let (mem, rs2) = if size == 4 {
                        (
                            sign_extend(loaded & 0xFFFF_FFFF, 31),
                            sign_extend(rs2 & 0xFFFF_FFFF, 31),
                        )
                    } else {
                        (loaded, rs2)
                    };
                    p_reg.memory = Some(mem);
                    let value = amo_value(funct, mem, rs2);
                    let written = amo_write(memory, addr, size, value);
                    proof {
                        if written is Err {
                            lemma_refused_would_map(
                                old(memory).pages(),
                                memory.pages(),
                                addr,
                                amo_bytes(size, value),
                            );
                        }
                    }
                    written?;
                },
            }
        },
        _ => {  /* no-op */
        },
    }

    Ok(())
}

} // verus!
