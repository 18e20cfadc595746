//! The memory bus interface and its model.

use vstd::prelude::*;
use vstd::slice::slice_subrange;
use crate::arch::{Byte, DoubleWord, HalfWord, Word, XWord};
use crate::memory::errors::{MemoryError, MemoryResult};
use crate::memory::page::{zero_page, Page, PageIndex};

verus! {

/// Type alias for a memory address.
pub type Address = XWord;

/// The index of the page that holds `address`: the address without its low 12
/// bits.
pub open spec fn page_index_of(address: Address) -> PageIndex {
    address / 4096
}

/// The offset of `address` within its page: its low 12 bits.
pub open spec fn page_offset_of(address: Address) -> int {
    address as int % 4096
}

/// The page with the given index, where a page that is not mapped reads as zeros.
pub open spec fn page_or_zero(pages: Map<PageIndex, Seq<u8>>, index: PageIndex) -> Seq<u8> {
    if pages.contains_key(index) {
        pages[index]
    } else {
        zero_page()
    }
}

/// The byte that lies `i` bytes after `address`. An access that runs past the
/// end of its page goes on at the start of the page with the next index.
pub open spec fn byte_at(pages: Map<PageIndex, Seq<u8>>, address: Address, i: int) -> u8 {
    let position = page_offset_of(address) + i;
    page_or_zero(pages, (page_index_of(address) + position / 4096) as PageIndex)[position % 4096]
}

/// The `len` bytes from `address` on.
pub open spec fn load(pages: Map<PageIndex, Seq<u8>>, address: Address, len: nat) -> Seq<u8> {
    Seq::new(len, |i: int| byte_at(pages, address, i))
}

/// The 4096 bytes of `page` with `bytes` written from `offset` on.
pub open spec fn patch(page: Seq<u8>, offset: int, bytes: Seq<u8>) -> Seq<u8> {
    Seq::new(
        4096,
        |i: int|
            if offset <= i < offset + bytes.len() {
                bytes[i - offset]
            } else {
                page[i]
            },
    )
}

/// The number of bytes of an access of `len` bytes at `address` that lie in the
/// page of `address`.
pub open spec fn first_part(address: Address, len: int) -> int {
    if len <= 4096 - page_offset_of(address) {
        len
    } else {
        4096 - page_offset_of(address)
    }
}

/// The pages after the part of `bytes` that lies in the page of `address` was
/// written there. The page is mapped afterwards.
pub open spec fn store_first(
    pages: Map<PageIndex, Seq<u8>>,
    address: Address,
    bytes: Seq<u8>,
) -> Map<PageIndex, Seq<u8>> {
    let index = page_index_of(address);
    pages.insert(
        index,
        patch(
            page_or_zero(pages, index),
            page_offset_of(address),
            bytes.subrange(0, first_part(address, bytes.len() as int)),
        ),
    )
}

/// The pages after `bytes`, at most a page of them, were written from `address`
/// on: what fits goes to the page of `address`, the rest to the start of the page
/// with the next index. Every page written to is mapped afterwards.
pub open spec fn store(
    pages: Map<PageIndex, Seq<u8>>,
    address: Address,
    bytes: Seq<u8>,
) -> Map<PageIndex, Seq<u8>> {
    let first = first_part(address, bytes.len() as int);
    let pages_one = store_first(pages, address, bytes);
    if first < bytes.len() {
        let next = (page_index_of(address) + 1) as PageIndex;
        pages_one.insert(
            next,
            patch(page_or_zero(pages_one, next), 0, bytes.subrange(first, bytes.len() as int)),
        )
    } else {
        pages_one
    }
}

/// The weight of byte `i` of a little-endian scalar: 256 to the power `i`.
pub open spec fn place(i: int) -> int {
    if i == 0 {
        0x1
    } else if i == 1 {
        0x100
    } else if i == 2 {
        0x1_0000
    } else if i == 3 {
        0x100_0000
    } else if i == 4 {
        0x1_0000_0000
    } else if i == 5 {
        0x100_0000_0000
    } else if i == 6 {
        0x1_0000_0000_0000
    } else if i == 7 {
        0x100_0000_0000_0000
    } else {
        0x1_0000_0000_0000_0000
    }
}

/// The `len` bytes of `value` in little-endian order, for `len` up to 8.
pub open spec fn le_bytes(value: int, len: nat) -> Seq<u8> {
    Seq::new(len, |i: int| ((value / place(i)) % 256) as u8)
}

/// The value that up to 8 bytes in little-endian order stand for.
pub open spec fn le_value(bytes: Seq<u8>) -> int
    decreases bytes.len(),
{
    if bytes.len() == 0 {
        0
    } else {
        bytes[0] + 256 * le_value(bytes.drop_first())
    }
}

/// The bytes of `value` in little-endian order.
fn le_array(value: u64) -> (dat: [u8; 8])
    ensures
        dat@ == le_bytes(value as int, 8),
{
    let dat: [u8; 8] = [
        (value % 256) as u8,
        ((value / 0x100) % 256) as u8,
        ((value / 0x1_0000) % 256) as u8,
        ((value / 0x100_0000) % 256) as u8,
        ((value / 0x1_0000_0000) % 256) as u8,
        ((value / 0x100_0000_0000) % 256) as u8,
        ((value / 0x1_0000_0000_0000) % 256) as u8,
        ((value / 0x100_0000_0000_0000) % 256) as u8,
    ];
    assert(dat@ =~= le_bytes(value as int, 8));
    dat
}

/// The value of up to eight little-endian bytes stays below 256 to the power of
/// their number: a halfword, word or doubleword that is read fits its type.
pub proof fn lemma_le_value_bound(bytes: Seq<u8>)
    requires
        bytes.len() <= 8,
    ensures
        0 <= le_value(bytes) < place(bytes.len() as int),
    decreases bytes.len(),
{
    if bytes.len() > 0 {
        lemma_le_value_bound(bytes.drop_first());
    }
}

/// The bytes of a value after its first are the bytes of the value without its
/// low eight bits.
proof fn lemma_le_bytes_rest(value: int, len: nat)
    requires
        1 <= len <= 8,
        0 <= value,
    ensures
        le_bytes(value, len).drop_first() == le_bytes(value / 256, (len - 1) as nat),
{
    assert forall|i: int| 0 <= i < len - 1 implies value / place(i + 1) == (value / 256)
        / #[trigger] place(i) by {
        vstd::arithmetic::div_mod::lemma_div_denominator(value, 256, place(i));
        assert(256 * place(i) == place(i + 1));
    }
    assert(le_bytes(value, len).drop_first() =~= le_bytes(value / 256, (len - 1) as nat));
}

/// Reading back the little-endian bytes of a value that fits them gives the value.
pub proof fn lemma_le_value_of_bytes(value: int, len: nat)
    requires
        len <= 8,
        0 <= value < place(len as int),
    ensures
        le_value(le_bytes(value, len)) == value,
    decreases len,
{
    if len > 0 {
        lemma_le_bytes_rest(value, len);
        lemma_le_value_of_bytes(value / 256, (len - 1) as nat);
    }
}

/// Writes `data` into `page` from `offset` on.
fn copy_to_page(page: &mut Page, offset: usize, data: &[u8])
    requires
        offset + data@.len() <= 4096,
    ensures
        final(page)@ == patch(old(page)@, offset as int, data@),
{
    let mut i: usize = 0;
    while i < data.len()
        invariant
            i <= data@.len(),
            offset + data@.len() <= 4096,
            page@ == patch(old(page)@, offset as int, data@.subrange(0, i as int)),
        decreases data@.len() - i,
    {
        page[offset + i] = data[i];
        i += 1;
        assert(page@ =~= patch(old(page)@, offset as int, data@.subrange(0, i as int)));
    }
    assert(data@.subrange(0, i as int) =~= data@);
}

/// The bytes of an access of `len` bytes at `offset` of the page `one`, which goes
/// on at the start of the page `two`.
pub open spec fn straddle(one: Seq<u8>, two: Seq<u8>, offset: int, len: nat) -> Seq<u8> {
    Seq::new(
        len,
        |i: int|
            if offset + i < 4096 {
                one[offset + i]
            } else {
                two[offset + i - 4096]
            },
    )
}

/// The contents of a page that was looked up, zeros where there is none.
pub open spec fn found_or_zero(page: Option<&Page>) -> Seq<u8> {
    match page {
        Some(page) => page@,
        None => zero_page(),
    }
}

/// An access of up to a page reads the page of its address and the one after.
pub proof fn lemma_load_straddles(pages: Map<PageIndex, Seq<u8>>, address: Address, len: nat)
    requires
        len <= 4096,
    ensures
        load(pages, address, len) == straddle(
            page_or_zero(pages, page_index_of(address)),
            page_or_zero(pages, (page_index_of(address) + 1) as PageIndex),
            page_offset_of(address),
            len,
        ),
{
    assert(load(pages, address, len) =~= straddle(
        page_or_zero(pages, page_index_of(address)),
        page_or_zero(pages, (page_index_of(address) + 1) as PageIndex),
        page_offset_of(address),
        len,
    ));
}

/// Reads the little-endian scalar of `len` bytes that starts at `page_address` of
/// the first page and runs on into the second.
fn gather(
    page_one: Option<&Page>,
    page_two: Option<&Page>,
    page_address: usize,
    len: usize,
) -> (value: u64)
    requires
        1 <= len <= 8,
        page_address < 4096,
    ensures
        value == le_value(
            straddle(
                found_or_zero(page_one),
                found_or_zero(page_two),
                page_address as int,
                len as nat,
            ),
        ),
{
    let ghost bytes = straddle(
        found_or_zero(page_one),
        found_or_zero(page_two),
        page_address as int,
        len as nat,
    );
    let mut value: u64 = 0;
    let mut i: usize = len;
    assert(bytes.subrange(len as int, len as int) =~= Seq::<u8>::empty());
    while i > 0
        invariant
            i <= len <= 8,
            page_address < 4096,
            bytes == straddle(
                found_or_zero(page_one),
                found_or_zero(page_two),
                page_address as int,
                len as nat,
            ),
            value == le_value(bytes.subrange(i as int, len as int)),
            value < place(len - i),
        decreases i,
    {
        i -= 1;
        let byte: u8 = if page_address + i < 4096 {
            match page_one {
                Some(page) => page[page_address + i],
                None => 0,
            }
        } else {
            match page_two {
                Some(page) => page[page_address + i - 4096],
                None => 0,
            }
        };
        proof {
            assert(byte == bytes[i as int]);
            assert(bytes.subrange(i as int, len as int).drop_first() =~= bytes.subrange(
                i + 1,
                len as int,
            ));
        }
        value = value * 256 + byte as u64;
    }
    assert(bytes.subrange(0, len as int) =~= bytes);
    value
}

/// What a write of `bytes`, at most a page of them, at `address` leaves where the
/// memory refuses a page: either the page of the address is not mapped and
/// nothing has changed, or the write runs on into the next page, which is not
/// mapped, and the part in the page of the address is written.
pub open spec fn refused(
    before: Map<PageIndex, Seq<u8>>,
    after: Map<PageIndex, Seq<u8>>,
    address: Address,
    bytes: Seq<u8>,
) -> bool {
    let index = page_index_of(address);
    let next = (index + 1) as PageIndex;
    ||| !before.contains_key(index) && after == before
    ||| {
        &&& first_part(address, bytes.len() as int) < bytes.len()
        &&& !before.contains_key(next)
        &&& after == store_first(before, address, bytes)
    }
}

/// A write that the memory refuses would have mapped a page: the pages that the
/// whole write leaves are not the pages before it.
pub proof fn lemma_refused_would_map(
    before: Map<PageIndex, Seq<u8>>,
    after: Map<PageIndex, Seq<u8>>,
    address: Address,
    bytes: Seq<u8>,
)
    requires
        refused(before, after, address, bytes),
    ensures
        store(before, address, bytes) != before,
{
    let index = page_index_of(address);
    let next = (index + 1) as PageIndex;
    let written = store(before, address, bytes);
    assert(written.contains_key(index));
    if first_part(address, bytes.len() as int) < bytes.len() {
        assert(written.contains_key(next));
    }
}

/// The pages after `bytes` were written from `address` on, a page at a time:
/// what fits goes to the page of `address`, and the rest is written in the same
/// way from the start of the next page on.
pub open spec fn store_range(
    pages: Map<PageIndex, Seq<u8>>,
    address: Address,
    bytes: Seq<u8>,
) -> Map<PageIndex, Seq<u8>>
    decreases bytes.len(),
{
    if bytes.len() == 0 {
        pages
    } else {
        let first = first_part(address, bytes.len() as int);
        store_range(
            store_first(pages, address, bytes),
            (address + first) as Address,
            bytes.subrange(first, bytes.len() as int),
        )
    }
}

/// What a write of a range leaves where the memory refuses a page: the first
/// `written` bytes are written, and the page of the byte after them is not
/// mapped.
pub open spec fn refused_after(
    before: Map<PageIndex, Seq<u8>>,
    after: Map<PageIndex, Seq<u8>>,
    address: Address,
    bytes: Seq<u8>,
    written: int,
) -> bool {
    &&& 0 <= written < bytes.len()
    &&& after == store_range(before, address, bytes.subrange(0, written))
    &&& !after.contains_key(page_index_of((address + written) as Address))
}

/// Writing a range and then, behind it, bytes that stay within one page is
/// writing the range with the bytes appended.
proof fn lemma_store_range_append(
    pages: Map<PageIndex, Seq<u8>>,
    address: Address,
    prefix: Seq<u8>,
    chunk: Seq<u8>,
)
    requires
        address + prefix.len() + chunk.len() <= u64::MAX,
        0 < chunk.len() <= 4096 - page_offset_of((address + prefix.len()) as Address),
    ensures
        store_range(pages, address, prefix + chunk) == store_first(
            store_range(pages, address, prefix),
            (address + prefix.len()) as Address,
            chunk,
        ),
    decreases prefix.len(),
{
    let whole = prefix + chunk;
    let first = first_part(address, whole.len() as int);
    let index = page_index_of(address);
    let offset = page_offset_of(address);
    reveal_with_fuel(store_range, 3);
    if prefix.len() == 0 {
        assert(whole =~= chunk);
        assert(chunk.subrange(first, chunk.len() as int).len() == 0);
    } else if first <= prefix.len() {
        let one = store_first(pages, address, prefix);
        let rest = prefix.subrange(first, prefix.len() as int);
        assert(whole.subrange(0, first) =~= prefix.subrange(0, first));
        assert(store_first(pages, address, whole) == one);
        assert(whole.subrange(first, whole.len() as int) =~= rest + chunk);
        lemma_store_range_append(one, (address + first) as Address, rest, chunk);
    } else {
        let behind = (address + prefix.len()) as Address;
        assert(page_index_of(behind) == index);
        assert(page_offset_of(behind) == offset + prefix.len());
        assert(whole.subrange(0, first) =~= whole);
        assert(prefix.subrange(0, prefix.len() as int) =~= prefix);
        assert(whole.subrange(first, whole.len() as int).len() == 0);
        assert(prefix.subrange(prefix.len() as int, prefix.len() as int).len() == 0);
        assert(chunk.subrange(0, chunk.len() as int) =~= chunk);
        let one = store_first(pages, address, prefix);
        assert(store_range(pages, address, prefix) == one);
        assert(patch(page_or_zero(one, index), offset + prefix.len(), chunk) =~= patch(
            page_or_zero(pages, index),
            offset,
            whole,
        ));
        assert(store_first(one, behind, chunk) =~= store_first(pages, address, whole));
    }
}

/// Whether the pages of the first `len` bytes from `address` on are all mapped.
pub open spec fn mapped_through(
    pages: Map<PageIndex, Seq<u8>>,
    address: Address,
    len: int,
) -> bool {
    forall|i: int|
        0 <= i < len ==> pages.contains_key(#[trigger] page_index_of((address + i) as Address))
}

/// Appends `count` bytes of `page` from `offset` on to `data`.
fn append_from_page(data: &mut Vec<u8>, page: &Page, offset: usize, count: usize)
    requires
        offset + count <= 4096,
    ensures
        final(data)@ == old(data)@ + page@.subrange(offset as int, offset + count),
{
    let mut i: usize = 0;
    while i < count
        invariant
            i <= count,
            offset + count <= 4096,
            data@ == old(data)@ + page@.subrange(offset as int, offset + i),
        decreases count - i,
    {
        data.push(page[offset + i]);
        i += 1;
        assert(data@ =~= old(data)@ + page@.subrange(offset as int, offset + i));
    }
}

/// The bytes written by an access of up to a page are the bytes read back from
/// its address, also where the access runs across the end of a page.
pub proof fn lemma_load_after_store(
    pages: Map<PageIndex, Seq<u8>>,
    address: Address,
    bytes: Seq<u8>,
)
    requires
        bytes.len() <= 4096,
    ensures
        load(store(pages, address, bytes), address, bytes.len()) == bytes,
{
    let after = store(pages, address, bytes);
    let pages_one = store_first(pages, address, bytes);
    let index = page_index_of(address);
    let next = (index + 1) as PageIndex;
    let offset = page_offset_of(address);
    let first = first_part(address, bytes.len() as int);
    assert forall|i: int| 0 <= i < bytes.len() implies byte_at(after, address, i) == bytes[i] by {
        if i < first {
            assert((offset + i) / 4096 == 0);
            assert((offset + i) % 4096 == offset + i);
            assert(after[index] == pages_one[index]);
            assert(pages_one[index][offset + i] == bytes.subrange(0, first)[i]);
        } else {
            assert((offset + i) / 4096 == 1);
            assert((offset + i) % 4096 == i - first);
            assert(after[next][i - first] == bytes.subrange(first, bytes.len() as int)[i - first]);
        }
    }
    assert(load(after, address, bytes.len()) =~= bytes);
}

/// What a write of at most a page of bytes leaves at every place of the memory:
/// the byte of the page with the index `page` at `offset` is the byte written
/// there, if the place lies among the `bytes.len()` places from `address` on,
/// and the byte that was there before, if not.
pub proof fn lemma_store_bytes(
    pages: Map<PageIndex, Seq<u8>>,
    address: Address,
    bytes: Seq<u8>,
    page: PageIndex,
    offset: int,
)
    requires
        bytes.len() <= 4096,
        0 <= offset < 4096,
    ensures
        ({
            let k = page * 4096 + offset - address;
            page_or_zero(store(pages, address, bytes), page)[offset] == if 0 <= k < bytes.len() {
                bytes[k]
            } else {
                page_or_zero(pages, page)[offset]
            }
        }),
{
    let index = page_index_of(address);
    let next = (index + 1) as PageIndex;
    let start = page_offset_of(address);
    let first = first_part(address, bytes.len() as int);
    let pages_one = store_first(pages, address, bytes);
    let k = page * 4096 + offset - address;
    assert(address == index * 4096 + start);
    if page == index {
        assert(k == offset - start);
        if 0 <= k < first {
            assert(bytes.subrange(0, first)[k] == bytes[k]);
        }
    } else if page == next {
        assert(k == 4096 - start + offset);
        if first < bytes.len() && k < bytes.len() {
            assert(bytes.subrange(first, bytes.len() as int)[offset] == bytes[k]);
        }
    }
}

/// Whether two memories hold the same byte at every place but the `len` places
/// from the place `start` on, where a place is counted from the start of the
/// page with the index 0.
pub open spec fn agree_outside(
    one: Map<PageIndex, Seq<u8>>,
    two: Map<PageIndex, Seq<u8>>,
    start: int,
    len: int,
) -> bool {
    forall|page: PageIndex, offset: int|
        0 <= offset < 4096 && !(start <= page * 4096 + offset < start + len) ==> #[trigger]
        page_or_zero(one, page)[offset] == page_or_zero(two, page)[offset]
}

/// Two memories that agree outside some places are read alike where the read
/// keeps off these places.
pub proof fn lemma_load_agrees(
    one: Map<PageIndex, Seq<u8>>,
    two: Map<PageIndex, Seq<u8>>,
    start: int,
    len: int,
    address: Address,
    size: nat,
)
    requires
        agree_outside(one, two, start, len),
        size <= 4096,
        address + size <= start || start + len <= address,
    ensures
        load(one, address, size) == load(two, address, size),
{
    assert forall|i: int| 0 <= i < size implies byte_at(one, address, i) == byte_at(
        two,
        address,
        i,
    ) by {
        let position = page_offset_of(address) + i;
        let page = (page_index_of(address) + position / 4096) as PageIndex;
        assert(page * 4096 + position % 4096 == address + i);
        assert(page_or_zero(one, page)[position % 4096] == page_or_zero(two, page)[position
            % 4096]);
    }
    assert(load(one, address, size) =~= load(two, address, size));
}

/// Two memories that agree outside some places still do after the same bytes
/// were written to both.
pub proof fn lemma_store_agrees(
    one: Map<PageIndex, Seq<u8>>,
    two: Map<PageIndex, Seq<u8>>,
    start: int,
    len: int,
    address: Address,
    bytes: Seq<u8>,
)
    requires
        agree_outside(one, two, start, len),
        bytes.len() <= 4096,
    ensures
        agree_outside(store(one, address, bytes), store(two, address, bytes), start, len),
{
    assert forall|page: PageIndex, offset: int|
        0 <= offset < 4096 && !(start <= page * 4096 + offset < start + len) implies #[trigger]
        page_or_zero(store(one, address, bytes), page)[offset] == page_or_zero(
        store(two, address, bytes),
        page,
    )[offset] by {
        lemma_store_bytes(one, address, bytes, page, offset);
        lemma_store_bytes(two, address, bytes, page, offset);
        assert(page_or_zero(one, page)[offset] == page_or_zero(two, page)[offset]);
    }
}

/// A byte that is written is the byte read back from its address.
pub proof fn lemma_byte_after_store(pages: Map<PageIndex, Seq<u8>>, address: Address, value: Byte)
    ensures
        byte_at(store(pages, address, seq![value]), address, 0) == value,
{
    lemma_load_after_store(pages, address, seq![value]);
    assert(load(store(pages, address, seq![value]), address, 1)[0] == value);
}

/// A halfword that is written is the halfword read back from its address, also
/// across the end of a page.
pub proof fn lemma_halfword_after_store(
    pages: Map<PageIndex, Seq<u8>>,
    address: Address,
    value: HalfWord,
)
    ensures
        le_value(load(store(pages, address, le_bytes(value as int, 2)), address, 2)) as HalfWord
            == value,
{
    lemma_load_after_store(pages, address, le_bytes(value as int, 2));
    lemma_le_value_of_bytes(value as int, 2);
}

/// A word that is written is the word read back from its address, also across
/// the end of a page.
pub proof fn lemma_word_after_store(pages: Map<PageIndex, Seq<u8>>, address: Address, value: Word)
    ensures
        le_value(load(store(pages, address, le_bytes(value as int, 4)), address, 4)) as Word
            == value,
{
    lemma_load_after_store(pages, address, le_bytes(value as int, 4));
    lemma_le_value_of_bytes(value as int, 4);
}

/// A doubleword that is written is the doubleword read back from its address,
/// also across the end of a page.
pub proof fn lemma_doubleword_after_store(
    pages: Map<PageIndex, Seq<u8>>,
    address: Address,
    value: DoubleWord,
)
    ensures
        le_value(load(store(pages, address, le_bytes(value as int, 8)), address, 8)) as DoubleWord
            == value,
{
    lemma_load_after_store(pages, address, le_bytes(value as int, 8));
    lemma_le_value_of_bytes(value as int, 8);
}

/// The [Memory] trait defines the interface for the memory bus.
pub trait Memory {
    /// The pages that are mapped, each with its 4096 bytes. Nothing is known of
    /// them where an implementation does not say what they are.
    open spec fn pages(&self) -> Map<PageIndex, Seq<u8>> {
        arbitrary()
    }

    /// Whether `allocate` of this memory never fails. It may fail where an
    /// implementation does not say otherwise.
    open spec fn always_allocates() -> bool {
        false
    }

    /// Returns the number of pages allocated within the [Memory].
    fn page_count(&self) -> (count: usize)
        ensures
            count == self.pages().dom().len(),
    ;

    /// Maps the page with the given index, zeroed, unless it is mapped already,
    /// and returns an exclusive reference to it. On an error nothing changes.
    fn allocate(&mut self, page_index: PageIndex) -> (r: MemoryResult<&mut Page>)
        ensures
            Self::always_allocates() ==> r is Ok,
            match r {
                Ok(page) => page@ == page_or_zero(old(self).pages(), page_index)
                    && final(self).pages() == old(self).pages().insert(page_index, final(page)@),
                Err(_) => final(self).pages() == old(self).pages(),
            },
    ;

    /// Looks up a page in the [Memory] by its index, and returns a reference to it.
    fn page(&self, page_index: PageIndex) -> (r: Option<&Page>)
        ensures
            match r {
                Some(page) => self.pages().contains_key(page_index) && page@
                    == self.pages()[page_index],
                None => !self.pages().contains_key(page_index),
            },
    ;

    /// Looks up a page in the [Memory] by its index, and returns a mutable
    /// reference to it.
    fn page_mut(&mut self, page_index: PageIndex) -> (r: Option<&mut Page>)
        ensures
            match r {
                Some(page) => old(self).pages().contains_key(page_index) && page@
                    == old(self).pages()[page_index] && final(self).pages()
                    == old(self).pages().insert(page_index, final(page)@),
                None => !old(self).pages().contains_key(page_index) && final(self).pages()
                    == old(self).pages(),
            },
    ;

    /// Get an 8-bit [Byte] from memory. A page that is not mapped reads as zero.
    fn get_byte(&self, address: Address) -> (r: MemoryResult<Byte>)
        ensures
            r == Ok::<Byte, MemoryError>(byte_at(self.pages(), address, 0)),
    {
        let page_index: PageIndex = address / 4096;
        let page_address: usize = (address % 4096) as usize;
        match self.page(page_index) {
            Some(page) => Ok(page[page_address]),
            None => Ok(0),
        }
    }

    /// Set an 8-bit [Byte] in memory, mapping its page first where it is not
    /// mapped.
    fn set_byte(&mut self, address: Address, value: Byte) -> (r: MemoryResult<()>)
        ensures
            Self::always_allocates() ==> r is Ok,
            r is Ok ==> final(self).pages() == store(old(self).pages(), address, seq![value]),
            r is Err ==> refused(old(self).pages(), final(self).pages(), address, seq![value]),
    {
        let page_index: PageIndex = address / 4096;
        let page_address: usize = (address % 4096) as usize;
        let page = if let Some(page) = self.page_mut(page_index) {
            page
        } else {
            self.allocate(page_index)?
        };
        let ghost before = page@;
        page[page_address] = value;
        assert(page@ =~= patch(before, page_address as int, seq![value].subrange(0, 1)));
        Ok(())
    }

    /// Get a 16-bit [HalfWord] from memory, little-endian. Unaligned access is
    /// supported, also across the end of a page.
    fn get_halfword(&self, address: Address) -> (r: MemoryResult<HalfWord>)
        ensures
            r matches Ok(value) && value == le_value(load(self.pages(), address, 2)),
    {
        let page_index: PageIndex = address / 4096;
        let page_address: usize = (address % 4096) as usize;
        let page_one = self.page(page_index);
        let page_two = if page_address + 2 > 4096 {
            self.page(page_index + 1)
        } else {
            None
        };
        proof {
            lemma_load_straddles(self.pages(), address, 2);
            assert(load(self.pages(), address, 2) =~= straddle(
                found_or_zero(page_one),
                found_or_zero(page_two),
                page_address as int,
                2,
            ));
        }
        proof {
            lemma_le_value_bound(load(self.pages(), address, 2));
        }
        Ok(gather(page_one, page_two, page_address, 2) as HalfWord)
    }

    /// Set a 16-bit [HalfWord] in memory, little-endian. Unaligned access is
    /// supported, also across the end of a page.
    fn set_halfword(&mut self, address: Address, value: HalfWord) -> (r: MemoryResult<()>)
        ensures
            Self::always_allocates() ==> r is Ok,
            r is Ok ==> final(self).pages() == store(
                old(self).pages(),
                address,
                le_bytes(value as int, 2),
            ),
            r is Err ==> refused(
                old(self).pages(),
                final(self).pages(),
                address,
                le_bytes(value as int, 2),
            ),
    {
        let page_index: PageIndex = address / 4096;
        let page_address: usize = (address % 4096) as usize;
        let dat = le_array(value as u64);
        let ghost bytes = le_bytes(value as int, 2);
        assert(dat@.subrange(0, 2) =~= bytes);
        let dat_len: usize = if 2 <= 4096 - page_address {
            2
        } else {
            4096 - page_address
        };
        let page_one = if let Some(page) = self.page_mut(page_index) {
            page
        } else {
            self.allocate(page_index)?
        };
        assert(dat@.subrange(0, dat_len as int) =~= bytes.subrange(0, dat_len as int));
        copy_to_page(page_one, page_address, slice_subrange(dat.as_slice(), 0, dat_len));
        if dat_len < 2 {
            let page_two = if let Some(page) = self.page_mut(page_index + 1) {
                page
            } else {
                self.allocate(page_index + 1)?
            };
            assert(dat@.subrange(dat_len as int, 2) =~= bytes.subrange(dat_len as int, 2));
            copy_to_page(page_two, 0, slice_subrange(dat.as_slice(), dat_len, 2));
        }
        Ok(())
    }

    /// Get a 32-bit [Word] from memory, little-endian. Unaligned access is supported,
    /// also across the end of a page.
    fn get_word(&self, address: Address) -> (r: MemoryResult<Word>)
        ensures
            r matches Ok(value) && value == le_value(load(self.pages(), address, 4)),
    {
        let page_index: PageIndex = address / 4096;
        let page_address: usize = (address % 4096) as usize;
        let page_one = self.page(page_index);
        let page_two = if page_address + 4 > 4096 {
            self.page(page_index + 1)
        } else {
            None
        };
        proof {
            lemma_load_straddles(self.pages(), address, 4);
            assert(load(self.pages(), address, 4) =~= straddle(
                found_or_zero(page_one),
                found_or_zero(page_two),
                page_address as int,
                4,
            ));
        }
        proof {
            lemma_le_value_bound(load(self.pages(), address, 4));
        }
        Ok(gather(page_one, page_two, page_address, 4) as Word)
    }

    /// Set a 32-bit [Word] in memory, little-endian. Unaligned access is supported,
    /// also across the end of a page.
    fn set_word(&mut self, address: Address, value: Word) -> (r: MemoryResult<()>)
        ensures
            Self::always_allocates() ==> r is Ok,
            r is Ok ==> final(self).pages() == store(
                old(self).pages(),
                address,
                le_bytes(value as int, 4),
            ),
            r is Err ==> refused(
                old(self).pages(),
                final(self).pages(),
                address,
                le_bytes(value as int, 4),
            ),
    {
        let page_index: PageIndex = address / 4096;
        let page_address: usize = (address % 4096) as usize;
        let dat = le_array(value as u64);
        let ghost bytes = le_bytes(value as int, 4);
        assert(dat@.subrange(0, 4) =~= bytes);
        let dat_len: usize = if 4 <= 4096 - page_address {
            4
        } else {
            4096 - page_address
        };
        let page_one = if let Some(page) = self.page_mut(page_index) {
            page
        } else {
            self.allocate(page_index)?
        };
        assert(dat@.subrange(0, dat_len as int) =~= bytes.subrange(0, dat_len as int));
        copy_to_page(page_one, page_address, slice_subrange(dat.as_slice(), 0, dat_len));
        if dat_len < 4 {
            let page_two = if let Some(page) = self.page_mut(page_index + 1) {
                page
            } else {
                self.allocate(page_index + 1)?
            };
            assert(dat@.subrange(dat_len as int, 4) =~= bytes.subrange(dat_len as int, 4));
            copy_to_page(page_two, 0, slice_subrange(dat.as_slice(), dat_len, 4));
        }
        Ok(())
    }

    /// Get a 64-bit [DoubleWord] from memory, little-endian. Unaligned access is
    /// supported, also across the end of a page.
    fn get_doubleword(&self, address: Address) -> (r: MemoryResult<DoubleWord>)
        ensures
            r matches Ok(value) && value == le_value(load(self.pages(), address, 8)),
    {
        let page_index: PageIndex = address / 4096;
        let page_address: usize = (address % 4096) as usize;
        let page_one = self.page(page_index);
        let page_two = if page_address + 8 > 4096 {
            self.page(page_index + 1)
        } else {
            None
        };
        proof {
            lemma_load_straddles(self.pages(), address, 8);
            assert(load(self.pages(), address, 8) =~= straddle(
                found_or_zero(page_one),
                found_or_zero(page_two),
                page_address as int,
                8,
            ));
        }
        Ok(gather(page_one, page_two, page_address, 8))
    }

    /// Set a 64-bit [DoubleWord] in memory, little-endian. Unaligned access is
    /// supported, also across the end of a page.
    fn set_doubleword(&mut self, address: Address, value: DoubleWord) -> (r: MemoryResult<()>)
        ensures
            Self::always_allocates() ==> r is Ok,
            r is Ok ==> final(self).pages() == store(
                old(self).pages(),
                address,
                le_bytes(value as int, 8),
            ),
            r is Err ==> refused(
                old(self).pages(),
                final(self).pages(),
                address,
                le_bytes(value as int, 8),
            ),
    {
        let page_index: PageIndex = address / 4096;
        let page_address: usize = (address % 4096) as usize;
        let dat = le_array(value);
        let ghost bytes = le_bytes(value as int, 8);
        assert(dat@.subrange(0, 8) =~= bytes);
        let dat_len: usize = if 8 <= 4096 - page_address {
            8
        } else {
            4096 - page_address
        };
        let page_one = if let Some(page) = self.page_mut(page_index) {
            page
        } else {
            self.allocate(page_index)?
        };
        assert(dat@.subrange(0, dat_len as int) =~= bytes.subrange(0, dat_len as int));
        copy_to_page(page_one, page_address, slice_subrange(dat.as_slice(), 0, dat_len));
        if dat_len < 8 {
            let page_two = if let Some(page) = self.page_mut(page_index + 1) {
                page
            } else {
                self.allocate(page_index + 1)?
            };
            assert(dat@.subrange(dat_len as int, 8) =~= bytes.subrange(dat_len as int, 8));
            copy_to_page(page_two, 0, slice_subrange(dat.as_slice(), dat_len, 8));
        }
        Ok(())
    }

    /// Set a range of memory at a given [Address], a page at a time, mapping the
    /// pages that are not mapped.
    fn set_memory_range(&mut self, address: Address, data: &[u8]) -> (r: MemoryResult<()>)
        requires
            address + data@.len() <= u64::MAX,
        ensures
            Self::always_allocates() ==> r is Ok,
            r is Ok ==> final(self).pages() == store_range(old(self).pages(), address, data@),
            r is Err ==> exists|written: int| #[trigger]
                refused_after(old(self).pages(), final(self).pages(), address, data@, written),
    {
        let ghost start = address;
        let mut cursor: Address = address;
        let mut done: usize = 0;
        assert(data@.subrange(0, 0) =~= Seq::<u8>::empty());
        while done < data.len()
            invariant
                done <= data@.len(),
                start == address,
                start + data@.len() <= u64::MAX,
                cursor == start + done,
                self.pages() == store_range(
                    old(self).pages(),
                    start,
                    data@.subrange(0, done as int),
                ),
            decreases data@.len() - done,
        {
            let page_index: PageIndex = cursor / 4096;
            let page_address: usize = (cursor % 4096) as usize;
            let write_len: usize = if data.len() - done <= 4096 - page_address {
                data.len() - done
            } else {
                4096 - page_address
            };
            let ghost before = self.pages();
            let ghost chunk = data@.subrange(done as int, done + write_len);
            let page = if let Some(page) = self.page_mut(page_index) {
                page
            } else {
                match self.allocate(page_index) {
                    Ok(page) => page,
                    Err(e) => {
                        proof {
                            assert(refused_after(
                                old(self).pages(),
                                self.pages(),
                                address,
                                data@,
                                done as int,
                            ));
                        }
                        return Err(e);
                    },
                }
            };
            copy_to_page(page, page_address, slice_subrange(data, done, done + write_len));
            proof {
                assert(chunk.subrange(0, chunk.len() as int) =~= chunk);
                assert(self.pages() == store_first(before, cursor, chunk));
                lemma_store_range_append(
                    old(self).pages(),
                    start,
                    data@.subrange(0, done as int),
                    chunk,
                );
                assert(data@.subrange(0, done as int) + chunk =~= data@.subrange(
                    0,
                    done + write_len,
                ));
            }
            cursor += write_len as Address;
            done += write_len;
        }
        assert(data@.subrange(0, done as int) =~= data@);
        Ok(())
    }

    /// Read a range of memory at a given [Address], a page at a time. The read
    /// fails with `PageNotFound` at the first page that is not mapped.
    fn read_memory_range(&mut self, address: Address, len: XWord) -> (r: MemoryResult<Vec<u8>>)
        requires
            address + len <= u64::MAX,
            len <= usize::MAX,
        ensures
            final(self).pages() == old(self).pages(),
            r is Ok <==> mapped_through(old(self).pages(), address, len as int),
            r matches Ok(data) ==> data@ == load(old(self).pages(), address, len as nat),
            r matches Err(e) ==> exists|i: int|
                0 <= i < len && e == MemoryError::PageNotFound(
                    #[trigger] page_index_of((address + i) as Address),
                ) && !old(self).pages().contains_key(page_index_of((address + i) as Address))
                    && mapped_through(old(self).pages(), address, i),
    {
        let ghost start = address;
        let mut data: Vec<u8> = Vec::new();
        let mut cursor: Address = address;
        assert(data@ =~= load(self.pages(), start, 0));
        while (data.len() as u64) < len
            invariant
                data@.len() <= len,
                len <= usize::MAX,
                start + len <= u64::MAX,
                start == address,
                cursor == start + data@.len(),
                self.pages() == old(self).pages(),
                data@ == load(self.pages(), start, data@.len()),
                mapped_through(self.pages(), start, data@.len() as int),
            decreases len - data@.len(),
        {
            let page_index: PageIndex = cursor / 4096;
            let page_address: usize = (cursor % 4096) as usize;
            let ghost before = data@;
            let page = match self.page(page_index) {
                Some(page) => page,
                None => {
                    proof {
                        let i = data@.len() as int;
                        assert(page_index_of((start + i) as Address) == page_index);
                    }
                    return Err(MemoryError::PageNotFound(page_index));
                },
            };
            let read_len: usize = if len as usize - data.len() <= 4096 - page_address {
                len as usize - data.len()
            } else {
                4096 - page_address
            };
            append_from_page(&mut data, page, page_address, read_len);
            cursor += read_len as Address;
            proof {
                assert forall|i: int| before.len() <= i < data@.len() implies self.pages()
                    .contains_key(#[trigger] page_index_of((start + i) as Address)) && data@[i]
                    == byte_at(self.pages(), start, i) by {
                    assert(page_index_of((start + i) as Address) == page_index);
                }
                assert(data@ =~= load(self.pages(), start, data@.len()));
            }
        }
        Ok(data)
    }
}

} // verus!
