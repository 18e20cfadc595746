//! Paged sparse memory.

use vstd::prelude::*;
use hashbrown::HashMap;
use crate::memory::errors::MemoryResult;
use crate::memory::interface::Memory;
use crate::memory::page::{empty_page, zero_page, Page, PageIndex};

pub mod errors;
pub mod interface;
pub mod page;

verus! {

/// A simple memory implementation that uses a [`HashMap`] to store pages sparsely.
#[verifier::external_body]
#[derive(Debug)]
pub struct SimpleMemory(HashMap<PageIndex, Page>);

/// The pages that a [SimpleMemory] holds, each by its index.
pub uninterp spec fn page_table(memory: SimpleMemory) -> Map<PageIndex, Seq<u8>>;

/// The pages of a memory that was never written: none.
pub open spec fn no_pages() -> Map<PageIndex, Seq<u8>> {
    Map::empty()
}

impl SimpleMemory {
    /// Create a new empty `SimpleMemory`.
    ///
    /// Calls `hashbrown::HashMap::default`, which makes an empty map: no page is
    /// mapped.
    #[verifier::external_body]
    pub fn new() -> (memory: Self)
        ensures
            page_table(memory) == no_pages(),
    {
        Self(HashMap::default())
    }

    /// Calls `hashbrown::HashMap::len`: the number of entries of the map.
    #[verifier::external_body]
    fn table_len(&self) -> (count: usize)
        ensures
            count == page_table(*self).dom().len(),
    {
        self.0.len()
    }

    /// Calls `hashbrown::HashMap::get`: the page stored under the index, if there
    /// is one.
    #[verifier::external_body]
    fn table_get(&self, page_index: PageIndex) -> (r: Option<&Page>)
        ensures
            match r {
                Some(page) => page_table(*self).contains_key(page_index) && page@ == page_table(
                    *self,
                )[page_index],
                None => !page_table(*self).contains_key(page_index),
            },
    {
        self.0.get(&page_index)
    }

    /// Calls `hashbrown::HashMap::get_mut`: a reference into the map to the page
    /// stored under the index, if there is one. No other entry changes, and
    /// none is added.
    #[verifier::external_body]
    fn table_get_mut(&mut self, page_index: PageIndex) -> (r: Option<&mut Page>)
        ensures
            match r {
                Some(page) => page_table(*old(self)).contains_key(page_index) && page@
                    == page_table(*old(self))[page_index] && page_table(*final(self))
                    == page_table(*old(self)).insert(page_index, final(page)@),
                None => !page_table(*old(self)).contains_key(page_index) && page_table(
                    *final(self),
                ) == page_table(*old(self)),
            },
    {
        self.0.get_mut(&page_index)
    }

    /// Calls `hashbrown::HashMap::entry` and `Entry::or_insert_with`: a reference
    /// into the map to the page stored under the index, after an empty page was
    /// stored there if there was none. No other entry changes.
    #[verifier::external_body]
    fn table_get_or_insert(&mut self, page_index: PageIndex) -> (page: &mut Page)
        ensures
            page@ == (if page_table(*old(self)).contains_key(page_index) {
                page_table(*old(self))[page_index]
            } else {
                zero_page()
            }),
            page_table(*final(self)) == page_table(*old(self)).insert(page_index, final(page)@),
    {
        self.0.entry(page_index).or_insert_with(empty_page)
    }
}

impl Clone for SimpleMemory {
    /// Calls `hashbrown::HashMap::clone`: a map with a copy of every entry.
    #[verifier::external_body]
    fn clone(&self) -> (memory: Self)
        ensures
            page_table(memory) == page_table(*self),
    {
        Self(self.0.clone())
    }
}

impl Default for SimpleMemory {
    fn default() -> (memory: Self)
        ensures
            memory.pages() == no_pages(),
    {
        Self::new()
    }
}

impl Memory for SimpleMemory {
    open spec fn pages(&self) -> Map<PageIndex, Seq<u8>> {
        page_table(*self)
    }

    open spec fn always_allocates() -> bool {
        true
    }

    fn page_count(&self) -> (count: usize) {
        self.table_len()
    }

    fn allocate(&mut self, page_index: PageIndex) -> (r: MemoryResult<&mut Page>) {
        Ok(self.table_get_or_insert(page_index))
    }

    fn page(&self, page_index: PageIndex) -> (r: Option<&Page>) {
        self.table_get(page_index)
    }

    fn page_mut(&mut self, page_index: PageIndex) -> (r: Option<&mut Page>) {
        self.table_get_mut(page_index)
    }
}

} // verus!
