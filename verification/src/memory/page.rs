//! The [Page] type and the constants that lay out an address.

use vstd::prelude::*;
use crate::arch::XWord;

verus! {

/// The size of a page address in bits.
pub const PAGE_ADDRESS_SIZE: usize = 12;

/// The size of a [Page] in bytes (4kb).
pub const PAGE_SIZE: usize = 4096;

/// The mask to apply to an address to obtain the offset within its page.
pub const PAGE_ADDRESS_MASK: usize = 4095;

/// An index of a [Page] within an address.
pub type PageIndex = XWord;

/// A page of memory, representing [PAGE_SIZE] bytes of data.
pub type Page = [u8; 4096];

/// An empty page of memory, zeroed out.
pub fn empty_page() -> (page: Page)
    ensures
        page@ == zero_page(),
{
    let page: Page = [0u8; 4096];
    assert(page@ =~= zero_page());
    page
}

/// The contents of a page that was never written: 4096 zero bytes.
pub open spec fn zero_page() -> Seq<u8> {
    Seq::new(4096, |i: int| 0u8)
}

} // verus!
