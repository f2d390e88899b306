//! Exported Wasm linear memories: their declared type and their size.

use vstd::prelude::*;

use crate::value::MemoryType;

verus! {

/// The size of a Wasm linear-memory page, in bytes (64 KiB).
pub const WASM_PAGE_SIZE: u64 = 65536;

/// An exported linear memory, as the bindings see it: its declared type. Its
/// bytes live in the instance; its size is derived from what the runtime
/// reports.
#[derive(Debug, Clone, Copy)]
pub struct Memory {
    ty: MemoryType,
}

/// The number of bytes behind a memory of `pages` runtime pages of
/// `bytes_per_page` bytes each, saturating at `u64::MAX`.
pub open spec fn spec_byte_len(pages: u64, bytes_per_page: u64) -> u64 {
    if pages * bytes_per_page <= u64::MAX {
        (pages * bytes_per_page) as u64
    } else {
        u64::MAX
    }
}

impl Memory {
    /// The declared type of the memory.
    pub closed spec fn spec_type(&self) -> MemoryType {
        self.ty
    }

    /// A memory of the given declared type.
    pub fn new(ty: MemoryType) -> (m: Memory)
        ensures
            m.spec_type() == ty,
    {
        Memory { ty }
    }

    /// Returns the declared [`MemoryType`] (page limits) of this memory.
    pub fn ty(&self) -> (t: MemoryType)
        ensures
            t == self.spec_type(),
    {
        self.ty
    }

    /// The number of bytes currently backing a memory for which the runtime
    /// reports `pages` pages of `bytes_per_page` bytes. The product is the
    /// true linear-memory size even where WAMR folds a memory that never
    /// grows into a single oversized page.
    pub fn byte_len(pages: u64, bytes_per_page: u64) -> (n: u64)
        ensures
            n == spec_byte_len(pages, bytes_per_page),
    {
        match pages.checked_mul(bytes_per_page) {
            Some(n) => n,
            None => u64::MAX,
        }
    }

    /// The current size of the memory in Wasm pages (64 KiB each), not bytes,
    /// derived from the runtime's page count and page size.
    pub fn size(pages: u64, bytes_per_page: u64) -> (n: u64)
        ensures
            n == spec_byte_len(pages, bytes_per_page) / WASM_PAGE_SIZE,
    {
        Memory::byte_len(pages, bytes_per_page) / WASM_PAGE_SIZE
    }
}

/// A memory of `n` standard pages has size `n`, and one that WAMR folded into
/// a single page of `n` standard pages' bytes has size `n` too.
pub proof fn lemma_size_independent_of_folding(n: u64)
    requires
        n <= 0x1_0000_0000,
    ensures
        spec_byte_len(n, WASM_PAGE_SIZE) / WASM_PAGE_SIZE == n,
        spec_byte_len(1, (n * WASM_PAGE_SIZE) as u64) / WASM_PAGE_SIZE == n,
{
    assert(n * WASM_PAGE_SIZE <= u64::MAX);
    assert((n * 65536) / 65536 == n) by (nonlinear_arith);
}

/// A Wasm page is 64 KiB.
pub proof fn lemma_page_size()
    ensures
        WASM_PAGE_SIZE == 64 * 1024,
{
}

} // verus!
