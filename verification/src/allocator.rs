//! The global allocator: requests to the memory-management tasklet.
//! Addresses are `usize`; 0 is the null pointer, which reports failure.
use vstd::prelude::*;

verus! {

/// The size of a memory page.
pub const PAGE_SIZE: usize = 4096;

/// The size and alignment of a block of memory.
#[derive(Clone, Copy, Debug, PartialEq, Eq, Structural)]
pub struct Layout {
    pub size: usize,
    pub align: usize,
}

/// A request to the memory-management tasklet.
#[derive(Clone, Copy, Debug, PartialEq, Eq, Structural)]
pub enum MemoryRequest {
    Alloc { size: usize, align: usize },
    Dealloc { ptr: usize, size: usize, align: usize },
    Realloc { ptr: usize, old_size: usize, align: usize, new_size: usize },
}

/// Sends a request to the memory-management tasklet and returns the address
/// it answers with. The tasklet is not reachable yet, so every request fails
/// with the null address.
pub fn mm_request(request: MemoryRequest) -> (r: usize)
    ensures
        r == 0,
{
    0
}

/// The allocator that asks the memory-management tasklet for memory.
pub struct TantraOSAllocator;

impl TantraOSAllocator {
    /// The request for a block of `layout`.
    pub fn alloc_request(&self, layout: Layout) -> (r: MemoryRequest)
        ensures
            r == (MemoryRequest::Alloc { size: layout.size, align: layout.align }),
    {
        MemoryRequest::Alloc { size: layout.size, align: layout.align }
    }

    /// The request that frees the block at `ptr` of `layout`.
    pub fn dealloc_request(&self, ptr: usize, layout: Layout) -> (r: MemoryRequest)
        ensures
            r == (MemoryRequest::Dealloc { ptr, size: layout.size, align: layout.align }),
    {
        MemoryRequest::Dealloc { ptr, size: layout.size, align: layout.align }
    }

    /// The request that resizes the block at `ptr` of `layout` to `new_size` bytes.
    pub fn realloc_request(&self, ptr: usize, layout: Layout, new_size: usize) -> (r: MemoryRequest)
        ensures
            r == (MemoryRequest::Realloc { ptr, old_size: layout.size, align: layout.align, new_size }),
    {
        MemoryRequest::Realloc { ptr, old_size: layout.size, align: layout.align, new_size }
    }

    /// Allocates a block of `layout` by handing `alloc_request(layout)` to the
    /// memory-management tasklet; the answer is null while that tasklet is
    /// unreachable.
    pub fn allocate(&self, layout: Layout) -> (r: usize)
        ensures
            r == 0,
    {
        mm_request(self.alloc_request(layout))
    }

    /// Frees the block at `ptr` of `layout`; returns the request handed to the
    /// memory-management tasklet.
    pub fn dealloc(&self, ptr: usize, layout: Layout) -> (r: MemoryRequest)
        ensures
            r == (MemoryRequest::Dealloc { ptr, size: layout.size, align: layout.align }),
    {
        let request = self.dealloc_request(ptr, layout);
        let _ = mm_request(request);
        request
    }

    /// Resizes the block at `ptr` of `layout` to `new_size` bytes by handing
    /// `realloc_request(ptr, layout, new_size)` to the memory-management
    /// tasklet; the answer is null while that tasklet is unreachable.
    pub fn realloc(&self, ptr: usize, layout: Layout, new_size: usize) -> (r: usize)
        ensures
            r == 0,
    {
        mm_request(self.realloc_request(ptr, layout, new_size))
    }

    /// Allocates a block of `layout` that the caller zeroes when the address
    /// is not null; it is null while the memory-management tasklet is
    /// unreachable.
    pub fn alloc_zeroed(&self, layout: Layout) -> (r: usize)
        ensures
            r == 0,
    {
        self.allocate(layout)
    }
}

/// The system allocator, which hands a zero-sized block its alignment as its
/// address (non-null and aligned, never dereferenced) and everything else to
/// `TantraOSAllocator`.
pub struct System;

impl System {
    /// Allocates a block of `layout`: for a zero-sized block the address
    /// `layout.align`, which satisfies the alignment; null otherwise while the
    /// memory-management tasklet is unreachable.
    pub fn allocate(&self, layout: Layout) -> (r: usize)
        ensures
            layout.size == 0 ==> r == layout.align && (layout.align > 0 ==> r % layout.align == 0),
            layout.size != 0 ==> r == 0,
    {
        if layout.size == 0 {
            return layout.align;
        }
        TantraOSAllocator.allocate(layout)
    }

    /// Allocates a block of `layout` to be zeroed; null while the
    /// memory-management tasklet is unreachable.
    pub fn alloc_zeroed(&self, layout: Layout) -> (r: usize)
        ensures
            r == 0,
    {
        TantraOSAllocator.alloc_zeroed(layout)
    }

    /// Frees the block at `ptr` of `layout`; returns the request handed to the
    /// memory-management tasklet.
    pub fn dealloc(&self, ptr: usize, layout: Layout) -> (r: MemoryRequest)
        ensures
            r == (MemoryRequest::Dealloc { ptr, size: layout.size, align: layout.align }),
    {
        TantraOSAllocator.dealloc(ptr, layout)
    }

    /// Resizes the block at `ptr`; null while the memory-management tasklet
    /// is unreachable.
    pub fn realloc(&self, ptr: usize, layout: Layout, new_size: usize) -> (r: usize)
        ensures
            r == 0,
    {
        TantraOSAllocator.realloc(ptr, layout, new_size)
    }
}

} // verus!
