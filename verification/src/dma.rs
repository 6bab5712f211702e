//! DMA buffers: memory that is physically contiguous, identity-mapped and uncached.
//!
//! Which frames a buffer gets is decided by the kernel's frame allocator; what is made of
//! them is decided here.

use vstd::prelude::*;
use x86_64::structures::paging::{Page, PhysFrame, Size4KiB};

verus! {

/// The size of a page and of a frame.
pub const PAGE_SIZE: usize = 4096;

/// The page table flags of a DMA buffer: present, writable and not cached.
pub const DMA_PAGE_FLAGS: u64 = 0x13;

/// The end of the physical addresses.
pub open spec fn phys_end() -> int {
    0x10_0000_0000_0000
}

/// The end of the lower half of the virtual addresses. No physical address above it has a
/// virtual address of the same value.
pub open spec fn low_half_end() -> int {
    0x8000_0000_0000
}

/// The physical frames from `start` up to `end`.
#[derive(Clone, Copy, Debug, PartialEq, Eq, Structural)]
pub struct FrameRange {
    pub start: u64,
    pub end: u64,
}

/// The virtual pages from `start` up to `end`, and the flags that they get.
#[derive(Clone, Copy, Debug, PartialEq, Eq, Structural)]
pub struct PageMapping {
    pub start: u64,
    pub end: u64,
    pub flags: u64,
}

/// Memory from `address` on.
#[derive(Clone, Copy, Debug, PartialEq, Eq, Structural)]
pub struct RawSlice {
    pub address: u64,
    pub len: usize,
}

/// The frames of a buffer of so many pages.
pub open spec fn frames_at(paddr: int, pages: int) -> FrameRange {
    FrameRange { start: paddr as u64, end: (paddr + pages * PAGE_SIZE) as u64 }
}

impl FrameRange {
    /// The range is what an allocation of so many pages can give: whole frames, not at
    /// address 0, that the identity mapping reaches.
    pub open spec fn backs(self, pages: int) -> bool {
        &&& 0 < pages
        &&& pages * PAGE_SIZE <= usize::MAX
        &&& self.start != 0
        &&& self.start as int % PAGE_SIZE as int == 0
        &&& self.end == self.start + pages * PAGE_SIZE
        &&& self.end < low_half_end()
    }
}

/// A DMA buffer allocated in physical memory and mapped into virtual address space.
#[derive(Debug)]
pub struct Dma {
    paddr: u64,
    vaddr: u64,
    size: usize,
    pages: usize,
}

/// The buffer at a physical address.
pub ghost struct DmaState {
    pub paddr: int,
    pub pages: int,
}

impl View for Dma {
    type V = DmaState;

    closed spec fn view(&self) -> DmaState {
        DmaState { paddr: self.paddr as int, pages: self.pages as int }
    }
}

impl Dma {
    /// The buffer consists of whole frames, and its virtual address is its physical one.
    pub closed spec fn wf(&self) -> bool {
        &&& self.vaddr == self.paddr
        &&& self.size == self.pages * PAGE_SIZE
        &&& (FrameRange {
            start: self.paddr,
            end: (self.paddr + self.pages * PAGE_SIZE) as u64,
        }).backs(self.pages as int)
        &&& self.paddr + self.pages * PAGE_SIZE < low_half_end()
    }

    /// A buffer that consists of the given frames, and the mapping that makes it
    /// accessible to a device.
    pub fn new(pages: usize, frames: FrameRange) -> (created: (Dma, PageMapping))
        requires
            frames.backs(pages as int),
        ensures
            created.0.wf(),
            created.0@ == (DmaState { paddr: frames.start as int, pages: pages as int }),
            created.1 == (PageMapping {
                start: frames.start,
                end: frames.end,
                flags: DMA_PAGE_FLAGS,
            }),
    {
        assert(frames.end as int % 4096 == 0);
        let mapping = PageMapping {
            start: page_start(frames.start),
            end: page_start(frames.end),
            flags: DMA_PAGE_FLAGS,
        };
        let dma = Dma {
            paddr: frames.start,
            vaddr: frames.start,
            size: pages * PAGE_SIZE,
            pages,
        };
        (dma, mapping)
    }

    /// Returns the starting physical address of the DMA buffer.
    pub fn paddr(&self) -> (paddr: u64)
        ensures
            paddr == self@.paddr,
    {
        self.paddr
    }

    /// Returns the virtual address with a byte offset, up to the end of the buffer.
    pub fn vaddr(&self, offset: usize) -> (vaddr: u64)
        requires
            self.wf(),
            offset <= self@.pages * PAGE_SIZE,
        ensures
            vaddr == self@.paddr + offset,
    {
        self.vaddr + offset as u64
    }

    /// Returns the number of allocated pages.
    pub fn pages(&self) -> (pages: usize)
        ensures
            pages == self@.pages,
    {
        self.pages
    }

    /// Returns the total size of the DMA buffer in bytes.
    pub fn size(&self) -> (size: usize)
        requires
            self.wf(),
        ensures
            size == self@.pages * PAGE_SIZE,
    {
        self.size
    }

    /// Returns the virtual address of a buffer.
    pub fn get_pointer_to_vaddr(buffer: RawSlice) -> (address: u64)
        ensures
            address == buffer.address,
    {
        buffer.address
    }

    /// Returns a slice covering the entire DMA region.
    pub fn raw_slice(&self) -> (slice: RawSlice)
        requires
            self.wf(),
        ensures
            slice.address == self@.paddr,
            slice.len == self@.pages * PAGE_SIZE,
    {
        RawSlice { address: self.vaddr(0), len: self.size }
    }

    /// The frames to give back when the buffer is no longer needed.
    pub fn frames(&self) -> (frames: FrameRange)
        requires
            self.wf(),
        ensures
            frames == frames_at(self@.paddr, self@.pages),
    {
        frame_range(self.paddr, self.pages)
    }
}

/// The frames of a buffer of `pages` pages at `paddr`.
pub fn frame_range(paddr: u64, pages: usize) -> (frames: FrameRange)
    requires
        paddr as int % PAGE_SIZE as int == 0,
        paddr + pages * PAGE_SIZE < phys_end(),
    ensures
        frames == frames_at(paddr as int, pages as int),
{
    let start: u64 = frame_from_start_address(paddr).unwrap();
    FrameRange { start, end: frame_after(start, pages as u64) }
}

/// The start of the page that starts at an address of the lower half.
fn page_start(vaddr: u64) -> (start: u64)
    requires
        vaddr < low_half_end(),
        vaddr as int % PAGE_SIZE as int == 0,
    ensures
        start == vaddr,
{
    page_from_start_address(vaddr).unwrap()
}

/// A buffer gives back exactly the frames that it was made of.
pub proof fn freed_frames_are_the_allocated(frames: FrameRange, pages: int)
    requires
        frames.backs(pages),
    ensures
        frames_at(frames.start as int, pages) == frames,
{
}

/// Every address of a buffer lies in a frame of it.
pub proof fn addresses_lie_in_frames(frames: FrameRange, pages: int, offset: int)
    requires
        frames.backs(pages),
        0 <= offset < pages * PAGE_SIZE,
    ensures
        frames.start <= frames.start + offset < frames.end,
{
}

/// `PhysFrame::from_start_address` on a frame of 4 KiB: the frame that starts at a physical
/// address, or nothing if none does. `PhysAddr::new` panics outside the physical addresses.
#[verifier::external_body]
fn frame_from_start_address(paddr: u64) -> (start: Option<u64>)
    requires
        paddr < phys_end(),
    ensures
        start == (if paddr as int % 4096 == 0 {
            Some(paddr)
        } else {
            None
        }),
{
    let frame = PhysFrame::<Size4KiB>::from_start_address(x86_64::PhysAddr::new(paddr));
    frame.ok().map(|frame| frame.start_address().as_u64())
}

/// Adding a count to a `PhysFrame` of 4 KiB: the frame so many frames further on. The sum
/// panics where that is outside the physical addresses.
#[verifier::external_body]
fn frame_after(start: u64, count: u64) -> (after: u64)
    requires
        start as int % 4096 == 0,
        start + count * 4096 < phys_end(),
    ensures
        after == start + count * 4096,
{
    let frame = PhysFrame::<Size4KiB>::containing_address(x86_64::PhysAddr::new(start));
    (frame + count).start_address().as_u64()
}

/// `Page::from_start_address` on a page of 4 KiB: the page that starts at a virtual address,
/// or nothing if none does. `VirtAddr::new` panics on an address that is in neither half.
#[verifier::external_body]
fn page_from_start_address(vaddr: u64) -> (start: Option<u64>)
    requires
        vaddr < low_half_end(),
    ensures
        start == (if vaddr as int % 4096 == 0 {
            Some(vaddr)
        } else {
            None
        }),
{
    let page = Page::<Size4KiB>::from_start_address(x86_64::VirtAddr::new(vaddr));
    page.ok().map(|page| page.start_address().as_u64())
}

/// A buffer is the memory of its frames: what is mapped, what can be reached through the buffer
/// and what is given back in the end are all those frames, 4096 bytes for each page.
pub proof fn buffer_is_its_frames(
    pages: usize,
    frames: FrameRange,
    created: (Dma, PageMapping),
    slice: RawSlice,
    size: usize,
    freed: FrameRange,
)
    requires
        frames.backs(pages as int),
        call_ensures(Dma::new, (pages, frames), created),
        call_ensures(Dma::raw_slice, (&created.0,), slice),
        call_ensures(Dma::size, (&created.0,), size),
        call_ensures(Dma::frames, (&created.0,), freed),
    ensures
        created.1.start == frames.start,
        created.1.end == frames.end,
        created.1.flags == 0x13,
        slice.address == frames.start,
        slice.address + slice.len == frames.end,
        size == 4096 * pages,
        frames.end - frames.start == 4096 * pages,
        freed == frames,
{
    freed_frames_are_the_allocated(frames, pages as int);
}

/// What an allocation gives is good for a buffer: any whole frames that are as many as the
/// pages, not at address 0, and below the end of the lower half.
pub proof fn whole_frames_back_a_buffer(start: u64, pages: int)
    requires
        0 < pages <= 0x1_0000_0000,
        pages * 4096 <= usize::MAX,
        start as int % 4096 == 0,
        0 < start,
        start + pages * 4096 < 0x8000_0000_0000,
    ensures
        (FrameRange { start, end: (start + pages * 4096) as u64 }).backs(pages),
{
}

/// Physical addresses have 52 bits, and those of the lower half of the virtual ones 47.
pub proof fn addresses_have_their_bits()
    ensures
        phys_end() == 0x1_0000 * 0x1_0000 * 0x10_0000,
        low_half_end() == 0x1_0000 * 0x1_0000 * 0x8000,
{
}

} // verus!
