//! The memory operations that a VirtIO driver asks of the kernel.

use crate::dma;
use crate::dma::{frame_range, Dma, FrameRange, PageMapping, RawSlice, PAGE_SIZE};
use vstd::prelude::*;

verus! {

/// The hardware abstraction layer of the kernel.
pub struct HalImpl;

/// Memory that has been allocated for a device.
#[derive(Clone, Copy, Debug, PartialEq, Eq, Structural)]
pub struct DmaAllocation {
    /// Its physical address.
    pub paddr: u64,
    /// Its virtual address.
    pub vaddr: u64,
    /// The mapping that makes it accessible.
    pub mapping: PageMapping,
}

/// What comes of giving memory back.
#[derive(Clone, Copy, Debug, PartialEq, Eq, Structural)]
pub struct DmaRelease {
    /// The frames that are free again.
    pub frames: FrameRange,
    /// The status code.
    pub status: i32,
}

impl HalImpl {
    /// Makes physically contiguous pages for DMA of the frames that the kernel allocated.
    /// They remain allocated until they are given back.
    pub fn dma_alloc(pages: usize, frames: FrameRange) -> (allocation: DmaAllocation)
        requires
            frames.backs(pages as int),
        ensures
            allocation.paddr == frames.start,
            allocation.vaddr == frames.start,
            allocation.mapping == (PageMapping {
                start: frames.start,
                end: frames.end,
                flags: dma::DMA_PAGE_FLAGS,
            }),
    {
        let (buffer, mapping) = Dma::new(pages, frames);
        assert(pages * PAGE_SIZE > 0) by (nonlinear_arith)
            requires
                pages > 0,
                PAGE_SIZE == 4096,
        ;
        DmaAllocation { paddr: buffer.paddr(), vaddr: buffer.vaddr(0), mapping }
    }

    /// Gives back pages that were allocated with [`HalImpl::dma_alloc`].
    pub fn dma_dealloc(paddr: u64, pages: usize) -> (release: DmaRelease)
        requires
            paddr as int % PAGE_SIZE as int == 0,
            paddr + pages * PAGE_SIZE < dma::phys_end(),
        ensures
            release.frames == dma::frames_at(paddr as int, pages as int),
            release.status == 0,
    {
        DmaRelease { frames: frame_range(paddr, pages), status: 0 }
    }

    /// The virtual address of a device's registers, which is their physical address.
    pub fn mmio_phys_to_virt(paddr: u64) -> (vaddr: u64)
        requires
            paddr != 0,
        ensures
            vaddr == paddr,
    {
        paddr
    }

    /// The physical address under which a device finds a buffer.
    pub fn share(buffer: RawSlice) -> (paddr: u64)
        ensures
            paddr == buffer.address,
    {
        Dma::get_pointer_to_vaddr(buffer)
    }
}

/// Memory that was allocated for a device can be given back at the address under which it
/// was allocated, and the frames that are free again are those that it took.
pub proof fn dealloc_undoes_alloc(pages: usize, frames: FrameRange, allocation: DmaAllocation)
    requires
        frames.backs(pages as int),
        call_ensures(HalImpl::dma_alloc, (pages, frames), allocation),
    ensures
        allocation.paddr as int % PAGE_SIZE as int == 0,
        allocation.paddr + pages * PAGE_SIZE < dma::phys_end(),
        dma::frames_at(allocation.paddr as int, pages as int) == frames,
{
    dma::freed_frames_are_the_allocated(frames, pages as int);
}

/// Memory that was allocated and is given back leaves the frames that it took, with success.
pub proof fn all_frames_come_back(
    pages: usize,
    frames: FrameRange,
    allocation: DmaAllocation,
    release: DmaRelease,
)
    requires
        frames.backs(pages as int),
        call_ensures(HalImpl::dma_alloc, (pages, frames), allocation),
        call_ensures(HalImpl::dma_dealloc, (allocation.paddr, pages), release),
    ensures
        release.frames == frames,
        release.status == 0,
        allocation.vaddr == allocation.paddr,
        allocation.mapping.start == frames.start,
        allocation.mapping.end == frames.end,
        allocation.mapping.flags == 0x13,
{
    dealloc_undoes_alloc(pages, frames, allocation);
}

} // verus!
