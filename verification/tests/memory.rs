use d3os_virtio::dma::{
    frame_range, Dma, FrameRange, PageMapping, RawSlice, DMA_PAGE_FLAGS, PAGE_SIZE,
};
use d3os_virtio::hal::{DmaAllocation, HalImpl};
use x86_64::structures::paging::{PageTableFlags, PhysFrame, Size4KiB};

#[test]
fn flags_are_those_of_the_page_tables() {
    let flags = PageTableFlags::PRESENT | PageTableFlags::WRITABLE | PageTableFlags::NO_CACHE;
    assert_eq!(DMA_PAGE_FLAGS, flags.bits());
}

#[test]
fn buffer_is_identity_mapped() {
    let frames = FrameRange { start: 0x20_0000, end: 0x20_3000 };
    let (dma, mapping) = Dma::new(3, frames);
    assert_eq!(
        mapping,
        PageMapping { start: 0x20_0000, end: 0x20_3000, flags: DMA_PAGE_FLAGS }
    );
    assert_eq!(dma.paddr(), 0x20_0000);
    assert_eq!(dma.vaddr(0), 0x20_0000);
    assert_eq!(dma.vaddr(0x2fff), 0x20_2fff);
    assert_eq!(dma.pages(), 3);
    assert_eq!(dma.size(), 3 * PAGE_SIZE);
    assert_eq!(dma.raw_slice(), RawSlice { address: 0x20_0000, len: 0x3000 });
    assert_eq!(Dma::get_pointer_to_vaddr(dma.raw_slice()), 0x20_0000);
    assert_eq!(dma.frames(), frames);
}

#[test]
fn frames_are_counted_as_the_frames_count() {
    let start = PhysFrame::<Size4KiB>::containing_address(x86_64::PhysAddr::new(0x7000));
    let range = frame_range(0x7000, 5);
    assert_eq!(range.start, start.start_address().as_u64());
    assert_eq!(range.end, (start + 5).start_address().as_u64());
    assert_eq!(range, FrameRange { start: 0x7000, end: 0xc000 });
}

#[test]
fn memory_is_given_back_as_it_was_allocated() {
    let frames = FrameRange { start: 0x1000, end: 0x5000 };
    let allocation = HalImpl::dma_alloc(4, frames);
    assert_eq!(
        allocation,
        DmaAllocation {
            paddr: 0x1000,
            vaddr: 0x1000,
            mapping: PageMapping { start: 0x1000, end: 0x5000, flags: 0x13 },
        }
    );
    let release = HalImpl::dma_dealloc(allocation.paddr, 4);
    assert_eq!(release.frames, frames);
    assert_eq!(release.status, 0);
}

#[test]
fn addresses_are_shared_as_they_are() {
    assert_eq!(HalImpl::mmio_phys_to_virt(0xfebf_0000), 0xfebf_0000);
    assert_eq!(HalImpl::share(RawSlice { address: 0x1234, len: 8 }), 0x1234);
}

#[test]
fn end_of_a_buffer_has_an_address() {
    let (dma, _) = Dma::new(1, FrameRange { start: 0x1000, end: 0x2000 });
    assert_eq!(dma.vaddr(0x1000), 0x2000);
}
