use d3os_virtio::bytes::push_words;
use d3os_virtio::device_tests::test_virgl;
use d3os_virtio::error::Error;
use d3os_virtio::gpu::driver::VirtIOGpu;
use d3os_virtio::gpu::init::{
    contains, FenceCounter, GpuInit, InitReport, InitTask, FEATURE_RING_EVENT_IDX,
    FEATURE_RING_INDIRECT_DESC, FEATURE_VERSION_1, FEATURE_VIRGL, SUPPORTED_FEATURES,
};
use d3os_virtio::gpu::model::{
    Action, DmaRegion, Event, Outcome, Step, Transfer3D, CURSOR_BYTES, PAGE_SIZE,
};
use d3os_virtio::gpu::requests;
use d3os_virtio::gpu::wire::{
    Box3D, CtrlHeader, Rect, RespDisplayInfo, OK_DISPLAY_INFO, OK_NODATA,
};

fn words(bytes: &[u8]) -> Vec<u32> {
    bytes
        .chunks_exact(4)
        .map(|word| u32::from_le_bytes([word[0], word[1], word[2], word[3]]))
        .collect()
}

fn answer(hdr_type: u32) -> Event {
    let mut bytes: Vec<u8> = Vec::new();
    push_words(&mut bytes, &[hdr_type, 0, 0, 0, 0, 0]);
    Event::Replied { bytes }
}

fn display(width: u32, height: u32) -> Event {
    let mut bytes: Vec<u8> = Vec::new();
    push_words(&mut bytes, &[OK_DISPLAY_INFO, 0, 0, 0, 0, 0, 0, 0, width, height, 1, 0]);
    Event::Replied { bytes }
}

fn go_on(gpu: &mut VirtIOGpu, event: Event) -> Step {
    assert!(gpu.accepts(&event));
    gpu.resume(event)
}

fn sent(gpu: &VirtIOGpu, count: usize) -> Vec<u32> {
    words(&gpu.send_buffer()[..4 * count])
}

fn is_page(step: &Step) -> bool {
    step.release.is_none()
        && matches!(&step.action, Action::Control { header_len: 4096, data: None })
}

fn result_of(step: &Step) -> Result<Outcome, Error> {
    match &step.action {
        Action::Finish { result } => *result,
        _ => panic!("not finished"),
    }
}

fn ready(width: u32, height: u32, paddr: u64) -> VirtIOGpu {
    let mut gpu = VirtIOGpu::new().unwrap();
    gpu.setup_framebuffer();
    go_on(&mut gpu, display(width, height));
    go_on(&mut gpu, answer(OK_NODATA));
    go_on(&mut gpu, Event::Allocated { paddr });
    go_on(&mut gpu, answer(OK_NODATA));
    let step = go_on(&mut gpu, answer(OK_NODATA));
    assert!(matches!(result_of(&step), Ok(Outcome::Framebuffer { .. })));
    gpu
}

#[test]
fn buffers_are_empty_pages_at_first() {
    let gpu = VirtIOGpu::new().unwrap();
    assert_eq!(gpu.send_buffer(), vec![0u8; PAGE_SIZE].as_slice());
    assert!(gpu.is_idle());
}

#[test]
fn without_memory_there_is_no_driver() {
    let full = || Ok(vec![0u8; PAGE_SIZE].into_boxed_slice());
    let refused = || Err(zerocopy::AllocError);
    assert!(VirtIOGpu::with_buffers(full(), full()).is_ok());
    assert!(matches!(VirtIOGpu::with_buffers(refused(), full()), Err(Error::OutOfMemory)));
    assert!(matches!(VirtIOGpu::with_buffers(full(), refused()), Err(Error::OutOfMemory)));
}

#[test]
fn resolution_is_that_of_the_display() {
    let mut gpu = VirtIOGpu::new().unwrap();
    let step = gpu.resolution();
    assert!(is_page(&step));
    assert_eq!(sent(&gpu, 6), vec![0x100, 0, 0, 0, 0, 0]);
    let step = go_on(&mut gpu, display(1280, 800));
    assert_eq!(result_of(&step), Ok(Outcome::Resolution { width: 1280, height: 800 }));
    assert!(gpu.is_idle());
}

#[test]
fn framebuffer_is_set_up() {
    let mut gpu = VirtIOGpu::new().unwrap();
    assert!(is_page(&gpu.setup_framebuffer()));
    assert!(is_page(&go_on(&mut gpu, display(1280, 800))));
    assert_eq!(sent(&gpu, 10), vec![0x101, 0, 0, 0, 0, 0, 0xbabe, 1, 1280, 800]);
    let step = go_on(&mut gpu, answer(OK_NODATA));
    assert!(
        matches!(&step.action, Action::Allocate { pages: 1000, contents } if contents.is_empty())
    );
    assert!(is_page(&go_on(&mut gpu, Event::Allocated { paddr: 0x1_2345_6000 })));
    assert_eq!(
        sent(&gpu, 12),
        vec![0x106, 0, 0, 0, 0, 0, 0xbabe, 1, 0x2345_6000, 1, 4_096_000, 0]
    );
    assert!(is_page(&go_on(&mut gpu, answer(OK_NODATA))));
    assert_eq!(sent(&gpu, 12), vec![0x103, 0, 0, 0, 0, 0, 0, 0, 1280, 800, 0, 0xbabe]);
    let step = go_on(&mut gpu, answer(OK_NODATA));
    let region = DmaRegion { paddr: 0x1_2345_6000, pages: 1000 };
    assert_eq!(result_of(&step), Ok(Outcome::Framebuffer { region }));
    assert_eq!(step.release, None);
}

#[test]
fn earlier_framebuffer_is_taken_down_whatever_the_answers() {
    let mut gpu = ready(64, 32, 0x10_0000);
    gpu.setup_framebuffer();
    assert!(is_page(&go_on(&mut gpu, display(128, 64))));
    assert_eq!(sent(&gpu, 12), vec![0x103, 0, 0, 0, 0, 0, 0, 0, 64, 32, 0, 0]);
    assert!(is_page(&go_on(&mut gpu, answer(0x1200))));
    assert_eq!(sent(&gpu, 8), vec![0x107, 0, 0, 0, 0, 0, 0xbabe, 0]);
    assert!(is_page(&go_on(&mut gpu, Event::Failed { error: Error::QueueError })));
    assert_eq!(sent(&gpu, 8), vec![0x102, 0, 0, 0, 0, 0, 0xbabe, 0]);
    let step = go_on(&mut gpu, answer(OK_NODATA));
    assert_eq!(step.release, Some(DmaRegion { paddr: 0x10_0000, pages: 2 }));
    assert_eq!(sent(&gpu, 10), vec![0x101, 0, 0, 0, 0, 0, 0xbabe, 1, 128, 64]);
}

#[test]
fn refused_request_is_an_io_error() {
    let mut gpu = VirtIOGpu::new().unwrap();
    gpu.resolution();
    let step = go_on(&mut gpu, answer(OK_NODATA));
    assert_eq!(result_of(&step), Err(Error::IoError));

    gpu.setup_framebuffer();
    go_on(&mut gpu, display(64, 32));
    go_on(&mut gpu, answer(OK_NODATA));
    go_on(&mut gpu, Event::Allocated { paddr: 0x5000 });
    let step = go_on(&mut gpu, answer(0x1200));
    assert_eq!(result_of(&step), Err(Error::IoError));
    assert_eq!(step.release, Some(DmaRegion { paddr: 0x5000, pages: 2 }));
    assert!(gpu.is_idle());
}

#[test]
fn errors_of_queue_and_allocation_are_handed_on() {
    let mut gpu = VirtIOGpu::new().unwrap();
    gpu.setup_framebuffer();
    let step = go_on(&mut gpu, Event::Failed { error: Error::QueueError });
    assert_eq!(result_of(&step), Err(Error::QueueError));

    gpu.setup_framebuffer();
    go_on(&mut gpu, display(64, 32));
    go_on(&mut gpu, answer(OK_NODATA));
    let step = go_on(&mut gpu, Event::Failed { error: Error::DmaError });
    assert_eq!(result_of(&step), Err(Error::DmaError));
    assert_eq!(step.release, None);
}

#[test]
fn only_what_is_waited_for_is_accepted() {
    let mut gpu = VirtIOGpu::new().unwrap();
    assert!(!gpu.accepts(&answer(OK_NODATA)));
    assert!(!gpu.accepts(&Event::Failed { error: Error::QueueError }));
    gpu.resolution();
    assert!(!gpu.accepts(&Event::Sent));
    assert!(!gpu.accepts(&Event::Allocated { paddr: 0x1000 }));
    assert!(!gpu.accepts(&Event::Scaled { half_width: 0, half_height: 0, fence: 1 }));
    assert!(!gpu.accepts(&Event::Replied { bytes: vec![0; PAGE_SIZE + 1] }));
    assert!(gpu.accepts(&Event::Replied { bytes: vec![0; PAGE_SIZE] }));
}

#[test]
fn framebuffer_size_has_to_be_representable() {
    let mut gpu = VirtIOGpu::new().unwrap();
    gpu.setup_framebuffer();
    go_on(&mut gpu, display(0x1_0000, 0x1_0000));
    assert!(!gpu.accepts(&answer(OK_NODATA)));
    assert!(gpu.accepts(&answer(0x1200)));
}

#[test]
fn flush_needs_a_framebuffer() {
    let mut gpu = VirtIOGpu::new().unwrap();
    let step = gpu.flush();
    assert_eq!(result_of(&step), Err(Error::NotReady));
}

#[test]
fn flush_copies_and_shows() {
    let mut gpu = ready(64, 32, 0x10_0000);
    assert!(is_page(&gpu.flush()));
    assert_eq!(sent(&gpu, 14), vec![0x105, 0, 0, 0, 0, 0, 0, 0, 64, 32, 0, 0, 0xbabe, 0]);
    assert!(is_page(&go_on(&mut gpu, answer(OK_NODATA))));
    assert_eq!(sent(&gpu, 12), vec![0x104, 0, 0, 0, 0, 0, 0, 0, 64, 32, 0xbabe, 0]);
    let step = go_on(&mut gpu, answer(OK_NODATA));
    assert_eq!(result_of(&step), Ok(Outcome::Done));
}

#[test]
fn pointer_image_has_to_fit() {
    let mut gpu = VirtIOGpu::new().unwrap();
    let step = gpu.setup_cursor(&[0u8; 100], 0, 0, 0, 0);
    assert_eq!(result_of(&step), Err(Error::InvalidParam));
    assert!(gpu.is_idle());
}

#[test]
fn pointer_is_set_up_and_replaced() {
    let mut gpu = VirtIOGpu::new().unwrap();
    let image = vec![7u8; CURSOR_BYTES as usize];
    for (paddr, released) in [(0x1000u64, None), (0x9000, Some(0x1000u64))] {
        let step = gpu.setup_cursor(&image, 10, 20, 1, 2);
        assert!(
            matches!(&step.action, Action::Allocate { pages: 4, contents } if *contents == image)
        );
        assert!(is_page(&go_on(&mut gpu, Event::Allocated { paddr })));
        assert_eq!(sent(&gpu, 10), vec![0x101, 0, 0, 0, 0, 0, 0xdade, 1, 64, 64]);
        assert!(is_page(&go_on(&mut gpu, answer(OK_NODATA))));
        assert_eq!(
            sent(&gpu, 12),
            vec![0x106, 0, 0, 0, 0, 0, 0xdade, 1, paddr as u32, 0, 16384, 0]
        );
        assert!(is_page(&go_on(&mut gpu, answer(OK_NODATA))));
        assert_eq!(sent(&gpu, 14), vec![0x105, 0, 0, 0, 0, 0, 0, 0, 64, 64, 0, 0, 0xdade, 0]);
        let step = go_on(&mut gpu, answer(OK_NODATA));
        assert!(matches!(step.action, Action::Cursor));
        assert_eq!(sent(&gpu, 14), vec![0x300, 0, 0, 0, 0, 0, 0, 10, 20, 0, 0xdade, 1, 2, 0]);
        let step = go_on(&mut gpu, Event::Sent);
        assert_eq!(result_of(&step), Ok(Outcome::Done));
        assert_eq!(step.release, released.map(|paddr| DmaRegion { paddr, pages: 4 }));
    }
}

#[test]
fn pointer_is_moved() {
    let mut gpu = VirtIOGpu::new().unwrap();
    let step = gpu.move_cursor(5, 6);
    assert!(matches!(step.action, Action::Cursor));
    assert_eq!(sent(&gpu, 14), vec![0x301, 0, 0, 0, 0, 0, 0, 5, 6, 0, 0xdade, 0, 0, 0]);
    let step = go_on(&mut gpu, Event::Failed { error: Error::QueueError });
    assert_eq!(result_of(&step), Err(Error::QueueError));
}

#[test]
fn virgl_test_renders_a_frame() {
    let mut device = Some(VirtIOGpu::new().unwrap());
    let step = test_virgl(&mut device).unwrap();
    let mut gpu = device.unwrap();
    assert!(matches!(
        &step.action,
        Action::Control { header_len: 96, data: Some(name) } if name == b"test_ctx"
    ));
    assert_eq!(sent(&gpu, 8), vec![0x200, 0, 0, 0, 1, 0, 8, 0]);
    assert_eq!(&gpu.send_buffer()[32..40], b"test_ctx");
    assert_eq!(&gpu.send_buffer()[40..96], [0u8; 56].as_slice());

    assert!(is_page(&go_on(&mut gpu, answer(OK_NODATA))));
    assert_eq!(sent(&gpu, 6), vec![0x100, 0, 0, 0, 0, 0]);
    assert!(is_page(&go_on(&mut gpu, display(1280, 800))));
    assert_eq!(
        sent(&gpu, 18),
        vec![0x204, 0, 0, 0, 0, 0, 0x2000, 2, 1, 3, 1280, 800, 1, 1, 0, 0, 0, 0]
    );
    assert!(is_page(&go_on(&mut gpu, answer(OK_NODATA))));
    assert_eq!(sent(&gpu, 8), vec![0x202, 0, 0, 0, 1, 0, 0x2000, 0]);
    assert!(is_page(&go_on(&mut gpu, answer(OK_NODATA))));
    assert_eq!(sent(&gpu, 12), vec![0x103, 0, 0, 0, 0, 0, 0, 0, 1280, 800, 0, 0x2000]);
    let step = go_on(&mut gpu, answer(OK_NODATA));
    assert!(matches!(step.action, Action::Scale { width: 1280, height: 800 }));
    let mut fences = FenceCounter::new();
    let step = go_on(
        &mut gpu,
        Event::Scaled {
            half_width: (1280 as f32 * 0.5).to_bits(),
            half_height: (800 as f32 * 0.5).to_bits(),
            fence: fences.take(),
        },
    );
    assert_eq!(sent(&gpu, 8), vec![0x207, 1, 1, 0, 1, 0, 108, 0]);
    match &step.action {
        Action::Control { header_len: 32, data: Some(stream) } => {
            let stream = words(stream);
            assert_eq!(stream.len(), 27);
            assert_eq!(stream[12], 640.0f32.to_bits());
            assert_eq!(stream[20], 0.094f32.to_bits());
        }
        _ => panic!("no command stream"),
    }
    assert!(is_page(&go_on(&mut gpu, answer(OK_NODATA))));
    assert_eq!(sent(&gpu, 12), vec![0x104, 0, 0, 0, 0, 0, 0, 0, 1280, 800, 0x2000, 0]);
    let step = go_on(&mut gpu, answer(OK_NODATA));
    assert_eq!(result_of(&step), Ok(Outcome::Done));
}

#[test]
fn virgl_test_needs_a_device() {
    let mut device: Option<VirtIOGpu> = None;
    assert!(test_virgl(&mut device).is_none());
}

#[test]
fn texels_are_transferred() {
    let transfer = Transfer3D {
        box_3d: Box3D { x: 1, y: 2, z: 3, w: 4, h: 5, d: 6 },
        offset: 0x7_0000_0008,
        resource_id: 9,
        level: 10,
        stride: 11,
        layer_stride: 12,
    };
    let mut gpu = VirtIOGpu::new().unwrap();
    assert!(is_page(&gpu.transfer_to_host_3d(transfer)));
    assert_eq!(
        sent(&gpu, 18),
        vec![0x205, 0, 0, 0, 0, 0, 1, 2, 3, 4, 5, 6, 8, 7, 9, 10, 11, 12]
    );
    assert_eq!(result_of(&go_on(&mut gpu, answer(OK_NODATA))), Ok(Outcome::Done));
    assert!(is_page(&gpu.transfer_from_host_3d(transfer)));
    assert_eq!(
        sent(&gpu, 18),
        vec![0x206, 0, 0, 0, 0, 0, 1, 2, 3, 4, 5, 6, 8, 7, 9, 10, 11, 12]
    );
    assert_eq!(result_of(&go_on(&mut gpu, answer(0x1203))), Err(Error::IoError));
}

#[test]
fn earlier_bytes_stay_behind_a_shorter_request() {
    let mut gpu = ready(64, 32, 0x10_0000);
    gpu.resolution();
    assert_eq!(sent(&gpu, 12), vec![0x100, 0, 0, 0, 0, 0, 0, 0, 64, 32, 0, 0xbabe]);
}

#[test]
fn headers_are_checked_and_decoded() {
    let header = CtrlHeader::with_type(OK_NODATA);
    assert_eq!(header.check_type(OK_NODATA), Ok(()));
    assert_eq!(header.check_type(OK_DISPLAY_INFO), Err(Error::IoError));
    let bytes = requests::submit_3d(3, 0x1_0000_0002, 40);
    let header = CtrlHeader::decode(&bytes);
    assert_eq!(header.hdr_type, 0x207);
    assert_eq!(header.flags, 1);
    assert_eq!(header.fence_id, 0x1_0000_0002);
    assert_eq!(header.ctx_id, 3);
    let mut bytes: Vec<u8> = Vec::new();
    push_words(&mut bytes, &[0x1101, 0, 0, 0, 0, 0, 1, 2, 3, 4, 5, 6]);
    let info = RespDisplayInfo::decode(&bytes);
    assert_eq!(info.rect, Rect { x: 1, y: 2, width: 3, height: 4 });
    assert_eq!(info.enabled, 5);
}

#[test]
fn a_long_context_name_is_cut() {
    let name = [0x61u8; 70];
    let bytes = requests::context_create(2, &name);
    assert_eq!(bytes.len(), 96);
    assert_eq!(words(&bytes[..32]), vec![0x200, 0, 0, 0, 2, 0, 70, 0]);
    assert_eq!(&bytes[32..], [0x61u8; 64].as_slice());
}

#[test]
fn fences_count_up_from_one() {
    let mut fences = FenceCounter::new();
    assert_eq!(fences.take(), 1);
    assert_eq!(fences.take(), 2);
    assert_eq!(fences.take(), 3);
}

#[test]
fn initialization_creates_both_queues() {
    let mut init = GpuInit::new();
    assert_eq!(init.task(), InitTask::Negotiate { supported: 0x1_3000_0001 });
    let features = FEATURE_RING_INDIRECT_DESC | FEATURE_VERSION_1;
    assert!(init.accepts(&InitReport::Negotiated { features }));
    init.resume(InitReport::Negotiated { features });
    assert_eq!(init.task(), InitTask::ReadConfig { offset: 0 });
    init.resume(InitReport::Config { word: Ok(5) });
    assert_eq!(init.task(), InitTask::ReadConfig { offset: 8 });
    init.resume(InitReport::Config { word: Ok(1) });
    assert_eq!(
        init.task(),
        InitTask::CreateQueue { index: 0, size: 16, indirect: true, event_idx: false }
    );
    assert!(!init.accepts(&InitReport::Finished));
    init.resume(InitReport::Queue { result: Ok(()) });
    assert_eq!(
        init.task(),
        InitTask::CreateQueue { index: 1, size: 16, indirect: true, event_idx: false }
    );
    init.resume(InitReport::Queue { result: Ok(()) });
    assert_eq!(init.task(), InitTask::Finish);
    init.resume(InitReport::Finished);
    assert_eq!(init.task(), InitTask::Done { result: Ok(()) });
    assert_eq!((init.events_read, init.num_scanouts), (5, 1));
}

#[test]
fn initialization_fails_with_the_device() {
    let mut init = GpuInit::new();
    init.resume(InitReport::Negotiated { features: 0 });
    init.resume(InitReport::Config { word: Err(Error::ConfigError) });
    assert_eq!(init.task(), InitTask::Done { result: Err(Error::ConfigError) });

    let mut init = GpuInit::new();
    init.resume(InitReport::Negotiated { features: 0 });
    init.resume(InitReport::Config { word: Ok(0) });
    init.resume(InitReport::Config { word: Ok(1) });
    init.resume(InitReport::Queue { result: Ok(()) });
    init.resume(InitReport::Queue { result: Err(Error::InvalidParam) });
    assert_eq!(init.task(), InitTask::Done { result: Err(Error::InvalidParam) });
}

#[test]
fn features_are_bits() {
    assert_eq!(
        SUPPORTED_FEATURES,
        FEATURE_VIRGL | FEATURE_RING_INDIRECT_DESC | FEATURE_RING_EVENT_IDX | FEATURE_VERSION_1
    );
    assert_eq!(FEATURE_RING_INDIRECT_DESC, 1 << 28);
    assert_eq!(FEATURE_RING_EVENT_IDX, 1 << 29);
    assert_eq!(FEATURE_VERSION_1, 1 << 32);
    assert!(contains(SUPPORTED_FEATURES, FEATURE_VIRGL));
    assert!(!contains(SUPPORTED_FEATURES, 2));
}

#[test]
fn submissions_carry_successive_fences() {
    let mut fences = FenceCounter::new();
    let mut gpus = [VirtIOGpu::new().unwrap(), VirtIOGpu::new().unwrap()];
    for (number, device) in [(1u32, 0usize), (2, 1), (3, 0)] {
        let gpu = &mut gpus[device];
        gpu.test_virgl();
        go_on(gpu, answer(OK_NODATA));
        go_on(gpu, display(64, 32));
        go_on(gpu, answer(OK_NODATA));
        go_on(gpu, answer(OK_NODATA));
        go_on(gpu, answer(OK_NODATA));
        go_on(gpu, fences.scaled(32.0f32.to_bits(), 16.0f32.to_bits()));
        assert_eq!(sent(gpu, 8), vec![0x207, 1, number, 0, 1, 0, 108, 0]);
        // Refused or not, the next submission has the next fence.
        let step = go_on(gpu, answer(0x1200));
        assert_eq!(result_of(&step), Err(Error::IoError));
    }
}

#[test]
fn any_commands_are_submitted_to_any_context() {
    let mut gpu = VirtIOGpu::new().unwrap();
    let commands = [1u8, 2, 3, 4, 5, 6, 7];
    let step = gpu.submit_3d(9, 0x1_0000_0002, &commands);
    assert_eq!(sent(&gpu, 8), vec![0x207, 1, 2, 1, 9, 0, 7, 0]);
    assert_eq!(step.release, None);
    assert!(matches!(
        &step.action,
        Action::Control { header_len: 32, data: Some(data) } if data.as_slice() == commands
    ));
    assert!(!gpu.is_idle());
    let step = go_on(&mut gpu, answer(OK_NODATA));
    assert_eq!(result_of(&step), Ok(Outcome::Done));
    assert!(gpu.is_idle());

    // Without commands, and refused.
    gpu.submit_3d(10, 3, &[]);
    assert_eq!(sent(&gpu, 8), vec![0x207, 1, 3, 0, 10, 0, 0, 0]);
    let step = go_on(&mut gpu, answer(0x1200));
    assert_eq!(result_of(&step), Err(Error::IoError));
    gpu.submit_3d(10, 4, &commands);
    let step = go_on(&mut gpu, Event::Failed { error: Error::QueueError });
    assert_eq!(result_of(&step), Err(Error::QueueError));
}

#[test]
fn context_of_any_name_is_created() {
    let mut gpu = VirtIOGpu::new().unwrap();
    let name = b"teapot";
    let step = gpu.context_create(7, name);
    assert_eq!(sent(&gpu, 8), vec![0x200, 0, 0, 0, 7, 0, 6, 0]);
    assert_eq!(&gpu.send_buffer()[32..38], name);
    assert_eq!(&gpu.send_buffer()[38..96], &[0u8; 58]);
    assert!(matches!(
        &step.action,
        Action::Control { header_len: 96, data: Some(data) } if data.as_slice() == name
    ));
    let step = go_on(&mut gpu, answer(OK_NODATA));
    assert_eq!(result_of(&step), Ok(Outcome::Done));

    // Of a long name the request holds the start, and the data all of it.
    let long: Vec<u8> = (0..100).collect();
    let step = gpu.context_create(8, &long);
    assert_eq!(sent(&gpu, 8), vec![0x200, 0, 0, 0, 8, 0, 100, 0]);
    assert_eq!(&gpu.send_buffer()[32..96], &long[..64]);
    assert!(matches!(
        &step.action,
        Action::Control { header_len: 96, data: Some(data) } if *data == long
    ));
    let step = go_on(&mut gpu, answer(OK_DISPLAY_INFO));
    assert_eq!(result_of(&step), Err(Error::IoError));
}
