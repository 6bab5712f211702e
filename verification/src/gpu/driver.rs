//! The driver itself.
//!
//! A method that starts an operation returns its first step. The caller does what the
//! step says and hands what came of it to [`VirtIOGpu::resume`], which returns the next
//! step, until one finishes the operation.

use crate::bytes::{
    first_words, new_box_zeroed, overwrite_prefix, read_from_prefix, read_u32, write_to_prefix,
};
use crate::error::Error;
use crate::gpu::exchange;
use crate::gpu::model::{
    data_requests_fit, follows, message_fits, pages_for, pixel_bytes, react_keeps_wf,
    test_context_name, test_stream, Action, CursorPlace, DmaRegion, Event, GpuState, Message, Move,
    Outcome, Pending, Reaction, Step, Transfer3D, CURSOR_BYTES, CURSOR_EXTENT, PAGE_SIZE,
    RESOURCE_ID_CURSOR, RESOURCE_ID_FB, SCANOUT_ID, SURFACE_ID_COLOR, VIRGL_BLUE, VIRGL_CTX,
    VIRGL_GREEN, VIRGL_RED, VIRGL_RESOURCE,
};
use crate::gpu::requests::{
    context_create, ctx_attach_resource, get_display_info, resource_attach_backing,
    resource_create_2d, resource_create_3d, resource_detach_backing, resource_flush,
    resource_unref, set_scanout, submit_3d, transfer_from_host_3d, transfer_to_host_2d,
    transfer_to_host_3d, update_cursor,
};
use crate::gpu::virgl::{
    encode_clear_color, encode_create_surface, encode_set_framebuffer_state,
    encode_set_viewport_full, F32_ONE, VIRGL_OBJECT_NULL,
};
use crate::gpu::wire::{
    CtrlHeader, Rect, RespDisplayInfo, MOVE_CURSOR, OK_DISPLAY_INFO, OK_NODATA,
    TRANSFER_TO_HOST_2D,
};
use vstd::prelude::*;

verus! {

/// The driver of a VirtIO GPU.
///
/// It can operate in 2D mode and in 3D (virgl) mode, in which rendering is left to the
/// host.
pub struct VirtIOGpu {
    rect: Option<Rect>,
    frame_buffer_dma: Option<DmaRegion>,
    cursor_buffer_dma: Option<DmaRegion>,
    pending: Pending,
    queue_buf_send: Box<[u8]>,
    queue_buf_recv: Box<[u8]>,
}

impl View for VirtIOGpu {
    type V = GpuState;

    closed spec fn view(&self) -> GpuState {
        GpuState {
            rect: self.rect,
            frame_buffer: self.frame_buffer_dma,
            cursor_buffer: self.cursor_buffer_dma,
            pending: self.pending,
            send: self.queue_buf_send@,
            recv: self.queue_buf_recv@,
        }
    }
}

/// The number of pages that hold `size` bytes.
pub fn pages(size: u32) -> (count: usize)
    ensures
        count == pages_for(size as int),
{
    ((size as u64 + 4095) / 4096) as usize
}

/// The number of bytes of a framebuffer.
fn framebuffer_size(rect: &Rect) -> (size: u32)
    requires
        pixel_bytes(*rect) <= u32::MAX,
    ensures
        size == pixel_bytes(*rect),
{
    let width = rect.width;
    let height = rect.height;
    assert(width * height <= u32::MAX) by (nonlinear_arith)
        requires
            width * height * 4 <= u32::MAX,
    ;
    width * height * 4
}

/// Whether the size of a framebuffer fits in its request.
pub fn size_is_representable(rect: &Rect) -> (fits: bool)
    ensures
        fits == (pixel_bytes(*rect) <= u32::MAX),
{
    let width = rect.width as u64;
    let height = rect.height as u64;
    assert(width * height <= 0xffff_ffff * 0xffff_ffff) by (nonlinear_arith)
        requires
            width <= 0xffff_ffff,
            height <= 0xffff_ffff,
    ;
    width * height <= 0x3fff_ffff
}

/// Encodes the command stream of the virgl test.
fn encode_test_stream(half_width: u32, half_height: u32) -> (commands: Vec<u8>)
    ensures
        commands@ == test_stream(half_width, half_height),
{
    let mut commands: Vec<u8> = Vec::new();
    encode_create_surface(&mut commands, SURFACE_ID_COLOR, VIRGL_RESOURCE, 1);
    encode_set_framebuffer_state(&mut commands, SURFACE_ID_COLOR, VIRGL_OBJECT_NULL);
    encode_set_viewport_full(&mut commands, half_width, half_height);
    encode_clear_color(&mut commands, VIRGL_RED, VIRGL_GREEN, VIRGL_BLUE, F32_ONE);
    assert(commands@ =~= test_stream(half_width, half_height));
    commands
}

impl VirtIOGpu {
    /// Creates a driver with empty message buffers. Fails if there is no memory for them.
    pub fn new() -> (gpu: Result<VirtIOGpu, Error>)
        ensures
            gpu matches Ok(driver) ==> driver@ == GpuState::initial() && driver@.wf(),
            gpu matches Err(error) ==> error == Error::OutOfMemory,
    {
        let send = new_box_zeroed(PAGE_SIZE);
        let recv = new_box_zeroed(PAGE_SIZE);
        Self::with_buffers(send, recv)
    }

    /// Creates a driver with the given message buffers of a page each, if both could be
    /// allocated.
    pub fn with_buffers(
        send: Result<Box<[u8]>, zerocopy::AllocError>,
        recv: Result<Box<[u8]>, zerocopy::AllocError>,
    ) -> (gpu: Result<VirtIOGpu, Error>)
        requires
            send matches Ok(buffer) ==> buffer@.len() == PAGE_SIZE,
            recv matches Ok(buffer) ==> buffer@.len() == PAGE_SIZE,
        ensures
            match (send, recv) {
                (Ok(send), Ok(recv)) => gpu matches Ok(driver) && driver@ == (GpuState {
                    send: send@,
                    recv: recv@,
                    ..GpuState::initial()
                }) && driver@.wf(),
                _ => gpu == Err::<VirtIOGpu, Error>(Error::OutOfMemory),
            },
    {
        let queue_buf_send = match send {
            Ok(buffer) => buffer,
            Err(_) => {
                return Err(Error::OutOfMemory);
            },
        };
        let queue_buf_recv = match recv {
            Ok(buffer) => buffer,
            Err(_) => {
                return Err(Error::OutOfMemory);
            },
        };
        Ok(
            VirtIOGpu {
                rect: None,
                frame_buffer_dma: None,
                cursor_buffer_dma: None,
                pending: Pending::Idle,
                queue_buf_send,
                queue_buf_recv,
            },
        )
    }

    /// The send buffer.
    pub fn send_buffer(&self) -> (buffer: &[u8])
        ensures
            buffer@ == self@.send,
    {
        &self.queue_buf_send
    }

    /// Puts a request at the start of the send buffer and waits.
    fn send_plain(&mut self, pending: Pending, header: Vec<u8>, release: Option<DmaRegion>) -> (step:
        Step)
        requires
            old(self)@.send.len() == PAGE_SIZE,
            pending.message() == (Message::Plain { header: header@ }),
        ensures
            follows(final(self)@, step, old(self)@.enter(pending, release)),
    {
        proof {
            message_fits(pending);
        }
        let written = write_to_prefix(&header, &mut self.queue_buf_send);
        assert(written);
        self.pending = pending;
        Step { release, action: Action::Control { header_len: PAGE_SIZE, data: None } }
    }

    /// Puts a request at the start of the send buffer, to be followed by data, and
    /// waits.
    fn send_with_data(
        &mut self,
        pending: Pending,
        header: Vec<u8>,
        data: Vec<u8>,
        release: Option<DmaRegion>,
    ) -> (step: Step)
        requires
            old(self)@.send.len() == PAGE_SIZE,
            pending.message() == (Message::WithData { header: header@, data: data@ }),
        ensures
            follows(final(self)@, step, old(self)@.enter(pending, release)),
    {
        proof {
            message_fits(pending);
        }
        let written = write_to_prefix(&header, &mut self.queue_buf_send);
        assert(written);
        self.pending = pending;
        Step { release, action: Action::Control { header_len: header.len(), data: Some(data) } }
    }

    /// Puts a cursor request at the start of the send buffer and waits.
    fn send_pointer(&mut self, pending: Pending, header: Vec<u8>) -> (step: Step)
        requires
            old(self)@.send.len() == PAGE_SIZE,
            pending.message() == (Message::Pointer { header: header@ }),
        ensures
            follows(final(self)@, step, old(self)@.enter(pending, None)),
    {
        proof {
            message_fits(pending);
        }
        let written = write_to_prefix(&header, &mut self.queue_buf_send);
        assert(written);
        self.pending = pending;
        Step { release: None, action: Action::Cursor }
    }

    /// Starts or continues an operation: asks for what `pending` waits for.
    fn enter(&mut self, pending: Pending, release: Option<DmaRegion>) -> (step: Step)
        requires
            old(self)@.send.len() == PAGE_SIZE,
            pending.is_cursor() ==> release is None,
            (GpuState { pending, frame_buffer: None, ..old(self)@ }).wf(),
        ensures
            follows(final(self)@, step, old(self)@.enter(pending, release)),
    {
        match pending {
            Pending::Idle | Pending::Answer => {
                self.pending = pending;
                Step { release, action: Action::Finish { result: Ok(Outcome::Done) } }
            },
            Pending::Resolution | Pending::SetupInfo | Pending::VirglInfo => self.send_plain(
                pending,
                get_display_info(),
                release,
            ),
            Pending::SetupScanoutOff { shown, .. } => self.send_plain(
                pending,
                set_scanout(shown, SCANOUT_ID, 0),
                release,
            ),
            Pending::SetupDetach { .. } => self.send_plain(
                pending,
                resource_detach_backing(RESOURCE_ID_FB),
                release,
            ),
            Pending::SetupUnref { .. } => self.send_plain(
                pending,
                resource_unref(RESOURCE_ID_FB),
                release,
            ),
            Pending::SetupCreate { rect } => self.send_plain(
                pending,
                resource_create_2d(RESOURCE_ID_FB, rect.width, rect.height),
                release,
            ),
            Pending::SetupAlloc { rect } => {
                self.pending = pending;
                Step {
                    release,
                    action: Action::Allocate {
                        pages: pages(framebuffer_size(&rect)),
                        contents: Vec::new(),
                    },
                }
            },
            Pending::SetupAttach { rect, region } => self.send_plain(
                pending,
                resource_attach_backing(RESOURCE_ID_FB, region.paddr, framebuffer_size(&rect)),
                release,
            ),
            Pending::SetupScanout { rect, .. } => self.send_plain(
                pending,
                set_scanout(rect, SCANOUT_ID, RESOURCE_ID_FB),
                release,
            ),
            Pending::FlushTransfer { rect } => self.send_plain(
                pending,
                transfer_to_host_2d(rect, 0, RESOURCE_ID_FB),
                release,
            ),
            Pending::FlushShow { rect } => self.send_plain(
                pending,
                resource_flush(rect, RESOURCE_ID_FB),
                release,
            ),
            Pending::CursorAlloc { .. } => {
                self.pending = pending;
                Step {
                    release,
                    action: Action::Allocate { pages: pages(CURSOR_BYTES), contents: Vec::new() },
                }
            },
            Pending::CursorCreate { .. } => self.send_plain(
                pending,
                resource_create_2d(RESOURCE_ID_CURSOR, CURSOR_EXTENT, CURSOR_EXTENT),
                release,
            ),
            Pending::CursorAttach { region, .. } => self.send_plain(
                pending,
                resource_attach_backing(RESOURCE_ID_CURSOR, region.paddr, CURSOR_BYTES),
                release,
            ),
            Pending::CursorTransfer { .. } => {
                let whole = Rect { x: 0, y: 0, width: CURSOR_EXTENT, height: CURSOR_EXTENT };
                self.send_plain(
                    pending,
                    transfer_to_host_2d(whole, 0, RESOURCE_ID_CURSOR),
                    release,
                )
            },
            Pending::CursorShow { place, .. } => self.send_pointer(
                pending,
                update_cursor(
                    RESOURCE_ID_CURSOR,
                    SCANOUT_ID,
                    place.pos_x,
                    place.pos_y,
                    place.hot_x,
                    place.hot_y,
                    false,
                ),
            ),
            Pending::CursorMove { x, y } => self.send_pointer(
                pending,
                update_cursor(RESOURCE_ID_CURSOR, SCANOUT_ID, x, y, 0, 0, true),
            ),
            Pending::VirglContext => {
                let name = [0x74u8, 0x65u8, 0x73u8, 0x74u8, 0x5fu8, 0x63u8, 0x74u8, 0x78u8];
                let mut data: Vec<u8> = Vec::new();
                data.extend_from_slice(&name);
                assert(name@ =~= test_context_name());
                assert(data@ =~= test_context_name());
                self.send_with_data(pending, context_create(VIRGL_CTX, &name), data, release)
            },
            Pending::VirglCreate { width, height } => self.send_plain(
                pending,
                resource_create_3d(VIRGL_RESOURCE, 2, 1, 3, width, height, 1, 1, 0, 0, 0),
                release,
            ),
            Pending::VirglAttach { .. } => self.send_plain(
                pending,
                ctx_attach_resource(VIRGL_CTX, VIRGL_RESOURCE),
                release,
            ),
            Pending::VirglScanout { width, height } => self.send_plain(
                pending,
                set_scanout(Rect { x: 0, y: 0, width, height }, SCANOUT_ID, VIRGL_RESOURCE),
                release,
            ),
            Pending::VirglScale { width, height } => {
                self.pending = pending;
                Step { release, action: Action::Scale { width, height } }
            },
            Pending::VirglSubmit { half_width, half_height, fence, .. } => {
                let commands = encode_test_stream(half_width, half_height);
                let header = submit_3d(VIRGL_CTX, fence, commands.len() as u32);
                self.send_with_data(pending, header, commands, release)
            },
            Pending::VirglFlush { width, height } => self.send_plain(
                pending,
                resource_flush(Rect { x: 0, y: 0, width, height }, VIRGL_RESOURCE),
                release,
            ),
            Pending::ToHost { transfer } => self.send_plain(
                pending,
                transfer_to_host_3d(
                    transfer.box_3d,
                    transfer.offset,
                    transfer.resource_id,
                    transfer.level,
                    transfer.stride,
                    transfer.layer_stride,
                ),
                release,
            ),
            Pending::FromHost { transfer } => self.send_plain(
                pending,
                transfer_from_host_3d(
                    transfer.box_3d,
                    transfer.offset,
                    transfer.resource_id,
                    transfer.level,
                    transfer.stride,
                    transfer.layer_stride,
                ),
                release,
            ),
        }
    }

    /// Ends the operation under way.
    fn finish(&mut self, result: Result<Outcome, Error>, release: Option<DmaRegion>) -> (step: Step)
        ensures
            follows(final(self)@, step, old(self)@.finish(result, release)),
    {
        self.pending = Pending::Idle;
        Step { release, action: Action::Finish { result } }
    }

    /// The memory that the operation under way has to give back if it fails.
    fn unclaimed(&self) -> (region: Option<DmaRegion>)
        ensures
            region == self@.pending.region(),
    {
        match self.pending {
            Pending::SetupAttach { region, .. } => Some(region),
            Pending::SetupScanout { region, .. } => Some(region),
            Pending::CursorCreate { region, .. } => Some(region),
            Pending::CursorAttach { region, .. } => Some(region),
            Pending::CursorTransfer { region, .. } => Some(region),
            Pending::CursorShow { region, .. } => Some(region),
            _ => None,
        }
    }

    /// The header of the last answer.
    fn reply_header(&self) -> (header: CtrlHeader)
        requires
            self@.recv.len() == PAGE_SIZE,
        ensures
            header == CtrlHeader::decoded(self@.recv),
    {
        match read_from_prefix::<24>(&self.queue_buf_recv) {
            Some(bytes) => CtrlHeader::decode(&bytes),
            None => CtrlHeader::with_type(0),
        }
    }

    /// The display that the last answer describes.
    fn reply_display(&self) -> (rect: Rect)
        requires
            self@.recv.len() == PAGE_SIZE,
        ensures
            rect == self@.display(),
    {
        match read_from_prefix::<48>(&self.queue_buf_recv) {
            Some(bytes) => RespDisplayInfo::decode(&bytes).rect,
            None => Rect { x: 0, y: 0, width: 0, height: 0 },
        }
    }

    /// Starts the new framebuffer.
    fn create(&mut self, rect: Rect, release: Option<DmaRegion>) -> (step: Step)
        requires
            old(self)@.send.len() == PAGE_SIZE,
            old(self)@.recv.len() == PAGE_SIZE,
        ensures
            follows(final(self)@, step, old(self)@.create(rect, release)),
    {
        self.rect = Some(rect);
        self.enter(Pending::SetupCreate { rect }, release)
    }

    /// Goes on when what the driver waits for has come.
    fn proceed(&mut self, event: &Event) -> (step: Step)
        requires
            old(self)@.wf(),
            old(self)@.pending matches Pending::SetupCreate { rect } ==> pixel_bytes(rect)
                <= u32::MAX,
        ensures
            follows(final(self)@, step, old(self)@.proceed(event@)),
    {
        match self.pending {
            Pending::Resolution => {
                let display = self.reply_display();
                self.finish(
                    Ok(Outcome::Resolution { width: display.width, height: display.height }),
                    None,
                )
            },
            Pending::SetupInfo => {
                let display = self.reply_display();
                match self.frame_buffer_dma {
                    Some(_) => {
                        let shown = match self.rect {
                            Some(rect) => rect,
                            None => display,
                        };
                        self.enter(Pending::SetupScanoutOff { shown, next: display }, None)
                    },
                    None => self.create(display, None),
                }
            },
            Pending::SetupScanoutOff { next, .. } => self.enter(
                Pending::SetupDetach { next },
                None,
            ),
            Pending::SetupDetach { next } => self.enter(Pending::SetupUnref { next }, None),
            Pending::SetupUnref { next } => {
                let old_buffer = self.frame_buffer_dma;
                self.frame_buffer_dma = None;
                self.create(next, old_buffer)
            },
            Pending::SetupCreate { rect } => self.enter(Pending::SetupAlloc { rect }, None),
            Pending::SetupAlloc { rect } => match event {
                Event::Allocated { paddr } => {
                    let region = DmaRegion {
                        paddr: *paddr,
                        pages: pages(framebuffer_size(&rect)),
                    };
                    self.enter(Pending::SetupAttach { rect, region }, None)
                },
                _ => self.finish(Err(Error::DmaError), None),
            },
            Pending::SetupAttach { rect, region } => self.enter(
                Pending::SetupScanout { rect, region },
                None,
            ),
            Pending::SetupScanout { region, .. } => {
                self.frame_buffer_dma = Some(region);
                self.finish(Ok(Outcome::Framebuffer { region }), None)
            },
            Pending::FlushTransfer { rect } => self.enter(Pending::FlushShow { rect }, None),
            Pending::CursorAlloc { place } => match event {
                Event::Allocated { paddr } => {
                    let region = DmaRegion { paddr: *paddr, pages: pages(CURSOR_BYTES) };
                    self.enter(Pending::CursorCreate { place, region }, None)
                },
                _ => self.finish(Err(Error::DmaError), None),
            },
            Pending::CursorCreate { place, region } => self.enter(
                Pending::CursorAttach { place, region },
                None,
            ),
            Pending::CursorAttach { place, region } => self.enter(
                Pending::CursorTransfer { place, region },
                None,
            ),
            Pending::CursorTransfer { place, region } => self.enter(
                Pending::CursorShow { place, region },
                None,
            ),
            Pending::CursorShow { region, .. } => {
                let old_buffer = self.cursor_buffer_dma;
                self.cursor_buffer_dma = Some(region);
                self.finish(Ok(Outcome::Done), old_buffer)
            },
            Pending::VirglContext => self.enter(Pending::VirglInfo, None),
            Pending::VirglInfo => {
                let display = self.reply_display();
                self.enter(
                    Pending::VirglCreate { width: display.width, height: display.height },
                    None,
                )
            },
            Pending::VirglCreate { width, height } => self.enter(
                Pending::VirglAttach { width, height },
                None,
            ),
            Pending::VirglAttach { width, height } => self.enter(
                Pending::VirglScanout { width, height },
                None,
            ),
            Pending::VirglScanout { width, height } => self.enter(
                Pending::VirglScale { width, height },
                None,
            ),
            Pending::VirglScale { width, height } => match event {
                Event::Scaled { half_width, half_height, fence } => self.enter(
                    Pending::VirglSubmit {
                        width,
                        height,
                        half_width: *half_width,
                        half_height: *half_height,
                        fence: *fence,
                    },
                    None,
                ),
                _ => self.finish(Err(Error::IoError), None),
            },
            Pending::VirglSubmit { width, height, .. } => self.enter(
                Pending::VirglFlush { width, height },
                None,
            ),
            Pending::FlushShow { .. }
            | Pending::CursorMove { .. }
            | Pending::VirglFlush { .. }
            | Pending::ToHost { .. }
            | Pending::FromHost { .. }
            | Pending::Answer
            | Pending::Idle => self.finish(Ok(Outcome::Done), None),
        }
    }

    /// Continues the operation under way with what came of the last step.
    pub fn resume(&mut self, event: Event) -> (step: Step)
        requires
            old(self)@.wf(),
            old(self)@.accepts(event@),
        ensures
            follows(final(self)@, step, old(self)@.react(event@)),
            final(self)@.wf(),
    {
        proof {
            react_keeps_wf(self@, event@);
        }
        if let Event::Replied { bytes } = &event {
            let written = write_to_prefix(bytes, &mut self.queue_buf_recv);
            assert(written);
        }
        let teardown = matches!(
            self.pending,
            Pending::SetupScanoutOff { .. } | Pending::SetupDetach { .. }
                | Pending::SetupUnref { .. }
        );
        if !teardown {
            match &event {
                Event::Failed { error } => {
                    let region = self.unclaimed();
                    return self.finish(Err(*error), region);
                },
                Event::Replied { .. } => {
                    let expected = match self.pending {
                        Pending::Resolution | Pending::SetupInfo | Pending::VirglInfo =>
                            OK_DISPLAY_INFO,
                        _ => OK_NODATA,
                    };
                    if let Err(error) = self.reply_header().check_type(expected) {
                        let region = self.unclaimed();
                        return self.finish(Err(error), region);
                    }
                },
                _ => {},
            }
        }
        self.proceed(&event)
    }

    /// Asks for the resolution of the display.
    pub fn resolution(&mut self) -> (step: Step)
        requires
            old(self)@.wf(),
            old(self)@.pending is Idle,
        ensures
            follows(final(self)@, step, old(self)@.enter(Pending::Resolution, None)),
            final(self)@.wf(),
    {
        proof {
            message_fits(Pending::Resolution);
        }
        self.enter(Pending::Resolution, None)
    }

    /// Sets up a framebuffer of the size of the display. An earlier framebuffer is taken
    /// down first.
    pub fn setup_framebuffer(&mut self) -> (step: Step)
        requires
            old(self)@.wf(),
            old(self)@.pending is Idle,
        ensures
            follows(final(self)@, step, old(self)@.enter(Pending::SetupInfo, None)),
            final(self)@.wf(),
    {
        proof {
            message_fits(Pending::SetupInfo);
        }
        self.enter(Pending::SetupInfo, None)
    }

    /// Brings the framebuffer to the screen. Fails if there is none.
    pub fn flush(&mut self) -> (step: Step)
        requires
            old(self)@.wf(),
            old(self)@.pending is Idle,
        ensures
            match old(self)@.rect {
                Some(rect) => follows(
                    final(self)@,
                    step,
                    old(self)@.enter(Pending::FlushTransfer { rect }, None),
                ),
                None => follows(final(self)@, step, old(self)@.finish(Err(Error::NotReady), None)),
            },
            old(self)@.rect matches Some(rect) ==> first_words(final(self)@.send, 14) == seq![
                TRANSFER_TO_HOST_2D, 0u32, 0u32, 0u32, 0u32, 0u32, rect.x, rect.y, rect.width,
                rect.height, 0u32, 0u32, RESOURCE_ID_FB, 0u32,
            ],
            final(self)@.wf(),
    {
        match self.rect {
            Some(rect) => {
                proof {
                    message_fits(Pending::FlushTransfer { rect });
                    exchange::flush_copies_the_whole_framebuffer(self@, rect, None);
                }
                self.enter(Pending::FlushTransfer { rect }, None)
            },
            None => self.finish(Err(Error::NotReady), None),
        }
    }

    /// Sets the shape and the position of the pointer. The image has to have the size of
    /// the pointer.
    pub fn setup_cursor(
        &mut self,
        cursor_image: &[u8],
        pos_x: u32,
        pos_y: u32,
        hot_x: u32,
        hot_y: u32,
    ) -> (step: Step)
        requires
            old(self)@.wf(),
            old(self)@.pending is Idle,
        ensures
            cursor_image@.len() != CURSOR_BYTES ==> follows(
                final(self)@,
                step,
                old(self)@.finish(Err(Error::InvalidParam), None),
            ),
            cursor_image@.len() == CURSOR_BYTES ==> follows(
                final(self)@,
                step,
                (Reaction {
                    state: GpuState {
                        pending: Pending::CursorAlloc {
                            place: CursorPlace { pos_x, pos_y, hot_x, hot_y },
                        },
                        ..old(self)@
                    },
                    release: None,
                    action: Move::Allocate {
                        pages: pages_for(CURSOR_BYTES as int) as nat,
                        contents: cursor_image@,
                    },
                }),
            ),
            final(self)@.wf(),
    {
        let size = CURSOR_EXTENT * CURSOR_EXTENT * 4;
        if cursor_image.len() != size as usize {
            return self.finish(Err(Error::InvalidParam), None);
        }
        self.pending =
        Pending::CursorAlloc { place: CursorPlace { pos_x, pos_y, hot_x, hot_y } };
        let mut contents: Vec<u8> = Vec::new();
        contents.extend_from_slice(cursor_image);
        assert(contents@ =~= cursor_image@);
        Step { release: None, action: Action::Allocate { pages: pages(size), contents } }
    }

    /// Moves the pointer without a change of its shape.
    pub fn move_cursor(&mut self, pos_x: u32, pos_y: u32) -> (step: Step)
        requires
            old(self)@.wf(),
            old(self)@.pending is Idle,
        ensures
            follows(
                final(self)@,
                step,
                old(self)@.enter(Pending::CursorMove { x: pos_x, y: pos_y }, None),
            ),
            first_words(final(self)@.send, 14) == seq![
                MOVE_CURSOR, 0u32, 0u32, 0u32, 0u32, 0u32, 0u32, pos_x, pos_y, 0u32,
                RESOURCE_ID_CURSOR, 0u32, 0u32, 0u32,
            ],
            final(self)@.wf(),
    {
        proof {
            message_fits(Pending::CursorMove { x: pos_x, y: pos_y });
            exchange::pointer_is_moved(self@, pos_x, pos_y, None);
        }
        self.enter(Pending::CursorMove { x: pos_x, y: pos_y }, None)
    }

    /// Renders one frame of a single color with virgl and shows it.
    pub fn test_virgl(&mut self) -> (step: Step)
        requires
            old(self)@.wf(),
            old(self)@.pending is Idle,
        ensures
            follows(final(self)@, step, old(self)@.enter(Pending::VirglContext, None)),
            final(self)@.wf(),
    {
        proof {
            message_fits(Pending::VirglContext);
        }
        self.enter(Pending::VirglContext, None)
    }

    /// Sends a request with data and waits for the answer.
    fn request_with_data(&mut self, header: Vec<u8>, data: &[u8]) -> (step: Step)
        requires
            old(self)@.wf(),
            old(self)@.pending is Idle,
            header@.len() <= PAGE_SIZE,
        ensures
            follows(final(self)@, step, old(self)@.request_with_data(header@, data@)),
            final(self)@.wf(),
    {
        let written = write_to_prefix(&header, &mut self.queue_buf_send);
        assert(written);
        self.pending = Pending::Answer;
        let mut sent: Vec<u8> = Vec::new();
        sent.extend_from_slice(data);
        assert(sent@ =~= data@);
        Step {
            release: None,
            action: Action::Control { header_len: header.len(), data: Some(sent) },
        }
    }

    /// Creates a rendering context.
    pub fn context_create(&mut self, ctx_id: u32, name: &[u8]) -> (step: Step)
        requires
            old(self)@.wf(),
            old(self)@.pending is Idle,
        ensures
            follows(final(self)@, step, old(self)@.context_create(ctx_id, name@)),
            final(self)@.wf(),
    {
        proof {
            data_requests_fit(ctx_id, 0, 0, name@);
        }
        self.request_with_data(context_create(ctx_id, name), name)
    }

    /// Submits a command stream to a rendering context, under a fence.
    pub fn submit_3d(&mut self, ctx_id: u32, fence: u64, commands: &[u8]) -> (step: Step)
        requires
            old(self)@.wf(),
            old(self)@.pending is Idle,
        ensures
            follows(final(self)@, step, old(self)@.submit_3d(ctx_id, fence, commands@)),
            final(self)@.wf(),
    {
        proof {
            data_requests_fit(ctx_id, fence, commands@.len() as u32, Seq::empty());
        }
        self.request_with_data(submit_3d(ctx_id, fence, commands.len() as u32), commands)
    }

    /// Copies texels to the host.
    pub fn transfer_to_host_3d(&mut self, transfer: Transfer3D) -> (step: Step)
        requires
            old(self)@.wf(),
            old(self)@.pending is Idle,
        ensures
            follows(final(self)@, step, old(self)@.enter(Pending::ToHost { transfer }, None)),
            final(self)@.wf(),
    {
        proof {
            message_fits(Pending::ToHost { transfer });
        }
        self.enter(Pending::ToHost { transfer }, None)
    }

    /// Copies texels from the host.
    pub fn transfer_from_host_3d(&mut self, transfer: Transfer3D) -> (step: Step)
        requires
            old(self)@.wf(),
            old(self)@.pending is Idle,
        ensures
            follows(final(self)@, step, old(self)@.enter(Pending::FromHost { transfer }, None)),
            final(self)@.wf(),
    {
        proof {
            message_fits(Pending::FromHost { transfer });
        }
        self.enter(Pending::FromHost { transfer }, None)
    }

    /// Whether the driver can be resumed with an event.
    pub fn accepts(&self, event: &Event) -> (accepted: bool)
        requires
            self@.wf(),
        ensures
            accepted == self@.accepts(event@),
    {
        let is_alloc = matches!(
            self.pending,
            Pending::SetupAlloc { .. } | Pending::CursorAlloc { .. }
        );
        let is_cursor = matches!(
            self.pending,
            Pending::CursorShow { .. } | Pending::CursorMove { .. }
        );
        let is_scale = matches!(self.pending, Pending::VirglScale { .. });
        match event {
            Event::Replied { bytes } => {
                if self.is_idle() || is_scale || is_alloc || is_cursor || bytes.len() > PAGE_SIZE {
                    return false;
                }
                if let Pending::SetupCreate { rect } = self.pending {
                    let created = self.type_after(bytes) == OK_NODATA;
                    !created || size_is_representable(&rect)
                } else {
                    true
                }
            },
            Event::Sent => is_cursor,
            Event::Failed { .. } => !self.is_idle() && !is_scale,
            Event::Allocated { .. } => is_alloc,
            Event::Scaled { .. } => is_scale,
        }
    }

    /// The type that the last answer would have after an answer of these bytes.
    fn type_after(&self, bytes: &Vec<u8>) -> (hdr_type: u32)
        requires
            bytes@.len() <= PAGE_SIZE,
            self@.recv.len() == PAGE_SIZE,
        ensures
            hdr_type == CtrlHeader::decoded(overwrite_prefix(self@.recv, bytes@)).hdr_type,
    {
        let mut head: Vec<u8> = Vec::new();
        let mut k: usize = 0;
        while k < 4
            invariant
                k <= 4,
                head@.len() == k,
                bytes@.len() <= PAGE_SIZE,
                self@.recv.len() == PAGE_SIZE,
                forall|i: int|
                    0 <= i < k ==> #[trigger] head@[i] == overwrite_prefix(self@.recv, bytes@)[i],
            decreases 4 - k,
        {
            let byte = if k < bytes.len() {
                bytes[k]
            } else {
                self.queue_buf_recv[k]
            };
            head.push(byte);
            k = k + 1;
        }
        read_u32(&head, 0)
    }

    /// Whether no operation is under way.
    pub fn is_idle(&self) -> (idle: bool)
        ensures
            idle == (self@.pending is Idle),
    {
        matches!(self.pending, Pending::Idle)
    }
}

} // verus!
