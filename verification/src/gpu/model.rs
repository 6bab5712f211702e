//! What the driver does, step by step.
//!
//! An operation of the driver is a conversation with the device: a request, its
//! answer, the next request. While it waits, the driver remembers what it is waiting
//! for; that alone decides what is sent, which answer means success, and what comes
//! next.

use crate::bytes::{overwrite_prefix, words, words_len};
use crate::error::Error;
use crate::gpu::requests::{
    context_create_bytes, ctx_attach_resource_request, resource_attach_backing_request,
    resource_create_2d_request, resource_create_3d_request, resource_detach_backing_request,
    resource_flush_request, resource_unref_request, set_scanout_request, submit_3d_request,
    transfer_from_host_3d_request, transfer_to_host_2d_request, transfer_to_host_3d_request,
    update_cursor_request,
};
use crate::gpu::virgl::{
    clear_payload, command, framebuffer_payload, surface_payload, viewport_payload, F32_ONE,
    VIRGL_CCMD_CLEAR, VIRGL_CCMD_CREATE_OBJECT, VIRGL_CCMD_SET_FRAMEBUFFER_STATE,
    VIRGL_CCMD_SET_VIEWPORT_STATE, VIRGL_OBJECT_NULL, VIRGL_OBJECT_SURFACE,
};
use crate::gpu::wire::{
    Box3D, CtrlHeader, Rect, RespDisplayInfo, CTX_CREATE, GET_DISPLAY_INFO, OK_DISPLAY_INFO,
    OK_NODATA,
};
use vstd::prelude::*;

verus! {

/// The size of a page, and of the two message buffers.
pub const PAGE_SIZE: usize = 4096;

/// The scanout that the driver uses.
pub const SCANOUT_ID: u32 = 0;

/// The resource that holds the framebuffer.
pub const RESOURCE_ID_FB: u32 = 0xbabe;

/// The resource that holds the shape of the pointer.
pub const RESOURCE_ID_CURSOR: u32 = 0xdade;

/// The width and the height of the pointer.
pub const CURSOR_EXTENT: u32 = 64;

/// The number of bytes of a pointer image.
pub const CURSOR_BYTES: u32 = 16384;

/// The rendering context of the virgl test.
pub const VIRGL_CTX: u32 = 1;

/// The render target of the virgl test.
pub const VIRGL_RESOURCE: u32 = 0x2000;

/// The surface through which the virgl test renders.
pub const SURFACE_ID_COLOR: u32 = 0x2001;

/// The red component of the virgl test color, 0.094 in single precision.
pub const VIRGL_RED: u32 = 0x3dc0_8312;

/// The green component of the virgl test color, 0.416 in single precision.
pub const VIRGL_GREEN: u32 = 0x3ed4_fdf4;

/// The blue component of the virgl test color, 0.067 in single precision.
pub const VIRGL_BLUE: u32 = 0x3d89_374c;

/// A range of DMA memory: its physical address and its number of pages.
#[derive(Clone, Copy, Debug, PartialEq, Eq, Structural)]
pub struct DmaRegion {
    pub paddr: u64,
    pub pages: usize,
}

/// Where the pointer goes, and which of its pixels is the tip.
#[derive(Clone, Copy, Debug, PartialEq, Eq, Structural)]
pub struct CursorPlace {
    pub pos_x: u32,
    pub pos_y: u32,
    pub hot_x: u32,
    pub hot_y: u32,
}

/// What a three-dimensional transfer copies.
#[derive(Clone, Copy, Debug, PartialEq, Eq, Structural)]
pub struct Transfer3D {
    pub box_3d: Box3D,
    pub offset: u64,
    pub resource_id: u32,
    pub level: u32,
    pub stride: u32,
    pub layer_stride: u32,
}

/// What the driver is waiting for.
#[derive(Clone, Copy, Debug, PartialEq, Eq, Structural)]
pub enum Pending {
    /// Nothing: no operation is under way.
    Idle,
    /// The display information, for its resolution.
    Resolution,
    /// The display information, for a new framebuffer.
    SetupInfo,
    /// The end of the scanout of the old framebuffer.
    SetupScanoutOff { shown: Rect, next: Rect },
    /// The end of the backing of the old framebuffer.
    SetupDetach { next: Rect },
    /// The end of the old framebuffer resource.
    SetupUnref { next: Rect },
    /// The new framebuffer resource.
    SetupCreate { rect: Rect },
    /// The memory of the new framebuffer.
    SetupAlloc { rect: Rect },
    /// The backing of the new framebuffer.
    SetupAttach { rect: Rect, region: DmaRegion },
    /// The scanout of the new framebuffer.
    SetupScanout { rect: Rect, region: DmaRegion },
    /// The copy of the framebuffer to the host.
    FlushTransfer { rect: Rect },
    /// The display of what was copied.
    FlushShow { rect: Rect },
    /// The memory of the pointer image.
    CursorAlloc { place: CursorPlace },
    /// The pointer resource.
    CursorCreate { place: CursorPlace, region: DmaRegion },
    /// The backing of the pointer resource.
    CursorAttach { place: CursorPlace, region: DmaRegion },
    /// The copy of the pointer image to the host.
    CursorTransfer { place: CursorPlace, region: DmaRegion },
    /// The display of the new pointer.
    CursorShow { place: CursorPlace, region: DmaRegion },
    /// The display of the pointer at its new place.
    CursorMove { x: u32, y: u32 },
    /// The rendering context of the virgl test.
    VirglContext,
    /// The display information for the virgl test.
    VirglInfo,
    /// The render target of the virgl test.
    VirglCreate { width: u32, height: u32 },
    /// The render target's place in the rendering context.
    VirglAttach { width: u32, height: u32 },
    /// The scanout of the render target.
    VirglScanout { width: u32, height: u32 },
    /// Half the extents in single precision, and a fence.
    VirglScale { width: u32, height: u32 },
    /// The execution of the command stream.
    VirglSubmit { width: u32, height: u32, half_width: u32, half_height: u32, fence: u64 },
    /// The display of the rendered frame.
    VirglFlush { width: u32, height: u32 },
    /// A copy of texels to the host.
    ToHost { transfer: Transfer3D },
    /// A copy of texels from the host.
    FromHost { transfer: Transfer3D },
    /// The answer to a request whose data came with the call.
    Answer,
}

/// What a finished operation yields.
#[derive(Clone, Copy, Debug, PartialEq, Eq, Structural)]
pub enum Outcome {
    /// Nothing more than success.
    Done,
    /// The width and the height of the display.
    Resolution { width: u32, height: u32 },
    /// The memory of the framebuffer.
    Framebuffer { region: DmaRegion },
}

/// What the caller of the driver has to do next.
#[derive(Debug)]
pub enum Action {
    /// Send the first `header_len` bytes of the send buffer, and after them `data` if
    /// there is any, on the control queue; resume with the bytes of the answer.
    Control { header_len: usize, data: Option<Vec<u8>> },
    /// Send the send buffer on the cursor queue, which gives no answer.
    Cursor,
    /// Allocate zeroed DMA memory and copy `contents` to its start.
    Allocate { pages: usize, contents: Vec<u8> },
    /// Halve both extents in single precision and draw a fence.
    Scale { width: u32, height: u32 },
    /// Hand the result to whoever started the operation.
    Finish { result: Result<Outcome, Error> },
}

/// One step of an operation: memory that the driver no longer uses, to be freed, and
/// what to do next.
#[derive(Debug)]
pub struct Step {
    pub release: Option<DmaRegion>,
    pub action: Action,
}

/// What came of a step.
#[derive(Debug)]
pub enum Event {
    /// The device answered with these bytes.
    Replied { bytes: Vec<u8> },
    /// The device took the cursor command.
    Sent,
    /// The queue, or the allocation, failed.
    Failed { error: Error },
    /// The memory was allocated at this physical address.
    Allocated { paddr: u64 },
    /// The bit patterns of the halved extents, and a fence.
    Scaled { half_width: u32, half_height: u32, fence: u64 },
}

/// An event as the contracts speak of it.
pub ghost enum Stimulus {
    Replied { bytes: Seq<u8> },
    Sent,
    Failed { error: Error },
    Allocated { paddr: u64 },
    Scaled { half_width: u32, half_height: u32, fence: u64 },
}

/// An action as the contracts speak of it.
pub ghost enum Move {
    Control { header_len: nat, data: Option<Seq<u8>> },
    Cursor,
    Allocate { pages: nat, contents: Seq<u8> },
    Scale { width: u32, height: u32 },
    Finish { result: Result<Outcome, Error> },
}

impl View for Event {
    type V = Stimulus;

    open spec fn view(&self) -> Stimulus {
        match self {
            Event::Replied { bytes } => Stimulus::Replied { bytes: bytes@ },
            Event::Sent => Stimulus::Sent,
            Event::Failed { error } => Stimulus::Failed { error: *error },
            Event::Allocated { paddr } => Stimulus::Allocated { paddr: *paddr },
            Event::Scaled { half_width, half_height, fence } => Stimulus::Scaled {
                half_width: *half_width,
                half_height: *half_height,
                fence: *fence,
            },
        }
    }
}

impl View for Action {
    type V = Move;

    open spec fn view(&self) -> Move {
        match self {
            Action::Control { header_len, data } => Move::Control {
                header_len: *header_len as nat,
                data: match data {
                    Some(bytes) => Some(bytes@),
                    None => None,
                },
            },
            Action::Cursor => Move::Cursor,
            Action::Allocate { pages, contents } => Move::Allocate {
                pages: *pages as nat,
                contents: contents@,
            },
            Action::Scale { width, height } => Move::Scale { width: *width, height: *height },
            Action::Finish { result } => Move::Finish { result: *result },
        }
    }
}

/// The state of the driver as the contracts speak of it.
pub ghost struct GpuState {
    /// What the framebuffer shows.
    pub rect: Option<Rect>,
    /// The memory of the framebuffer.
    pub frame_buffer: Option<DmaRegion>,
    /// The memory of the pointer image.
    pub cursor_buffer: Option<DmaRegion>,
    /// What the driver is waiting for.
    pub pending: Pending,
    /// The send buffer.
    pub send: Seq<u8>,
    /// The receive buffer.
    pub recv: Seq<u8>,
}

/// A new state, and the step that led to it.
pub ghost struct Reaction {
    pub state: GpuState,
    pub release: Option<DmaRegion>,
    pub action: Move,
}

/// What goes out while the driver waits.
pub ghost enum Message {
    /// The whole send buffer, which starts with these bytes.
    Plain { header: Seq<u8> },
    /// These bytes, and the data after them.
    WithData { header: Seq<u8>, data: Seq<u8> },
    /// The whole send buffer, on the cursor queue.
    Pointer { header: Seq<u8> },
    /// A demand for memory.
    Memory { pages: nat },
    /// A demand for single-precision numbers.
    Numbers { width: u32, height: u32 },
    /// Nothing.
    Nothing,
}

/// The number of bytes that the pixels of a rectangle take.
pub open spec fn pixel_bytes(rect: Rect) -> int {
    rect.width * rect.height * 4
}

/// The number of pages that hold `size` bytes.
pub open spec fn pages_for(size: int) -> int {
    (size + PAGE_SIZE - 1) / PAGE_SIZE as int
}

/// The rectangle of the pointer image.
pub open spec fn cursor_rect() -> Rect {
    Rect { x: 0, y: 0, width: CURSOR_EXTENT, height: CURSOR_EXTENT }
}

/// A rectangle at the origin.
pub open spec fn origin_rect(width: u32, height: u32) -> Rect {
    Rect { x: 0, y: 0, width, height }
}

/// The name of the rendering context of the virgl test: "test_ctx".
pub open spec fn test_context_name() -> Seq<u8> {
    seq![0x74u8, 0x65u8, 0x73u8, 0x74u8, 0x5fu8, 0x63u8, 0x74u8, 0x78u8]
}

/// The command stream of the virgl test: it creates a surface, renders to it, makes
/// the viewport cover it and clears it to the test color.
pub open spec fn test_stream(half_width: u32, half_height: u32) -> Seq<u8> {
    command(
        VIRGL_CCMD_CREATE_OBJECT,
        VIRGL_OBJECT_SURFACE,
        surface_payload(SURFACE_ID_COLOR, VIRGL_RESOURCE, 1),
    ) + command(
        VIRGL_CCMD_SET_FRAMEBUFFER_STATE,
        0,
        framebuffer_payload(SURFACE_ID_COLOR, VIRGL_OBJECT_NULL),
    ) + command(
        VIRGL_CCMD_SET_VIEWPORT_STATE,
        0,
        viewport_payload(half_width, half_height),
    ) + command(
        VIRGL_CCMD_CLEAR,
        0,
        clear_payload(VIRGL_RED, VIRGL_GREEN, VIRGL_BLUE, F32_ONE),
    )
}

impl Pending {
    /// The memory that the operation under way has allocated and not yet handed over.
    pub open spec fn region(self) -> Option<DmaRegion> {
        match self {
            Pending::SetupAttach { region, .. } => Some(region),
            Pending::SetupScanout { region, .. } => Some(region),
            Pending::CursorCreate { region, .. } => Some(region),
            Pending::CursorAttach { region, .. } => Some(region),
            Pending::CursorTransfer { region, .. } => Some(region),
            Pending::CursorShow { region, .. } => Some(region),
            _ => None,
        }
    }

    /// The old framebuffer is being taken down, where failures do not matter.
    pub open spec fn is_teardown(self) -> bool {
        self is SetupScanoutOff || self is SetupDetach || self is SetupUnref
    }

    /// The old framebuffer is gone and the new one is not there yet.
    pub open spec fn is_rebuild(self) -> bool {
        self is SetupCreate || self is SetupAlloc || self is SetupAttach || self is SetupScanout
    }

    /// The driver waits for DMA memory.
    pub open spec fn is_alloc(self) -> bool {
        self is SetupAlloc || self is CursorAlloc
    }

    /// The driver waits for the cursor queue.
    pub open spec fn is_cursor(self) -> bool {
        self is CursorShow || self is CursorMove
    }

    /// The driver waits for an answer on the control queue.
    pub open spec fn is_control(self) -> bool {
        !(self is Idle) && !(self is VirglScale) && !self.is_alloc() && !self.is_cursor()
    }

    /// The type of the answer that means success.
    pub open spec fn expected(self) -> u32 {
        if self is Resolution || self is SetupInfo || self is VirglInfo {
            OK_DISPLAY_INFO
        } else {
            OK_NODATA
        }
    }

    /// What goes out while the driver waits.
    pub open spec fn message(self) -> Message {
        match self {
            Pending::Idle | Pending::Answer => Message::Nothing,
            Pending::Resolution | Pending::SetupInfo | Pending::VirglInfo => Message::Plain {
                header: words(CtrlHeader::of_type(GET_DISPLAY_INFO).words()),
            },
            Pending::SetupScanoutOff { shown, .. } => Message::Plain {
                header: words(set_scanout_request(shown, SCANOUT_ID, 0).words()),
            },
            Pending::SetupDetach { .. } => Message::Plain {
                header: words(resource_detach_backing_request(RESOURCE_ID_FB).words()),
            },
            Pending::SetupUnref { .. } => Message::Plain {
                header: words(resource_unref_request(RESOURCE_ID_FB).words()),
            },
            Pending::SetupCreate { rect } => Message::Plain {
                header: words(
                    resource_create_2d_request(RESOURCE_ID_FB, rect.width, rect.height).words(),
                ),
            },
            Pending::SetupAlloc { rect } => Message::Memory {
                pages: pages_for(pixel_bytes(rect)) as nat,
            },
            Pending::SetupAttach { rect, region } => Message::Plain {
                header: words(
                    resource_attach_backing_request(
                        RESOURCE_ID_FB,
                        region.paddr,
                        pixel_bytes(rect) as u32,
                    ).words(),
                ),
            },
            Pending::SetupScanout { rect, .. } => Message::Plain {
                header: words(set_scanout_request(rect, SCANOUT_ID, RESOURCE_ID_FB).words()),
            },
            Pending::FlushTransfer { rect } => Message::Plain {
                header: words(transfer_to_host_2d_request(rect, 0, RESOURCE_ID_FB).words()),
            },
            Pending::FlushShow { rect } => Message::Plain {
                header: words(resource_flush_request(rect, RESOURCE_ID_FB).words()),
            },
            Pending::CursorAlloc { .. } => Message::Memory {
                pages: pages_for(CURSOR_BYTES as int) as nat,
            },
            Pending::CursorCreate { .. } => Message::Plain {
                header: words(
                    resource_create_2d_request(
                        RESOURCE_ID_CURSOR,
                        CURSOR_EXTENT,
                        CURSOR_EXTENT,
                    ).words(),
                ),
            },
            Pending::CursorAttach { region, .. } => Message::Plain {
                header: words(
                    resource_attach_backing_request(
                        RESOURCE_ID_CURSOR,
                        region.paddr,
                        CURSOR_BYTES,
                    ).words(),
                ),
            },
            Pending::CursorTransfer { .. } => Message::Plain {
                header: words(
                    transfer_to_host_2d_request(cursor_rect(), 0, RESOURCE_ID_CURSOR).words(),
                ),
            },
            Pending::CursorShow { place, .. } => Message::Pointer {
                header: words(
                    update_cursor_request(
                        RESOURCE_ID_CURSOR,
                        SCANOUT_ID,
                        place.pos_x,
                        place.pos_y,
                        place.hot_x,
                        place.hot_y,
                        false,
                    ).words(),
                ),
            },
            Pending::CursorMove { x, y } => Message::Pointer {
                header: words(
                    update_cursor_request(
                        RESOURCE_ID_CURSOR,
                        SCANOUT_ID,
                        x,
                        y,
                        0,
                        0,
                        true,
                    ).words(),
                ),
            },
            Pending::VirglContext => Message::WithData {
                header: context_create_bytes(VIRGL_CTX, test_context_name()),
                data: test_context_name(),
            },
            Pending::VirglCreate { width, height } => Message::Plain {
                header: words(
                    resource_create_3d_request(
                        VIRGL_RESOURCE,
                        2,
                        1,
                        3,
                        width,
                        height,
                        1,
                        1,
                        0,
                        0,
                        0,
                    ).words(),
                ),
            },
            Pending::VirglAttach { .. } => Message::Plain {
                header: words(ctx_attach_resource_request(VIRGL_CTX, VIRGL_RESOURCE).words()),
            },
            Pending::VirglScanout { width, height } => Message::Plain {
                header: words(
                    set_scanout_request(
                        origin_rect(width, height),
                        SCANOUT_ID,
                        VIRGL_RESOURCE,
                    ).words(),
                ),
            },
            Pending::VirglScale { width, height } => Message::Numbers { width, height },
            Pending::VirglSubmit { half_width, half_height, fence, .. } => Message::WithData {
                header: words(
                    submit_3d_request(
                        VIRGL_CTX,
                        fence,
                        test_stream(half_width, half_height).len() as u32,
                    ).words(),
                ),
                data: test_stream(half_width, half_height),
            },
            Pending::VirglFlush { width, height } => Message::Plain {
                header: words(
                    resource_flush_request(origin_rect(width, height), VIRGL_RESOURCE).words(),
                ),
            },
            Pending::ToHost { transfer } => Message::Plain {
                header: words(
                    transfer_to_host_3d_request(
                        transfer.box_3d,
                        transfer.offset,
                        transfer.resource_id,
                        transfer.level,
                        transfer.stride,
                        transfer.layer_stride,
                    ).words(),
                ),
            },
            Pending::FromHost { transfer } => Message::Plain {
                header: words(
                    transfer_from_host_3d_request(
                        transfer.box_3d,
                        transfer.offset,
                        transfer.resource_id,
                        transfer.level,
                        transfer.stride,
                        transfer.layer_stride,
                    ).words(),
                ),
            },
        }
    }
}

impl GpuState {
    /// A driver that has done nothing yet.
    pub open spec fn initial() -> GpuState {
        GpuState {
            rect: None,
            frame_buffer: None,
            cursor_buffer: None,
            pending: Pending::Idle,
            send: Seq::new(PAGE_SIZE as nat, |i: int| 0u8),
            recv: Seq::new(PAGE_SIZE as nat, |i: int| 0u8),
        }
    }

    /// Both buffers hold a page; there is no framebuffer while a new one is built; and
    /// memory is only asked for where its size is representable.
    pub open spec fn wf(self) -> bool {
        &&& self.send.len() == PAGE_SIZE
        &&& self.recv.len() == PAGE_SIZE
        &&& self.pending.is_rebuild() ==> self.frame_buffer is None
        &&& match self.pending {
            Pending::SetupAlloc { rect } => pixel_bytes(rect) <= u32::MAX,
            Pending::SetupAttach { rect, region } => pixel_bytes(rect) <= u32::MAX && region.pages
                == pages_for(pixel_bytes(rect)),
            Pending::SetupScanout { rect, region } => pixel_bytes(rect) <= u32::MAX && region.pages
                == pages_for(pixel_bytes(rect)),
            _ => true,
        }
    }

    /// The state in which the driver waits for `pending`, and the step that asks for it.
    pub open spec fn enter(self, pending: Pending, release: Option<DmaRegion>) -> Reaction {
        let waiting = GpuState { pending, ..self };
        match pending.message() {
            Message::Plain { header } => Reaction {
                state: GpuState { send: overwrite_prefix(self.send, header), ..waiting },
                release,
                action: Move::Control { header_len: PAGE_SIZE as nat, data: None },
            },
            Message::WithData { header, data } => Reaction {
                state: GpuState { send: overwrite_prefix(self.send, header), ..waiting },
                release,
                action: Move::Control { header_len: header.len(), data: Some(data) },
            },
            Message::Pointer { header } => Reaction {
                state: GpuState { send: overwrite_prefix(self.send, header), ..waiting },
                release,
                action: Move::Cursor,
            },
            Message::Memory { pages } => Reaction {
                state: waiting,
                release,
                action: Move::Allocate { pages, contents: Seq::empty() },
            },
            Message::Numbers { width, height } => Reaction {
                state: waiting,
                release,
                action: Move::Scale { width, height },
            },
            Message::Nothing => Reaction {
                state: waiting,
                release,
                action: Move::Finish { result: Ok(Outcome::Done) },
            },
        }
    }

    /// The state in which the driver waits for the answer to a request with data, and the step
    /// that sends it.
    pub open spec fn request_with_data(self, header: Seq<u8>, data: Seq<u8>) -> Reaction {
        Reaction {
            state: GpuState {
                send: overwrite_prefix(self.send, header),
                pending: Pending::Answer,
                ..self
            },
            release: None,
            action: Move::Control { header_len: header.len(), data: Some(data) },
        }
    }

    /// The creation of a rendering context: the request, and the name after it.
    pub open spec fn context_create(self, ctx_id: u32, name: Seq<u8>) -> Reaction {
        self.request_with_data(context_create_bytes(ctx_id, name), name)
    }

    /// The submission of a command stream: the request, and the commands after it.
    pub open spec fn submit_3d(self, ctx_id: u32, fence: u64, commands: Seq<u8>) -> Reaction {
        self.request_with_data(
            words(submit_3d_request(ctx_id, fence, commands.len() as u32).words()),
            commands,
        )
    }

    /// The end of the operation under way.
    pub open spec fn finish(
        self,
        result: Result<Outcome, Error>,
        release: Option<DmaRegion>,
    ) -> Reaction {
        Reaction {
            state: GpuState { pending: Pending::Idle, ..self },
            release,
            action: Move::Finish { result },
        }
    }

    /// The end of the operation under way with an error. Memory that was allocated for
    /// it is given back.
    pub open spec fn abandon(self, error: Error) -> Reaction {
        self.finish(Err(error), self.pending.region())
    }

    /// The start of a new framebuffer of the size of `rect`.
    pub open spec fn create(self, rect: Rect, release: Option<DmaRegion>) -> Reaction {
        GpuState { rect: Some(rect), ..self }.enter(Pending::SetupCreate { rect }, release)
    }

    /// The rectangle of the display in the last answer.
    pub open spec fn display(self) -> Rect {
        RespDisplayInfo::decoded(self.recv).rect
    }

    /// What follows when what the driver waits for has come.
    pub open spec fn proceed(self, stimulus: Stimulus) -> Reaction {
        match self.pending {
            Pending::Resolution => self.finish(
                Ok(
                    Outcome::Resolution {
                        width: self.display().width,
                        height: self.display().height,
                    },
                ),
                None,
            ),
            Pending::SetupInfo => if self.frame_buffer is Some {
                self.enter(
                    Pending::SetupScanoutOff {
                        shown: match self.rect {
                            Some(rect) => rect,
                            None => self.display(),
                        },
                        next: self.display(),
                    },
                    None,
                )
            } else {
                self.create(self.display(), None)
            },
            Pending::SetupScanoutOff { next, .. } => self.enter(
                Pending::SetupDetach { next },
                None,
            ),
            Pending::SetupDetach { next } => self.enter(Pending::SetupUnref { next }, None),
            Pending::SetupUnref { next } => GpuState { frame_buffer: None, ..self }.create(
                next,
                self.frame_buffer,
            ),
            Pending::SetupCreate { rect } => self.enter(Pending::SetupAlloc { rect }, None),
            Pending::SetupAlloc { rect } => match stimulus {
                Stimulus::Allocated { paddr } => self.enter(
                    Pending::SetupAttach {
                        rect,
                        region: DmaRegion { paddr, pages: pages_for(pixel_bytes(rect)) as usize },
                    },
                    None,
                ),
                _ => self.abandon(Error::DmaError),
            },
            Pending::SetupAttach { rect, region } => self.enter(
                Pending::SetupScanout { rect, region },
                None,
            ),
            Pending::SetupScanout { region, .. } => GpuState {
                frame_buffer: Some(region),
                ..self
            }.finish(Ok(Outcome::Framebuffer { region }), None),
            Pending::FlushTransfer { rect } => self.enter(Pending::FlushShow { rect }, None),
            Pending::CursorAlloc { place } => match stimulus {
                Stimulus::Allocated { paddr } => self.enter(
                    Pending::CursorCreate {
                        place,
                        region: DmaRegion {
                            paddr,
                            pages: pages_for(CURSOR_BYTES as int) as usize,
                        },
                    },
                    None,
                ),
                _ => self.abandon(Error::DmaError),
            },
            Pending::CursorCreate { place, region } => self.enter(
                Pending::CursorAttach { place, region },
                None,
            ),
            Pending::CursorAttach { place, region } => self.enter(
                Pending::CursorTransfer { place, region },
                None,
            ),
            Pending::CursorTransfer { place, region } => self.enter(
                Pending::CursorShow { place, region },
                None,
            ),
            Pending::CursorShow { region, .. } => GpuState {
                cursor_buffer: Some(region),
                ..self
            }.finish(Ok(Outcome::Done), self.cursor_buffer),
            Pending::VirglContext => self.enter(Pending::VirglInfo, None),
            Pending::VirglInfo => self.enter(
                Pending::VirglCreate {
                    width: self.display().width,
                    height: self.display().height,
                },
                None,
            ),
            Pending::VirglCreate { width, height } => self.enter(
                Pending::VirglAttach { width, height },
                None,
            ),
            Pending::VirglAttach { width, height } => self.enter(
                Pending::VirglScanout { width, height },
                None,
            ),
            Pending::VirglScanout { width, height } => self.enter(
                Pending::VirglScale { width, height },
                None,
            ),
            Pending::VirglScale { width, height } => match stimulus {
                Stimulus::Scaled { half_width, half_height, fence } => self.enter(
                    Pending::VirglSubmit { width, height, half_width, half_height, fence },
                    None,
                ),
                _ => self.abandon(Error::IoError),
            },
            Pending::VirglSubmit { width, height, .. } => self.enter(
                Pending::VirglFlush { width, height },
                None,
            ),
            Pending::FlushShow { .. }
            | Pending::CursorMove { .. }
            | Pending::VirglFlush { .. }
            | Pending::ToHost { .. }
            | Pending::FromHost { .. }
            | Pending::Answer
            | Pending::Idle => self.finish(Ok(Outcome::Done), None),
        }
    }

    /// The state after the device has written its answer. It may write less than a
    /// page; what it does not write stays.
    pub open spec fn absorb(self, stimulus: Stimulus) -> GpuState {
        match stimulus {
            Stimulus::Replied { bytes } => GpuState {
                recv: overwrite_prefix(self.recv, bytes),
                ..self
            },
            _ => self,
        }
    }

    /// The driver can be resumed with this: it is what the driver waits for, the
    /// answer fits in the receive buffer, and a framebuffer that has been created has a
    /// representable size.
    pub open spec fn accepts(self, stimulus: Stimulus) -> bool {
        match stimulus {
            Stimulus::Replied { bytes } => {
                &&& self.pending.is_control()
                &&& bytes.len() <= PAGE_SIZE
                &&& match self.pending {
                    Pending::SetupCreate { rect } => CtrlHeader::decoded(
                        self.absorb(stimulus).recv,
                    ).hdr_type == OK_NODATA ==> pixel_bytes(rect) <= u32::MAX,
                    _ => true,
                }
            },
            Stimulus::Sent => self.pending.is_cursor(),
            Stimulus::Failed { .. } => !(self.pending is Idle) && !(self.pending is VirglScale),
            Stimulus::Allocated { .. } => self.pending.is_alloc(),
            Stimulus::Scaled { .. } => self.pending is VirglScale,
        }
    }

    /// How the driver goes on. An error, or an answer of another type than the expected
    /// one, ends the operation, except while an old framebuffer is taken down.
    pub open spec fn react(self, stimulus: Stimulus) -> Reaction {
        let state = self.absorb(stimulus);
        if self.pending.is_teardown() {
            state.proceed(stimulus)
        } else {
            match stimulus {
                Stimulus::Failed { error } => state.abandon(error),
                Stimulus::Replied { .. } => if CtrlHeader::decoded(state.recv).hdr_type
                    == self.pending.expected() {
                    state.proceed(stimulus)
                } else {
                    state.abandon(Error::IoError)
                },
                _ => state.proceed(stimulus),
            }
        }
    }
}

/// The driver moved as `reaction` says.
pub open spec fn follows(gpu: GpuState, step: Step, reaction: Reaction) -> bool {
    &&& gpu == reaction.state
    &&& step.release == reaction.release
    &&& step.action@ == reaction.action
}

/// Every request fits in the send buffer.
pub proof fn message_fits(pending: Pending)
    ensures
        pending.message() matches Message::Plain { header } ==> header.len() <= PAGE_SIZE,
        pending.message() matches Message::WithData { header, .. } ==> header.len() <= PAGE_SIZE,
        pending.message() matches Message::Pointer { header } ==> header.len() <= PAGE_SIZE,
{
    match pending {
        Pending::Resolution | Pending::SetupInfo | Pending::VirglInfo => {
            words_len(CtrlHeader::of_type(GET_DISPLAY_INFO).words());
        },
        Pending::SetupScanoutOff { shown, .. } => {
            words_len(set_scanout_request(shown, SCANOUT_ID, 0).words());
        },
        Pending::SetupDetach { .. } => {
            words_len(resource_detach_backing_request(RESOURCE_ID_FB).words());
        },
        Pending::SetupUnref { .. } => {
            words_len(resource_unref_request(RESOURCE_ID_FB).words());
        },
        Pending::SetupCreate { rect } => {
            words_len(resource_create_2d_request(RESOURCE_ID_FB, rect.width, rect.height).words());
        },
        Pending::SetupAttach { rect, region } => {
            words_len(
                resource_attach_backing_request(
                    RESOURCE_ID_FB,
                    region.paddr,
                    pixel_bytes(rect) as u32,
                ).words(),
            );
        },
        Pending::SetupScanout { rect, .. } => {
            words_len(set_scanout_request(rect, SCANOUT_ID, RESOURCE_ID_FB).words());
        },
        Pending::FlushTransfer { rect } => {
            words_len(transfer_to_host_2d_request(rect, 0, RESOURCE_ID_FB).words());
        },
        Pending::FlushShow { rect } => {
            words_len(resource_flush_request(rect, RESOURCE_ID_FB).words());
        },
        Pending::CursorCreate { .. } => {
            words_len(
                resource_create_2d_request(
                    RESOURCE_ID_CURSOR,
                    CURSOR_EXTENT,
                    CURSOR_EXTENT,
                ).words(),
            );
        },
        Pending::CursorAttach { region, .. } => {
            words_len(
                resource_attach_backing_request(
                    RESOURCE_ID_CURSOR,
                    region.paddr,
                    CURSOR_BYTES,
                ).words(),
            );
        },
        Pending::CursorTransfer { .. } => {
            words_len(transfer_to_host_2d_request(cursor_rect(), 0, RESOURCE_ID_CURSOR).words());
        },
        Pending::CursorShow { place, .. } => {
            words_len(
                update_cursor_request(
                    RESOURCE_ID_CURSOR,
                    SCANOUT_ID,
                    place.pos_x,
                    place.pos_y,
                    place.hot_x,
                    place.hot_y,
                    false,
                ).words(),
            );
        },
        Pending::CursorMove { x, y } => {
            words_len(
                update_cursor_request(RESOURCE_ID_CURSOR, SCANOUT_ID, x, y, 0, 0, true).words(),
            );
        },
        Pending::VirglContext => {
            words_len(
                CtrlHeader::in_context(CTX_CREATE, VIRGL_CTX).words()
                    + seq![test_context_name().len() as u32, 0u32],
            );
        },
        Pending::VirglCreate { width, height } => {
            words_len(
                resource_create_3d_request(
                    VIRGL_RESOURCE,
                    2,
                    1,
                    3,
                    width,
                    height,
                    1,
                    1,
                    0,
                    0,
                    0,
                ).words(),
            );
        },
        Pending::VirglAttach { .. } => {
            words_len(ctx_attach_resource_request(VIRGL_CTX, VIRGL_RESOURCE).words());
        },
        Pending::VirglScanout { width, height } => {
            words_len(
                set_scanout_request(
                    origin_rect(width, height),
                    SCANOUT_ID,
                    VIRGL_RESOURCE,
                ).words(),
            );
        },
        Pending::VirglSubmit { half_width, half_height, fence, .. } => {
            words_len(
                submit_3d_request(
                    VIRGL_CTX,
                    fence,
                    test_stream(half_width, half_height).len() as u32,
                ).words(),
            );
        },
        Pending::VirglFlush { width, height } => {
            words_len(
                resource_flush_request(origin_rect(width, height), VIRGL_RESOURCE).words(),
            );
        },
        Pending::ToHost { transfer } => {
            words_len(
                transfer_to_host_3d_request(
                    transfer.box_3d,
                    transfer.offset,
                    transfer.resource_id,
                    transfer.level,
                    transfer.stride,
                    transfer.layer_stride,
                ).words(),
            );
        },
        Pending::FromHost { transfer } => {
            words_len(
                transfer_from_host_3d_request(
                    transfer.box_3d,
                    transfer.offset,
                    transfer.resource_id,
                    transfer.level,
                    transfer.stride,
                    transfer.layer_stride,
                ).words(),
            );
        },
        _ => {},
    }
}

/// The requests with data fit in the send buffer.
pub proof fn data_requests_fit(ctx_id: u32, fence: u64, size: u32, name: Seq<u8>)
    ensures
        words(submit_3d_request(ctx_id, fence, size).words()).len() == 32,
        context_create_bytes(ctx_id, name).len() == 96,
{
    words_len(submit_3d_request(ctx_id, fence, size).words());
    words_len(CtrlHeader::in_context(CTX_CREATE, ctx_id).words() + seq![name.len() as u32, 0u32]);
}

/// A driver that is resumed with what it accepts stays well formed.
pub proof fn react_keeps_wf(gpu: GpuState, stimulus: Stimulus)
    requires
        gpu.wf(),
        gpu.accepts(stimulus),
    ensures
        gpu.react(stimulus).state.wf(),
{
    let state = gpu.absorb(stimulus);
    message_fits(gpu.react(stimulus).state.pending);
    assert(state.recv.len() == PAGE_SIZE);
}

/// The numbers that the driver gives to what it makes, and the color of the virgl test.
pub proof fn numbers_of_the_driver()
    ensures
        RESOURCE_ID_FB == 0xbabe && RESOURCE_ID_CURSOR == 0xdade && SCANOUT_ID == 0,
        VIRGL_CTX == 1 && VIRGL_RESOURCE == 0x2000 && SURFACE_ID_COLOR == 0x2001,
        VIRGL_RED == 0x3dc0_8312 && VIRGL_GREEN == 0x3ed4_fdf4 && VIRGL_BLUE == 0x3d89_374c,
        CURSOR_EXTENT == 64 && CURSOR_BYTES == 4 * 64 * 64 && PAGE_SIZE == 4096,
{
}

} // verus!
