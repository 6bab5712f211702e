//! The conversations with the device, from the bytes that it answers to the words that it is
//! sent.

use crate::bytes::{first_words, high_word, low_word, overwrite_prefix, word_at};
use crate::error::Error;
use crate::gpu::exchange;
use crate::gpu::model::{
    pages_for, pixel_bytes, CursorPlace, DmaRegion, GpuState, Move, Outcome, Pending, Stimulus,
    RESOURCE_ID_CURSOR, RESOURCE_ID_FB, VIRGL_CTX, VIRGL_RESOURCE,
};
use crate::gpu::wire::{
    Rect, CTX_ATTACH_RESOURCE, CTX_CREATE, GET_DISPLAY_INFO, OK_DISPLAY_INFO,
    OK_NODATA, RESOURCE_ATTACH_BACKING, RESOURCE_CREATE_2D, RESOURCE_CREATE_3D,
    RESOURCE_DETACH_BACKING, RESOURCE_FLUSH, RESOURCE_UNREF, SET_SCANOUT, TRANSFER_TO_HOST_2D,
    UPDATE_CURSOR,
};
use vstd::prelude::*;

verus! {

/// What is in the receive buffer when an answer has arrived: the answer, and behind it what was
/// there before.
pub open spec fn received(gpu: GpuState, bytes: Seq<u8>) -> Seq<u8> {
    Seq::new(
        gpu.recv.len(),
        |i: int|
            if i < bytes.len() {
                bytes[i]
            } else {
                gpu.recv[i]
            },
    )
}

/// An answer of the given type, for which there is room.
pub open spec fn answers(gpu: GpuState, bytes: Seq<u8>, hdr_type: u32) -> bool {
    bytes.len() <= gpu.recv.len() && word_at(received(gpu, bytes), 0) == hdr_type
}

/// An answer that tells the first display: a rectangle stands after the header.
pub open spec fn tells_display(gpu: GpuState, bytes: Seq<u8>, rect: Rect) -> bool {
    &&& answers(gpu, bytes, OK_DISPLAY_INFO)
    &&& word_at(received(gpu, bytes), 24) == rect.x
    &&& word_at(received(gpu, bytes), 28) == rect.y
    &&& word_at(received(gpu, bytes), 32) == rect.width
    &&& word_at(received(gpu, bytes), 36) == rect.height
}

/// What was answered is found in the receive buffer, and nothing else has changed.
proof fn answer_is_received(gpu: GpuState, bytes: Seq<u8>)
    requires
        bytes.len() <= gpu.recv.len(),
    ensures
        gpu.absorb(Stimulus::Replied { bytes }) == (GpuState {
            recv: received(gpu, bytes),
            ..gpu
        }),
{
    assert(overwrite_prefix(gpu.recv, bytes) =~= received(gpu, bytes));
}

/// Only the right answer leads on. Where the displays were asked for, that is an answer of type
/// `OK_DISPLAY_INFO`, and otherwise one of type `OK_NODATA`; any other answer ends the
/// operation with an I/O error, except while an old framebuffer is taken down.
pub proof fn only_the_right_answer_leads_on(gpu: GpuState, bytes: Seq<u8>)
    requires
        gpu.wf(),
        gpu.accepts(Stimulus::Replied { bytes }),
        !(gpu.pending is SetupScanoutOff),
        !(gpu.pending is SetupDetach),
        !(gpu.pending is SetupUnref),
    ensures
        ({
            let right = if gpu.pending is Resolution || gpu.pending is SetupInfo || gpu.pending
                is VirglInfo {
                word_at(received(gpu, bytes), 0) == OK_DISPLAY_INFO
            } else {
                word_at(received(gpu, bytes), 0) == OK_NODATA
            };
            let reaction = gpu.react(Stimulus::Replied { bytes });
            &&& right <==> !(reaction.action matches Move::Finish { result: Err(_) })
            &&& !right ==> reaction.action == (Move::Finish { result: Err(Error::IoError) })
        }),
{
    answer_is_received(gpu, bytes);
}

/// The resolution is the one that the device answered.
pub proof fn resolution_is_the_answered_one(gpu: GpuState, bytes: Seq<u8>, rect: Rect)
    requires
        gpu.pending is Resolution,
        tells_display(gpu, bytes, rect),
    ensures
        gpu.react(Stimulus::Replied { bytes }).action == (Move::Finish {
            result: Ok(Outcome::Resolution { width: rect.width, height: rect.height }),
        }),
        gpu.react(Stimulus::Replied { bytes }).state.pending is Idle,
{
    answer_is_received(gpu, bytes);
}

/// The pages that hold some bytes are enough, and none is superfluous.
pub proof fn pages_are_just_enough(size: int)
    requires
        0 <= size,
    ensures
        size <= 4096 * pages_for(size) < size + 4096,
{
}

/// The memory of a framebuffer is four bytes for each pixel.
pub proof fn pixels_take_four_bytes(rect: Rect)
    ensures
        pixel_bytes(rect) == 4 * (rect.width * rect.height),
{
    assert(rect.width * rect.height * 4 == 4 * (rect.width * rect.height)) by (nonlinear_arith);
}

/// A framebuffer that was created gets memory: four bytes for each pixel, and no page more.
pub proof fn framebuffer_gets_its_memory(gpu: GpuState, rect: Rect, created: Seq<u8>)
    requires
        gpu.pending == (Pending::SetupCreate { rect }),
        4 * (rect.width * rect.height) <= u32::MAX,
        answers(gpu, created, OK_NODATA),
    ensures
        ({
            let size = 4 * (rect.width * rect.height);
            let step = gpu.react(Stimulus::Replied { bytes: created });
            &&& step.action matches Move::Allocate { pages, contents }
            &&& contents.len() == 0
            &&& size <= 4096 * pages < size + 4096
            &&& step.state.pending == (Pending::SetupAlloc { rect })
            &&& step.state.rect == gpu.rect
        }),
{
    pixels_take_four_bytes(rect);
    pages_are_just_enough(pixel_bytes(rect));
    answer_is_received(gpu, created);
}

/// The memory that was allocated becomes the backing of the framebuffer, from its address on
/// and with all its bytes.
pub proof fn memory_backs_the_framebuffer(gpu: GpuState, rect: Rect, paddr: u64)
    requires
        gpu.pending == (Pending::SetupAlloc { rect }),
        4 * (rect.width * rect.height) <= u32::MAX,
    ensures
        ({
            let size = 4 * (rect.width * rect.height);
            let step = gpu.react(Stimulus::Allocated { paddr });
            &&& first_words(step.state.send, 12) == seq![
                RESOURCE_ATTACH_BACKING, 0u32, 0u32, 0u32, 0u32, 0u32, RESOURCE_ID_FB, 1u32,
                low_word(paddr), high_word(paddr), size as u32, 0u32,
            ]
            &&& step.action == (Move::Control { header_len: 4096, data: None })
            &&& step.state.pending matches Pending::SetupAttach { rect: next, region }
            &&& next == rect
            &&& region.paddr == paddr
            &&& size <= 4096 * region.pages < size + 4096
        }),
{
    pixels_take_four_bytes(rect);
    pages_are_just_enough(pixel_bytes(rect));
    let region = DmaRegion { paddr, pages: pages_for(pixel_bytes(rect)) as usize };
    exchange::framebuffer_is_backed(gpu, rect, region, None);
    assert(gpu.react(Stimulus::Allocated { paddr }) == gpu.enter(
        Pending::SetupAttach { rect, region },
        None,
    ));
}

/// A framebuffer that is backed is shown on the scanout, as the whole rectangle of the display.
pub proof fn backed_framebuffer_is_shown(
    gpu: GpuState,
    rect: Rect,
    region: DmaRegion,
    attached: Seq<u8>,
)
    requires
        gpu.pending == (Pending::SetupAttach { rect, region }),
        answers(gpu, attached, OK_NODATA),
    ensures
        ({
            let step = gpu.react(Stimulus::Replied { bytes: attached });
            &&& first_words(step.state.send, 12) == seq![
                SET_SCANOUT, 0u32, 0u32, 0u32, 0u32, 0u32, rect.x, rect.y, rect.width, rect.height,
                0u32, RESOURCE_ID_FB,
            ]
            &&& step.action == (Move::Control { header_len: 4096, data: None })
            &&& step.state.pending == (Pending::SetupScanout { rect, region })
        }),
{
    answer_is_received(gpu, attached);
    let state = gpu.absorb(Stimulus::Replied { bytes: attached });
    exchange::framebuffer_is_shown(state, rect, region, None);
    assert(gpu.react(Stimulus::Replied { bytes: attached }) == state.enter(
        Pending::SetupScanout { rect, region },
        None,
    ));
}

/// When the framebuffer is shown, its memory is the result, and the driver holds it.
pub proof fn shown_framebuffer_is_the_result(
    gpu: GpuState,
    rect: Rect,
    region: DmaRegion,
    shown: Seq<u8>,
)
    requires
        gpu.pending == (Pending::SetupScanout { rect, region }),
        answers(gpu, shown, OK_NODATA),
    ensures
        ({
            let step = gpu.react(Stimulus::Replied { bytes: shown });
            &&& step.action == (Move::Finish { result: Ok(Outcome::Framebuffer { region }) })
            &&& step.release is None
            &&& step.state.frame_buffer == Some(region)
            &&& step.state.rect == gpu.rect
            &&& step.state.pending is Idle
        }),
{
    answer_is_received(gpu, shown);
}
/// The first framebuffer is set up for the display that the device tells.
pub proof fn first_framebuffer_is_for_the_display(gpu: GpuState, info: Seq<u8>, rect: Rect)
    requires
        gpu.pending is SetupInfo,
        gpu.frame_buffer is None,
        tells_display(gpu, info, rect),
    ensures
        ({
            let s1 = gpu.react(Stimulus::Replied { bytes: info });
            &&& first_words(s1.state.send, 10) == seq![
                RESOURCE_CREATE_2D, 0u32, 0u32, 0u32, 0u32, 0u32, RESOURCE_ID_FB, 1u32, rect.width,
                rect.height,
            ]
            &&& s1.action == (Move::Control { header_len: 4096, data: None })
            &&& s1.state.pending == (Pending::SetupCreate { rect })
            &&& s1.state.rect == Some(rect)
            &&& s1.release is None
        }),
{
    answer_is_received(gpu, info);
    let state = gpu.absorb(Stimulus::Replied { bytes: info });
    assert(state.display() == rect);
    exchange::framebuffer_has_the_size(
        GpuState { rect: Some(rect), ..state },
        rect,
        None,
    );
}

/// An old framebuffer goes before a new one comes: at first its scanout is switched off.
pub proof fn old_framebuffer_goes_first(
    gpu: GpuState,
    info: Seq<u8>,
    rect: Rect,
    old_rect: Rect,
)
    requires
        gpu.pending is SetupInfo,
        gpu.frame_buffer is Some,
        gpu.rect == Some(old_rect),
        tells_display(gpu, info, rect),
    ensures
        ({
            let step = gpu.react(Stimulus::Replied { bytes: info });
            &&& first_words(step.state.send, 12) == seq![
                SET_SCANOUT, 0u32, 0u32, 0u32, 0u32, 0u32, old_rect.x, old_rect.y, old_rect.width,
                old_rect.height, 0u32, 0u32,
            ]
            &&& step.state.pending == (Pending::SetupScanoutOff { shown: old_rect, next: rect })
            &&& step.state.frame_buffer == gpu.frame_buffer
            &&& step.release is None
        }),
{
    answer_is_received(gpu, info);
    let state = gpu.absorb(Stimulus::Replied { bytes: info });
    assert(state.display() == rect);
    exchange::old_scanout_is_switched_off(state, old_rect, rect, None);
}

/// Then its backing is taken away, whatever was answered.
pub proof fn old_backing_goes_next(gpu: GpuState, shown: Rect, next: Rect, off: Stimulus)
    requires
        gpu.pending == (Pending::SetupScanoutOff { shown, next }),
    ensures
        ({
            let step = gpu.react(off);
            &&& first_words(step.state.send, 8) == seq![
                RESOURCE_DETACH_BACKING, 0u32, 0u32, 0u32, 0u32, 0u32, RESOURCE_ID_FB, 0u32,
            ]
            &&& step.state.pending == (Pending::SetupDetach { next })
            &&& step.state.frame_buffer == gpu.frame_buffer
            &&& step.release is None
        }),
{
    exchange::old_backing_is_detached(gpu.absorb(off), next, None);
}

/// Then it is destroyed, whatever was answered.
pub proof fn old_resource_goes_last(gpu: GpuState, next: Rect, detached: Stimulus)
    requires
        gpu.pending == (Pending::SetupDetach { next }),
    ensures
        ({
            let step = gpu.react(detached);
            &&& first_words(step.state.send, 8) == seq![
                RESOURCE_UNREF, 0u32, 0u32, 0u32, 0u32, 0u32, RESOURCE_ID_FB, 0u32,
            ]
            &&& step.state.pending == (Pending::SetupUnref { next })
            &&& step.state.frame_buffer == gpu.frame_buffer
            &&& step.release is None
        }),
{
    exchange::old_framebuffer_is_destroyed(gpu.absorb(detached), next, None);
}

/// Then, whatever was answered, its memory is given back, and the new one is created for the
/// display.
pub proof fn new_framebuffer_comes_after(gpu: GpuState, next: Rect, gone: Stimulus)
    requires
        gpu.pending == (Pending::SetupUnref { next }),
    ensures
        ({
            let step = gpu.react(gone);
            &&& first_words(step.state.send, 10) == seq![
                RESOURCE_CREATE_2D, 0u32, 0u32, 0u32, 0u32, 0u32, RESOURCE_ID_FB, 1u32, next.width,
                next.height,
            ]
            &&& step.state.pending == (Pending::SetupCreate { rect: next })
            &&& step.state.rect == Some(next)
            &&& step.state.frame_buffer is None
            &&& step.release == gpu.frame_buffer
        }),
{
    let state = gpu.absorb(gone);
    let bare = GpuState { frame_buffer: None, rect: Some(next), ..state };
    exchange::framebuffer_has_the_size(bare, next, state.frame_buffer);
}
/// A flush goes on: when the framebuffer has been copied to the host, all of it is shown.
pub proof fn copied_framebuffer_is_shown(gpu: GpuState, rect: Rect, copied: Seq<u8>)
    requires
        gpu.pending == (Pending::FlushTransfer { rect }),
        answers(gpu, copied, OK_NODATA),
    ensures
        ({
            let step = gpu.react(Stimulus::Replied { bytes: copied });
            &&& first_words(step.state.send, 12) == seq![
                RESOURCE_FLUSH, 0u32, 0u32, 0u32, 0u32, 0u32, rect.x, rect.y, rect.width,
                rect.height, RESOURCE_ID_FB, 0u32,
            ]
            &&& step.action == (Move::Control { header_len: 4096, data: None })
            &&& step.state.pending == (Pending::FlushShow { rect })
            &&& step.state.rect == gpu.rect
            &&& step.state.frame_buffer == gpu.frame_buffer
        }),
{
    answer_is_received(gpu, copied);
    let state = gpu.absorb(Stimulus::Replied { bytes: copied });
    exchange::flush_shows_the_whole_framebuffer(state, rect, None);
    assert(gpu.react(Stimulus::Replied { bytes: copied }) == state.enter(
        Pending::FlushShow { rect },
        None,
    ));
}

/// When the framebuffer is shown, the flush is done, and nothing else has changed.
pub proof fn shown_framebuffer_ends_the_flush(gpu: GpuState, rect: Rect, shown: Seq<u8>)
    requires
        gpu.pending == (Pending::FlushShow { rect }),
        answers(gpu, shown, OK_NODATA),
    ensures
        ({
            let step = gpu.react(Stimulus::Replied { bytes: shown });
            &&& step.action == (Move::Finish { result: Ok(Outcome::Done) })
            &&& step.release is None
            &&& step.state.pending is Idle
            &&& step.state.rect == gpu.rect
            &&& step.state.frame_buffer == gpu.frame_buffer
            &&& step.state.cursor_buffer == gpu.cursor_buffer
        }),
{
    answer_is_received(gpu, shown);
}

/// The memory of a pointer is there: its resource is created, 64 by 64.
pub proof fn pointer_is_created(gpu: GpuState, place: CursorPlace, paddr: u64)
    requires
        gpu.pending == (Pending::CursorAlloc { place }),
    ensures
        ({
            let region = DmaRegion { paddr, pages: 4 };
            let step = gpu.react(Stimulus::Allocated { paddr });
            &&& first_words(step.state.send, 10) == seq![
                RESOURCE_CREATE_2D, 0u32, 0u32, 0u32, 0u32, 0u32, RESOURCE_ID_CURSOR, 1u32, 64u32,
                64u32,
            ]
            &&& step.state.pending == (Pending::CursorCreate { place, region })
            &&& step.state.cursor_buffer == gpu.cursor_buffer
        }),
{
    exchange::pointer_has_its_size(gpu, place, DmaRegion { paddr, pages: 4 }, None);
}

/// The resource of a pointer is backed by its memory, and then copied to the host as a whole.
pub proof fn pointer_is_filled(
    gpu: GpuState,
    place: CursorPlace,
    region: DmaRegion,
    answer: Seq<u8>,
)
    requires
        answers(gpu, answer, OK_NODATA),
    ensures
        gpu.pending == (Pending::CursorCreate { place, region }) ==> {
            let step = gpu.react(Stimulus::Replied { bytes: answer });
            &&& first_words(step.state.send, 12) == seq![
                RESOURCE_ATTACH_BACKING, 0u32, 0u32, 0u32, 0u32, 0u32, RESOURCE_ID_CURSOR, 1u32,
                low_word(region.paddr), high_word(region.paddr), 16384u32, 0u32,
            ]
            &&& step.state.pending == (Pending::CursorAttach { place, region })
        },
        gpu.pending == (Pending::CursorAttach { place, region }) ==> {
            let step = gpu.react(Stimulus::Replied { bytes: answer });
            &&& first_words(step.state.send, 14) == seq![
                TRANSFER_TO_HOST_2D, 0u32, 0u32, 0u32, 0u32, 0u32, 0u32, 0u32, 64u32, 64u32, 0u32,
                0u32, RESOURCE_ID_CURSOR, 0u32,
            ]
            &&& step.state.pending == (Pending::CursorTransfer { place, region })
        },
{
    answer_is_received(gpu, answer);
    let state = gpu.absorb(Stimulus::Replied { bytes: answer });
    exchange::pointer_is_backed(state, place, region, None);
    exchange::pointer_is_copied(state, place, region, None);
}

/// The pointer is shown where it was put, with the tip that was given, when its image has been
/// copied.
pub proof fn copied_pointer_is_shown(
    gpu: GpuState,
    place: CursorPlace,
    region: DmaRegion,
    copied: Seq<u8>,
)
    requires
        gpu.pending == (Pending::CursorTransfer { place, region }),
        answers(gpu, copied, OK_NODATA),
    ensures
        ({
            let step = gpu.react(Stimulus::Replied { bytes: copied });
            &&& first_words(step.state.send, 14) == seq![
                UPDATE_CURSOR, 0u32, 0u32, 0u32, 0u32, 0u32, 0u32, place.pos_x, place.pos_y, 0u32,
                RESOURCE_ID_CURSOR, place.hot_x, place.hot_y, 0u32,
            ]
            &&& step.action is Cursor
            &&& step.state.pending == (Pending::CursorShow { place, region })
            &&& step.state.cursor_buffer == gpu.cursor_buffer
        }),
{
    answer_is_received(gpu, copied);
    let state = gpu.absorb(Stimulus::Replied { bytes: copied });
    exchange::pointer_is_shown(state, place, region, None);
    assert(gpu.react(Stimulus::Replied { bytes: copied }) == state.enter(
        Pending::CursorShow { place, region },
        None,
    ));
}

/// A pointer that is shown is set up: the driver holds its memory, and that of the pointer
/// before it is given back. A pointer that has only moved changes nothing.
pub proof fn shown_pointer_is_set_up(
    gpu: GpuState,
    place: CursorPlace,
    region: DmaRegion,
    x: u32,
    y: u32,
)
    ensures
        ({
            let step = gpu.react(Stimulus::Sent);
            &&& gpu.pending == (Pending::CursorShow { place, region }) ==> step.action
                == (Move::Finish { result: Ok(Outcome::Done) }) && step.state.cursor_buffer
                == Some(region) && step.release == gpu.cursor_buffer
            &&& gpu.pending == (Pending::CursorMove { x, y }) ==> step.action == (Move::Finish {
                result: Ok(Outcome::Done),
            }) && step.state.cursor_buffer == gpu.cursor_buffer && step.release is None
        }),
{
}

/// The virgl test: its context is created under its name, which is sent with it.
pub proof fn virgl_context_is_created(gpu: GpuState)
    ensures
        ({
            let step = gpu.enter(Pending::VirglContext, None);
            let name = seq![0x74u8, 0x65u8, 0x73u8, 0x74u8, 0x5fu8, 0x63u8, 0x74u8, 0x78u8];
            &&& first_words(step.state.send, 8) == seq![
                CTX_CREATE, 0u32, 0u32, 0u32, VIRGL_CTX, 0u32, 8u32, 0u32,
            ]
            &&& step.action == (Move::Control { header_len: 96, data: Some(name) })
        }),
{
    let name = crate::gpu::model::test_context_name();
    let ws = crate::gpu::wire::CtrlHeader::in_context(CTX_CREATE, VIRGL_CTX).words() + seq![
        8u32,
        0u32,
    ];
    let padded = crate::gpu::requests::padded_name(name);
    let bytes = crate::bytes::words(ws) + padded;
    crate::bytes::encoded_words_read_back(ws, padded + gpu.send.skip(96));
    crate::bytes::words_len(ws);
    assert(bytes + gpu.send.skip(96) =~= crate::bytes::words(ws) + (padded + gpu.send.skip(96)));
    assert(ws =~= seq![CTX_CREATE, 0u32, 0u32, 0u32, VIRGL_CTX, 0u32, 8u32, 0u32]);
}

/// When the context of the virgl test is there, the display is asked for.
pub proof fn virgl_test_asks_for_the_display(gpu: GpuState, opened: Seq<u8>)
    requires
        gpu.pending is VirglContext,
        answers(gpu, opened, OK_NODATA),
    ensures
        ({
            let step = gpu.react(Stimulus::Replied { bytes: opened });
            &&& first_words(step.state.send, 6) == seq![
                GET_DISPLAY_INFO, 0u32, 0u32, 0u32, 0u32, 0u32,
            ]
            &&& step.state.pending is VirglInfo
        }),
{
    answer_is_received(gpu, opened);
    let state = gpu.absorb(Stimulus::Replied { bytes: opened });
    exchange::display_is_asked_for_virgl(state, None);
    assert(gpu.react(Stimulus::Replied { bytes: opened }) == state.enter(Pending::VirglInfo, None));
}

/// The render target of the virgl test has the size of the display that the device tells.
pub proof fn virgl_target_is_for_the_display(gpu: GpuState, info: Seq<u8>, rect: Rect)
    requires
        gpu.pending is VirglInfo,
        tells_display(gpu, info, rect),
    ensures
        ({
            let step = gpu.react(Stimulus::Replied { bytes: info });
            &&& first_words(step.state.send, 18) == seq![
                RESOURCE_CREATE_3D, 0u32, 0u32, 0u32, 0u32, 0u32, VIRGL_RESOURCE, 2u32, 1u32, 3u32,
                rect.width, rect.height, 1u32, 1u32, 0u32, 0u32, 0u32, 0u32,
            ]
            &&& step.state.pending == (Pending::VirglCreate {
                width: rect.width,
                height: rect.height,
            })
        }),
{
    answer_is_received(gpu, info);
    let state = gpu.absorb(Stimulus::Replied { bytes: info });
    assert(state.display() == rect);
    exchange::virgl_target_has_the_size(state, rect.width, rect.height, None);
    assert(gpu.react(Stimulus::Replied { bytes: info }) == state.enter(
        Pending::VirglCreate { width: rect.width, height: rect.height },
        None,
    ));
}

/// The render target of the virgl test is attached to the context when it is there.
pub proof fn virgl_target_comes_to_the_context(
    gpu: GpuState,
    width: u32,
    height: u32,
    created: Seq<u8>,
)
    requires
        gpu.pending == (Pending::VirglCreate { width, height }),
        answers(gpu, created, OK_NODATA),
    ensures
        ({
            let step = gpu.react(Stimulus::Replied { bytes: created });
            &&& first_words(step.state.send, 8) == seq![
                CTX_ATTACH_RESOURCE, 0u32, 0u32, 0u32, VIRGL_CTX, 0u32, VIRGL_RESOURCE, 0u32,
            ]
            &&& step.state.pending == (Pending::VirglAttach { width, height })
        }),
{
    answer_is_received(gpu, created);
    let state = gpu.absorb(Stimulus::Replied { bytes: created });
    exchange::virgl_target_is_attached(state, width, height, None);
    assert(gpu.react(Stimulus::Replied { bytes: created }) == state.enter(
        Pending::VirglAttach { width, height },
        None,
    ));
}

/// The render target of the virgl test is shown on the scanout when it is attached, and then its
/// extents are halved.
pub proof fn virgl_target_comes_to_the_screen(
    gpu: GpuState,
    width: u32,
    height: u32,
    answer: Seq<u8>,
)
    requires
        answers(gpu, answer, OK_NODATA),
    ensures
        ({
            let step = gpu.react(Stimulus::Replied { bytes: answer });
            &&& gpu.pending == (Pending::VirglAttach { width, height }) ==> first_words(
                step.state.send,
                12,
            ) == seq![
                SET_SCANOUT, 0u32, 0u32, 0u32, 0u32, 0u32, 0u32, 0u32, width, height, 0u32,
                VIRGL_RESOURCE,
            ] && step.state.pending == (Pending::VirglScanout { width, height })
            &&& gpu.pending == (Pending::VirglScanout { width, height }) ==> step.action
                == (Move::Scale { width, height }) && step.state.pending == (Pending::VirglScale {
                width,
                height,
            })
        }),
{
    answer_is_received(gpu, answer);
    let state = gpu.absorb(Stimulus::Replied { bytes: answer });
    exchange::virgl_target_is_shown(state, width, height, None);
    if gpu.pending == (Pending::VirglAttach { width, height }) {
        assert(gpu.react(Stimulus::Replied { bytes: answer }) == state.enter(
            Pending::VirglScanout { width, height },
            None,
        ));
    }
}

/// The virgl test renders: its commands go out under the fence that was drawn, then the whole
/// frame is shown, and then the test is done.
pub proof fn virgl_frame_comes_to_the_screen(
    gpu: GpuState,
    width: u32,
    height: u32,
    half_width: u32,
    half_height: u32,
    fence: u64,
    answer: Seq<u8>,
)
    requires
        answers(gpu, answer, OK_NODATA),
    ensures
        gpu.pending == (Pending::VirglSubmit { width, height, half_width, half_height, fence })
            ==> {
            let step = gpu.react(Stimulus::Replied { bytes: answer });
            &&& first_words(step.state.send, 12) == seq![
                RESOURCE_FLUSH, 0u32, 0u32, 0u32, 0u32, 0u32, 0u32, 0u32, width, height,
                VIRGL_RESOURCE, 0u32,
            ]
            &&& step.state.pending == (Pending::VirglFlush { width, height })
        },
        gpu.pending == (Pending::VirglFlush { width, height }) ==> gpu.react(
            Stimulus::Replied { bytes: answer },
        ).action == (Move::Finish { result: Ok(Outcome::Done) }),
{
    answer_is_received(gpu, answer);
    let state = gpu.absorb(Stimulus::Replied { bytes: answer });
    exchange::virgl_frame_is_shown(state, width, height, None);
}
/// What the driver can be resumed with. An answer of up to a page is taken whenever a control
/// request is under way; only that a framebuffer was created is taken no more where four bytes
/// for each of its pixels are too many for 32 bits. The cursor queue, an allocation and the
/// halving of the extents are reported on exactly when they were asked for, and failures of
/// queues and allocations always.
pub proof fn what_the_driver_takes(gpu: GpuState, stimulus: Stimulus)
    requires
        gpu.wf(),
    ensures
        gpu.accepts(stimulus) <==> {
            let memory = gpu.pending is SetupAlloc || gpu.pending is CursorAlloc;
            let cursor = gpu.pending is CursorShow || gpu.pending is CursorMove;
            let busy = !(gpu.pending is Idle) && !(gpu.pending is VirglScale);
            match stimulus {
                Stimulus::Replied { bytes } => {
                    &&& busy && !memory && !cursor
                    &&& bytes.len() <= 4096
                    &&& gpu.pending matches Pending::SetupCreate { rect } ==> 4 * (rect.width
                        * rect.height) <= 0xffff_ffff || word_at(
                        received(gpu, bytes),
                        0,
                    ) != OK_NODATA
                },
                Stimulus::Sent => cursor,
                Stimulus::Failed { .. } => busy,
                Stimulus::Allocated { .. } => memory,
                Stimulus::Scaled { .. } => gpu.pending is VirglScale,
            }
        },
{
    if let Pending::SetupCreate { rect } = gpu.pending {
        pixels_take_four_bytes(rect);
    }
    if let Stimulus::Replied { bytes } = stimulus {
        if bytes.len() <= 4096 {
            answer_is_received(gpu, bytes);
        }
    }
}

} // verus!
