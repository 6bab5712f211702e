//! What holds of every run of the GPU driver.

use crate::bytes;
use crate::error::Error;
use crate::gpu::init::fence_after;
use crate::gpu::model::{
    cursor_rect, data_requests_fit, message_fits, origin_rect, pages_for, pixel_bytes,
    react_keeps_wf, test_context_name, test_stream, CursorPlace, DmaRegion, GpuState, Move,
    Outcome, Pending, Reaction, Stimulus, CURSOR_BYTES, CURSOR_EXTENT, PAGE_SIZE,
    RESOURCE_ID_CURSOR, RESOURCE_ID_FB, SCANOUT_ID, SURFACE_ID_COLOR, VIRGL_BLUE, VIRGL_CTX,
    VIRGL_GREEN, VIRGL_RED, VIRGL_RESOURCE,
};
use crate::gpu::requests;
use crate::gpu::virgl;
use crate::gpu::virgl::{Command, CommandHeader};
use crate::gpu::wire::{
    CtrlHeader, Rect, CMD_SUBMIT_3D, CTX_ATTACH_RESOURCE, CTX_CREATE, GET_DISPLAY_INFO,
    MOVE_CURSOR, OK_DISPLAY_INFO, OK_NODATA, RESOURCE_ATTACH_BACKING, RESOURCE_CREATE_2D,
    RESOURCE_CREATE_3D, RESOURCE_DETACH_BACKING, RESOURCE_FLUSH, RESOURCE_UNREF, SET_SCANOUT,
    TRANSFER_FROM_HOST_3D, TRANSFER_TO_HOST_2D, TRANSFER_TO_HOST_3D, UPDATE_CURSOR,
};
use vstd::multiset::Multiset;
use vstd::prelude::*;

verus! {

/// The type of the device's last answer, once it has arrived.
pub open spec fn answer_type(gpu: GpuState, stimulus: Stimulus) -> u32 {
    CtrlHeader::decoded(gpu.absorb(stimulus).recv).hdr_type
}

/// A refused request: whatever the device answers but the expected type ends the operation
/// with an I/O error. Memory that was allocated for it is given back, and the framebuffer
/// and the pointer are as before.
pub proof fn refusal_is_an_io_error(gpu: GpuState, bytes: Seq<u8>)
    requires
        gpu.accepts(Stimulus::Replied { bytes }),
        !gpu.pending.is_teardown(),
        answer_type(gpu, Stimulus::Replied { bytes }) != gpu.pending.expected(),
    ensures
        ({
            let reaction = gpu.react(Stimulus::Replied { bytes });
            &&& reaction.action == (Move::Finish { result: Err(Error::IoError) })
            &&& reaction.release == gpu.pending.region()
            &&& reaction.state.pending is Idle
            &&& reaction.state.rect == gpu.rect
            &&& reaction.state.frame_buffer == gpu.frame_buffer
            &&& reaction.state.cursor_buffer == gpu.cursor_buffer
        }),
{
}

/// An error of a queue, or of an allocation, is the result of the operation. Memory that was
/// allocated for it is given back, and the framebuffer and the pointer are as before.
pub proof fn failure_is_handed_on(gpu: GpuState, error: Error)
    requires
        gpu.accepts(Stimulus::Failed { error }),
        !gpu.pending.is_teardown(),
    ensures
        ({
            let reaction = gpu.react(Stimulus::Failed { error });
            &&& reaction.action == (Move::Finish { result: Err(error) })
            &&& reaction.release == gpu.pending.region()
            &&& reaction.state == GpuState { pending: Pending::Idle, ..gpu }
        }),
{
}

/// While an old framebuffer is taken down, an answer of any type, and an error, lead to the
/// next request.
pub proof fn teardown_goes_on(gpu: GpuState, stimulus: Stimulus)
    requires
        gpu.accepts(stimulus),
        gpu.pending.is_teardown(),
    ensures
        gpu.react(stimulus).action == (Move::Control { header_len: PAGE_SIZE as nat, data: None }),
        match gpu.pending {
            Pending::SetupScanoutOff { next, .. } => gpu.react(stimulus).state.pending == (
            Pending::SetupDetach { next }),
            Pending::SetupDetach { next } => gpu.react(stimulus).state.pending == (
            Pending::SetupUnref { next }),
            Pending::SetupUnref { next } => gpu.react(stimulus).state.pending == (
            Pending::SetupCreate { rect: next }),
            _ => false,
        },
{
}

/// The memory of one place.
pub open spec fn one(region: Option<DmaRegion>) -> Multiset<DmaRegion> {
    match region {
        Some(region) => Multiset::singleton(region),
        None => Multiset::empty(),
    }
}

/// All memory that the driver holds.
pub open spec fn held(gpu: GpuState) -> Multiset<DmaRegion> {
    one(gpu.frame_buffer).add(one(gpu.cursor_buffer)).add(one(gpu.pending.region()))
}

/// The memory that an event brings.
pub open spec fn brought(gpu: GpuState, stimulus: Stimulus) -> Multiset<DmaRegion> {
    match stimulus {
        Stimulus::Allocated { paddr } => match gpu.pending {
            Pending::SetupAlloc { rect } => Multiset::singleton(
                DmaRegion { paddr, pages: pages_for(pixel_bytes(rect)) as usize },
            ),
            Pending::CursorAlloc { .. } => Multiset::singleton(
                DmaRegion { paddr, pages: pages_for(CURSOR_BYTES as int) as usize },
            ),
            _ => Multiset::empty(),
        },
        _ => Multiset::empty(),
    }
}

/// No memory is lost and none is given back twice: what the driver held and what was brought
/// is what it holds and what it gives back.
pub proof fn memory_is_accounted_for(gpu: GpuState, stimulus: Stimulus)
    requires
        gpu.wf(),
        gpu.accepts(stimulus),
    ensures
        held(gpu).add(brought(gpu, stimulus)) == held(gpu.react(stimulus).state).add(
            one(gpu.react(stimulus).release),
        ),
{
    let reaction = gpu.react(stimulus);
    assert(held(gpu).add(brought(gpu, stimulus)) =~= held(reaction.state).add(
        one(reaction.release),
    ));
}

impl Pending {
    /// What an operation waits for at first.
    pub open spec fn starts(self) -> bool {
        self is Resolution || self is SetupInfo || self is FlushTransfer || self is CursorAlloc
            || self is CursorMove || self is VirglContext || self is ToHost || self is FromHost
    }
}

/// An operation that is started holds no other memory than before, and gives none back.
pub proof fn start_keeps_memory(gpu: GpuState, pending: Pending)
    requires
        gpu.pending is Idle,
        pending.region() is None,
    ensures
        held(gpu.enter(pending, None).state) == held(gpu),
        gpu.enter(pending, None).release is None,
{
}

/// A turn of the driver: an operation is started, or the driver is resumed.
pub ghost enum Turn {
    Start { pending: Pending },
    Create { ctx_id: u32, name: Seq<u8> },
    Submit { ctx_id: u32, fence: u64, commands: Seq<u8> },
    Resume { stimulus: Stimulus },
}

/// The state after some turns.
pub open spec fn after_turns(turns: Seq<Turn>) -> GpuState
    decreases turns.len(),
{
    if turns.len() == 0 {
        GpuState::initial()
    } else {
        let before = after_turns(turns.drop_last());
        match turns.last() {
            Turn::Start { pending } => before.enter(pending, None).state,
            Turn::Create { ctx_id, name } => before.context_create(ctx_id, name).state,
            Turn::Submit { ctx_id, fence, commands } => before.submit_3d(
                ctx_id,
                fence,
                commands,
            ).state,
            Turn::Resume { stimulus } => before.react(stimulus).state,
        }
    }
}

/// Each turn was one that the driver takes.
pub open spec fn turns_taken(turns: Seq<Turn>) -> bool
    decreases turns.len(),
{
    turns.len() > 0 ==> {
        let before = after_turns(turns.drop_last());
        &&& turns_taken(turns.drop_last())
        &&& match turns.last() {
            Turn::Start { pending } => before.pending is Idle && pending.starts(),
            Turn::Create { .. } | Turn::Submit { .. } => before.pending is Idle,
            Turn::Resume { stimulus } => before.accepts(stimulus),
        }
    }
}

/// All memory that was brought in some turns.
pub open spec fn all_brought(turns: Seq<Turn>) -> Multiset<DmaRegion>
    decreases turns.len(),
{
    if turns.len() == 0 {
        Multiset::empty()
    } else {
        let rest = turns.drop_last();
        match turns.last() {
            Turn::Resume { stimulus } => all_brought(rest).add(
                brought(after_turns(rest), stimulus),
            ),
            _ => all_brought(rest),
        }
    }
}

/// All memory that was given back in some turns.
pub open spec fn all_released(turns: Seq<Turn>) -> Multiset<DmaRegion>
    decreases turns.len(),
{
    if turns.len() == 0 {
        Multiset::empty()
    } else {
        let rest = turns.drop_last();
        match turns.last() {
            Turn::Resume { stimulus } => all_released(rest).add(
                one(after_turns(rest).react(stimulus).release),
            ),
            _ => all_released(rest),
        }
    }
}

/// A started operation keeps the driver in order.
proof fn start_keeps_wf(gpu: GpuState, pending: Pending)
    requires
        gpu.wf(),
        pending.starts(),
    ensures
        gpu.enter(pending, None).state.wf(),
        pending.region() is None,
{
    message_fits(pending);
}

/// A request with data keeps the driver in order and its memory as it is.
proof fn data_request_keeps(gpu: GpuState, header: Seq<u8>, data: Seq<u8>)
    requires
        gpu.wf(),
        gpu.pending is Idle,
        header.len() <= PAGE_SIZE,
    ensures
        gpu.request_with_data(header, data).state.wf(),
        held(gpu.request_with_data(header, data).state) == held(gpu),
{
}

/// The accounts of two stretches add up.
proof fn accounts_add_up(
    brought_before: Multiset<DmaRegion>,
    released_before: Multiset<DmaRegion>,
    held_before: Multiset<DmaRegion>,
    brought_now: Multiset<DmaRegion>,
    released_now: Multiset<DmaRegion>,
    held_now: Multiset<DmaRegion>,
)
    requires
        brought_before == released_before.add(held_before),
        held_before.add(brought_now) == held_now.add(released_now),
    ensures
        brought_before.add(brought_now) == released_before.add(released_now).add(held_now),
{
    assert forall|region: DmaRegion| #[trigger]
        brought_before.add(brought_now).count(region) == released_before.add(released_now).add(
            held_now,
        ).count(region) by {
        vstd::multiset::axiom_multiset_add(released_before, held_before, region);
        vstd::multiset::axiom_multiset_add(held_before, brought_now, region);
        vstd::multiset::axiom_multiset_add(held_now, released_now, region);
        vstd::multiset::axiom_multiset_add(brought_before, brought_now, region);
        vstd::multiset::axiom_multiset_add(released_before, released_now, region);
        vstd::multiset::axiom_multiset_add(
            released_before.add(released_now),
            held_now,
            region,
        );
    }
    assert(brought_before.add(brought_now) =~= released_before.add(released_now).add(held_now));
}

/// Over the life of a driver, all memory that was brought has been given back or is held.
pub proof fn no_memory_leaks(turns: Seq<Turn>)
    requires
        turns_taken(turns),
    ensures
        after_turns(turns).wf(),
        all_brought(turns) == all_released(turns).add(held(after_turns(turns))),
    decreases turns.len(),
{
    if turns.len() == 0 {
        assert(all_brought(turns) =~= all_released(turns).add(held(after_turns(turns))));
    } else {
        let rest = turns.drop_last();
        let before = after_turns(rest);
        no_memory_leaks(rest);
        match turns.last() {
            Turn::Start { pending } => {
                start_keeps_wf(before, pending);
                start_keeps_memory(before, pending);
            },
            Turn::Create { ctx_id, name } => {
                data_requests_fit(ctx_id, 0, 0, name);
                data_request_keeps(before, requests::context_create_bytes(ctx_id, name), name);
            },
            Turn::Submit { ctx_id, fence, commands } => {
                let size = commands.len() as u32;
                data_requests_fit(ctx_id, fence, size, Seq::empty());
                data_request_keeps(
                    before,
                    bytes::words(requests::submit_3d_request(ctx_id, fence, size).words()),
                    commands,
                );
            },
            Turn::Resume { stimulus } => {
                react_keeps_wf(before, stimulus);
                memory_is_accounted_for(before, stimulus);
                accounts_add_up(
                    all_brought(rest),
                    all_released(rest),
                    held(before),
                    brought(before, stimulus),
                    one(before.react(stimulus).release),
                    held(before.react(stimulus).state),
                );
            },
        }
    }
}

/// Between two operations, the memory that the driver holds is that of the framebuffer and
/// that of the pointer.
pub proof fn idle_driver_holds(gpu: GpuState)
    requires
        gpu.pending is Idle,
    ensures
        held(gpu) == one(gpu.frame_buffer).add(one(gpu.cursor_buffer)),
{
    assert(held(gpu) =~= one(gpu.frame_buffer).add(one(gpu.cursor_buffer)));
}

/// The header of the request that goes out while the driver waits.
pub open spec fn request_header(pending: Pending) -> CtrlHeader {
    match pending {
        Pending::Resolution | Pending::SetupInfo | Pending::VirglInfo => CtrlHeader::of_type(
            GET_DISPLAY_INFO,
        ),
        Pending::SetupScanoutOff { .. }
        | Pending::SetupScanout { .. }
        | Pending::VirglScanout { .. } => CtrlHeader::of_type(SET_SCANOUT),
        Pending::SetupDetach { .. } => CtrlHeader::of_type(RESOURCE_DETACH_BACKING),
        Pending::SetupUnref { .. } => CtrlHeader::of_type(RESOURCE_UNREF),
        Pending::SetupCreate { .. } | Pending::CursorCreate { .. } => CtrlHeader::of_type(
            RESOURCE_CREATE_2D,
        ),
        Pending::SetupAttach { .. } | Pending::CursorAttach { .. } => CtrlHeader::of_type(
            RESOURCE_ATTACH_BACKING,
        ),
        Pending::FlushTransfer { .. } | Pending::CursorTransfer { .. } => CtrlHeader::of_type(
            TRANSFER_TO_HOST_2D,
        ),
        Pending::FlushShow { .. } | Pending::VirglFlush { .. } => CtrlHeader::of_type(
            RESOURCE_FLUSH,
        ),
        Pending::CursorShow { .. } => CtrlHeader::of_type(UPDATE_CURSOR),
        Pending::CursorMove { .. } => CtrlHeader::of_type(MOVE_CURSOR),
        Pending::VirglContext => CtrlHeader::in_context(CTX_CREATE, VIRGL_CTX),
        Pending::VirglCreate { .. } => CtrlHeader::of_type(RESOURCE_CREATE_3D),
        Pending::VirglAttach { .. } => CtrlHeader::in_context(CTX_ATTACH_RESOURCE, VIRGL_CTX),
        Pending::VirglSubmit { fence, .. } => CtrlHeader::fenced(
            CMD_SUBMIT_3D,
            VIRGL_CTX,
            fence,
        ),
        Pending::ToHost { .. } => CtrlHeader::of_type(TRANSFER_TO_HOST_3D),
        Pending::FromHost { .. } => CtrlHeader::of_type(TRANSFER_FROM_HOST_3D),
        _ => CtrlHeader::of_type(0),
    }
}

/// A word that was written at the start of a buffer is read back from it.
pub proof fn word_reads_back(ws: Seq<u32>, tail: Seq<u8>, buffer: Seq<u8>, k: int)
    requires
        0 <= k < ws.len(),
    ensures
        bytes::word_at(bytes::overwrite_prefix(buffer, bytes::words(ws) + tail), 4 * k) == ws[k],
{
    let encoded = bytes::words(ws);
    let written = bytes::overwrite_prefix(buffer, encoded + tail);
    bytes::words_len(ws);
    bytes::words_round_trip(ws, k);
    assert(written[4 * k] == encoded[4 * k]);
    assert(written[4 * k + 1] == encoded[4 * k + 1]);
    assert(written[4 * k + 2] == encoded[4 * k + 2]);
    assert(written[4 * k + 3] == encoded[4 * k + 3]);
}

/// A header that was written at the start of a buffer is read back from it.
pub proof fn header_reads_back(header: CtrlHeader, rest: Seq<u32>, tail: Seq<u8>, buffer: Seq<u8>)
    ensures
        CtrlHeader::decoded(
            bytes::overwrite_prefix(buffer, bytes::words(header.words() + rest) + tail),
        ) == header,
{
    let ws = header.words() + rest;
    word_reads_back(ws, tail, buffer, 0);
    word_reads_back(ws, tail, buffer, 1);
    word_reads_back(ws, tail, buffer, 2);
    word_reads_back(ws, tail, buffer, 3);
    word_reads_back(ws, tail, buffer, 4);
    word_reads_back(ws, tail, buffer, 5);
    bytes::halves_round_trip(header.fence_id);
}

/// The same for a request that consists of words.
proof fn request_reads_back(header: CtrlHeader, ws: Seq<u32>, buffer: Seq<u8>)
    requires
        ws.len() >= 6,
        ws.take(6) == header.words(),
    ensures
        CtrlHeader::decoded(bytes::overwrite_prefix(buffer, bytes::words(ws))) == header,
{
    let none = Seq::<u8>::empty();
    assert(ws =~= header.words() + ws.skip(6));
    assert(bytes::words(ws) + none =~= bytes::words(ws));
    header_reads_back(header, ws.skip(6), none, buffer);
}

/// What the device finds at the start of the send buffer is the header of the request that
/// the driver makes of its own.
pub proof fn request_is_in_the_send_buffer(gpu: GpuState, pending: Pending)
    requires
        pending.is_control() || pending.is_cursor(),
        !(pending is Answer),
    ensures
        CtrlHeader::decoded(gpu.enter(pending, None).state.send) == request_header(pending),
{
    let header = request_header(pending);
    let ws = match pending {
        Pending::SetupScanoutOff { shown, .. } => requests::set_scanout_request(
            shown,
            SCANOUT_ID,
            0,
        ).words(),
        Pending::SetupDetach { .. } => requests::resource_detach_backing_request(
            RESOURCE_ID_FB,
        ).words(),
        Pending::SetupUnref { .. } => requests::resource_unref_request(RESOURCE_ID_FB).words(),
        Pending::SetupCreate { rect } => requests::resource_create_2d_request(
            RESOURCE_ID_FB,
            rect.width,
            rect.height,
        ).words(),
        Pending::SetupAttach { rect, region } => requests::resource_attach_backing_request(
            RESOURCE_ID_FB,
            region.paddr,
            pixel_bytes(rect) as u32,
        ).words(),
        Pending::SetupScanout { rect, .. } => requests::set_scanout_request(
            rect,
            SCANOUT_ID,
            RESOURCE_ID_FB,
        ).words(),
        Pending::FlushTransfer { rect } => requests::transfer_to_host_2d_request(
            rect,
            0,
            RESOURCE_ID_FB,
        ).words(),
        Pending::FlushShow { rect } => requests::resource_flush_request(
            rect,
            RESOURCE_ID_FB,
        ).words(),
        Pending::CursorCreate { .. } => requests::resource_create_2d_request(
            RESOURCE_ID_CURSOR,
            CURSOR_EXTENT,
            CURSOR_EXTENT,
        ).words(),
        Pending::CursorAttach { region, .. } => requests::resource_attach_backing_request(
            RESOURCE_ID_CURSOR,
            region.paddr,
            CURSOR_BYTES,
        ).words(),
        Pending::CursorTransfer { .. } => requests::transfer_to_host_2d_request(
            cursor_rect(),
            0,
            RESOURCE_ID_CURSOR,
        ).words(),
        Pending::CursorShow { place, .. } => requests::update_cursor_request(
            RESOURCE_ID_CURSOR,
            SCANOUT_ID,
            place.pos_x,
            place.pos_y,
            place.hot_x,
            place.hot_y,
            false,
        ).words(),
        Pending::CursorMove { x, y } => requests::update_cursor_request(
            RESOURCE_ID_CURSOR,
            SCANOUT_ID,
            x,
            y,
            0,
            0,
            true,
        ).words(),
        Pending::VirglCreate { width, height } => requests::resource_create_3d_request(
            VIRGL_RESOURCE,
            2,
            1,
            3,
            width,
            height,
            1,
            1,
            0,
            0,
            0,
        ).words(),
        Pending::VirglAttach { .. } => requests::ctx_attach_resource_request(
            VIRGL_CTX,
            VIRGL_RESOURCE,
        ).words(),
        Pending::VirglScanout { width, height } => requests::set_scanout_request(
            origin_rect(width, height),
            SCANOUT_ID,
            VIRGL_RESOURCE,
        ).words(),
        Pending::VirglSubmit { half_width, half_height, fence, .. } => requests::submit_3d_request(
            VIRGL_CTX,
            fence,
            test_stream(half_width, half_height).len() as u32,
        ).words(),
        Pending::VirglFlush { width, height } => requests::resource_flush_request(
            origin_rect(width, height),
            VIRGL_RESOURCE,
        ).words(),
        Pending::ToHost { transfer } => requests::transfer_to_host_3d_request(
            transfer.box_3d,
            transfer.offset,
            transfer.resource_id,
            transfer.level,
            transfer.stride,
            transfer.layer_stride,
        ).words(),
        Pending::FromHost { transfer } => requests::transfer_from_host_3d_request(
            transfer.box_3d,
            transfer.offset,
            transfer.resource_id,
            transfer.level,
            transfer.stride,
            transfer.layer_stride,
        ).words(),
        _ => header.words(),
    };
    if pending is VirglContext {
        let name = test_context_name();
        header_reads_back(
            header,
            seq![name.len() as u32, 0u32],
            requests::padded_name(name),
            gpu.send,
        );
    } else {
        assert(ws.take(6) =~= header.words());
        request_reads_back(header, ws, gpu.send);
    }
}

/// A display that is answered, an answer of plain success, and memory.
pub open spec fn shows(gpu: GpuState, stimulus: Stimulus, rect: Rect) -> bool {
    &&& stimulus is Replied
    &&& answer_type(gpu, stimulus) == OK_DISPLAY_INFO
    &&& gpu.absorb(stimulus).display() == rect
}

/// An answer of plain success.
pub open spec fn acknowledges(gpu: GpuState, stimulus: Stimulus) -> bool {
    stimulus is Replied && answer_type(gpu, stimulus) == OK_NODATA
}

/// A framebuffer is built: after a resource of the size of `rect` has been asked for, memory
/// for its pixels is allocated and attached to the resource, and the resource is shown. In
/// the end the driver holds that memory, and its pages hold the pixels.
pub proof fn framebuffer_built(
    gpu: GpuState,
    rect: Rect,
    created: Stimulus,
    paddr: u64,
    attached: Stimulus,
    shown: Stimulus,
)
    requires
        gpu.pending == (Pending::SetupCreate { rect }),
        pixel_bytes(rect) <= u32::MAX,
        ({
            let s1 = gpu.react(created).state;
            let s2 = s1.react(Stimulus::Allocated { paddr }).state;
            let s3 = s2.react(attached).state;
            &&& acknowledges(gpu, created)
            &&& acknowledges(s2, attached)
            &&& acknowledges(s3, shown)
        }),
    ensures
        ({
            let region = DmaRegion { paddr, pages: pages_for(pixel_bytes(rect)) as usize };
            let s1 = gpu.react(created).state;
            let s2 = s1.react(Stimulus::Allocated { paddr }).state;
            let s3 = s2.react(attached).state;
            let end = s3.react(shown);
            &&& s1.pending == Pending::SetupAlloc { rect }
            &&& s2.pending == Pending::SetupAttach { rect, region }
            &&& s3.pending == Pending::SetupScanout { rect, region }
            &&& end.action == (Move::Finish { result: Ok(Outcome::Framebuffer { region }) })
            &&& end.release is None
            &&& end.state.frame_buffer == Some(region)
            &&& end.state.rect == gpu.rect
            &&& end.state.pending is Idle
            &&& pixel_bytes(rect) <= region.pages * PAGE_SIZE
        }),
{
}

/// The first framebuffer is set up: it has the size of the display, and what is flushed from
/// then on is the display.
pub proof fn framebuffer_setup(
    gpu: GpuState,
    rect: Rect,
    info: Stimulus,
    created: Stimulus,
    paddr: u64,
    attached: Stimulus,
    shown: Stimulus,
)
    requires
        gpu.pending is Idle,
        gpu.frame_buffer is None,
        pixel_bytes(rect) <= u32::MAX,
        ({
            let s0 = gpu.enter(Pending::SetupInfo, None).state;
            let s1 = s0.react(info).state;
            let s2 = s1.react(created).state;
            let s3 = s2.react(Stimulus::Allocated { paddr }).state;
            let s4 = s3.react(attached).state;
            &&& shows(s0, info, rect)
            &&& acknowledges(s1, created)
            &&& acknowledges(s3, attached)
            &&& acknowledges(s4, shown)
        }),
    ensures
        ({
            let region = DmaRegion { paddr, pages: pages_for(pixel_bytes(rect)) as usize };
            let s0 = gpu.enter(Pending::SetupInfo, None).state;
            let s1 = s0.react(info).state;
            let s2 = s1.react(created).state;
            let s3 = s2.react(Stimulus::Allocated { paddr }).state;
            let s4 = s3.react(attached).state;
            let end = s4.react(shown);
            &&& s1.pending == Pending::SetupCreate { rect }
            &&& end.action == (Move::Finish { result: Ok(Outcome::Framebuffer { region }) })
            &&& end.state.frame_buffer == Some(region)
            &&& end.state.rect == Some(rect)
        }),
{
    let s1 = gpu.enter(Pending::SetupInfo, None).state.react(info).state;
    framebuffer_built(s1, rect, created, paddr, attached, shown);
}

/// An earlier framebuffer is replaced: its scanout, its backing and its resource end before
/// the new resource is created, and its memory is given back then.
pub proof fn framebuffer_replaced(
    gpu: GpuState,
    old_region: DmaRegion,
    old_rect: Rect,
    rect: Rect,
    info: Stimulus,
    off: Stimulus,
    detached: Stimulus,
    unreferenced: Stimulus,
)
    requires
        gpu.wf(),
        gpu.pending is Idle,
        gpu.frame_buffer == Some(old_region),
        gpu.rect == Some(old_rect),
        shows(gpu.enter(Pending::SetupInfo, None).state, info, rect),
    ensures
        ({
            let s0 = gpu.enter(Pending::SetupInfo, None).state;
            let s1 = s0.react(info);
            let s2 = s1.state.react(off);
            let s3 = s2.state.react(detached);
            let s4 = s3.state.react(unreferenced);
            &&& s1.state.pending == Pending::SetupScanoutOff { shown: old_rect, next: rect }
            &&& s2.state.pending == Pending::SetupDetach { next: rect }
            &&& s3.state.pending == Pending::SetupUnref { next: rect }
            &&& s4.state.pending == Pending::SetupCreate { rect }
            &&& s1.release is None && s2.release is None && s3.release is None
            &&& s4.release == Some(old_region)
            &&& s4.state.frame_buffer is None
            &&& s4.state.rect == Some(rect)
        }),
{
}

/// The display has changed its size: the old framebuffer is taken down whatever the device
/// answers to that, and the new one has the size of the display.
pub proof fn framebuffer_resized(
    gpu: GpuState,
    old_region: DmaRegion,
    old_rect: Rect,
    rect: Rect,
    info: Stimulus,
    off: Stimulus,
    detached: Stimulus,
    unreferenced: Stimulus,
    created: Stimulus,
    paddr: u64,
    attached: Stimulus,
    shown: Stimulus,
)
    requires
        gpu.wf(),
        gpu.pending is Idle,
        gpu.frame_buffer == Some(old_region),
        gpu.rect == Some(old_rect),
        pixel_bytes(rect) <= u32::MAX,
        shows(gpu.enter(Pending::SetupInfo, None).state, info, rect),
        ({
            let s0 = gpu.enter(Pending::SetupInfo, None).state;
            let s4 = s0.react(info).state.react(off).state.react(detached).state.react(
                unreferenced,
            ).state;
            let s5 = s4.react(created).state;
            let s6 = s5.react(Stimulus::Allocated { paddr }).state;
            let s7 = s6.react(attached).state;
            &&& acknowledges(s4, created)
            &&& acknowledges(s6, attached)
            &&& acknowledges(s7, shown)
        }),
    ensures
        ({
            let region = DmaRegion { paddr, pages: pages_for(pixel_bytes(rect)) as usize };
            let s0 = gpu.enter(Pending::SetupInfo, None).state;
            let s4 = s0.react(info).state.react(off).state.react(detached).state.react(
                unreferenced,
            );
            let s5 = s4.state.react(created).state;
            let s6 = s5.react(Stimulus::Allocated { paddr }).state;
            let s7 = s6.react(attached).state;
            let end = s7.react(shown);
            &&& s4.release == Some(old_region)
            &&& end.action == (Move::Finish { result: Ok(Outcome::Framebuffer { region }) })
            &&& end.state.frame_buffer == Some(region)
            &&& end.state.rect == Some(rect)
        }),
{
    framebuffer_replaced(
        gpu,
        old_region,
        old_rect,
        rect,
        info,
        off,
        detached,
        unreferenced,
    );
    let s0 = gpu.enter(Pending::SetupInfo, None).state;
    let s4 = s0.react(info).state.react(off).state.react(detached).state.react(unreferenced).state;
    framebuffer_built(s4, rect, created, paddr, attached, shown);
}

/// A framebuffer that has been set up is flushed as a whole: it is copied to the host, and
/// then shown.
pub proof fn flush_shows_the_framebuffer(
    gpu: GpuState,
    rect: Rect,
    copied: Stimulus,
    shown: Stimulus,
)
    requires
        gpu.pending is Idle,
        gpu.rect == Some(rect),
        ({
            let s0 = gpu.enter(Pending::FlushTransfer { rect }, None).state;
            let s1 = s0.react(copied).state;
            acknowledges(s0, copied) && acknowledges(s1, shown)
        }),
    ensures
        ({
            let s0 = gpu.enter(Pending::FlushTransfer { rect }, None).state;
            let s1 = s0.react(copied).state;
            let end = s1.react(shown);
            &&& s1.pending == Pending::FlushShow { rect }
            &&& end.action == (Move::Finish { result: Ok(Outcome::Done) })
            &&& end.release is None
            &&& end.state.rect == gpu.rect
            &&& end.state.frame_buffer == gpu.frame_buffer
        }),
{
}

/// A new pointer image replaces the old one: its memory is held until it is replaced in
/// turn, and the memory of the old one is given back when the new pointer is shown.
pub proof fn pointer_replaced(
    gpu: GpuState,
    place: CursorPlace,
    paddr: u64,
    created: Stimulus,
    attached: Stimulus,
    copied: Stimulus,
)
    requires
        gpu.wf(),
        gpu.pending == (Pending::CursorAlloc { place }),
        ({
            let s1 = gpu.react(Stimulus::Allocated { paddr }).state;
            let s2 = s1.react(created).state;
            let s3 = s2.react(attached).state;
            acknowledges(s1, created) && acknowledges(s2, attached) && acknowledges(s3, copied)
        }),
    ensures
        ({
            let region = DmaRegion { paddr, pages: pages_for(CURSOR_BYTES as int) as usize };
            let s1 = gpu.react(Stimulus::Allocated { paddr }).state;
            let s2 = s1.react(created).state;
            let s3 = s2.react(attached).state;
            let s4 = s3.react(copied);
            let end = s4.state.react(Stimulus::Sent);
            &&& s4.state.pending == Pending::CursorShow { place, region }
            &&& s4.action is Cursor
            &&& end.action == (Move::Finish { result: Ok(Outcome::Done) })
            &&& end.state.cursor_buffer == Some(region)
            &&& end.release == gpu.cursor_buffer
        }),
{
}

/// The virgl test begins: context, display, render target, attachment and scanout come in
/// turn before anything is rendered.
pub proof fn virgl_test_prepares(
    gpu: GpuState,
    rect: Rect,
    opened: Stimulus,
    info: Stimulus,
    created: Stimulus,
    attached: Stimulus,
    scanned: Stimulus,
)
    requires
        gpu.pending is Idle,
        ({
            let s0 = gpu.enter(Pending::VirglContext, None).state;
            let s1 = s0.react(opened).state;
            let s2 = s1.react(info).state;
            let s3 = s2.react(created).state;
            let s4 = s3.react(attached).state;
            &&& acknowledges(s0, opened)
            &&& shows(s1, info, rect)
            &&& acknowledges(s2, created)
            &&& acknowledges(s3, attached)
            &&& acknowledges(s4, scanned)
        }),
    ensures
        ({
            let width = rect.width;
            let height = rect.height;
            let s0 = gpu.enter(Pending::VirglContext, None).state;
            let s1 = s0.react(opened).state;
            let s2 = s1.react(info).state;
            let s3 = s2.react(created).state;
            let s4 = s3.react(attached).state;
            let s5 = s4.react(scanned);
            &&& s1.pending is VirglInfo
            &&& s2.pending == Pending::VirglCreate { width, height }
            &&& s3.pending == Pending::VirglAttach { width, height }
            &&& s4.pending == Pending::VirglScanout { width, height }
            &&& s5.state.pending == Pending::VirglScale { width, height }
            &&& s5.action == (Move::Scale { width, height })
            &&& s5.state.frame_buffer == gpu.frame_buffer
            &&& s5.state.rect == gpu.rect
        }),
{
    let s0 = gpu.enter(Pending::VirglContext, None).state;
    let s1 = s0.react(opened).state;
    assert(s1.pending is VirglInfo && s1.frame_buffer == gpu.frame_buffer && s1.rect == gpu.rect);
    let s2 = s1.react(info).state;
    assert(s2.pending == Pending::VirglCreate { width: rect.width, height: rect.height });
    assert(s2.frame_buffer == gpu.frame_buffer && s2.rect == gpu.rect);
    let s3 = s2.react(created).state;
    assert(s3.pending == Pending::VirglAttach { width: rect.width, height: rect.height });
    assert(s3.frame_buffer == gpu.frame_buffer && s3.rect == gpu.rect);
}

/// The virgl test ends: the command stream goes out under the fence that was drawn, and the
/// frame is shown when the device has taken it.
pub proof fn virgl_test_renders(
    gpu: GpuState,
    width: u32,
    height: u32,
    half_width: u32,
    half_height: u32,
    fence: u64,
    submitted: Stimulus,
    flushed: Stimulus,
)
    requires
        gpu.pending == (Pending::VirglScale { width, height }),
        ({
            let s1 = gpu.react(Stimulus::Scaled { half_width, half_height, fence }).state;
            let s2 = s1.react(submitted).state;
            acknowledges(s1, submitted) && acknowledges(s2, flushed)
        }),
    ensures
        ({
            let s1 = gpu.react(Stimulus::Scaled { half_width, half_height, fence });
            let s2 = s1.state.react(submitted).state;
            let end = s2.react(flushed);
            &&& s1.state.pending == Pending::VirglSubmit {
                width,
                height,
                half_width,
                half_height,
                fence,
            }
            &&& s1.action matches Move::Control { data, .. } && data == Some(
                test_stream(half_width, half_height),
            )
            &&& s2.pending == Pending::VirglFlush { width, height }
            &&& end.action == (Move::Finish { result: Ok(Outcome::Done) })
            &&& end.state.pending is Idle
            &&& end.state.frame_buffer == gpu.frame_buffer
            &&& end.state.rect == gpu.rect
        }),
{
}

/// A submitted command stream is answered: the operation goes on to show the frame exactly if
/// the answer is plain success, and ends with an I/O error otherwise.
pub proof fn submission_is_answered(gpu: GpuState, bytes: Seq<u8>)
    requires
        gpu.pending is VirglSubmit,
        gpu.accepts(Stimulus::Replied { bytes }),
    ensures
        ({
            let stimulus = Stimulus::Replied { bytes };
            let reaction = gpu.react(stimulus);
            &&& answer_type(gpu, stimulus) == OK_NODATA <==> reaction.state.pending is VirglFlush
            &&& answer_type(gpu, stimulus) != OK_NODATA <==> reaction.action == (Move::Finish {
                result: Err(Error::IoError),
            })
        }),
{
    let stimulus = Stimulus::Replied { bytes };
    let state = gpu.absorb(stimulus);
    if answer_type(gpu, stimulus) == OK_NODATA {
        assert(state.pending == gpu.pending);
        assert(gpu.react(stimulus) == state.proceed(stimulus));
    }
}

/// A request with data is answered: it succeeds exactly if the answer is plain success, and
/// is an I/O error otherwise. The framebuffer and the pointer are as before.
pub proof fn data_request_is_answered(gpu: GpuState, bytes: Seq<u8>)
    requires
        gpu.pending is Answer,
        gpu.accepts(Stimulus::Replied { bytes }),
    ensures
        ({
            let stimulus = Stimulus::Replied { bytes };
            let reaction = gpu.react(stimulus);
            &&& answer_type(gpu, stimulus) == OK_NODATA <==> reaction.action == (Move::Finish {
                result: Ok(Outcome::Done),
            })
            &&& answer_type(gpu, stimulus) != OK_NODATA <==> reaction.action == (Move::Finish {
                result: Err(Error::IoError),
            })
            &&& reaction.release is None
            &&& reaction.state.pending is Idle
            &&& reaction.state.rect == gpu.rect
            &&& reaction.state.frame_buffer == gpu.frame_buffer
            &&& reaction.state.cursor_buffer == gpu.cursor_buffer
        }),
{
    let stimulus = Stimulus::Replied { bytes };
    let state = gpu.absorb(stimulus);
    assert(state.pending == gpu.pending);
}

/// Every submission, to any context and of any commands, is one request of type
/// `CMD_SUBMIT_3D` with the fence flag, the fence, the context and the size of the commands,
/// and the commands follow it.
pub proof fn submission_is_in_the_send_buffer(
    gpu: GpuState,
    ctx_id: u32,
    fence: u64,
    commands: Seq<u8>,
)
    ensures
        ({
            let reaction = gpu.submit_3d(ctx_id, fence, commands);
            &&& CtrlHeader::decoded(reaction.state.send) == CtrlHeader::fenced(
                CMD_SUBMIT_3D,
                ctx_id,
                fence,
            )
            &&& bytes::word_at(reaction.state.send, 24) == commands.len() as u32
            &&& reaction.action == (Move::Control { header_len: 32, data: Some(commands) })
            &&& reaction.state.pending is Answer
        }),
{
    let header = CtrlHeader::fenced(CMD_SUBMIT_3D, ctx_id, fence);
    let ws = requests::submit_3d_request(ctx_id, fence, commands.len() as u32).words();
    let none = Seq::<u8>::empty();
    bytes::words_len(ws);
    assert(ws.take(6) =~= header.words());
    request_reads_back(header, ws, gpu.send);
    assert(bytes::words(ws) + none =~= bytes::words(ws));
    word_reads_back(ws, none, gpu.send, 6);
}

/// Every creation of a context, of any name, is one request of type `CTX_CREATE` with the
/// context, the length of the name and the first bytes of it, and the name follows it.
pub proof fn context_is_in_the_send_buffer(gpu: GpuState, ctx_id: u32, name: Seq<u8>)
    requires
        gpu.send.len() == PAGE_SIZE,
    ensures
        ({
            let reaction = gpu.context_create(ctx_id, name);
            &&& CtrlHeader::decoded(reaction.state.send) == CtrlHeader::in_context(
                CTX_CREATE,
                ctx_id,
            )
            &&& bytes::word_at(reaction.state.send, 24) == name.len() as u32
            &&& reaction.state.send.subrange(32, 96) == requests::padded_name(name)
            &&& reaction.action == (Move::Control { header_len: 96, data: Some(name) })
            &&& reaction.state.pending is Answer
        }),
{
    let header = CtrlHeader::in_context(CTX_CREATE, ctx_id);
    let rest = seq![name.len() as u32, 0u32];
    let ws = header.words() + rest;
    let padded = requests::padded_name(name);
    data_requests_fit(ctx_id, 0, 0, name);
    bytes::words_len(ws);
    header_reads_back(header, rest, padded, gpu.send);
    word_reads_back(ws, padded, gpu.send, 6);
    assert(gpu.context_create(ctx_id, name).state.send.subrange(32, 96) =~= padded);
}

/// The context of the virgl test is created like any other.
pub proof fn test_context_is_like_any(gpu: GpuState)
    ensures
        ({
            let created = gpu.context_create(VIRGL_CTX, test_context_name());
            let entered = gpu.enter(Pending::VirglContext, None);
            &&& entered.state.send == created.state.send
            &&& entered.action == created.action
        }),
{
}

/// A turn of one of several drivers.
pub ghost struct DriverTurn {
    pub device: int,
    pub turn: Turn,
}

impl DriverTurn {
    /// The turn submits a command stream.
    pub open spec fn submits(self) -> bool {
        match self.turn {
            Turn::Submit { .. } => true,
            Turn::Resume { stimulus } => stimulus is Scaled,
            _ => false,
        }
    }

    /// The fence that comes with the turn.
    pub open spec fn fence(self) -> u64 {
        match self.turn {
            Turn::Submit { fence, .. } => fence,
            Turn::Resume { stimulus: Stimulus::Scaled { fence, .. } } => fence,
            _ => 0,
        }
    }

    /// The context that the commands are for.
    pub open spec fn context(self) -> u32 {
        match self.turn {
            Turn::Submit { ctx_id, .. } => ctx_id,
            _ => VIRGL_CTX,
        }
    }

    /// The commands that are submitted.
    pub open spec fn commands(self) -> Seq<u8> {
        match self.turn {
            Turn::Submit { commands, .. } => commands,
            Turn::Resume { stimulus: Stimulus::Scaled { half_width, half_height, .. } } =>
                test_stream(half_width, half_height),
            _ => Seq::empty(),
        }
    }

    /// What a driver does with a turn that submits.
    pub open spec fn reaction(self, before: GpuState) -> Reaction {
        match self.turn {
            Turn::Submit { ctx_id, fence, commands } => before.submit_3d(
                ctx_id,
                fence,
                commands,
            ),
            Turn::Resume { stimulus } => before.react(stimulus),
            _ => before.finish(Ok(Outcome::Done), None),
        }
    }
}

/// The turns of one driver.
pub open spec fn turns_of(device: int, all: Seq<DriverTurn>) -> Seq<Turn>
    decreases all.len(),
{
    if all.len() == 0 {
        Seq::empty()
    } else {
        let before = turns_of(device, all.drop_last());
        if all.last().device == device {
            before.push(all.last().turn)
        } else {
            before
        }
    }
}

/// The number of command streams that were submitted, on any driver.
pub open spec fn submissions(all: Seq<DriverTurn>) -> nat
    decreases all.len(),
{
    if all.len() == 0 {
        0
    } else if all.last().submits() {
        submissions(all.drop_last()) + 1
    } else {
        submissions(all.drop_last())
    }
}

/// Each fence was drawn from one counter, when it was needed.
pub open spec fn fences_drawn(all: Seq<DriverTurn>) -> bool
    decreases all.len(),
{
    all.len() > 0 ==> {
        let rest = all.drop_last();
        &&& fences_drawn(rest)
        &&& all.last().submits() ==> all.last().fence() == fence_after(submissions(rest))
    }
}

/// The submission number k since the start, on whichever driver, to whichever context, of
/// whichever commands and however the others were answered, is one request of type
/// `CMD_SUBMIT_3D` with the fence flag, the fence k, the context and the size of the commands,
/// and the commands follow it.
pub proof fn submission_carries_its_number(all: Seq<DriverTurn>)
    requires
        all.len() > 0,
        all.last().submits(),
        fences_drawn(all),
        turns_taken(turns_of(all.last().device, all)),
    ensures
        ({
            let last = all.last();
            let before = after_turns(turns_of(last.device, all.drop_last()));
            let after = after_turns(turns_of(last.device, all));
            let reaction = last.reaction(before);
            &&& after == reaction.state
            &&& after.pending is Answer || after.pending is VirglSubmit
            &&& CtrlHeader::decoded(after.send) == CtrlHeader::fenced(
                CMD_SUBMIT_3D,
                last.context(),
                last.fence(),
            )
            &&& last.fence() == submissions(all)
            &&& bytes::word_at(after.send, 24) == last.commands().len() as u32
            &&& reaction.action == (Move::Control {
                header_len: 32,
                data: Some(last.commands()),
            })
        }),
{
    let last = all.last();
    let device = last.device;
    let before = after_turns(turns_of(device, all.drop_last()));
    let turns = turns_of(device, all);
    assert(turns.drop_last() =~= turns_of(device, all.drop_last()));
    assert(turns.last() == last.turn);
    submission_is_in_the_send_buffer(before, last.context(), last.fence(), last.commands());
    if let Turn::Resume { stimulus } = last.turn {
        assert(before.accepts(stimulus));
        test_submission_is_like_any(before, stimulus);
    }
}

/// The commands of the virgl test are submitted like any others.
pub proof fn test_submission_is_like_any(gpu: GpuState, stimulus: Stimulus)
    requires
        gpu.accepts(stimulus),
        stimulus is Scaled,
    ensures
        ({
            let stream = test_stream(stimulus->half_width, stimulus->half_height);
            let submitted = gpu.submit_3d(VIRGL_CTX, stimulus->fence, stream);
            &&& gpu.react(stimulus).state.send == submitted.state.send
            &&& gpu.react(stimulus).state.pending is VirglSubmit
            &&& gpu.react(stimulus).action == submitted.action
        }),
{
    let pending = gpu.react(stimulus).state.pending;
    assert(gpu.absorb(stimulus) == gpu);
    assert(gpu.react(stimulus) == gpu.enter(pending, None));
}

/// No two submissions share a fence, whichever drivers make them: of two, the later has the
/// greater fence.
pub proof fn fences_differ(all: Seq<DriverTurn>, first: int, second: int)
    requires
        0 <= first < second < all.len(),
        fences_drawn(all),
        all[first].submits(),
        all[second].submits(),
    ensures
        all[first].fence() == submissions(all.take(first + 1)),
        all[second].fence() == submissions(all.take(second + 1)),
        all[first].fence() < all[second].fence(),
{
    fence_is_number(all, first);
    fence_is_number(all, second);
    submissions_grow(all, first + 1, second);
    assert(all.take(second + 1).drop_last() =~= all.take(second));
    assert(all.take(second + 1).last() == all[second]);
}

/// A fence is the number of its submission.
proof fn fence_is_number(all: Seq<DriverTurn>, at: int)
    requires
        0 <= at < all.len(),
        fences_drawn(all),
        all[at].submits(),
    ensures
        all[at].fence() == submissions(all.take(at + 1)),
    decreases all.len(),
{
    if at == all.len() - 1 {
        assert(all.take(at + 1) =~= all);
    } else {
        let rest = all.drop_last();
        assert(rest[at] == all[at]);
        fence_is_number(rest, at);
        assert(rest.take(at + 1) =~= all.take(at + 1));
    }
}

/// The number of submissions never falls.
proof fn submissions_grow(all: Seq<DriverTurn>, first: int, second: int)
    requires
        0 <= first <= second <= all.len(),
    ensures
        submissions(all.take(first)) <= submissions(all.take(second)),
    decreases second - first,
{
    if first < second {
        submissions_grow(all, first, second - 1);
        assert(all.take(second).drop_last() =~= all.take(second - 1));
    }
}

/// The command stream of the virgl test, read back: a surface is created, it becomes the
/// render target, the viewport is set and the color is cleared.
pub proof fn virgl_test_commands(half_width: u32, half_height: u32)
    ensures
        virgl::headers_from(test_stream(half_width, half_height), 0) == seq![
            CommandHeader { offset: 0, cmd: 1, obj: 8, len: 5 },
            CommandHeader { offset: 24, cmd: 5, obj: 0, len: 3 },
            CommandHeader { offset: 40, cmd: 4, obj: 0, len: 7 },
            CommandHeader { offset: 72, cmd: 7, obj: 0, len: 8 },
        ],
{
    let surface = Command {
        cmd: virgl::VIRGL_CCMD_CREATE_OBJECT,
        obj: virgl::VIRGL_OBJECT_SURFACE,
        payload: virgl::surface_payload(SURFACE_ID_COLOR, VIRGL_RESOURCE, 1),
    };
    let target = Command {
        cmd: virgl::VIRGL_CCMD_SET_FRAMEBUFFER_STATE,
        obj: 0,
        payload: virgl::framebuffer_payload(SURFACE_ID_COLOR, virgl::VIRGL_OBJECT_NULL),
    };
    let viewport = Command {
        cmd: virgl::VIRGL_CCMD_SET_VIEWPORT_STATE,
        obj: 0,
        payload: virgl::viewport_payload(half_width, half_height),
    };
    let clear = Command {
        cmd: virgl::VIRGL_CCMD_CLEAR,
        obj: 0,
        payload: virgl::clear_payload(VIRGL_RED, VIRGL_GREEN, VIRGL_BLUE, virgl::F32_ONE),
    };
    let list = seq![surface, target, viewport, clear];
    reveal_with_fuel(virgl::stream, 5);
    reveal_with_fuel(virgl::located, 5);
    let rest1 = list.drop_first();
    let rest2 = rest1.drop_first();
    let rest3 = rest2.drop_first();
    assert(rest1 =~= seq![target, viewport, clear]);
    assert(rest2 =~= seq![viewport, clear]);
    assert(rest3 =~= seq![clear]);
    assert(rest3.drop_first() =~= Seq::<Command>::empty());
    assert(virgl::stream(list) =~= test_stream(half_width, half_height));
    virgl::stream_headers(list);
    assert(virgl::located(list, 0) =~= seq![
        CommandHeader { offset: 0, cmd: 1, obj: 8, len: 5 },
        CommandHeader { offset: 24, cmd: 5, obj: 0, len: 3 },
        CommandHeader { offset: 40, cmd: 4, obj: 0, len: 7 },
        CommandHeader { offset: 72, cmd: 7, obj: 0, len: 8 },
    ]);
}

/// The command stream of the virgl test, word for word.
pub proof fn test_stream_reads(half_width: u32, half_height: u32)
    ensures
        test_stream(half_width, half_height).len() == 108,
        bytes::first_words(test_stream(half_width, half_height), 27) == seq![
            0x0005_0801u32, SURFACE_ID_COLOR, VIRGL_RESOURCE, 1u32, 0u32, 0u32,
            0x0003_0005u32, 1u32, 0u32, SURFACE_ID_COLOR,
            0x0007_0004u32, 0u32, half_width, half_height, 0x3f80_0000u32, half_width, half_height,
            0u32,
            0x0008_0007u32, 4u32, VIRGL_RED, VIRGL_GREEN, VIRGL_BLUE, 0x3f80_0000u32, 0u32,
            0x3ff0_0000u32, 0u32,
        ],
{
    virgl::header_is_a_sum(1, 8, 5);
    virgl::header_is_a_sum(5, 0, 3);
    virgl::header_is_a_sum(4, 0, 7);
    virgl::header_is_a_sum(7, 0, 8);
    let a = seq![virgl::header_word(1, 8, 5)] + virgl::surface_payload(
        SURFACE_ID_COLOR,
        VIRGL_RESOURCE,
        1,
    );
    let b = seq![virgl::header_word(5, 0, 3)] + virgl::framebuffer_payload(SURFACE_ID_COLOR, 0);
    let c = seq![virgl::header_word(4, 0, 7)] + virgl::viewport_payload(half_width, half_height);
    let d = seq![virgl::header_word(7, 0, 8)] + virgl::clear_payload(
        VIRGL_RED,
        VIRGL_GREEN,
        VIRGL_BLUE,
        virgl::F32_ONE,
    );
    bytes::words_concat(a, b);
    bytes::words_concat(a + b, c);
    bytes::words_concat(a + b + c, d);
    let all = a + b + c + d;
    bytes::encoded_words_read_back(all, Seq::empty());
    assert(test_stream(half_width, half_height) =~= bytes::words(all));
    assert(all =~= seq![
        0x0005_0801u32, SURFACE_ID_COLOR, VIRGL_RESOURCE, 1u32, 0u32, 0u32,
        0x0003_0005u32, 1u32, 0u32, SURFACE_ID_COLOR,
        0x0007_0004u32, 0u32, half_width, half_height, 0x3f80_0000u32, half_width, half_height,
        0u32,
        0x0008_0007u32, 4u32, VIRGL_RED, VIRGL_GREEN, VIRGL_BLUE, 0x3f80_0000u32, 0u32,
        0x3ff0_0000u32, 0u32,
    ]);
}

} // verus!
