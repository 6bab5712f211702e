//! What the device reads: every request of the driver, word for word.

use crate::bytes::{
    copied_words_read_back, encoded_words_read_back, first_words, high_word, low_word,
};
use crate::gpu::model::{
    pixel_bytes, CursorPlace, DmaRegion, GpuState, Move, Pending, Transfer3D, RESOURCE_ID_CURSOR,
    RESOURCE_ID_FB, VIRGL_CTX, VIRGL_RESOURCE,
};
use crate::gpu::requests;
use crate::gpu::wire::{
    Box3D, CtrlHeader, Rect, CMD_SUBMIT_3D, CTX_ATTACH_RESOURCE, CTX_CREATE, GET_DISPLAY_INFO,
    MOVE_CURSOR, RESOURCE_ATTACH_BACKING, RESOURCE_CREATE_2D, RESOURCE_CREATE_3D,
    RESOURCE_DETACH_BACKING, RESOURCE_FLUSH, RESOURCE_UNREF, SET_SCANOUT, TRANSFER_FROM_HOST_3D,
    TRANSFER_TO_HOST_2D, TRANSFER_TO_HOST_3D, UPDATE_CURSOR,
};
use vstd::prelude::*;

verus! {

/// The request for the displays is nothing but its type.
pub proof fn get_display_info_reads(bytes: Vec<u8>)
    requires
        call_ensures(requests::get_display_info, (), bytes),
    ensures
        bytes@.len() == 24,
        first_words(bytes@, 6) == seq![
            GET_DISPLAY_INFO, 0u32, 0u32, 0u32, 0u32, 0u32,
        ],
{
    let ws = CtrlHeader::of_type(GET_DISPLAY_INFO).words();
    encoded_words_read_back(ws, Seq::empty());
    assert(ws =~= seq![
        GET_DISPLAY_INFO, 0u32, 0u32, 0u32, 0u32, 0u32,
    ]);
}

/// The creation of a two-dimensional resource tells its number and its size.
pub proof fn resource_create_2d_reads(resource_id: u32, width: u32, height: u32, bytes: Vec<u8>)
    requires
        call_ensures(requests::resource_create_2d, (resource_id, width, height), bytes),
    ensures
        bytes@.len() == 40,
        first_words(bytes@, 10) == seq![
            RESOURCE_CREATE_2D, 0u32, 0u32, 0u32, 0u32, 0u32, resource_id, 1u32, width, height,
        ],
{
    let ws = requests::resource_create_2d_request(resource_id, width, height).words();
    encoded_words_read_back(ws, Seq::empty());
    assert(ws =~= seq![
        RESOURCE_CREATE_2D, 0u32, 0u32, 0u32, 0u32, 0u32, resource_id, 1u32, width, height,
    ]);
}

/// The creation of a three-dimensional resource tells what it was given.
pub proof fn resource_create_3d_reads(
    resource_id: u32,
    target: u32,
    format: u32,
    bind: u32,
    width: u32,
    height: u32,
    depth: u32,
    array_size: u32,
    last_level: u32,
    nr_samples: u32,
    flags: u32,
    bytes: Vec<u8>,
)
    requires
        call_ensures(
            requests::resource_create_3d,
            (
                resource_id,
                target,
                format,
                bind,
                width,
                height,
                depth,
                array_size,
                last_level,
                nr_samples,
                flags,
            ),
            bytes,
        ),
    ensures
        bytes@.len() == 72,
        first_words(bytes@, 18) == seq![
            RESOURCE_CREATE_3D, 0u32, 0u32, 0u32, 0u32, 0u32, resource_id, target, format, bind,
            width, height, depth, array_size, last_level, nr_samples, flags, 0u32,
        ],
{
    let ws = requests::resource_create_3d_request(
        resource_id,
        target,
        format,
        bind,
        width,
        height,
        depth,
        array_size,
        last_level,
        nr_samples,
        flags,
    ).words();
    encoded_words_read_back(ws, Seq::empty());
    assert(ws =~= seq![
        RESOURCE_CREATE_3D, 0u32, 0u32, 0u32, 0u32, 0u32, resource_id, target, format, bind,
        width, height, depth, array_size, last_level, nr_samples, flags, 0u32,
    ]);
}

/// A scanout shows the rectangle that was given, all of it.
pub proof fn set_scanout_reads(rect: Rect, scanout_id: u32, resource_id: u32, bytes: Vec<u8>)
    requires
        call_ensures(requests::set_scanout, (rect, scanout_id, resource_id), bytes),
    ensures
        bytes@.len() == 48,
        first_words(bytes@, 12) == seq![
            SET_SCANOUT, 0u32, 0u32, 0u32, 0u32, 0u32, rect.x, rect.y, rect.width, rect.height,
            scanout_id, resource_id,
        ],
{
    let ws = requests::set_scanout_request(rect, scanout_id, resource_id).words();
    encoded_words_read_back(ws, Seq::empty());
    assert(ws =~= seq![
        SET_SCANOUT, 0u32, 0u32, 0u32, 0u32, 0u32, rect.x, rect.y, rect.width, rect.height,
        scanout_id, resource_id,
    ]);
}

/// What is brought to the screen is the rectangle that was given, all of it.
pub proof fn resource_flush_reads(rect: Rect, resource_id: u32, bytes: Vec<u8>)
    requires
        call_ensures(requests::resource_flush, (rect, resource_id), bytes),
    ensures
        bytes@.len() == 48,
        first_words(bytes@, 12) == seq![
            RESOURCE_FLUSH, 0u32, 0u32, 0u32, 0u32, 0u32, rect.x, rect.y, rect.width, rect.height,
            resource_id, 0u32,
        ],
{
    let ws = requests::resource_flush_request(rect, resource_id).words();
    encoded_words_read_back(ws, Seq::empty());
    assert(ws =~= seq![
        RESOURCE_FLUSH, 0u32, 0u32, 0u32, 0u32, 0u32, rect.x, rect.y, rect.width, rect.height,
        resource_id, 0u32,
    ]);
}

/// What is copied to the host is the rectangle that was given, all of it, from the offset on.
pub proof fn transfer_to_host_2d_reads(rect: Rect, offset: u64, resource_id: u32, bytes: Vec<u8>)
    requires
        call_ensures(requests::transfer_to_host_2d, (rect, offset, resource_id), bytes),
    ensures
        bytes@.len() == 56,
        first_words(bytes@, 14) == seq![
            TRANSFER_TO_HOST_2D, 0u32, 0u32, 0u32, 0u32, 0u32, rect.x, rect.y, rect.width,
            rect.height, low_word(offset), high_word(offset), resource_id, 0u32,
        ],
{
    let ws = requests::transfer_to_host_2d_request(rect, offset, resource_id).words();
    encoded_words_read_back(ws, Seq::empty());
    assert(ws =~= seq![
        TRANSFER_TO_HOST_2D, 0u32, 0u32, 0u32, 0u32, 0u32, rect.x, rect.y, rect.width,
        rect.height, low_word(offset), high_word(offset), resource_id, 0u32,
    ]);
}

/// A box of texels is copied to the host as it was given.
pub proof fn transfer_to_host_3d_reads(
    box_3d: Box3D,
    offset: u64,
    resource_id: u32,
    level: u32,
    stride: u32,
    layer_stride: u32,
    bytes: Vec<u8>,
)
    requires
        call_ensures(
            requests::transfer_to_host_3d,
            (
                box_3d,
                offset,
                resource_id,
                level,
                stride,
                layer_stride,
            ),
            bytes,
        ),
    ensures
        bytes@.len() == 72,
        first_words(bytes@, 18) == seq![
            TRANSFER_TO_HOST_3D, 0u32, 0u32, 0u32, 0u32, 0u32, box_3d.x, box_3d.y, box_3d.z,
            box_3d.w, box_3d.h, box_3d.d, low_word(offset), high_word(offset), resource_id, level,
            stride, layer_stride,
        ],
{
    let ws = requests::transfer_to_host_3d_request(
        box_3d,
        offset,
        resource_id,
        level,
        stride,
        layer_stride,
    ).words();
    encoded_words_read_back(ws, Seq::empty());
    assert(ws =~= seq![
        TRANSFER_TO_HOST_3D, 0u32, 0u32, 0u32, 0u32, 0u32, box_3d.x, box_3d.y, box_3d.z, box_3d.w,
        box_3d.h, box_3d.d, low_word(offset), high_word(offset), resource_id, level, stride,
        layer_stride,
    ]);
}

/// A box of texels is copied from the host as it was given.
pub proof fn transfer_from_host_3d_reads(
    box_3d: Box3D,
    offset: u64,
    resource_id: u32,
    level: u32,
    stride: u32,
    layer_stride: u32,
    bytes: Vec<u8>,
)
    requires
        call_ensures(
            requests::transfer_from_host_3d,
            (
                box_3d,
                offset,
                resource_id,
                level,
                stride,
                layer_stride,
            ),
            bytes,
        ),
    ensures
        bytes@.len() == 72,
        first_words(bytes@, 18) == seq![
            TRANSFER_FROM_HOST_3D, 0u32, 0u32, 0u32, 0u32, 0u32, box_3d.x, box_3d.y, box_3d.z,
            box_3d.w, box_3d.h, box_3d.d, low_word(offset), high_word(offset), resource_id, level,
            stride, layer_stride,
        ],
{
    let ws = requests::transfer_from_host_3d_request(
        box_3d,
        offset,
        resource_id,
        level,
        stride,
        layer_stride,
    ).words();
    encoded_words_read_back(ws, Seq::empty());
    assert(ws =~= seq![
        TRANSFER_FROM_HOST_3D, 0u32, 0u32, 0u32, 0u32, 0u32, box_3d.x, box_3d.y, box_3d.z,
        box_3d.w, box_3d.h, box_3d.d, low_word(offset), high_word(offset), resource_id, level,
        stride, layer_stride,
    ]);
}

/// A resource is attached to the context that was given.
pub proof fn ctx_attach_resource_reads(ctx_id: u32, resource_id: u32, bytes: Vec<u8>)
    requires
        call_ensures(requests::ctx_attach_resource, (ctx_id, resource_id), bytes),
    ensures
        bytes@.len() == 32,
        first_words(bytes@, 8) == seq![
            CTX_ATTACH_RESOURCE, 0u32, 0u32, 0u32, ctx_id, 0u32, resource_id, 0u32,
        ],
{
    let ws = requests::ctx_attach_resource_request(ctx_id, resource_id).words();
    encoded_words_read_back(ws, Seq::empty());
    assert(ws =~= seq![
        CTX_ATTACH_RESOURCE, 0u32, 0u32, 0u32, ctx_id, 0u32, resource_id, 0u32,
    ]);
}

/// The backing of a resource is one range of memory: the address and the length that were
/// given.
pub proof fn resource_attach_backing_reads(
    resource_id: u32,
    paddr: u64,
    length: u32,
    bytes: Vec<u8>,
)
    requires
        call_ensures(requests::resource_attach_backing, (resource_id, paddr, length), bytes),
    ensures
        bytes@.len() == 48,
        first_words(bytes@, 12) == seq![
            RESOURCE_ATTACH_BACKING, 0u32, 0u32, 0u32, 0u32, 0u32, resource_id, 1u32,
            low_word(paddr), high_word(paddr), length, 0u32,
        ],
{
    let ws = requests::resource_attach_backing_request(resource_id, paddr, length).words();
    encoded_words_read_back(ws, Seq::empty());
    assert(ws =~= seq![
        RESOURCE_ATTACH_BACKING, 0u32, 0u32, 0u32, 0u32, 0u32, resource_id, 1u32, low_word(paddr),
        high_word(paddr), length, 0u32,
    ]);
}

/// The backing is taken from the resource that was given.
pub proof fn resource_detach_backing_reads(resource_id: u32, bytes: Vec<u8>)
    requires
        call_ensures(requests::resource_detach_backing, (resource_id,), bytes),
    ensures
        bytes@.len() == 32,
        first_words(bytes@, 8) == seq![
            RESOURCE_DETACH_BACKING, 0u32, 0u32, 0u32, 0u32, 0u32, resource_id, 0u32,
        ],
{
    let ws = requests::resource_detach_backing_request(resource_id).words();
    encoded_words_read_back(ws, Seq::empty());
    assert(ws =~= seq![
        RESOURCE_DETACH_BACKING, 0u32, 0u32, 0u32, 0u32, 0u32, resource_id, 0u32,
    ]);
}

/// The resource that was given is destroyed.
pub proof fn resource_unref_reads(resource_id: u32, bytes: Vec<u8>)
    requires
        call_ensures(requests::resource_unref, (resource_id,), bytes),
    ensures
        bytes@.len() == 32,
        first_words(bytes@, 8) == seq![
            RESOURCE_UNREF, 0u32, 0u32, 0u32, 0u32, 0u32, resource_id, 0u32,
        ],
{
    let ws = requests::resource_unref_request(resource_id).words();
    encoded_words_read_back(ws, Seq::empty());
    assert(ws =~= seq![
        RESOURCE_UNREF, 0u32, 0u32, 0u32, 0u32, 0u32, resource_id, 0u32,
    ]);
}

/// A submission tells its fence, its context and its size.
pub proof fn submit_3d_reads(ctx_id: u32, fence_id: u64, size: u32, bytes: Vec<u8>)
    requires
        call_ensures(requests::submit_3d, (ctx_id, fence_id, size), bytes),
    ensures
        bytes@.len() == 32,
        first_words(bytes@, 8) == seq![
            CMD_SUBMIT_3D, 1u32, low_word(fence_id), high_word(fence_id), ctx_id, 0u32, size,
            0u32,
        ],
{
    let ws = requests::submit_3d_request(ctx_id, fence_id, size).words();
    encoded_words_read_back(ws, Seq::empty());
    assert(ws =~= seq![
        CMD_SUBMIT_3D, 1u32, low_word(fence_id), high_word(fence_id), ctx_id, 0u32, size, 0u32,
    ]);
}

/// The pointer goes where it was sent, with the tip that was given; a mere move says so.
pub proof fn update_cursor_reads(
    resource_id: u32,
    scanout_id: u32,
    pos_x: u32,
    pos_y: u32,
    hot_x: u32,
    hot_y: u32,
    is_move: bool,
    bytes: Vec<u8>,
)
    requires
        call_ensures(
            requests::update_cursor,
            (
                resource_id,
                scanout_id,
                pos_x,
                pos_y,
                hot_x,
                hot_y,
                is_move,
            ),
            bytes,
        ),
    ensures
        bytes@.len() == 56,
        first_words(bytes@, 14) == seq![
            if is_move {
                MOVE_CURSOR
            } else {
                UPDATE_CURSOR
            },
            0u32, 0u32, 0u32, 0u32, 0u32, scanout_id, pos_x, pos_y, 0u32, resource_id, hot_x,
            hot_y, 0u32,
        ],
{
    let ws = requests::update_cursor_request(
        resource_id,
        scanout_id,
        pos_x,
        pos_y,
        hot_x,
        hot_y,
        is_move,
    ).words();
    encoded_words_read_back(ws, Seq::empty());
    assert(ws =~= seq![
        if is_move {
            MOVE_CURSOR
        } else {
            UPDATE_CURSOR
        },
        0u32, 0u32, 0u32, 0u32, 0u32, scanout_id, pos_x, pos_y, 0u32, resource_id, hot_x, hot_y,
        0u32,
    ]);
}

/// The creation of a context tells the context and the length of the name, and then the name:
/// its first 64 bytes, with zeros after a shorter one.
pub proof fn context_create_reads(ctx_id: u32, name: &[u8], bytes: Vec<u8>)
    requires
        call_ensures(requests::context_create, (ctx_id, name), bytes),
        name@.len() <= u32::MAX,
    ensures
        bytes@.len() == 96,
        first_words(bytes@, 8) == seq![
            CTX_CREATE, 0u32, 0u32, 0u32, ctx_id, 0u32, name@.len() as u32, 0u32,
        ],
        forall|i: int|
            0 <= i < 64 ==> #[trigger] bytes@[32 + i] == (if i < name@.len() {
                name@[i]
            } else {
                0u8
            }),
{
    let ws = CtrlHeader::in_context(CTX_CREATE, ctx_id).words() + seq![
        name@.len() as u32,
        0u32,
    ];
    encoded_words_read_back(ws, requests::padded_name(name@));
    assert(ws =~= seq![
        CTX_CREATE, 0u32, 0u32, 0u32, ctx_id, 0u32, name@.len() as u32, 0u32,
    ]);
}

/// The displays are asked for, for the resolution.
pub proof fn display_is_asked_for_resolution(gpu: GpuState, release: Option<DmaRegion>)
    ensures
        ({
            let step = gpu.enter(Pending::Resolution, release);
            &&& first_words(step.state.send, 6) == seq![
                GET_DISPLAY_INFO, 0u32, 0u32, 0u32, 0u32, 0u32,
            ]
            &&& step.action == (Move::Control { header_len: 4096, data: None })
            &&& step.release == release
        }),
{
    let ws = CtrlHeader::of_type(GET_DISPLAY_INFO).words();
    copied_words_read_back(gpu.send, ws);
    assert(ws =~= seq![
        GET_DISPLAY_INFO, 0u32, 0u32, 0u32, 0u32, 0u32,
    ]);
}

/// The displays are asked for, for the new framebuffer.
pub proof fn display_is_asked_for_framebuffer(gpu: GpuState, release: Option<DmaRegion>)
    ensures
        ({
            let step = gpu.enter(Pending::SetupInfo, release);
            &&& first_words(step.state.send, 6) == seq![
                GET_DISPLAY_INFO, 0u32, 0u32, 0u32, 0u32, 0u32,
            ]
            &&& step.action == (Move::Control { header_len: 4096, data: None })
            &&& step.release == release
        }),
{
    let ws = CtrlHeader::of_type(GET_DISPLAY_INFO).words();
    copied_words_read_back(gpu.send, ws);
    assert(ws =~= seq![
        GET_DISPLAY_INFO, 0u32, 0u32, 0u32, 0u32, 0u32,
    ]);
}

/// The displays are asked for, for the virgl test.
pub proof fn display_is_asked_for_virgl(gpu: GpuState, release: Option<DmaRegion>)
    ensures
        ({
            let step = gpu.enter(Pending::VirglInfo, release);
            &&& first_words(step.state.send, 6) == seq![
                GET_DISPLAY_INFO, 0u32, 0u32, 0u32, 0u32, 0u32,
            ]
            &&& step.action == (Move::Control { header_len: 4096, data: None })
            &&& step.release == release
        }),
{
    let ws = CtrlHeader::of_type(GET_DISPLAY_INFO).words();
    copied_words_read_back(gpu.send, ws);
    assert(ws =~= seq![
        GET_DISPLAY_INFO, 0u32, 0u32, 0u32, 0u32, 0u32,
    ]);
}

/// A flush copies the whole framebuffer to the host: the rectangle is the one that the driver
/// was told, and the copy starts at the first byte.
pub proof fn flush_copies_the_whole_framebuffer(
    gpu: GpuState,
    rect: Rect,
    release: Option<DmaRegion>,
)
    ensures
        ({
            let step = gpu.enter(Pending::FlushTransfer { rect }, release);
            &&& first_words(step.state.send, 14) == seq![
                TRANSFER_TO_HOST_2D, 0u32, 0u32, 0u32, 0u32, 0u32, rect.x, rect.y, rect.width,
                rect.height, 0u32, 0u32, RESOURCE_ID_FB, 0u32,
            ]
            &&& step.action == (Move::Control { header_len: 4096, data: None })
            &&& step.release == release
        }),
{
    let ws = requests::transfer_to_host_2d_request(rect, 0, RESOURCE_ID_FB).words();
    copied_words_read_back(gpu.send, ws);
    assert(ws =~= seq![
        TRANSFER_TO_HOST_2D, 0u32, 0u32, 0u32, 0u32, 0u32, rect.x, rect.y, rect.width,
        rect.height, 0u32, 0u32, RESOURCE_ID_FB, 0u32,
    ]);
}

/// A flush brings the whole framebuffer to the screen.
pub proof fn flush_shows_the_whole_framebuffer(
    gpu: GpuState,
    rect: Rect,
    release: Option<DmaRegion>,
)
    ensures
        ({
            let step = gpu.enter(Pending::FlushShow { rect }, release);
            &&& first_words(step.state.send, 12) == seq![
                RESOURCE_FLUSH, 0u32, 0u32, 0u32, 0u32, 0u32, rect.x, rect.y, rect.width,
                rect.height, RESOURCE_ID_FB, 0u32,
            ]
            &&& step.action == (Move::Control { header_len: 4096, data: None })
            &&& step.release == release
        }),
{
    let ws = requests::resource_flush_request(rect, RESOURCE_ID_FB).words();
    copied_words_read_back(gpu.send, ws);
    assert(ws =~= seq![
        RESOURCE_FLUSH, 0u32, 0u32, 0u32, 0u32, 0u32, rect.x, rect.y, rect.width, rect.height,
        RESOURCE_ID_FB, 0u32,
    ]);
}

/// The scanout of an old framebuffer is switched off.
pub proof fn old_scanout_is_switched_off(
    gpu: GpuState,
    shown: Rect,
    next: Rect,
    release: Option<DmaRegion>,
)
    ensures
        ({
            let step = gpu.enter(Pending::SetupScanoutOff { shown, next }, release);
            &&& first_words(step.state.send, 12) == seq![
                SET_SCANOUT, 0u32, 0u32, 0u32, 0u32, 0u32, shown.x, shown.y, shown.width,
                shown.height, 0u32, 0u32,
            ]
            &&& step.action == (Move::Control { header_len: 4096, data: None })
            &&& step.release == release
        }),
{
    let ws = requests::set_scanout_request(shown, 0, 0).words();
    copied_words_read_back(gpu.send, ws);
    assert(ws =~= seq![
        SET_SCANOUT, 0u32, 0u32, 0u32, 0u32, 0u32, shown.x, shown.y, shown.width, shown.height,
        0u32, 0u32,
    ]);
}

/// The backing of an old framebuffer is taken away.
pub proof fn old_backing_is_detached(gpu: GpuState, next: Rect, release: Option<DmaRegion>)
    ensures
        ({
            let step = gpu.enter(Pending::SetupDetach { next }, release);
            &&& first_words(step.state.send, 8) == seq![
                RESOURCE_DETACH_BACKING, 0u32, 0u32, 0u32, 0u32, 0u32, RESOURCE_ID_FB, 0u32,
            ]
            &&& step.action == (Move::Control { header_len: 4096, data: None })
            &&& step.release == release
        }),
{
    let ws = requests::resource_detach_backing_request(RESOURCE_ID_FB).words();
    copied_words_read_back(gpu.send, ws);
    assert(ws =~= seq![
        RESOURCE_DETACH_BACKING, 0u32, 0u32, 0u32, 0u32, 0u32, RESOURCE_ID_FB, 0u32,
    ]);
}

/// An old framebuffer is destroyed.
pub proof fn old_framebuffer_is_destroyed(gpu: GpuState, next: Rect, release: Option<DmaRegion>)
    ensures
        ({
            let step = gpu.enter(Pending::SetupUnref { next }, release);
            &&& first_words(step.state.send, 8) == seq![
                RESOURCE_UNREF, 0u32, 0u32, 0u32, 0u32, 0u32, RESOURCE_ID_FB, 0u32,
            ]
            &&& step.action == (Move::Control { header_len: 4096, data: None })
            &&& step.release == release
        }),
{
    let ws = requests::resource_unref_request(RESOURCE_ID_FB).words();
    copied_words_read_back(gpu.send, ws);
    assert(ws =~= seq![
        RESOURCE_UNREF, 0u32, 0u32, 0u32, 0u32, 0u32, RESOURCE_ID_FB, 0u32,
    ]);
}

/// A framebuffer has the width and the height that it was asked for.
pub proof fn framebuffer_has_the_size(gpu: GpuState, rect: Rect, release: Option<DmaRegion>)
    ensures
        ({
            let step = gpu.enter(Pending::SetupCreate { rect }, release);
            &&& first_words(step.state.send, 10) == seq![
                RESOURCE_CREATE_2D, 0u32, 0u32, 0u32, 0u32, 0u32, RESOURCE_ID_FB, 1u32,
                rect.width, rect.height,
            ]
            &&& step.action == (Move::Control { header_len: 4096, data: None })
            &&& step.release == release
        }),
{
    let ws = requests::resource_create_2d_request(RESOURCE_ID_FB, rect.width, rect.height).words();
    copied_words_read_back(gpu.send, ws);
    assert(ws =~= seq![
        RESOURCE_CREATE_2D, 0u32, 0u32, 0u32, 0u32, 0u32, RESOURCE_ID_FB, 1u32, rect.width,
        rect.height,
    ]);
}

/// A framebuffer is backed by its memory: four bytes for each pixel.
pub proof fn framebuffer_is_backed(
    gpu: GpuState,
    rect: Rect,
    region: DmaRegion,
    release: Option<DmaRegion>,
)
    ensures
        ({
            let step = gpu.enter(Pending::SetupAttach { rect, region }, release);
            &&& first_words(step.state.send, 12) == seq![
                RESOURCE_ATTACH_BACKING, 0u32, 0u32, 0u32, 0u32, 0u32, RESOURCE_ID_FB, 1u32,
                low_word(region.paddr), high_word(region.paddr),
                (4 * (rect.width * rect.height)) as u32, 0u32,
            ]
            &&& step.action == (Move::Control { header_len: 4096, data: None })
            &&& step.release == release
        }),
{
    let ws = requests::resource_attach_backing_request(
        RESOURCE_ID_FB,
        region.paddr,
        pixel_bytes(rect) as u32,
    ).words();
    copied_words_read_back(gpu.send, ws);
    assert(ws =~= seq![
        RESOURCE_ATTACH_BACKING, 0u32, 0u32, 0u32, 0u32, 0u32, RESOURCE_ID_FB, 1u32,
        low_word(region.paddr), high_word(region.paddr), (4 * (rect.width * rect.height)) as u32,
        0u32,
    ]);
}

/// A framebuffer is shown on the scanout, all of it.
pub proof fn framebuffer_is_shown(
    gpu: GpuState,
    rect: Rect,
    region: DmaRegion,
    release: Option<DmaRegion>,
)
    ensures
        ({
            let step = gpu.enter(Pending::SetupScanout { rect, region }, release);
            &&& first_words(step.state.send, 12) == seq![
                SET_SCANOUT, 0u32, 0u32, 0u32, 0u32, 0u32, rect.x, rect.y, rect.width,
                rect.height, 0u32, RESOURCE_ID_FB,
            ]
            &&& step.action == (Move::Control { header_len: 4096, data: None })
            &&& step.release == release
        }),
{
    let ws = requests::set_scanout_request(rect, 0, RESOURCE_ID_FB).words();
    copied_words_read_back(gpu.send, ws);
    assert(ws =~= seq![
        SET_SCANOUT, 0u32, 0u32, 0u32, 0u32, 0u32, rect.x, rect.y, rect.width, rect.height, 0u32,
        RESOURCE_ID_FB,
    ]);
}

/// The pointer has 64 columns and 64 rows.
pub proof fn pointer_has_its_size(
    gpu: GpuState,
    place: CursorPlace,
    region: DmaRegion,
    release: Option<DmaRegion>,
)
    ensures
        ({
            let step = gpu.enter(Pending::CursorCreate { place, region }, release);
            &&& first_words(step.state.send, 10) == seq![
                RESOURCE_CREATE_2D, 0u32, 0u32, 0u32, 0u32, 0u32, RESOURCE_ID_CURSOR, 1u32, 64u32,
                64u32,
            ]
            &&& step.action == (Move::Control { header_len: 4096, data: None })
            &&& step.release == release
        }),
{
    let ws = requests::resource_create_2d_request(RESOURCE_ID_CURSOR, 64, 64).words();
    copied_words_read_back(gpu.send, ws);
    assert(ws =~= seq![
        RESOURCE_CREATE_2D, 0u32, 0u32, 0u32, 0u32, 0u32, RESOURCE_ID_CURSOR, 1u32, 64u32, 64u32,
    ]);
}

/// The pointer is backed by its memory: four bytes for each pixel.
pub proof fn pointer_is_backed(
    gpu: GpuState,
    place: CursorPlace,
    region: DmaRegion,
    release: Option<DmaRegion>,
)
    ensures
        ({
            let step = gpu.enter(Pending::CursorAttach { place, region }, release);
            &&& first_words(step.state.send, 12) == seq![
                RESOURCE_ATTACH_BACKING, 0u32, 0u32, 0u32, 0u32, 0u32, RESOURCE_ID_CURSOR, 1u32,
                low_word(region.paddr), high_word(region.paddr), 16384u32, 0u32,
            ]
            &&& step.action == (Move::Control { header_len: 4096, data: None })
            &&& step.release == release
        }),
{
    let ws = requests::resource_attach_backing_request(
        RESOURCE_ID_CURSOR,
        region.paddr,
        16384,
    ).words();
    copied_words_read_back(gpu.send, ws);
    assert(ws =~= seq![
        RESOURCE_ATTACH_BACKING, 0u32, 0u32, 0u32, 0u32, 0u32, RESOURCE_ID_CURSOR, 1u32,
        low_word(region.paddr), high_word(region.paddr), 16384u32, 0u32,
    ]);
}

/// The whole image of the pointer is copied to the host.
pub proof fn pointer_is_copied(
    gpu: GpuState,
    place: CursorPlace,
    region: DmaRegion,
    release: Option<DmaRegion>,
)
    ensures
        ({
            let step = gpu.enter(Pending::CursorTransfer { place, region }, release);
            &&& first_words(step.state.send, 14) == seq![
                TRANSFER_TO_HOST_2D, 0u32, 0u32, 0u32, 0u32, 0u32, 0u32, 0u32, 64u32, 64u32, 0u32,
                0u32, RESOURCE_ID_CURSOR, 0u32,
            ]
            &&& step.action == (Move::Control { header_len: 4096, data: None })
            &&& step.release == release
        }),
{
    let ws = requests::transfer_to_host_2d_request(
        Rect { x: 0, y: 0, width: 64, height: 64 },
        0,
        RESOURCE_ID_CURSOR,
    ).words();
    copied_words_read_back(gpu.send, ws);
    assert(ws =~= seq![
        TRANSFER_TO_HOST_2D, 0u32, 0u32, 0u32, 0u32, 0u32, 0u32, 0u32, 64u32, 64u32, 0u32, 0u32,
        RESOURCE_ID_CURSOR, 0u32,
    ]);
}

/// The pointer is shown where it was put, with the tip that was given.
pub proof fn pointer_is_shown(
    gpu: GpuState,
    place: CursorPlace,
    region: DmaRegion,
    release: Option<DmaRegion>,
)
    ensures
        ({
            let step = gpu.enter(Pending::CursorShow { place, region }, release);
            &&& first_words(step.state.send, 14) == seq![
                UPDATE_CURSOR, 0u32, 0u32, 0u32, 0u32, 0u32, 0u32, place.pos_x, place.pos_y, 0u32,
                RESOURCE_ID_CURSOR, place.hot_x, place.hot_y, 0u32,
            ]
            &&& step.action is Cursor
            &&& step.release == release
        }),
{
    let ws = requests::update_cursor_request(
        RESOURCE_ID_CURSOR,
        0,
        place.pos_x,
        place.pos_y,
        place.hot_x,
        place.hot_y,
        false,
    ).words();
    copied_words_read_back(gpu.send, ws);
    assert(ws =~= seq![
        UPDATE_CURSOR, 0u32, 0u32, 0u32, 0u32, 0u32, 0u32, place.pos_x, place.pos_y, 0u32,
        RESOURCE_ID_CURSOR, place.hot_x, place.hot_y, 0u32,
    ]);
}

/// The pointer is moved to where it was sent.
pub proof fn pointer_is_moved(gpu: GpuState, x: u32, y: u32, release: Option<DmaRegion>)
    ensures
        ({
            let step = gpu.enter(Pending::CursorMove { x, y }, release);
            &&& first_words(step.state.send, 14) == seq![
                MOVE_CURSOR, 0u32, 0u32, 0u32, 0u32, 0u32, 0u32, x, y, 0u32, RESOURCE_ID_CURSOR,
                0u32, 0u32, 0u32,
            ]
            &&& step.action is Cursor
            &&& step.release == release
        }),
{
    let ws = requests::update_cursor_request(RESOURCE_ID_CURSOR, 0, x, y, 0, 0, true).words();
    copied_words_read_back(gpu.send, ws);
    assert(ws =~= seq![
        MOVE_CURSOR, 0u32, 0u32, 0u32, 0u32, 0u32, 0u32, x, y, 0u32, RESOURCE_ID_CURSOR, 0u32,
        0u32, 0u32,
    ]);
}

/// The render target of the virgl test has the size of the display.
pub proof fn virgl_target_has_the_size(
    gpu: GpuState,
    width: u32,
    height: u32,
    release: Option<DmaRegion>,
)
    ensures
        ({
            let step = gpu.enter(Pending::VirglCreate { width, height }, release);
            &&& first_words(step.state.send, 18) == seq![
                RESOURCE_CREATE_3D, 0u32, 0u32, 0u32, 0u32, 0u32, VIRGL_RESOURCE, 2u32, 1u32,
                3u32, width, height, 1u32, 1u32, 0u32, 0u32, 0u32, 0u32,
            ]
            &&& step.action == (Move::Control { header_len: 4096, data: None })
            &&& step.release == release
        }),
{
    let ws = requests::resource_create_3d_request(
        VIRGL_RESOURCE,
        2,
        1,
        3,
        width,
        height,
        1,
        1,
        0,
        0,
        0,
    ).words();
    copied_words_read_back(gpu.send, ws);
    assert(ws =~= seq![
        RESOURCE_CREATE_3D, 0u32, 0u32, 0u32, 0u32, 0u32, VIRGL_RESOURCE, 2u32, 1u32, 3u32, width,
        height, 1u32, 1u32, 0u32, 0u32, 0u32, 0u32,
    ]);
}

/// The render target of the virgl test is attached to its context.
pub proof fn virgl_target_is_attached(
    gpu: GpuState,
    width: u32,
    height: u32,
    release: Option<DmaRegion>,
)
    ensures
        ({
            let step = gpu.enter(Pending::VirglAttach { width, height }, release);
            &&& first_words(step.state.send, 8) == seq![
                CTX_ATTACH_RESOURCE, 0u32, 0u32, 0u32, VIRGL_CTX, 0u32, VIRGL_RESOURCE, 0u32,
            ]
            &&& step.action == (Move::Control { header_len: 4096, data: None })
            &&& step.release == release
        }),
{
    let ws = requests::ctx_attach_resource_request(VIRGL_CTX, VIRGL_RESOURCE).words();
    copied_words_read_back(gpu.send, ws);
    assert(ws =~= seq![
        CTX_ATTACH_RESOURCE, 0u32, 0u32, 0u32, VIRGL_CTX, 0u32, VIRGL_RESOURCE, 0u32,
    ]);
}

/// The render target of the virgl test is shown on the scanout, all of it.
pub proof fn virgl_target_is_shown(
    gpu: GpuState,
    width: u32,
    height: u32,
    release: Option<DmaRegion>,
)
    ensures
        ({
            let step = gpu.enter(Pending::VirglScanout { width, height }, release);
            &&& first_words(step.state.send, 12) == seq![
                SET_SCANOUT, 0u32, 0u32, 0u32, 0u32, 0u32, 0u32, 0u32, width, height, 0u32,
                VIRGL_RESOURCE,
            ]
            &&& step.action == (Move::Control { header_len: 4096, data: None })
            &&& step.release == release
        }),
{
    let ws = requests::set_scanout_request(
        Rect { x: 0, y: 0, width, height },
        0,
        VIRGL_RESOURCE,
    ).words();
    copied_words_read_back(gpu.send, ws);
    assert(ws =~= seq![
        SET_SCANOUT, 0u32, 0u32, 0u32, 0u32, 0u32, 0u32, 0u32, width, height, 0u32,
        VIRGL_RESOURCE,
    ]);
}

/// The frame of the virgl test is brought to the screen, all of it.
pub proof fn virgl_frame_is_shown(
    gpu: GpuState,
    width: u32,
    height: u32,
    release: Option<DmaRegion>,
)
    ensures
        ({
            let step = gpu.enter(Pending::VirglFlush { width, height }, release);
            &&& first_words(step.state.send, 12) == seq![
                RESOURCE_FLUSH, 0u32, 0u32, 0u32, 0u32, 0u32, 0u32, 0u32, width, height,
                VIRGL_RESOURCE, 0u32,
            ]
            &&& step.action == (Move::Control { header_len: 4096, data: None })
            &&& step.release == release
        }),
{
    let ws = requests::resource_flush_request(
        Rect { x: 0, y: 0, width, height },
        VIRGL_RESOURCE,
    ).words();
    copied_words_read_back(gpu.send, ws);
    assert(ws =~= seq![
        RESOURCE_FLUSH, 0u32, 0u32, 0u32, 0u32, 0u32, 0u32, 0u32, width, height, VIRGL_RESOURCE,
        0u32,
    ]);
}

/// Texels are copied to the host as the caller said.
pub proof fn texels_go_to_the_host(gpu: GpuState, transfer: Transfer3D, release: Option<DmaRegion>)
    ensures
        ({
            let step = gpu.enter(Pending::ToHost { transfer }, release);
            &&& first_words(step.state.send, 18) == seq![
                TRANSFER_TO_HOST_3D, 0u32, 0u32, 0u32, 0u32, 0u32, transfer.box_3d.x,
                transfer.box_3d.y, transfer.box_3d.z, transfer.box_3d.w, transfer.box_3d.h,
                transfer.box_3d.d, low_word(transfer.offset), high_word(transfer.offset),
                transfer.resource_id, transfer.level, transfer.stride, transfer.layer_stride,
            ]
            &&& step.action == (Move::Control { header_len: 4096, data: None })
            &&& step.release == release
        }),
{
    let ws = requests::transfer_to_host_3d_request(
        transfer.box_3d,
        transfer.offset,
        transfer.resource_id,
        transfer.level,
        transfer.stride,
        transfer.layer_stride,
    ).words();
    copied_words_read_back(gpu.send, ws);
    assert(ws =~= seq![
        TRANSFER_TO_HOST_3D, 0u32, 0u32, 0u32, 0u32, 0u32, transfer.box_3d.x, transfer.box_3d.y,
        transfer.box_3d.z, transfer.box_3d.w, transfer.box_3d.h, transfer.box_3d.d,
        low_word(transfer.offset), high_word(transfer.offset), transfer.resource_id,
        transfer.level, transfer.stride, transfer.layer_stride,
    ]);
}

/// Texels are copied from the host as the caller said.
pub proof fn texels_go_from_the_host(
    gpu: GpuState,
    transfer: Transfer3D,
    release: Option<DmaRegion>,
)
    ensures
        ({
            let step = gpu.enter(Pending::FromHost { transfer }, release);
            &&& first_words(step.state.send, 18) == seq![
                TRANSFER_FROM_HOST_3D, 0u32, 0u32, 0u32, 0u32, 0u32, transfer.box_3d.x,
                transfer.box_3d.y, transfer.box_3d.z, transfer.box_3d.w, transfer.box_3d.h,
                transfer.box_3d.d, low_word(transfer.offset), high_word(transfer.offset),
                transfer.resource_id, transfer.level, transfer.stride, transfer.layer_stride,
            ]
            &&& step.action == (Move::Control { header_len: 4096, data: None })
            &&& step.release == release
        }),
{
    let ws = requests::transfer_from_host_3d_request(
        transfer.box_3d,
        transfer.offset,
        transfer.resource_id,
        transfer.level,
        transfer.stride,
        transfer.layer_stride,
    ).words();
    copied_words_read_back(gpu.send, ws);
    assert(ws =~= seq![
        TRANSFER_FROM_HOST_3D, 0u32, 0u32, 0u32, 0u32, 0u32, transfer.box_3d.x, transfer.box_3d.y,
        transfer.box_3d.z, transfer.box_3d.w, transfer.box_3d.h, transfer.box_3d.d,
        low_word(transfer.offset), high_word(transfer.offset), transfer.resource_id,
        transfer.level, transfer.stride, transfer.layer_stride,
    ]);
}

} // verus!
