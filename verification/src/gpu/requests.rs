//! The requests that the driver sends, each with the fields it always has.

use crate::bytes::words;
use crate::gpu::wire::{
    Box3D, CmdSubmit3D, CtrlHeader, CtxAttachResource, CtxCreate, CursorPos, Rect,
    ResourceAttachBacking, ResourceCreate2D, ResourceCreate3D, ResourceDetachBacking,
    ResourceFlush, ResourceUnref, SetScanout, TransferFromHost3D, TransferToHost2D,
    TransferToHost3D, UpdateCursor, CMD_SUBMIT_3D, CTX_ATTACH_RESOURCE, CTX_CREATE,
    FORMAT_B8G8R8A8UNORM, GET_DISPLAY_INFO, GPU_FLAG_FENCE, MOVE_CURSOR,
    RESOURCE_ATTACH_BACKING, RESOURCE_CREATE_2D, RESOURCE_CREATE_3D, RESOURCE_DETACH_BACKING,
    RESOURCE_FLUSH, RESOURCE_UNREF, SET_SCANOUT, TRANSFER_FROM_HOST_3D, TRANSFER_TO_HOST_2D,
    TRANSFER_TO_HOST_3D, UPDATE_CURSOR,
};
use vstd::prelude::*;

verus! {

/// Asks for the displays of the device.
pub fn get_display_info() -> (bytes: Vec<u8>)
    ensures
        bytes@ == words(CtrlHeader::of_type(GET_DISPLAY_INFO).words()),
{
    CtrlHeader::with_type(GET_DISPLAY_INFO).encode()
}

/// Creates a two-dimensional resource in the driver's pixel format.
pub open spec fn resource_create_2d_request(resource_id: u32, width: u32, height: u32) -> ResourceCreate2D {
    ResourceCreate2D {
        header: CtrlHeader::of_type(RESOURCE_CREATE_2D),
        resource_id,
        format: FORMAT_B8G8R8A8UNORM,
        width,
        height,
    }
}

/// Creates a two-dimensional resource in the driver's pixel format.
pub fn resource_create_2d(resource_id: u32, width: u32, height: u32) -> (bytes: Vec<u8>)
    ensures
        bytes@ == words(resource_create_2d_request(resource_id, width, height).words()),
{
    let request = ResourceCreate2D {
        header: CtrlHeader::with_type(RESOURCE_CREATE_2D),
        resource_id,
        format: FORMAT_B8G8R8A8UNORM,
        width,
        height,
    };
    request.encode()
}

/// Creates a three-dimensional resource.
pub open spec fn resource_create_3d_request(
    resource_id: u32,
    target: u32,
    format: u32,
    bind: u32,
    width: u32,
    height: u32,
    depth: u32,
    array_size: u32,
    last_level: u32,
    nr_samples: u32,
    flags: u32,
) -> ResourceCreate3D {
    ResourceCreate3D {
        header: CtrlHeader::of_type(RESOURCE_CREATE_3D),
        resource_id,
        target,
        format,
        bind,
        width,
        height,
        depth,
        array_size,
        last_level,
        nr_samples,
        flags,
        padding: 0,
    }
}

/// Creates a three-dimensional resource.
pub fn resource_create_3d(
    resource_id: u32,
    target: u32,
    format: u32,
    bind: u32,
    width: u32,
    height: u32,
    depth: u32,
    array_size: u32,
    last_level: u32,
    nr_samples: u32,
    flags: u32,
) -> (bytes: Vec<u8>)
    ensures
        bytes@ == words(resource_create_3d_request(
            resource_id,
            target,
            format,
            bind,
            width,
            height,
            depth,
            array_size,
            last_level,
            nr_samples,
            flags,
        ).words()),
{
    let request = ResourceCreate3D {
        header: CtrlHeader::with_type(RESOURCE_CREATE_3D),
        resource_id,
        target,
        format,
        bind,
        width,
        height,
        depth,
        array_size,
        last_level,
        nr_samples,
        flags,
        padding: 0,
    };
    request.encode()
}

/// Shows a rectangle of a resource on a scanout.
pub open spec fn set_scanout_request(rect: Rect, scanout_id: u32, resource_id: u32) -> SetScanout {
    SetScanout {
        header: CtrlHeader::of_type(SET_SCANOUT),
        rect,
        scanout_id,
        resource_id,
    }
}

/// Shows a rectangle of a resource on a scanout.
pub fn set_scanout(rect: Rect, scanout_id: u32, resource_id: u32) -> (bytes: Vec<u8>)
    ensures
        bytes@ == words(set_scanout_request(rect, scanout_id, resource_id).words()),
{
    let request = SetScanout {
        header: CtrlHeader::with_type(SET_SCANOUT),
        rect,
        scanout_id,
        resource_id,
    };
    request.encode()
}

/// Brings a rectangle of a resource to the screen.
pub open spec fn resource_flush_request(rect: Rect, resource_id: u32) -> ResourceFlush {
    ResourceFlush {
        header: CtrlHeader::of_type(RESOURCE_FLUSH),
        rect,
        resource_id,
        padding: 0,
    }
}

/// Brings a rectangle of a resource to the screen.
pub fn resource_flush(rect: Rect, resource_id: u32) -> (bytes: Vec<u8>)
    ensures
        bytes@ == words(resource_flush_request(rect, resource_id).words()),
{
    let request = ResourceFlush {
        header: CtrlHeader::with_type(RESOURCE_FLUSH),
        rect,
        resource_id,
        padding: 0,
    };
    request.encode()
}

/// Copies a rectangle from guest memory to the host.
pub open spec fn transfer_to_host_2d_request(rect: Rect, offset: u64, resource_id: u32) -> TransferToHost2D {
    TransferToHost2D {
        header: CtrlHeader::of_type(TRANSFER_TO_HOST_2D),
        rect,
        offset,
        resource_id,
        padding: 0,
    }
}

/// Copies a rectangle from guest memory to the host.
pub fn transfer_to_host_2d(rect: Rect, offset: u64, resource_id: u32) -> (bytes: Vec<u8>)
    ensures
        bytes@ == words(transfer_to_host_2d_request(rect, offset, resource_id).words()),
{
    let request = TransferToHost2D {
        header: CtrlHeader::with_type(TRANSFER_TO_HOST_2D),
        rect,
        offset,
        resource_id,
        padding: 0,
    };
    request.encode()
}

/// Copies a box of texels from guest memory to the host.
pub open spec fn transfer_to_host_3d_request(
    box_3d: Box3D,
    offset: u64,
    resource_id: u32,
    level: u32,
    stride: u32,
    layer_stride: u32,
) -> TransferToHost3D {
    TransferToHost3D {
        header: CtrlHeader::of_type(TRANSFER_TO_HOST_3D),
        box_3d,
        offset,
        resource_id,
        level,
        stride,
        layer_stride,
    }
}

/// Copies a box of texels from guest memory to the host.
pub fn transfer_to_host_3d(
    box_3d: Box3D,
    offset: u64,
    resource_id: u32,
    level: u32,
    stride: u32,
    layer_stride: u32,
) -> (bytes: Vec<u8>)
    ensures
        bytes@ == words(transfer_to_host_3d_request(
            box_3d,
            offset,
            resource_id,
            level,
            stride,
            layer_stride,
        ).words()),
{
    let request = TransferToHost3D {
        header: CtrlHeader::with_type(TRANSFER_TO_HOST_3D),
        box_3d,
        offset,
        resource_id,
        level,
        stride,
        layer_stride,
    };
    request.encode()
}

/// Copies a box of texels from the host to guest memory.
pub open spec fn transfer_from_host_3d_request(
    box_3d: Box3D,
    offset: u64,
    resource_id: u32,
    level: u32,
    stride: u32,
    layer_stride: u32,
) -> TransferFromHost3D {
    TransferFromHost3D {
        header: CtrlHeader::of_type(TRANSFER_FROM_HOST_3D),
        box_3d,
        offset,
        resource_id,
        level,
        stride,
        layer_stride,
    }
}

/// Copies a box of texels from the host to guest memory.
pub fn transfer_from_host_3d(
    box_3d: Box3D,
    offset: u64,
    resource_id: u32,
    level: u32,
    stride: u32,
    layer_stride: u32,
) -> (bytes: Vec<u8>)
    ensures
        bytes@ == words(transfer_from_host_3d_request(
            box_3d,
            offset,
            resource_id,
            level,
            stride,
            layer_stride,
        ).words()),
{
    let request = TransferFromHost3D {
        header: CtrlHeader::with_type(TRANSFER_FROM_HOST_3D),
        box_3d,
        offset,
        resource_id,
        level,
        stride,
        layer_stride,
    };
    request.encode()
}

/// Makes a resource usable in a rendering context.
pub open spec fn ctx_attach_resource_request(ctx_id: u32, resource_id: u32) -> CtxAttachResource {
    CtxAttachResource {
        header: CtrlHeader::in_context(CTX_ATTACH_RESOURCE, ctx_id),
        resource_id,
        padding: 0,
    }
}

/// Makes a resource usable in a rendering context.
pub fn ctx_attach_resource(ctx_id: u32, resource_id: u32) -> (bytes: Vec<u8>)
    ensures
        bytes@ == words(ctx_attach_resource_request(ctx_id, resource_id).words()),
{
    let mut header = CtrlHeader::with_type(CTX_ATTACH_RESOURCE);
    header.ctx_id = ctx_id;
    let request = CtxAttachResource {
        header,
        resource_id,
        padding: 0,
    };
    request.encode()
}

/// Backs a resource with one range of guest memory.
pub open spec fn resource_attach_backing_request(resource_id: u32, paddr: u64, length: u32) -> ResourceAttachBacking {
    ResourceAttachBacking {
        header: CtrlHeader::of_type(RESOURCE_ATTACH_BACKING),
        resource_id,
        nr_entries: 1,
        addr: paddr,
        length,
        padding: 0,
    }
}

/// Backs a resource with one range of guest memory.
pub fn resource_attach_backing(resource_id: u32, paddr: u64, length: u32) -> (bytes: Vec<u8>)
    ensures
        bytes@ == words(resource_attach_backing_request(resource_id, paddr, length).words()),
{
    let request = ResourceAttachBacking {
        header: CtrlHeader::with_type(RESOURCE_ATTACH_BACKING),
        resource_id,
        nr_entries: 1,
        addr: paddr,
        length,
        padding: 0,
    };
    request.encode()
}

/// Takes the backing store of a resource away.
pub open spec fn resource_detach_backing_request(resource_id: u32) -> ResourceDetachBacking {
    ResourceDetachBacking {
        header: CtrlHeader::of_type(RESOURCE_DETACH_BACKING),
        resource_id,
        padding: 0,
    }
}

/// Takes the backing store of a resource away.
pub fn resource_detach_backing(resource_id: u32) -> (bytes: Vec<u8>)
    ensures
        bytes@ == words(resource_detach_backing_request(resource_id).words()),
{
    let request = ResourceDetachBacking {
        header: CtrlHeader::with_type(RESOURCE_DETACH_BACKING),
        resource_id,
        padding: 0,
    };
    request.encode()
}

/// Destroys a resource.
pub open spec fn resource_unref_request(resource_id: u32) -> ResourceUnref {
    ResourceUnref {
        header: CtrlHeader::of_type(RESOURCE_UNREF),
        resource_id,
        padding: 0,
    }
}

/// Destroys a resource.
pub fn resource_unref(resource_id: u32) -> (bytes: Vec<u8>)
    ensures
        bytes@ == words(resource_unref_request(resource_id).words()),
{
    let request = ResourceUnref {
        header: CtrlHeader::with_type(RESOURCE_UNREF),
        resource_id,
        padding: 0,
    };
    request.encode()
}

/// Announces a command stream of `size` bytes in a rendering context, under a fence.
pub open spec fn submit_3d_request(ctx_id: u32, fence_id: u64, size: u32) -> CmdSubmit3D {
    CmdSubmit3D {
        header: CtrlHeader::fenced(CMD_SUBMIT_3D, ctx_id, fence_id),
        size,
        padding: 0,
    }
}

/// Announces a command stream of `size` bytes in a rendering context, under a fence.
pub fn submit_3d(ctx_id: u32, fence_id: u64, size: u32) -> (bytes: Vec<u8>)
    ensures
        bytes@ == words(submit_3d_request(ctx_id, fence_id, size).words()),
{
    let mut header = CtrlHeader::with_type(CMD_SUBMIT_3D);
    header.ctx_id = ctx_id;
    header.flags = GPU_FLAG_FENCE;
    header.fence_id = fence_id;
    let request = CmdSubmit3D {
        header,
        size,
        padding: 0,
    };
    request.encode()
}

/// Sets the position of the pointer and, unless it only moves, its shape.
pub open spec fn update_cursor_request(
    resource_id: u32,
    scanout_id: u32,
    pos_x: u32,
    pos_y: u32,
    hot_x: u32,
    hot_y: u32,
    is_move: bool,
) -> UpdateCursor {
    UpdateCursor {
        header: CtrlHeader::of_type(if is_move { MOVE_CURSOR } else { UPDATE_CURSOR }),
        pos: CursorPos { scanout_id, x: pos_x, y: pos_y, padding: 0 },
        resource_id,
        hot_x,
        hot_y,
        padding: 0,
    }
}

/// Sets the position of the pointer and, unless it only moves, its shape.
pub fn update_cursor(
    resource_id: u32,
    scanout_id: u32,
    pos_x: u32,
    pos_y: u32,
    hot_x: u32,
    hot_y: u32,
    is_move: bool,
) -> (bytes: Vec<u8>)
    ensures
        bytes@ == words(update_cursor_request(
            resource_id,
            scanout_id,
            pos_x,
            pos_y,
            hot_x,
            hot_y,
            is_move,
        ).words()),
{
    let header = if is_move {
        CtrlHeader::with_type(MOVE_CURSOR)
    } else {
        CtrlHeader::with_type(UPDATE_CURSOR)
    };
    let request = UpdateCursor {
        header,
        pos: CursorPos { scanout_id, x: pos_x, y: pos_y, padding: 0 },
        resource_id,
        hot_x,
        hot_y,
        padding: 0,
    };
    request.encode()
}

/// The first bytes of a context name, padded with zeros.
pub open spec fn padded_name(name: Seq<u8>) -> Seq<u8> {
    Seq::new(64, |i: int| if i < name.len() { name[i] } else { 0u8 })
}

/// The request that creates the rendering context `ctx_id` under the name `name`.
pub open spec fn context_create_bytes(ctx_id: u32, name: Seq<u8>) -> Seq<u8> {
    words(
        CtrlHeader::in_context(CTX_CREATE, ctx_id).words() + seq![name.len() as u32, 0u32],
    ) + padded_name(name)
}

/// Creates the rendering context `ctx_id`; the name itself is sent after the request.
pub fn context_create(ctx_id: u32, name: &[u8]) -> (bytes: Vec<u8>)
    ensures
        bytes@ == context_create_bytes(ctx_id, name@),
{
    let mut header = CtrlHeader::with_type(CTX_CREATE);
    header.ctx_id = ctx_id;
    let mut debug_name = [0u8; 64];
    let mut k: usize = 0;
    while k < name.len() && k < 64
        invariant
            k <= 64,
            k <= name@.len(),
            debug_name@ == Seq::new(64, |i: int| if i < k { name@[i] } else { 0u8 }),
        decreases 64 - k,
    {
        debug_name[k] = name[k];
        assert(debug_name@ =~= Seq::new(64, |i: int| if i < k + 1 { name@[i] } else { 0u8 }));
        k = k + 1;
    }
    assert(debug_name@ =~= padded_name(name@));
    let request = CtxCreate { header, nlen: name.len() as u32, padding: 0, debug_name };
    request.encode()
}

} // verus!
