//! Requests of the GPU device and their wire format.
//!
//! Every request starts with a control header. All fields are little-endian and no
//! structure has holes, so a request is a plain sequence of words; only the name of
//! a rendering context is made of single bytes.

use crate::bytes::{
    high_half, high_word, low_half, low_word, push_words, read_u32, word_at, words,
};
use crate::error::Error;
use vstd::prelude::*;

verus! {

pub const GET_DISPLAY_INFO: u32 = 0x100;

pub const RESOURCE_CREATE_2D: u32 = 0x101;

pub const RESOURCE_UNREF: u32 = 0x102;

pub const SET_SCANOUT: u32 = 0x103;

pub const RESOURCE_FLUSH: u32 = 0x104;

pub const TRANSFER_TO_HOST_2D: u32 = 0x105;

pub const RESOURCE_ATTACH_BACKING: u32 = 0x106;

pub const RESOURCE_DETACH_BACKING: u32 = 0x107;

pub const CTX_CREATE: u32 = 0x200;

pub const CTX_ATTACH_RESOURCE: u32 = 0x202;

pub const RESOURCE_CREATE_3D: u32 = 0x204;

pub const TRANSFER_TO_HOST_3D: u32 = 0x205;

pub const TRANSFER_FROM_HOST_3D: u32 = 0x206;

pub const CMD_SUBMIT_3D: u32 = 0x207;

pub const UPDATE_CURSOR: u32 = 0x300;

pub const MOVE_CURSOR: u32 = 0x301;

pub const OK_NODATA: u32 = 0x1100;

pub const OK_DISPLAY_INFO: u32 = 0x1101;

/// The header flag that asks the device to signal a fence.
pub const GPU_FLAG_FENCE: u32 = 1;

/// The pixel format of two-dimensional resources: blue, green, red, alpha.
pub const FORMAT_B8G8R8A8UNORM: u32 = 1;

/// The header of every request and of every answer.
#[derive(Clone, Copy, Debug, PartialEq, Eq, Structural)]
pub struct CtrlHeader {
    pub hdr_type: u32,
    pub flags: u32,
    pub fence_id: u64,
    pub ctx_id: u32,
    pub padding: u32,
}

impl CtrlHeader {
    /// The header of a request of type `hdr_type` with nothing else set.
    pub open spec fn of_type(hdr_type: u32) -> CtrlHeader {
        CtrlHeader { hdr_type, flags: 0, fence_id: 0, ctx_id: 0, padding: 0 }
    }

    /// The header of a request of type `hdr_type` in the rendering context `ctx_id`.
    pub open spec fn in_context(hdr_type: u32, ctx_id: u32) -> CtrlHeader {
        CtrlHeader { hdr_type, flags: 0, fence_id: 0, ctx_id, padding: 0 }
    }

    /// The header with which a command stream is submitted under a fence.
    pub open spec fn fenced(hdr_type: u32, ctx_id: u32, fence_id: u64) -> CtrlHeader {
        CtrlHeader { hdr_type, flags: GPU_FLAG_FENCE, fence_id, ctx_id, padding: 0 }
    }

    /// The words of the header.
    pub open spec fn words(self) -> Seq<u32> {
        seq![
            self.hdr_type,
            self.flags,
            low_word(self.fence_id),
            high_word(self.fence_id),
            self.ctx_id,
            self.padding,
        ]
    }

    /// Encodes a request that is nothing but its header.
    pub fn encode(&self) -> (bytes: Vec<u8>)
        ensures
            bytes@ == words(self.words()),
    {
        let fields = [
            self.hdr_type,
            self.flags,
            low_half(self.fence_id),
            high_half(self.fence_id),
            self.ctx_id,
            self.padding,
        ];
        let mut bytes: Vec<u8> = Vec::new();
        push_words(&mut bytes, &fields);
        assert(fields@ =~= self.words());
        assert(bytes@ =~= words(self.words()));
        bytes
    }

    /// A header of type `hdr_type` with every other field zero.
    pub fn with_type(hdr_type: u32) -> (header: CtrlHeader)
        ensures
            header == CtrlHeader::of_type(hdr_type),
    {
        CtrlHeader { hdr_type, flags: 0, fence_id: 0, ctx_id: 0, padding: 0 }
    }

    /// Succeeds if the type is the expected one.
    pub fn check_type(&self, expected: u32) -> (checked: Result<(), Error>)
        ensures
            self.hdr_type == expected ==> checked == Ok::<(), Error>(()),
            self.hdr_type != expected ==> checked == Err::<(), Error>(Error::IoError),
    {
        if self.hdr_type == expected {
            Ok(())
        } else {
            Err(Error::IoError)
        }
    }

    /// The header that stands at the start of `bytes`.
    pub open spec fn decoded(bytes: Seq<u8>) -> CtrlHeader {
        CtrlHeader {
            hdr_type: word_at(bytes, 0),
            flags: word_at(bytes, 4),
            fence_id: crate::bytes::from_halves(word_at(bytes, 8), word_at(bytes, 12)),
            ctx_id: word_at(bytes, 16),
            padding: word_at(bytes, 20),
        }
    }

    /// Reads the header at the start of `bytes`.
    pub fn decode(bytes: &[u8]) -> (header: CtrlHeader)
        requires
            bytes@.len() >= 24,
        ensures
            header == CtrlHeader::decoded(bytes@),
    {
        CtrlHeader {
            hdr_type: read_u32(bytes, 0),
            flags: read_u32(bytes, 4),
            fence_id: read_u32(bytes, 8) as u64 + 0x1_0000_0000 * (read_u32(bytes, 12) as u64),
            ctx_id: read_u32(bytes, 16),
            padding: read_u32(bytes, 20),
        }
    }
}

/// A rectangle of pixels.
#[derive(Clone, Copy, Debug, PartialEq, Eq, Structural)]
pub struct Rect {
    pub x: u32,
    pub y: u32,
    pub width: u32,
    pub height: u32,
}

/// A box of texels in a three-dimensional resource.
#[derive(Clone, Copy, Debug, PartialEq, Eq, Structural)]
pub struct Box3D {
    pub x: u32,
    pub y: u32,
    pub z: u32,
    pub w: u32,
    pub h: u32,
    pub d: u32,
}

/// The answer to `GET_DISPLAY_INFO`, as far as the first scanout goes.
#[derive(Clone, Copy, Debug, PartialEq, Eq, Structural)]
pub struct RespDisplayInfo {
    pub header: CtrlHeader,
    pub rect: Rect,
    pub enabled: u32,
    pub flags: u32,
}

impl RespDisplayInfo {
    /// The display information that stands at the start of `bytes`.
    pub open spec fn decoded(bytes: Seq<u8>) -> RespDisplayInfo {
        RespDisplayInfo {
            header: CtrlHeader::decoded(bytes),
            rect: Rect {
                x: word_at(bytes, 24),
                y: word_at(bytes, 28),
                width: word_at(bytes, 32),
                height: word_at(bytes, 36),
            },
            enabled: word_at(bytes, 40),
            flags: word_at(bytes, 44),
        }
    }

    /// Reads the display information at the start of `bytes`.
    pub fn decode(bytes: &[u8]) -> (info: RespDisplayInfo)
        requires
            bytes@.len() >= 48,
        ensures
            info == RespDisplayInfo::decoded(bytes@),
    {
        RespDisplayInfo {
            header: CtrlHeader::decode(bytes),
            rect: Rect {
                x: read_u32(bytes, 24),
                y: read_u32(bytes, 28),
                width: read_u32(bytes, 32),
                height: read_u32(bytes, 36),
            },
            enabled: read_u32(bytes, 40),
            flags: read_u32(bytes, 44),
        }
    }
}

/// Creates a two-dimensional resource.
#[derive(Clone, Copy, Debug, PartialEq, Eq, Structural)]
pub struct ResourceCreate2D {
    pub header: CtrlHeader,
    pub resource_id: u32,
    pub format: u32,
    pub width: u32,
    pub height: u32,
}

impl ResourceCreate2D {
    /// The words of the request.
    pub open spec fn words(self) -> Seq<u32> {
        self.header.words() + seq![
            self.resource_id,
            self.format,
            self.width,
            self.height,
        ]
    }

    /// Encodes the request.
    pub fn encode(&self) -> (bytes: Vec<u8>)
        ensures
            bytes@ == words(self.words()),
    {
        let fields = [
            self.header.hdr_type,
            self.header.flags,
            low_half(self.header.fence_id),
            high_half(self.header.fence_id),
            self.header.ctx_id,
            self.header.padding,
            self.resource_id,
            self.format,
            self.width,
            self.height,
        ];
        let mut bytes: Vec<u8> = Vec::new();
        push_words(&mut bytes, &fields);
        assert(fields@ =~= self.words());
        assert(bytes@ =~= words(self.words()));
        bytes
    }
}

/// Gives a resource one range of guest memory as its backing store.
#[derive(Clone, Copy, Debug, PartialEq, Eq, Structural)]
pub struct ResourceAttachBacking {
    pub header: CtrlHeader,
    pub resource_id: u32,
    pub nr_entries: u32,
    pub addr: u64,
    pub length: u32,
    pub padding: u32,
}

impl ResourceAttachBacking {
    /// The words of the request.
    pub open spec fn words(self) -> Seq<u32> {
        self.header.words() + seq![
            self.resource_id,
            self.nr_entries,
            low_word(self.addr),
            high_word(self.addr),
            self.length,
            self.padding,
        ]
    }

    /// Encodes the request.
    pub fn encode(&self) -> (bytes: Vec<u8>)
        ensures
            bytes@ == words(self.words()),
    {
        let fields = [
            self.header.hdr_type,
            self.header.flags,
            low_half(self.header.fence_id),
            high_half(self.header.fence_id),
            self.header.ctx_id,
            self.header.padding,
            self.resource_id,
            self.nr_entries,
            low_half(self.addr),
            high_half(self.addr),
            self.length,
            self.padding,
        ];
        let mut bytes: Vec<u8> = Vec::new();
        push_words(&mut bytes, &fields);
        assert(fields@ =~= self.words());
        assert(bytes@ =~= words(self.words()));
        bytes
    }
}

/// Takes the backing store of a resource away.
#[derive(Clone, Copy, Debug, PartialEq, Eq, Structural)]
pub struct ResourceDetachBacking {
    pub header: CtrlHeader,
    pub resource_id: u32,
    pub padding: u32,
}

impl ResourceDetachBacking {
    /// The words of the request.
    pub open spec fn words(self) -> Seq<u32> {
        self.header.words() + seq![
            self.resource_id,
            self.padding,
        ]
    }

    /// Encodes the request.
    pub fn encode(&self) -> (bytes: Vec<u8>)
        ensures
            bytes@ == words(self.words()),
    {
        let fields = [
            self.header.hdr_type,
            self.header.flags,
            low_half(self.header.fence_id),
            high_half(self.header.fence_id),
            self.header.ctx_id,
            self.header.padding,
            self.resource_id,
            self.padding,
        ];
        let mut bytes: Vec<u8> = Vec::new();
        push_words(&mut bytes, &fields);
        assert(fields@ =~= self.words());
        assert(bytes@ =~= words(self.words()));
        bytes
    }
}

/// Destroys a resource.
#[derive(Clone, Copy, Debug, PartialEq, Eq, Structural)]
pub struct ResourceUnref {
    pub header: CtrlHeader,
    pub resource_id: u32,
    pub padding: u32,
}

impl ResourceUnref {
    /// The words of the request.
    pub open spec fn words(self) -> Seq<u32> {
        self.header.words() + seq![
            self.resource_id,
            self.padding,
        ]
    }

    /// Encodes the request.
    pub fn encode(&self) -> (bytes: Vec<u8>)
        ensures
            bytes@ == words(self.words()),
    {
        let fields = [
            self.header.hdr_type,
            self.header.flags,
            low_half(self.header.fence_id),
            high_half(self.header.fence_id),
            self.header.ctx_id,
            self.header.padding,
            self.resource_id,
            self.padding,
        ];
        let mut bytes: Vec<u8> = Vec::new();
        push_words(&mut bytes, &fields);
        assert(fields@ =~= self.words());
        assert(bytes@ =~= words(self.words()));
        bytes
    }
}

/// Shows a resource on a scanout; resource 0 switches the scanout off.
#[derive(Clone, Copy, Debug, PartialEq, Eq, Structural)]
pub struct SetScanout {
    pub header: CtrlHeader,
    pub rect: Rect,
    pub scanout_id: u32,
    pub resource_id: u32,
}

impl SetScanout {
    /// The words of the request.
    pub open spec fn words(self) -> Seq<u32> {
        self.header.words() + seq![
            self.rect.x,
            self.rect.y,
            self.rect.width,
            self.rect.height,
            self.scanout_id,
            self.resource_id,
        ]
    }

    /// Encodes the request.
    pub fn encode(&self) -> (bytes: Vec<u8>)
        ensures
            bytes@ == words(self.words()),
    {
        let fields = [
            self.header.hdr_type,
            self.header.flags,
            low_half(self.header.fence_id),
            high_half(self.header.fence_id),
            self.header.ctx_id,
            self.header.padding,
            self.rect.x,
            self.rect.y,
            self.rect.width,
            self.rect.height,
            self.scanout_id,
            self.resource_id,
        ];
        let mut bytes: Vec<u8> = Vec::new();
        push_words(&mut bytes, &fields);
        assert(fields@ =~= self.words());
        assert(bytes@ =~= words(self.words()));
        bytes
    }
}

/// Copies a rectangle from guest memory to the host resource.
#[derive(Clone, Copy, Debug, PartialEq, Eq, Structural)]
pub struct TransferToHost2D {
    pub header: CtrlHeader,
    pub rect: Rect,
    pub offset: u64,
    pub resource_id: u32,
    pub padding: u32,
}

impl TransferToHost2D {
    /// The words of the request.
    pub open spec fn words(self) -> Seq<u32> {
        self.header.words() + seq![
            self.rect.x,
            self.rect.y,
            self.rect.width,
            self.rect.height,
            low_word(self.offset),
            high_word(self.offset),
            self.resource_id,
            self.padding,
        ]
    }

    /// Encodes the request.
    pub fn encode(&self) -> (bytes: Vec<u8>)
        ensures
            bytes@ == words(self.words()),
    {
        let fields = [
            self.header.hdr_type,
            self.header.flags,
            low_half(self.header.fence_id),
            high_half(self.header.fence_id),
            self.header.ctx_id,
            self.header.padding,
            self.rect.x,
            self.rect.y,
            self.rect.width,
            self.rect.height,
            low_half(self.offset),
            high_half(self.offset),
            self.resource_id,
            self.padding,
        ];
        let mut bytes: Vec<u8> = Vec::new();
        push_words(&mut bytes, &fields);
        assert(fields@ =~= self.words());
        assert(bytes@ =~= words(self.words()));
        bytes
    }
}

/// Shows a rectangle of a resource on the scanouts that use it.
#[derive(Clone, Copy, Debug, PartialEq, Eq, Structural)]
pub struct ResourceFlush {
    pub header: CtrlHeader,
    pub rect: Rect,
    pub resource_id: u32,
    pub padding: u32,
}

impl ResourceFlush {
    /// The words of the request.
    pub open spec fn words(self) -> Seq<u32> {
        self.header.words() + seq![
            self.rect.x,
            self.rect.y,
            self.rect.width,
            self.rect.height,
            self.resource_id,
            self.padding,
        ]
    }

    /// Encodes the request.
    pub fn encode(&self) -> (bytes: Vec<u8>)
        ensures
            bytes@ == words(self.words()),
    {
        let fields = [
            self.header.hdr_type,
            self.header.flags,
            low_half(self.header.fence_id),
            high_half(self.header.fence_id),
            self.header.ctx_id,
            self.header.padding,
            self.rect.x,
            self.rect.y,
            self.rect.width,
            self.rect.height,
            self.resource_id,
            self.padding,
        ];
        let mut bytes: Vec<u8> = Vec::new();
        push_words(&mut bytes, &fields);
        assert(fields@ =~= self.words());
        assert(bytes@ =~= words(self.words()));
        bytes
    }
}

/// A position on a scanout.
#[derive(Clone, Copy, Debug, PartialEq, Eq, Structural)]
pub struct CursorPos {
    pub scanout_id: u32,
    pub x: u32,
    pub y: u32,
    pub padding: u32,
}

/// Sets the shape and the position of the pointer, or its position alone.
#[derive(Clone, Copy, Debug, PartialEq, Eq, Structural)]
pub struct UpdateCursor {
    pub header: CtrlHeader,
    pub pos: CursorPos,
    pub resource_id: u32,
    pub hot_x: u32,
    pub hot_y: u32,
    pub padding: u32,
}

impl UpdateCursor {
    /// The words of the request.
    pub open spec fn words(self) -> Seq<u32> {
        self.header.words() + seq![
            self.pos.scanout_id,
            self.pos.x,
            self.pos.y,
            self.pos.padding,
            self.resource_id,
            self.hot_x,
            self.hot_y,
            self.padding,
        ]
    }

    /// Encodes the request.
    pub fn encode(&self) -> (bytes: Vec<u8>)
        ensures
            bytes@ == words(self.words()),
    {
        let fields = [
            self.header.hdr_type,
            self.header.flags,
            low_half(self.header.fence_id),
            high_half(self.header.fence_id),
            self.header.ctx_id,
            self.header.padding,
            self.pos.scanout_id,
            self.pos.x,
            self.pos.y,
            self.pos.padding,
            self.resource_id,
            self.hot_x,
            self.hot_y,
            self.padding,
        ];
        let mut bytes: Vec<u8> = Vec::new();
        push_words(&mut bytes, &fields);
        assert(fields@ =~= self.words());
        assert(bytes@ =~= words(self.words()));
        bytes
    }
}

/// Creates a three-dimensional resource.
#[derive(Clone, Copy, Debug, PartialEq, Eq, Structural)]
pub struct ResourceCreate3D {
    pub header: CtrlHeader,
    pub resource_id: u32,
    pub target: u32,
    pub format: u32,
    pub bind: u32,
    pub width: u32,
    pub height: u32,
    pub depth: u32,
    pub array_size: u32,
    pub last_level: u32,
    pub nr_samples: u32,
    pub flags: u32,
    pub padding: u32,
}

impl ResourceCreate3D {
    /// The words of the request.
    pub open spec fn words(self) -> Seq<u32> {
        self.header.words() + seq![
            self.resource_id,
            self.target,
            self.format,
            self.bind,
            self.width,
            self.height,
            self.depth,
            self.array_size,
            self.last_level,
            self.nr_samples,
            self.flags,
            self.padding,
        ]
    }

    /// Encodes the request.
    pub fn encode(&self) -> (bytes: Vec<u8>)
        ensures
            bytes@ == words(self.words()),
    {
        let fields = [
            self.header.hdr_type,
            self.header.flags,
            low_half(self.header.fence_id),
            high_half(self.header.fence_id),
            self.header.ctx_id,
            self.header.padding,
            self.resource_id,
            self.target,
            self.format,
            self.bind,
            self.width,
            self.height,
            self.depth,
            self.array_size,
            self.last_level,
            self.nr_samples,
            self.flags,
            self.padding,
        ];
        let mut bytes: Vec<u8> = Vec::new();
        push_words(&mut bytes, &fields);
        assert(fields@ =~= self.words());
        assert(bytes@ =~= words(self.words()));
        bytes
    }
}

/// Creates a rendering context. The full name follows the request; its first bytes,
/// padded with zeros, are part of it.
#[derive(Clone, Copy, Debug)]
pub struct CtxCreate {
    pub header: CtrlHeader,
    pub nlen: u32,
    pub padding: u32,
    pub debug_name: [u8; 64],
}

impl CtxCreate {
    /// The bytes of the request.
    pub open spec fn bytes(self) -> Seq<u8> {
        words(self.header.words() + seq![self.nlen, self.padding]) + self.debug_name@
    }

    /// Encodes the request.
    pub fn encode(&self) -> (bytes: Vec<u8>)
        ensures
            bytes@ == self.bytes(),
    {
        let fields = [
            self.header.hdr_type,
            self.header.flags,
            low_half(self.header.fence_id),
            high_half(self.header.fence_id),
            self.header.ctx_id,
            self.header.padding,
            self.nlen,
            self.padding,
        ];
        let mut bytes: Vec<u8> = Vec::new();
        push_words(&mut bytes, &fields);
        assert(fields@ =~= self.header.words() + seq![self.nlen, self.padding]);
        bytes.extend_from_slice(&self.debug_name);
        assert(bytes@ =~= self.bytes());
        bytes
    }
}

/// Makes a resource usable in a rendering context.
#[derive(Clone, Copy, Debug, PartialEq, Eq, Structural)]
pub struct CtxAttachResource {
    pub header: CtrlHeader,
    pub resource_id: u32,
    pub padding: u32,
}

impl CtxAttachResource {
    /// The words of the request.
    pub open spec fn words(self) -> Seq<u32> {
        self.header.words() + seq![
            self.resource_id,
            self.padding,
        ]
    }

    /// Encodes the request.
    pub fn encode(&self) -> (bytes: Vec<u8>)
        ensures
            bytes@ == words(self.words()),
    {
        let fields = [
            self.header.hdr_type,
            self.header.flags,
            low_half(self.header.fence_id),
            high_half(self.header.fence_id),
            self.header.ctx_id,
            self.header.padding,
            self.resource_id,
            self.padding,
        ];
        let mut bytes: Vec<u8> = Vec::new();
        push_words(&mut bytes, &fields);
        assert(fields@ =~= self.words());
        assert(bytes@ =~= words(self.words()));
        bytes
    }
}

/// Announces a command stream of `size` bytes, which follows the request.
#[derive(Clone, Copy, Debug, PartialEq, Eq, Structural)]
pub struct CmdSubmit3D {
    pub header: CtrlHeader,
    pub size: u32,
    pub padding: u32,
}

impl CmdSubmit3D {
    /// The words of the request.
    pub open spec fn words(self) -> Seq<u32> {
        self.header.words() + seq![
            self.size,
            self.padding,
        ]
    }

    /// Encodes the request.
    pub fn encode(&self) -> (bytes: Vec<u8>)
        ensures
            bytes@ == words(self.words()),
    {
        let fields = [
            self.header.hdr_type,
            self.header.flags,
            low_half(self.header.fence_id),
            high_half(self.header.fence_id),
            self.header.ctx_id,
            self.header.padding,
            self.size,
            self.padding,
        ];
        let mut bytes: Vec<u8> = Vec::new();
        push_words(&mut bytes, &fields);
        assert(fields@ =~= self.words());
        assert(bytes@ =~= words(self.words()));
        bytes
    }
}

/// Copies a box of texels to the host resource.
#[derive(Clone, Copy, Debug, PartialEq, Eq, Structural)]
pub struct TransferToHost3D {
    pub header: CtrlHeader,
    pub box_3d: Box3D,
    pub offset: u64,
    pub resource_id: u32,
    pub level: u32,
    pub stride: u32,
    pub layer_stride: u32,
}

impl TransferToHost3D {
    /// The words of the request.
    pub open spec fn words(self) -> Seq<u32> {
        self.header.words() + seq![
            self.box_3d.x,
            self.box_3d.y,
            self.box_3d.z,
            self.box_3d.w,
            self.box_3d.h,
            self.box_3d.d,
            low_word(self.offset),
            high_word(self.offset),
            self.resource_id,
            self.level,
            self.stride,
            self.layer_stride,
        ]
    }

    /// Encodes the request.
    pub fn encode(&self) -> (bytes: Vec<u8>)
        ensures
            bytes@ == words(self.words()),
    {
        let fields = [
            self.header.hdr_type,
            self.header.flags,
            low_half(self.header.fence_id),
            high_half(self.header.fence_id),
            self.header.ctx_id,
            self.header.padding,
            self.box_3d.x,
            self.box_3d.y,
            self.box_3d.z,
            self.box_3d.w,
            self.box_3d.h,
            self.box_3d.d,
            low_half(self.offset),
            high_half(self.offset),
            self.resource_id,
            self.level,
            self.stride,
            self.layer_stride,
        ];
        let mut bytes: Vec<u8> = Vec::new();
        push_words(&mut bytes, &fields);
        assert(fields@ =~= self.words());
        assert(bytes@ =~= words(self.words()));
        bytes
    }
}

/// Copies a box of texels from the host resource.
#[derive(Clone, Copy, Debug, PartialEq, Eq, Structural)]
pub struct TransferFromHost3D {
    pub header: CtrlHeader,
    pub box_3d: Box3D,
    pub offset: u64,
    pub resource_id: u32,
    pub level: u32,
    pub stride: u32,
    pub layer_stride: u32,
}

impl TransferFromHost3D {
    /// The words of the request.
    pub open spec fn words(self) -> Seq<u32> {
        self.header.words() + seq![
            self.box_3d.x,
            self.box_3d.y,
            self.box_3d.z,
            self.box_3d.w,
            self.box_3d.h,
            self.box_3d.d,
            low_word(self.offset),
            high_word(self.offset),
            self.resource_id,
            self.level,
            self.stride,
            self.layer_stride,
        ]
    }

    /// Encodes the request.
    pub fn encode(&self) -> (bytes: Vec<u8>)
        ensures
            bytes@ == words(self.words()),
    {
        let fields = [
            self.header.hdr_type,
            self.header.flags,
            low_half(self.header.fence_id),
            high_half(self.header.fence_id),
            self.header.ctx_id,
            self.header.padding,
            self.box_3d.x,
            self.box_3d.y,
            self.box_3d.z,
            self.box_3d.w,
            self.box_3d.h,
            self.box_3d.d,
            low_half(self.offset),
            high_half(self.offset),
            self.resource_id,
            self.level,
            self.stride,
            self.layer_stride,
        ];
        let mut bytes: Vec<u8> = Vec::new();
        push_words(&mut bytes, &fields);
        assert(fields@ =~= self.words());
        assert(bytes@ =~= words(self.words()));
        bytes
    }
}

/// The fields of an answer are its words, in their order.
pub proof fn answer_is_read_word_by_word(bytes: &[u8], header: CtrlHeader, info: RespDisplayInfo)
    ensures
        call_ensures(CtrlHeader::decode, (bytes,), header) ==> {
            &&& header.hdr_type == word_at(bytes@, 0)
            &&& header.flags == word_at(bytes@, 4)
            &&& header.fence_id == word_at(bytes@, 8) + 0x1_0000_0000 * word_at(bytes@, 12)
            &&& header.ctx_id == word_at(bytes@, 16)
            &&& header.padding == word_at(bytes@, 20)
        },
        call_ensures(RespDisplayInfo::decode, (bytes,), info) ==> {
            &&& info.header.hdr_type == word_at(bytes@, 0)
            &&& info.rect.x == word_at(bytes@, 24)
            &&& info.rect.y == word_at(bytes@, 28)
            &&& info.rect.width == word_at(bytes@, 32)
            &&& info.rect.height == word_at(bytes@, 36)
            &&& info.enabled == word_at(bytes@, 40)
            &&& info.flags == word_at(bytes@, 44)
        },
{
}

/// The numbers by which the device knows its requests and answers.
pub proof fn numbers_of_the_requests()
    ensures
        GET_DISPLAY_INFO == 0x100 && RESOURCE_CREATE_2D == 0x101 && RESOURCE_UNREF == 0x102,
        SET_SCANOUT == 0x103 && RESOURCE_FLUSH == 0x104 && TRANSFER_TO_HOST_2D == 0x105,
        RESOURCE_ATTACH_BACKING == 0x106 && RESOURCE_DETACH_BACKING == 0x107,
        CTX_CREATE == 0x200 && CTX_ATTACH_RESOURCE == 0x202 && RESOURCE_CREATE_3D == 0x204,
        TRANSFER_TO_HOST_3D == 0x205 && TRANSFER_FROM_HOST_3D == 0x206 && CMD_SUBMIT_3D == 0x207,
        UPDATE_CURSOR == 0x300 && MOVE_CURSOR == 0x301,
        OK_NODATA == 0x1100 && OK_DISPLAY_INFO == 0x1101,
{
}

} // verus!
