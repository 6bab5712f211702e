//! The command stream of the virgl renderer.
//!
//! A stream is a sequence of commands. A command is a header word and its payload
//! words; the header tells the command, the kind of object it is about, and the
//! number of payload words.

use crate::bytes::{
    encoded_words_read_back, first_words, high_word, le32, low_word, push_f32, push_f64, push_u32,
    read_u32, word_at, words, words_len, words_round_trip,
};
use vstd::prelude::*;

verus! {

pub const VIRGL_OBJECT_NULL: u32 = 0;

pub const VIRGL_OBJECT_SURFACE: u32 = 8;

pub const VIRGL_CCMD_CREATE_OBJECT: u32 = 1;

pub const VIRGL_CCMD_SET_VIEWPORT_STATE: u32 = 4;

pub const VIRGL_CCMD_SET_FRAMEBUFFER_STATE: u32 = 5;

pub const VIRGL_CCMD_CLEAR: u32 = 7;

/// The buffers that a clear command writes: the first color buffer.
pub const PIPE_CLEAR_COLOR0: u32 = 4;

/// The bit pattern of 0.0 in single precision.
pub const F32_ZERO: u32 = 0;

/// The bit pattern of 1.0 in single precision.
pub const F32_ONE: u32 = 0x3f80_0000;

/// The bit pattern of 1.0 in double precision.
pub const F64_ONE: u64 = 0x3ff0_0000_0000_0000;

/// The header word of a command.
pub open spec fn header_word(cmd: u32, obj: u32, len: u32) -> u32 {
    cmd | (obj << 8) | (len << 16)
}

/// The bytes of a command: its header counts the payload words that follow it.
pub open spec fn command(cmd: u32, obj: u32, payload: Seq<u32>) -> Seq<u8> {
    words(seq![header_word(cmd, obj, payload.len() as u32)] + payload)
}

/// The header word of a command with `len_u32` payload words.
pub fn virgl_cmd0(cmd: u32, obj: u32, len_u32: u32) -> (word: u32)
    ensures
        word == header_word(cmd, obj, len_u32),
{
    cmd | (obj << 8) | (len_u32 << 16)
}

/// The command, the object kind and the payload length of a header word.
pub open spec fn header_fields(h: u32) -> (u32, u32, u32) {
    (h & 0xff, (h >> 8) & 0xff, h >> 16)
}

/// Splits a header word.
pub fn decode_hdr(h: u32) -> (fields: (u32, u32, u32))
    ensures
        fields == header_fields(h),
{
    (h & 0xff, (h >> 8) & 0xff, h >> 16)
}

/// Splitting a header word gives back the fields that it was made from.
pub proof fn header_round_trip(cmd: u32, obj: u32, len: u32)
    requires
        cmd < 0x100,
        obj < 0x100,
        len < 0x1_0000,
    ensures
        header_fields(header_word(cmd, obj, len)) == (cmd, obj, len),
{
    let h = cmd | (obj << 8) | (len << 16);
    assert(h & 0xff == cmd && (h >> 8) & 0xff == obj && h >> 16 == len) by (bit_vector)
        requires
            h == cmd | (obj << 8) | (len << 16),
            cmd < 0x100,
            obj < 0x100,
            len < 0x1_0000,
    ;
}

/// A header word is the sum of its fields, each in its place: the command in the lowest byte,
/// the object in the byte above it, and the length in the upper half.
pub proof fn header_is_a_sum(cmd: u32, obj: u32, len: u32)
    requires
        cmd < 0x100,
        obj < 0x100,
        len < 0x1_0000,
    ensures
        header_word(cmd, obj, len) == cmd + 0x100 * obj + 0x1_0000 * len,
{
    assert(cmd | (obj << 8) | (len << 16) == cmd + 0x100 * obj + 0x1_0000 * len) by (bit_vector)
        requires
            cmd < 0x100,
            obj < 0x100,
            len < 0x1_0000,
    ;
}

/// The fields of a header word are its digits: the command is the lowest byte, the object the
/// byte above it, and the length the upper half.
pub proof fn fields_are_digits(h: u32)
    ensures
        header_fields(h).0 as int == h as int % 0x100,
        header_fields(h).1 as int == h as int / 0x100 % 0x100,
        header_fields(h).2 as int == h as int / 0x1_0000,
{
    assert(h & 0xff == h % 0x100 && (h >> 8) & 0xff == h / 0x100 % 0x100 && h >> 16 == h
        / 0x1_0000) by (bit_vector);
}

/// The words of a command: a header that counts the payload, and the payload.
pub proof fn command_reads_back(cmd: u32, obj: u32, payload: Seq<u32>)
    requires
        cmd < 0x100,
        obj < 0x100,
        payload.len() < 0x1_0000,
    ensures
        command(cmd, obj, payload).len() == 4 + 4 * payload.len(),
        first_words(command(cmd, obj, payload), 1 + payload.len()) == seq![
            (cmd + 0x100 * obj + 0x1_0000 * payload.len()) as u32,
        ] + payload,
{
    let ws = seq![header_word(cmd, obj, payload.len() as u32)] + payload;
    header_is_a_sum(cmd, obj, payload.len() as u32);
    encoded_words_read_back(ws, Seq::empty());
}

/// The command that creates a surface, word for word.
pub proof fn surface_command_reads(surf_handle: u32, res_handle: u32, format: u32)
    ensures
        first_words(
            command(
                VIRGL_CCMD_CREATE_OBJECT,
                VIRGL_OBJECT_SURFACE,
                surface_payload(surf_handle, res_handle, format),
            ),
            6,
        ) == seq![0x0005_0801u32, surf_handle, res_handle, format, 0u32, 0u32],
{
    let payload = surface_payload(surf_handle, res_handle, format);
    command_reads_back(VIRGL_CCMD_CREATE_OBJECT, VIRGL_OBJECT_SURFACE, payload);
    assert(seq![0x0005_0801u32] + payload =~= seq![
        0x0005_0801u32,
        surf_handle,
        res_handle,
        format,
        0u32,
        0u32,
    ]);
}

/// The command that selects the surfaces, word for word: one color surface.
pub proof fn framebuffer_command_reads(color_surf: u32, depth_surf: u32)
    ensures
        first_words(
            command(
                VIRGL_CCMD_SET_FRAMEBUFFER_STATE,
                0,
                framebuffer_payload(color_surf, depth_surf),
            ),
            4,
        ) == seq![0x0003_0005u32, 1u32, depth_surf, color_surf],
{
    let payload = framebuffer_payload(color_surf, depth_surf);
    command_reads_back(VIRGL_CCMD_SET_FRAMEBUFFER_STATE, 0, payload);
    assert(seq![0x0003_0005u32] + payload =~= seq![
        0x0003_0005u32,
        1u32,
        depth_surf,
        color_surf,
    ]);
}

/// The command that sets the viewport, word for word: a scale and a translation of half the
/// extents, so that the viewport covers the surface; the depth is scaled by 1 and not moved.
pub proof fn viewport_command_reads(half_width: u32, half_height: u32)
    ensures
        first_words(
            command(VIRGL_CCMD_SET_VIEWPORT_STATE, 0, viewport_payload(half_width, half_height)),
            8,
        ) == seq![
            0x0007_0004u32, 0u32, half_width, half_height, 0x3f80_0000u32, half_width, half_height,
            0u32,
        ],
{
    let payload = viewport_payload(half_width, half_height);
    command_reads_back(VIRGL_CCMD_SET_VIEWPORT_STATE, 0, payload);
    assert(seq![0x0007_0004u32] + payload =~= seq![
        0x0007_0004u32, 0u32, half_width, half_height, 0x3f80_0000u32, half_width, half_height,
        0u32,
    ]);
}

/// The command that clears the color buffer, word for word: the buffer, the color, a depth of
/// 1 in double precision and a stencil of 0.
pub proof fn clear_command_reads(r: u32, g: u32, b: u32, a: u32)
    ensures
        first_words(command(VIRGL_CCMD_CLEAR, 0, clear_payload(r, g, b, a)), 9) == seq![
            0x0008_0007u32, 4u32, r, g, b, a, 0u32, 0x3ff0_0000u32, 0u32,
        ],
{
    let payload = clear_payload(r, g, b, a);
    command_reads_back(VIRGL_CCMD_CLEAR, 0, payload);
    assert(seq![0x0008_0007u32] + payload =~= seq![
        0x0008_0007u32, 4u32, r, g, b, a, 0u32, 0x3ff0_0000u32, 0u32,
    ]);
}

/// Every header word is the one made from its fields.
pub proof fn header_split_join(h: u32)
    ensures
        header_word(header_fields(h).0, header_fields(h).1, header_fields(h).2) == h,
{
    assert((h & 0xff) | (((h >> 8) & 0xff) << 8) | ((h >> 16) << 16) == h) by (bit_vector);
}

/// The payload of the command that creates a surface for a resource.
pub open spec fn surface_payload(surf_handle: u32, res_handle: u32, format: u32) -> Seq<u32> {
    seq![surf_handle, res_handle, format, 0u32, 0u32]
}

/// The payload of the command that selects the color and the depth surface.
pub open spec fn framebuffer_payload(color_surf: u32, depth_surf: u32) -> Seq<u32> {
    seq![1u32, depth_surf, color_surf]
}

/// The payload of the command that sets the viewport, from half the width and half
/// the height in single precision.
pub open spec fn viewport_payload(half_width: u32, half_height: u32) -> Seq<u32> {
    seq![0u32, half_width, half_height, F32_ONE, half_width, half_height, F32_ZERO]
}

/// The payload of the command that clears the color buffer.
pub open spec fn clear_payload(r: u32, g: u32, b: u32, a: u32) -> Seq<u32> {
    seq![PIPE_CLEAR_COLOR0, r, g, b, a, low_word(F64_ONE), high_word(F64_ONE), 0u32]
}

/// Appending a word extends the words of the stream.
proof fn words_push(base: Seq<u8>, ws: Seq<u32>, w: u32)
    ensures
        base + words(ws) + le32(w) == base + words(ws.push(w)),
{
    assert(ws.push(w).drop_last() =~= ws);
    assert(base + words(ws) + le32(w) =~= base + words(ws.push(w)));
}

/// Appends the command that creates a surface for a resource: level 0, layer 0.
pub fn encode_create_surface(buf: &mut Vec<u8>, surf_handle: u32, res_handle: u32, format: u32)
    ensures
        final(buf)@ == old(buf)@ + command(
            VIRGL_CCMD_CREATE_OBJECT,
            VIRGL_OBJECT_SURFACE,
            surface_payload(surf_handle, res_handle, format),
        ),
{
    let header = virgl_cmd0(VIRGL_CCMD_CREATE_OBJECT, VIRGL_OBJECT_SURFACE, 5);
    push_u32(buf, header);
    push_u32(buf, surf_handle);
    push_u32(buf, res_handle);
    push_u32(buf, format);
    push_u32(buf, 0);
    push_u32(buf, 0);
    proof {
        let base = old(buf)@;
        let none = Seq::<u32>::empty();
        let ws = seq![header] + surface_payload(surf_handle, res_handle, format);
        assert(base =~= base + words(none));
        words_push(base, none, header);
        words_push(base, ws.take(1), surf_handle);
        words_push(base, ws.take(2), res_handle);
        words_push(base, ws.take(3), format);
        words_push(base, ws.take(4), 0);
        words_push(base, ws.take(5), 0);
        assert(none.push(header) =~= ws.take(1));
        assert(ws.take(1).push(surf_handle) =~= ws.take(2));
        assert(ws.take(2).push(res_handle) =~= ws.take(3));
        assert(ws.take(3).push(format) =~= ws.take(4));
        assert(ws.take(4).push(0) =~= ws.take(5));
        assert(ws.take(5).push(0) =~= ws);
    }
}

/// Appends the command that renders to one color surface and one depth surface, where
/// surface 0 stands for none.
pub fn encode_set_framebuffer_state(buf: &mut Vec<u8>, color_surf: u32, depth_surf: u32)
    ensures
        final(buf)@ == old(buf)@ + command(
            VIRGL_CCMD_SET_FRAMEBUFFER_STATE,
            0,
            framebuffer_payload(color_surf, depth_surf),
        ),
{
    let header = virgl_cmd0(VIRGL_CCMD_SET_FRAMEBUFFER_STATE, 0, 3);
    push_u32(buf, header);
    push_u32(buf, 1);
    push_u32(buf, depth_surf);
    push_u32(buf, color_surf);
    proof {
        let base = old(buf)@;
        let none = Seq::<u32>::empty();
        let ws = seq![header] + framebuffer_payload(color_surf, depth_surf);
        assert(base =~= base + words(none));
        words_push(base, none, header);
        words_push(base, ws.take(1), 1);
        words_push(base, ws.take(2), depth_surf);
        words_push(base, ws.take(3), color_surf);
        assert(none.push(header) =~= ws.take(1));
        assert(ws.take(1).push(1) =~= ws.take(2));
        assert(ws.take(2).push(depth_surf) =~= ws.take(3));
        assert(ws.take(3).push(color_surf) =~= ws);
    }
}

/// Appends the command that makes the viewport cover the whole surface. The arguments
/// are the bit patterns of half the width and half the height in single precision.
pub fn encode_set_viewport_full(buf: &mut Vec<u8>, half_width: u32, half_height: u32)
    ensures
        final(buf)@ == old(buf)@ + command(
            VIRGL_CCMD_SET_VIEWPORT_STATE,
            0,
            viewport_payload(half_width, half_height),
        ),
{
    let header = virgl_cmd0(VIRGL_CCMD_SET_VIEWPORT_STATE, 0, 7);
    push_u32(buf, header);
    push_u32(buf, 0);
    push_f32(buf, half_width);
    push_f32(buf, half_height);
    push_f32(buf, F32_ONE);
    push_f32(buf, half_width);
    push_f32(buf, half_height);
    push_f32(buf, F32_ZERO);
    proof {
        let base = old(buf)@;
        let none = Seq::<u32>::empty();
        let ws = seq![header] + viewport_payload(half_width, half_height);
        assert(base =~= base + words(none));
        words_push(base, none, header);
        words_push(base, ws.take(1), 0);
        words_push(base, ws.take(2), half_width);
        words_push(base, ws.take(3), half_height);
        words_push(base, ws.take(4), F32_ONE);
        words_push(base, ws.take(5), half_width);
        words_push(base, ws.take(6), half_height);
        words_push(base, ws.take(7), F32_ZERO);
        assert(none.push(header) =~= ws.take(1));
        assert(ws.take(1).push(0) =~= ws.take(2));
        assert(ws.take(2).push(half_width) =~= ws.take(3));
        assert(ws.take(3).push(half_height) =~= ws.take(4));
        assert(ws.take(4).push(F32_ONE) =~= ws.take(5));
        assert(ws.take(5).push(half_width) =~= ws.take(6));
        assert(ws.take(6).push(half_height) =~= ws.take(7));
        assert(ws.take(7).push(F32_ZERO) =~= ws);
    }
}

/// Appends the command that clears the color buffer to a color, given by the bit
/// patterns of its components in single precision. The depth is set to 1.0 and the
/// stencil to 0.
pub fn encode_clear_color(buf: &mut Vec<u8>, r: u32, g: u32, b: u32, a: u32)
    ensures
        final(buf)@ == old(buf)@ + command(VIRGL_CCMD_CLEAR, 0, clear_payload(r, g, b, a)),
{
    let header = virgl_cmd0(VIRGL_CCMD_CLEAR, 0, 8);
    push_u32(buf, header);
    push_u32(buf, PIPE_CLEAR_COLOR0);
    push_f32(buf, r);
    push_f32(buf, g);
    push_f32(buf, b);
    push_f32(buf, a);
    push_f64(buf, F64_ONE);
    push_u32(buf, 0);
    proof {
        let base = old(buf)@;
        let none = Seq::<u32>::empty();
        let ws = seq![header] + clear_payload(r, g, b, a);
        assert(base =~= base + words(none));
        words_push(base, none, header);
        words_push(base, ws.take(1), PIPE_CLEAR_COLOR0);
        words_push(base, ws.take(2), r);
        words_push(base, ws.take(3), g);
        words_push(base, ws.take(4), b);
        words_push(base, ws.take(5), a);
        words_push(base, ws.take(6), low_word(F64_ONE));
        words_push(base, ws.take(7), high_word(F64_ONE));
        words_push(base, ws.take(8), 0);
        assert(none.push(header) =~= ws.take(1));
        assert(ws.take(1).push(PIPE_CLEAR_COLOR0) =~= ws.take(2));
        assert(ws.take(2).push(r) =~= ws.take(3));
        assert(ws.take(3).push(g) =~= ws.take(4));
        assert(ws.take(4).push(b) =~= ws.take(5));
        assert(ws.take(5).push(a) =~= ws.take(6));
        assert(ws.take(6).push(low_word(F64_ONE)) =~= ws.take(7));
        assert(ws.take(7).push(high_word(F64_ONE)) =~= ws.take(8));
        assert(ws.take(8).push(0) =~= ws);
    }
}

/// A command header found in a stream, with the byte offset at which it stands.
#[derive(Clone, Copy, Debug, PartialEq, Eq, Structural)]
pub struct CommandHeader {
    pub offset: usize,
    pub cmd: u32,
    pub obj: u32,
    pub len: u32,
}

/// The headers of the stream `s` from offset `at` on. A header is followed by four
/// bytes for each payload word; a rest of fewer than four bytes holds no header.
pub open spec fn headers_from(s: Seq<u8>, at: int) -> Seq<CommandHeader>
    decreases (if at <= s.len() { s.len() - at } else { 0 }),
{
    if at < 0 || at + 4 > s.len() {
        Seq::empty()
    } else {
        let (cmd, obj, len) = header_fields(word_at(s, at));
        seq![CommandHeader { offset: at as usize, cmd, obj, len }] + headers_from(
            s,
            at + 4 + 4 * len,
        )
    }
}

/// Lists the command headers of a stream.
pub fn dump_cmds(cmds: &[u8]) -> (headers: Vec<CommandHeader>)
    ensures
        headers@ == headers_from(cmds@, 0),
{
    let mut headers: Vec<CommandHeader> = Vec::new();
    let mut i: usize = 0;
    let total: usize = cmds.len();
    while i <= total && total - i >= 4
        invariant
            total == cmds@.len(),
            headers@ + headers_from(cmds@, i as int) == headers_from(cmds@, 0),
        decreases total - i,
    {
        let (cmd, obj, len) = decode_hdr(read_u32(cmds, i));
        let ghost before = headers@;
        let found = CommandHeader { offset: i, cmd, obj, len };
        headers.push(found);
        let word = read_u32(cmds, i);
        assert(word >> 16 <= 0xffff) by (bit_vector);
        let payload_bytes: usize = len as usize * 4;
        proof {
            let next = i + 4 + 4 * len;
            assert(headers_from(cmds@, i as int) == seq![found] + headers_from(cmds@, next));
            assert(before + (seq![found] + headers_from(cmds@, next)) =~= headers@ + headers_from(
                cmds@,
                next,
            ));
        }
        if payload_bytes > total - i - 4 {
            assert(headers_from(cmds@, i + 4 + 4 * len) =~= Seq::<CommandHeader>::empty());
            assert(headers@ =~= headers_from(cmds@, 0));
            return headers;
        }
        i = i + 4 + payload_bytes;
    }
    assert(headers@ =~= headers_from(cmds@, 0));
    headers
}

/// The headers that are found in a stream: the first stands at its start, each next one right
/// behind the payload of the one before it, and behind the payload of the last there is no
/// room for another. Each tells the digits of the word at its place.
pub proof fn headers_follow_each_other(s: Seq<u8>, at: int)
    requires
        0 <= at,
        s.len() <= usize::MAX,
    ensures
        ({
            let found = headers_from(s, at);
            &&& found.len() == 0 <==> at + 4 > s.len()
            &&& found.len() > 0 ==> found[0].offset == at && found.last().offset + 4 + 4
                * found.last().len + 4 > s.len()
            &&& forall|k: int|
                0 <= k < found.len() ==> {
                    let word = word_at(s, (#[trigger] found[k]).offset as int) as int;
                    &&& found[k].offset + 4 <= s.len()
                    &&& found[k].cmd == word % 0x100
                    &&& found[k].obj == word / 0x100 % 0x100
                    &&& found[k].len == word / 0x1_0000
                }
            &&& forall|k: int|
                0 <= k && k + 1 < found.len() ==> (#[trigger] found[k + 1]).offset
                    == found[k].offset + 4 + 4 * found[k].len
        }),
    decreases (if at <= s.len() { s.len() - at } else { 0 }),
{
    if at + 4 <= s.len() {
        let found = headers_from(s, at);
        let len = header_fields(word_at(s, at)).2;
        let rest = headers_from(s, at + 4 + 4 * len);
        fields_are_digits(word_at(s, at));
        headers_follow_each_other(s, at + 4 + 4 * len);
        assert(found.skip(1) =~= rest);
        assert forall|k: int| 0 <= k < found.len() implies {
            let word = word_at(s, (#[trigger] found[k]).offset as int) as int;
            &&& found[k].offset + 4 <= s.len()
            &&& found[k].cmd == word % 0x100
            &&& found[k].obj == word / 0x100 % 0x100
            &&& found[k].len == word / 0x1_0000
        } by {
            if k > 0 {
                assert(found[k] == rest[k - 1]);
            }
        }
        assert forall|k: int| 0 <= k && k + 1 < found.len() implies (#[trigger] found[k
            + 1]).offset == found[k].offset + 4 + 4 * found[k].len by {
            if k > 0 {
                assert(found[k] == rest[k - 1]);
                assert(found[k + 1] == rest[(k - 1) + 1]);
            } else {
                assert(found[1] == rest[0]);
            }
        }
        if rest.len() > 0 {
            assert(found.last() == rest.last());
        }
    }
}

/// A command at the end of a list of commands is found where its bytes start, and the
/// search goes on right after them.
pub proof fn command_is_found(before: Seq<u8>, cmd: u32, obj: u32, payload: Seq<u32>, after: Seq<u8>)
    requires
        cmd < 0x100,
        obj < 0x100,
        payload.len() < 0x1_0000,
    ensures
        headers_from(before + command(cmd, obj, payload) + after, before.len() as int) == seq![
            CommandHeader {
                offset: before.len() as usize,
                cmd,
                obj,
                len: payload.len() as u32,
            },
        ] + headers_from(
            before + command(cmd, obj, payload) + after,
            (before.len() + command(cmd, obj, payload).len()) as int,
        ),
        command(cmd, obj, payload).len() == 4 + 4 * payload.len(),
{
    let s = before + command(cmd, obj, payload) + after;
    let h = header_word(cmd, obj, payload.len() as u32);
    let ws = seq![h] + payload;
    words_len(ws);
    words_round_trip(ws, 0);
    header_round_trip(cmd, obj, payload.len() as u32);
    let at = before.len() as int;
    assert forall|j: int| 0 <= j < 4 implies s[at + j] == words(ws)[j] by {}
    assert(s[at + 0] == words(ws)[0]);
    assert(word_at(s, at) == h);
}

/// A command before it is encoded.
pub ghost struct Command {
    pub cmd: u32,
    pub obj: u32,
    pub payload: Seq<u32>,
}

impl Command {
    /// Every field fits in its part of the header word.
    pub open spec fn fits(self) -> bool {
        self.cmd < 0x100 && self.obj < 0x100 && self.payload.len() < 0x1_0000
    }
}

/// The bytes of a list of commands.
pub open spec fn stream(list: Seq<Command>) -> Seq<u8>
    decreases list.len(),
{
    if list.len() == 0 {
        Seq::empty()
    } else {
        command(list[0].cmd, list[0].obj, list[0].payload) + stream(list.drop_first())
    }
}

/// The headers of a list of commands whose bytes start at offset `at`.
pub open spec fn located(list: Seq<Command>, at: int) -> Seq<CommandHeader>
    decreases list.len(),
{
    if list.len() == 0 {
        Seq::empty()
    } else {
        seq![
            CommandHeader {
                offset: at as usize,
                cmd: list[0].cmd,
                obj: list[0].obj,
                len: list[0].payload.len() as u32,
            },
        ] + located(list.drop_first(), at + 4 + 4 * list[0].payload.len())
    }
}

proof fn stream_headers_after(before: Seq<u8>, list: Seq<Command>)
    requires
        forall|i: int| 0 <= i < list.len() ==> (#[trigger] list[i]).fits(),
    ensures
        headers_from(before + stream(list), before.len() as int) == located(
            list,
            before.len() as int,
        ),
    decreases list.len(),
{
    if list.len() > 0 {
        let first = list[0];
        let bytes = command(first.cmd, first.obj, first.payload);
        let rest = list.drop_first();
        assert(before + stream(list) =~= before + bytes + stream(rest));
        assert(first.fits());
        command_is_found(before, first.cmd, first.obj, first.payload, stream(rest));
        assert forall|i: int| 0 <= i < rest.len() implies (#[trigger] rest[i]).fits() by {
            assert(rest[i] == list[i + 1]);
        }
        stream_headers_after(before + bytes, rest);
        assert((before + bytes).len() == before.len() + 4 + 4 * first.payload.len());
    }
}

/// The headers found in an encoded list of commands are those of the commands, in
/// order and at the offsets at which their bytes start.
pub proof fn stream_headers(list: Seq<Command>)
    requires
        forall|i: int| 0 <= i < list.len() ==> (#[trigger] list[i]).fits(),
    ensures
        headers_from(stream(list), 0) == located(list, 0),
{
    stream_headers_after(Seq::empty(), list);
    assert(Seq::<u8>::empty() + stream(list) =~= stream(list));
}

} // verus!
