use d3os_virtio::gpu::model::{VIRGL_BLUE, VIRGL_GREEN, VIRGL_RED};
use d3os_virtio::gpu::virgl::{
    decode_hdr, dump_cmds, encode_clear_color, encode_create_surface,
    encode_set_framebuffer_state, encode_set_viewport_full, virgl_cmd0, CommandHeader, F32_ONE,
};

fn words(bytes: &[u8]) -> Vec<u32> {
    bytes
        .chunks_exact(4)
        .map(|word| u32::from_le_bytes([word[0], word[1], word[2], word[3]]))
        .collect()
}

#[test]
fn command_header_is_packed_and_unpacked() {
    let word = virgl_cmd0(1, 8, 5);
    assert_eq!(word, 0x0005_0801);
    assert_eq!(decode_hdr(word), (1, 8, 5));
    assert_eq!(decode_hdr(0xffff_ffff), (0xff, 0xff, 0xffff));
}

#[test]
fn surface_is_encoded() {
    let mut buf: Vec<u8> = Vec::new();
    encode_create_surface(&mut buf, 0x2001, 0x2000, 1);
    assert_eq!(words(&buf), vec![0x0005_0801, 0x2001, 0x2000, 1, 0, 0]);
}

#[test]
fn framebuffer_state_is_encoded() {
    let mut buf: Vec<u8> = Vec::new();
    encode_set_framebuffer_state(&mut buf, 0x2001, 0);
    assert_eq!(words(&buf), vec![0x0003_0005, 1, 0, 0x2001]);
}

#[test]
fn viewport_is_encoded() {
    let mut buf: Vec<u8> = Vec::new();
    let half_width = (1280 as f32 * 0.5).to_bits();
    let half_height = (800 as f32 * 0.5).to_bits();
    encode_set_viewport_full(&mut buf, half_width, half_height);
    let expected: Vec<u32> = vec![
        0x0007_0004,
        0,
        640.0f32.to_bits(),
        400.0f32.to_bits(),
        1.0f32.to_bits(),
        640.0f32.to_bits(),
        400.0f32.to_bits(),
        0.0f32.to_bits(),
    ];
    assert_eq!(words(&buf), expected);
}

#[test]
fn clear_is_encoded() {
    let mut buf: Vec<u8> = Vec::new();
    encode_clear_color(&mut buf, 1, 2, 3, 4);
    assert_eq!(words(&buf), vec![0x0008_0007, 4, 1, 2, 3, 4, 0, 0x3ff0_0000, 0]);
}

#[test]
fn test_color_is_in_single_precision() {
    assert_eq!(VIRGL_RED, 0.094f32.to_bits());
    assert_eq!(VIRGL_GREEN, 0.416f32.to_bits());
    assert_eq!(VIRGL_BLUE, 0.067f32.to_bits());
    assert_eq!(F32_ONE, 1.0f32.to_bits());
}

#[test]
fn commands_of_a_stream_are_found() {
    let mut buf: Vec<u8> = Vec::new();
    encode_create_surface(&mut buf, 0x2001, 0x2000, 1);
    encode_set_framebuffer_state(&mut buf, 0x2001, 0);
    encode_set_viewport_full(&mut buf, 0, 0);
    encode_clear_color(&mut buf, 1, 2, 3, 4);
    assert_eq!(
        dump_cmds(&buf),
        vec![
            CommandHeader { offset: 0, cmd: 1, obj: 8, len: 5 },
            CommandHeader { offset: 24, cmd: 5, obj: 0, len: 3 },
            CommandHeader { offset: 40, cmd: 4, obj: 0, len: 7 },
            CommandHeader { offset: 72, cmd: 7, obj: 0, len: 8 },
        ]
    );
}

#[test]
fn a_rest_of_a_stream_holds_no_command() {
    assert_eq!(dump_cmds(&[1, 0, 0]), vec![]);
    assert_eq!(
        dump_cmds(&[7, 0, 9, 0, 1]),
        vec![CommandHeader { offset: 0, cmd: 7, obj: 0, len: 9 }]
    );
}
