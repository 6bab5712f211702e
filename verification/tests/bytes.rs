use d3os_virtio::bytes::{high_half, low_half, push_f32, push_f64, push_u32, push_words, read_u32};

#[test]
fn words_are_little_endian() {
    let mut buf: Vec<u8> = Vec::new();
    push_u32(&mut buf, 0x1234_5678);
    assert_eq!(buf, vec![0x78, 0x56, 0x34, 0x12]);
}

#[test]
fn a_single_is_its_bit_pattern() {
    let mut buf: Vec<u8> = Vec::new();
    push_f32(&mut buf, 0.5f32.to_bits());
    assert_eq!(buf, 0.5f32.to_le_bytes().to_vec());
}

#[test]
fn a_double_is_its_low_word_and_its_high_word() {
    let mut buf: Vec<u8> = Vec::new();
    push_f64(&mut buf, 1.0f64.to_bits());
    assert_eq!(buf, vec![0, 0, 0, 0, 0, 0, 0xf0, 0x3f]);
    assert_eq!(buf, 1.0f64.to_le_bytes().to_vec());
}

#[test]
fn a_word_is_read_back() {
    let mut buf: Vec<u8> = vec![9, 9];
    push_words(&mut buf, &[0xdead_beef, 7]);
    assert_eq!(read_u32(&buf, 2), 0xdead_beef);
    assert_eq!(read_u32(&buf, 6), 7);
}

#[test]
fn halves_of_a_long() {
    assert_eq!(low_half(0x1111_2222_3333_4444), 0x3333_4444);
    assert_eq!(high_half(0x1111_2222_3333_4444), 0x1111_2222);
}
