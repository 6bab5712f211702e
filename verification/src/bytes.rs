//! Little-endian words, and copies between byte buffers.
//!
//! Everything the driver exchanges with a device is a sequence of 32-bit
//! little-endian words. A 64-bit field is its low word followed by its high word.

use vstd::prelude::*;
use zerocopy::{FromBytes, FromZeros, IntoBytes};

verus! {

/// The four bytes of `v`, least significant first.
pub open spec fn le32(v: u32) -> Seq<u8> {
    seq![
        (v % 256) as u8,
        (v / 256 % 256) as u8,
        (v / 65536 % 256) as u8,
        (v / 16777216) as u8,
    ]
}

/// The word whose bytes stand at `at` in `s`.
pub open spec fn word_at(s: Seq<u8>, at: int) -> u32 {
    (s[at] + 256 * s[at + 1] + 65536 * s[at + 2] + 16777216 * s[at + 3]) as u32
}

/// The bytes of a sequence of words.
pub open spec fn words(ws: Seq<u32>) -> Seq<u8>
    decreases ws.len(),
{
    if ws.len() == 0 {
        Seq::empty()
    } else {
        words(ws.drop_last()) + le32(ws.last())
    }
}

/// The low word of a 64-bit value.
pub open spec fn low_word(v: u64) -> u32 {
    (v % 0x1_0000_0000) as u32
}

/// The high word of a 64-bit value.
pub open spec fn high_word(v: u64) -> u32 {
    (v / 0x1_0000_0000) as u32
}

/// The 64-bit value with the given words.
pub open spec fn from_halves(low: u32, high: u32) -> u64 {
    (low + 0x1_0000_0000 * high) as u64
}

/// `target` after `source` has been copied over its first bytes.
pub open spec fn overwrite_prefix(target: Seq<u8>, source: Seq<u8>) -> Seq<u8> {
    source + target.skip(source.len() as int)
}

/// Reading a word gives back the word that was written; its bytes are its digits to the base
/// of 256, the least one first.
pub proof fn le32_round_trip(v: u32)
    ensures
        le32(v).len() == 4,
        word_at(le32(v), 0) == v,
        le32(v)[0] + 0x100 * le32(v)[1] + 0x1_0000 * le32(v)[2] + 0x100_0000 * le32(v)[3] == v,
{
    let b0 = v % 256;
    let b1 = v / 256 % 256;
    let b2 = v / 65536 % 256;
    let b3 = v / 16777216;
    assert(b3 < 256 && b0 + 256 * b1 + 65536 * b2 + 16777216 * b3 == v) by (bit_vector)
        requires
            b0 == v % 256,
            b1 == v / 256 % 256,
            b2 == v / 65536 % 256,
            b3 == v / 16777216,
    ;
}

/// A 64-bit value is given back by its two words.
pub proof fn halves_round_trip(v: u64)
    ensures
        from_halves(low_word(v), high_word(v)) == v,
        low_word(v) + 0x1_0000_0000 * high_word(v) == v,
{
}

/// A sequence of words takes four bytes per word.
pub proof fn words_len(ws: Seq<u32>)
    ensures
        words(ws).len() == 4 * ws.len(),
    decreases ws.len(),
{
    if ws.len() > 0 {
        words_len(ws.drop_last());
    }
}

/// The word at index `k` of a byte sequence is the word that was written there.
pub proof fn words_round_trip(ws: Seq<u32>, k: int)
    requires
        0 <= k < ws.len(),
    ensures
        4 * k + 4 <= words(ws).len(),
        word_at(words(ws), 4 * k) == ws[k],
    decreases ws.len(),
{
    words_len(ws);
    words_len(ws.drop_last());
    let front = words(ws.drop_last());
    if k == ws.len() - 1 {
        le32_round_trip(ws.last());
        assert forall|j: int| 0 <= j < 4 implies words(ws)[4 * k + j] == le32(ws.last())[j] by {}
        assert(words(ws)[4 * k + 0] == le32(ws.last())[0]);
    } else {
        words_round_trip(ws.drop_last(), k);
        assert forall|j: int| 0 <= j < front.len() implies words(ws)[j] == front[j] by {}
    }
}

/// Equal bytes come from equal words.
pub proof fn words_injective(a: Seq<u32>, b: Seq<u32>)
    requires
        words(a) == words(b),
    ensures
        a == b,
{
    words_len(a);
    words_len(b);
    assert forall|k: int| 0 <= k < a.len() implies a[k] == b[k] by {
        words_round_trip(a, k);
        words_round_trip(b, k);
    }
    assert(a =~= b);
}

/// The bytes of two sequences of words, one after the other.
pub proof fn words_concat(a: Seq<u32>, b: Seq<u32>)
    ensures
        words(a + b) == words(a) + words(b),
    decreases b.len(),
{
    if b.len() == 0 {
        assert(a + b =~= a);
        assert(words(a) + words(b) =~= words(a));
    } else {
        words_concat(a, b.drop_last());
        assert((a + b).drop_last() =~= a + b.drop_last());
        assert(words(a + b) =~= words(a) + words(b));
    }
}

/// A copy changes the bytes that it reaches, to those that are copied, and no others.
pub proof fn copy_reaches_the_prefix(target: Seq<u8>, source: Seq<u8>)
    requires
        source.len() <= target.len(),
    ensures
        overwrite_prefix(target, source).len() == target.len(),
        forall|i: int|
            0 <= i < target.len() ==> #[trigger] overwrite_prefix(target, source)[i] == (if i
                < source.len() {
                source[i]
            } else {
                target[i]
            }),
{
}

/// The first words of some bytes.
pub open spec fn first_words(s: Seq<u8>, count: nat) -> Seq<u32> {
    Seq::new(count, |k: int| word_at(s, 4 * k))
}

/// Encoded words are read back, also where other bytes follow them.
pub proof fn encoded_words_read_back(ws: Seq<u32>, tail: Seq<u8>)
    ensures
        words(ws).len() == 4 * ws.len(),
        first_words(words(ws) + tail, ws.len()) == ws,
        first_words(words(ws), ws.len()) == ws,
{
    words_len(ws);
    let encoded = words(ws);
    let longer = encoded + tail;
    assert forall|k: int| 0 <= k < ws.len() implies #[trigger] word_at(longer, 4 * k) == ws[k]
        && word_at(encoded, 4 * k) == ws[k] by {
        words_round_trip(ws, k);
        assert(longer[4 * k] == encoded[4 * k]);
        assert(longer[4 * k + 1] == encoded[4 * k + 1]);
        assert(longer[4 * k + 2] == encoded[4 * k + 2]);
        assert(longer[4 * k + 3] == encoded[4 * k + 3]);
    }
    assert(first_words(longer, ws.len()) =~= ws);
    assert(first_words(encoded, ws.len()) =~= ws);
}

/// Words that were copied to the start of a buffer are read back from it.
pub proof fn copied_words_read_back(buffer: Seq<u8>, ws: Seq<u32>)
    ensures
        first_words(overwrite_prefix(buffer, words(ws)), ws.len()) == ws,
{
    encoded_words_read_back(ws, buffer.skip(words(ws).len() as int));
}

/// Appends a word.
pub fn push_u32(buf: &mut Vec<u8>, v: u32)
    ensures
        final(buf)@ == old(buf)@ + le32(v),
{
    buf.push((v % 256) as u8);
    buf.push((v / 256 % 256) as u8);
    buf.push((v / 65536 % 256) as u8);
    buf.push((v / 16777216) as u8);
    assert(buf@ =~= old(buf)@ + le32(v));
}

/// Appends a single-precision number, given by its bit pattern.
pub fn push_f32(buf: &mut Vec<u8>, bits: u32)
    ensures
        final(buf)@ == old(buf)@ + le32(bits),
{
    push_u32(buf, bits);
}

/// Appends a double-precision number, given by its bit pattern, low word first.
pub fn push_f64(buf: &mut Vec<u8>, bits: u64)
    ensures
        final(buf)@ == old(buf)@ + le32(low_word(bits)) + le32(high_word(bits)),
{
    push_u32(buf, low_half(bits));
    push_u32(buf, high_half(bits));
}

/// Appends a sequence of words.
pub fn push_words(buf: &mut Vec<u8>, ws: &[u32])
    ensures
        final(buf)@ == old(buf)@ + words(ws@),
{
    let mut k: usize = 0;
    assert(buf@ =~= old(buf)@ + words(ws@.take(0)));
    while k < ws.len()
        invariant
            k <= ws@.len(),
            buf@ == old(buf)@ + words(ws@.take(k as int)),
        decreases ws@.len() - k,
    {
        push_u32(buf, ws[k]);
        assert(ws@.take(k + 1).drop_last() =~= ws@.take(k as int));
        assert(buf@ =~= old(buf)@ + words(ws@.take(k + 1)));
        k = k + 1;
    }
    assert(ws@.take(k as int) =~= ws@);
}

/// The low word of a 64-bit value.
pub fn low_half(v: u64) -> (r: u32)
    ensures
        r == low_word(v),
{
    (v % 0x1_0000_0000) as u32
}

/// The high word of a 64-bit value.
pub fn high_half(v: u64) -> (r: u32)
    ensures
        r == high_word(v),
{
    (v / 0x1_0000_0000) as u32
}

/// Reads the word at `at`.
pub fn read_u32(buf: &[u8], at: usize) -> (r: u32)
    requires
        at + 4 <= buf@.len(),
    ensures
        r == word_at(buf@, at as int),
{
    buf[at] as u32 + 256 * (buf[at + 1] as u32) + 65536 * (buf[at + 2] as u32) + 16777216 * (
    buf[at + 3] as u32)
}

/// `zerocopy::IntoBytes::write_to_prefix` on a byte slice: where `dst` is long
/// enough, its first bytes become those of `src` and the rest stay; otherwise
/// nothing is written and the call reports that it failed.
#[verifier::external_body]
pub(crate) fn write_to_prefix(src: &[u8], dst: &mut [u8]) -> (written: bool)
    ensures
        written == (src@.len() <= old(dst)@.len()),
        written ==> final(dst)@ == overwrite_prefix(old(dst)@, src@),
        !written ==> final(dst)@ == old(dst)@,
{
    src.write_to_prefix(dst).is_ok()
}

/// `zerocopy::FromBytes::read_from_prefix` on a byte array: the first `N` bytes
/// of `source`, if it has that many.
#[verifier::external_body]
pub(crate) fn read_from_prefix<const N: usize>(source: &[u8]) -> (prefix: Option<[u8; N]>)
    ensures
        prefix is Some <==> N <= source@.len(),
        prefix matches Some(bytes) ==> bytes@ == source@.take(N as int),
{
    <[u8; N]>::read_from_prefix(source).ok().map(|read| read.0)
}

/// What `zerocopy` reports when the allocator has no memory left.
#[verifier::external_type_specification]
#[verifier::external_body]
pub struct ExAllocError(zerocopy::AllocError);

/// `zerocopy::FromZeros::new_box_zeroed_with_elems` on a byte slice: a buffer of
/// `count` zero bytes. A count that no allocation can hold is refused. Whether the
/// allocator has memory for a smaller one is not stated.
#[verifier::external_body]
pub(crate) fn new_box_zeroed(count: usize) -> (buffer: Result<Box<[u8]>, zerocopy::AllocError>)
    ensures
        buffer matches Ok(bytes) ==> bytes@ == Seq::new(count as nat, |i: int| 0u8),
        count > isize::MAX ==> buffer is Err,
        count == 0 ==> buffer is Ok,
{
    <[u8]>::new_box_zeroed_with_elems(count)
}

/// What is read at a place is the number of the four bytes there, the least one first.
pub proof fn word_is_a_number(buf: &[u8], at: usize, word: u32)
    requires
        at + 4 <= buf@.len(),
        call_ensures(read_u32, (buf, at), word),
    ensures
        word == buf@[at as int] + 0x100 * buf@[at + 1] + 0x1_0000 * buf@[at + 2] + 0x100_0000
            * buf@[at + 3],
{
}

} // verus!
