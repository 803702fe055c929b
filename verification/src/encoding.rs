//! The bytes of 16-bit and 32-bit values as they lie in memory.
//!
//! Geometry and transforms reach the graphics device as raw bytes, in the
//! byte order of the machine. That order is one of two, and which one is not
//! known here, so an image is described under either.

use vstd::prelude::*;

verus! {

/// The order in which the bytes of a multi-byte value lie in memory.
#[derive(Clone, Copy, Debug, PartialEq, Eq, Structural)]
pub enum ByteOrder {
    /// Least significant byte first.
    LittleEndian,
    /// Most significant byte first.
    BigEndian,
}

/// The weight of the base-256 digit at `index`, for the four lowest digits.
pub open spec fn place(index: int) -> int {
    if index == 0 {
        1
    } else if index == 1 {
        0x100
    } else if index == 2 {
        0x1_0000
    } else {
        0x100_0000
    }
}

/// The base-256 digit of `value` at `index`, counted from the least
/// significant.
pub open spec fn digit(value: int, index: int) -> u8 {
    ((value / place(index)) % 0x100) as u8
}

/// The byte at position `at` (0 to 3) of a 32-bit word in memory.
pub open spec fn word_byte(order: ByteOrder, word: u32, at: int) -> u8 {
    match order {
        ByteOrder::LittleEndian => digit(word as int, at),
        ByteOrder::BigEndian => digit(word as int, 3 - at),
    }
}

/// The byte at position `at` (0 or 1) of a 16-bit value in memory.
pub open spec fn half_byte(order: ByteOrder, half: u16, at: int) -> u8 {
    match order {
        ByteOrder::LittleEndian => digit(half as int, at),
        ByteOrder::BigEndian => digit(half as int, 1 - at),
    }
}

/// The bytes of a run of 32-bit words: four per word, the words in order.
pub open spec fn words_image(order: ByteOrder, words: Seq<u32>) -> Seq<u8> {
    Seq::new(4 * words.len(), |i: int| word_byte(order, words[i / 4], i % 4))
}

/// The bytes of a run of 16-bit values: two per value, the values in order.
pub open spec fn halves_image(order: ByteOrder, halves: Seq<u16>) -> Seq<u8> {
    Seq::new(2 * halves.len(), |i: int| half_byte(order, halves[i / 2], i % 2))
}

/// `bytes` is what `words` look like in memory, in one byte order or the
/// other.
pub open spec fn is_words_image(bytes: Seq<u8>, words: Seq<u32>) -> bool {
    bytes == words_image(ByteOrder::LittleEndian, words) || bytes == words_image(
        ByteOrder::BigEndian,
        words,
    )
}

/// `bytes` is what `halves` look like in memory, in one byte order or the
/// other.
pub open spec fn is_halves_image(bytes: Seq<u8>, halves: Seq<u16>) -> bool {
    bytes == halves_image(ByteOrder::LittleEndian, halves) || bytes == halves_image(
        ByteOrder::BigEndian,
        halves,
    )
}

/// Copies out the memory of a run of 32-bit words with
/// `bytemuck::cast_slice`, which hands back the same memory viewed as bytes:
/// four bytes per word, each word's bytes in the machine's byte order. With a
/// byte as target the cast has no alignment or size condition to fail on.
#[verifier::external_body]
pub(crate) fn word_bytes(words: &Vec<u32>) -> (bytes: Vec<u8>)
    ensures
        is_words_image(bytes@, words@),
{
    bytemuck::cast_slice::<u32, u8>(words.as_slice()).to_vec()
}

/// Copies out the memory of a run of 16-bit values with
/// `bytemuck::cast_slice`, which hands back the same memory viewed as bytes:
/// two bytes per value, each value's bytes in the machine's byte order. With
/// a byte as target the cast has no alignment or size condition to fail on.
#[verifier::external_body]
pub(crate) fn half_bytes(halves: &Vec<u16>) -> (bytes: Vec<u8>)
    ensures
        is_halves_image(bytes@, halves@),
{
    bytemuck::cast_slice::<u16, u8>(halves.as_slice()).to_vec()
}

/// A 32-bit word is the sum of its four digits, each at its place.
pub proof fn lemma_word_from_digits(word: u32)
    ensures
        word == digit(word as int, 0) + 0x100 * digit(word as int, 1) + 0x1_0000 * digit(
            word as int,
            2,
        ) + 0x100_0000 * digit(word as int, 3),
{
    let w = word as int;
    assert(w == (w % 0x100) + 0x100 * ((w / 0x100) % 0x100) + 0x1_0000 * ((w / 0x1_0000) % 0x100)
        + 0x100_0000 * ((w / 0x100_0000) % 0x100)) by (nonlinear_arith)
        requires
            0 <= w < 0x1_0000_0000,
    ;
}

/// A 16-bit value is the sum of its two digits, each at its place.
pub proof fn lemma_half_from_digits(half: u16)
    ensures
        half == digit(half as int, 0) + 0x100 * digit(half as int, 1),
{
    let h = half as int;
    assert(h == (h % 0x100) + 0x100 * ((h / 0x100) % 0x100)) by (nonlinear_arith)
        requires
            0 <= h < 0x1_0000,
    ;
}

/// Under one byte order, the image of a run of words gives every word back:
/// two runs with the same image are the same run.
pub proof fn lemma_words_image_is_faithful(order: ByteOrder, a: Seq<u32>, b: Seq<u32>)
    requires
        words_image(order, a) == words_image(order, b),
    ensures
        a == b,
{
    let image_a = words_image(order, a);
    let image_b = words_image(order, b);
    assert(image_a.len() == 4 * a.len());
    assert(image_b.len() == 4 * b.len());
    assert(a.len() == b.len());
    assert forall|k: int| 0 <= k < a.len() implies a[k] == b[k] by {
        lemma_word_from_digits(a[k]);
        lemma_word_from_digits(b[k]);
        assert(image_a[4 * k] == image_b[4 * k]);
        assert(image_a[4 * k + 1] == image_b[4 * k + 1]);
        assert(image_a[4 * k + 2] == image_b[4 * k + 2]);
        assert(image_a[4 * k + 3] == image_b[4 * k + 3]);
        assert((4 * k) / 4 == k && (4 * k + 1) / 4 == k && (4 * k + 2) / 4 == k && (4 * k + 3) / 4
            == k);
    }
    assert(a =~= b);
}

/// Under one byte order, the image of a run of 16-bit values gives every
/// value back: two runs with the same image are the same run.
pub proof fn lemma_halves_image_is_faithful(order: ByteOrder, a: Seq<u16>, b: Seq<u16>)
    requires
        halves_image(order, a) == halves_image(order, b),
    ensures
        a == b,
{
    let image_a = halves_image(order, a);
    let image_b = halves_image(order, b);
    assert(image_a.len() == 2 * a.len());
    assert(image_b.len() == 2 * b.len());
    assert(a.len() == b.len());
    assert forall|k: int| 0 <= k < a.len() implies a[k] == b[k] by {
        lemma_half_from_digits(a[k]);
        lemma_half_from_digits(b[k]);
        assert(image_a[2 * k] == image_b[2 * k]);
        assert(image_a[2 * k + 1] == image_b[2 * k + 1]);
        assert((2 * k) / 2 == k && (2 * k + 1) / 2 == k);
    }
    assert(a =~= b);
}

} // verus!
