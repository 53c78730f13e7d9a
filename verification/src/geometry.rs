//! The quad that the picture is drawn on.
//!
//! Four corners and two triangles over them, uploaded once at start-up: the
//! corner positions as three single-precision numbers each, tightly packed,
//! and the triangles as indices into the corners.  The bytes to upload are
//! the machine's own layout of those numbers.

use vstd::prelude::*;

verus! {

/// The corners of the quad.
pub const VERTEX_COUNT: u32 = 4;

/// The numbers that make up one corner position.
pub const POSITION_COMPONENTS: i32 = 3;

/// The size in bytes of one number of a position, and of one index.
pub const WORD_SIZE: i32 = 4;

/// The indices that the two triangles take.
pub const INDEX_COUNT: i32 = 6;

/// The coordinates of the four corners, three for each corner in turn.
pub open spec fn quad_positions() -> Seq<i32> {
    seq![1i32, 1i32, 0i32, 1i32, -1i32, 0i32, -1i32, -1i32, 0i32, -1i32, 1i32, 0i32]
}

/// The corners of the two triangles, three for each triangle in turn.
pub open spec fn quad_indices() -> Seq<u32> {
    seq![0u32, 1u32, 3u32, 1u32, 2u32, 3u32]
}

/// The bit pattern of the single-precision number that equals a coordinate
/// of the quad.
pub open spec fn single_bits(coordinate: i32) -> u32 {
    if coordinate == 1 {
        0x3F80_0000u32
    } else if coordinate == -1 {
        0xBF80_0000u32
    } else {
        0u32
    }
}

/// Byte `k` of a word, counted from the least significant.
pub open spec fn byte_of(word: u32, k: int) -> int {
    if k == 0 {
        word as int % 256
    } else if k == 1 {
        word as int / 0x100 % 256
    } else if k == 2 {
        word as int / 0x1_0000 % 256
    } else {
        word as int / 0x100_0000 % 256
    }
}

/// Whether `bytes` holds `words` in order, each with its least significant
/// byte first.
pub open spec fn little_endian(words: Seq<u32>, bytes: Seq<u8>) -> bool {
    &&& bytes.len() == 4 * words.len()
    &&& forall|i: int, k: int|
        0 <= i < words.len() && 0 <= k < 4 ==> bytes[4 * i + k] == #[trigger] byte_of(
            words[i],
            k,
        )
}

/// Whether `bytes` holds `words` in order, each with its most significant
/// byte first.
pub open spec fn big_endian(words: Seq<u32>, bytes: Seq<u8>) -> bool {
    &&& bytes.len() == 4 * words.len()
    &&& forall|i: int, k: int|
        0 <= i < words.len() && 0 <= k < 4 ==> bytes[4 * i + 3 - k] == #[trigger] byte_of(
            words[i],
            k,
        )
}

/// Whether `bytes` holds `words` the way one of the two kinds of machine
/// lays them out in memory.
pub open spec fn machine_layout(words: Seq<u32>, bytes: Seq<u8>) -> bool {
    little_endian(words, bytes) || big_endian(words, bytes)
}

/// Calls `bytemuck::cast_slice` to view the words as bytes, and copies the
/// bytes out.  Trusted: the cast reinterprets the same memory, so there are
/// four bytes for each word, in the machine's byte order; from 32-bit words
/// to bytes the cast cannot fail.
#[verifier::external_body]
fn cast_words(words: &[u32]) -> (bytes: Vec<u8>)
    ensures
        machine_layout(words@, bytes@),
{
    bytemuck::cast_slice::<u32, u8>(words).to_vec()
}

/// The distance in bytes from one corner position to the next: the
/// positions are tightly packed.
pub fn vertex_stride() -> (stride: i32)
    ensures
        stride == 12,
        stride == POSITION_COMPONENTS * WORD_SIZE,
{
    POSITION_COMPONENTS * WORD_SIZE
}

/// The indices of the two triangles.
pub fn indices() -> (indices: Vec<u32>)
    ensures
        indices@ == quad_indices(),
        indices@.len() == INDEX_COUNT,
{
    let indices = vec![0u32, 1u32, 3u32, 1u32, 2u32, 3u32];
    assert(indices@ =~= quad_indices());
    indices
}

/// The coordinates of the four corners.
pub fn positions() -> (positions: Vec<i32>)
    ensures
        positions@ == quad_positions(),
        positions@.len() == VERTEX_COUNT * POSITION_COMPONENTS,
{
    let positions = vec![1i32, 1i32, 0i32, 1i32, -1i32, 0i32, -1i32, -1i32, 0i32, -1i32, 1i32, 0i32];
    assert(positions@ =~= quad_positions());
    positions
}

/// The coordinates of the four corners as the bit patterns of
/// single-precision numbers.
pub fn position_words() -> (words: Vec<u32>)
    ensures
        words@ == quad_positions().map_values(|coordinate: i32| single_bits(coordinate)),
{
    let positions = positions();
    let mut words: Vec<u32> = Vec::new();
    let mut i: usize = 0;
    while i < positions.len()
        invariant
            positions@ == quad_positions(),
            0 <= i <= positions@.len(),
            words@.len() == i,
            forall|j: int| 0 <= j < i ==> words@[j] == single_bits(#[trigger] positions@[j]),
        decreases positions@.len() - i,
    {
        let coordinate = positions[i];
        let word: u32 = if coordinate == 1 {
            0x3F80_0000u32
        } else if coordinate == -1 {
            0xBF80_0000u32
        } else {
            0u32
        };
        words.push(word);
        i += 1;
    }
    assert(words@ =~= quad_positions().map_values(|coordinate: i32| single_bits(coordinate)));
    words
}

/// The bytes to upload into the element array buffer: the indices in the
/// machine's layout.
pub fn index_bytes() -> (bytes: Vec<u8>)
    ensures
        machine_layout(quad_indices(), bytes@),
        bytes@.len() == INDEX_COUNT * WORD_SIZE,
{
    let indices = indices();
    cast_words(indices.as_slice())
}

/// The bytes to upload into the array buffer: the corner positions as
/// single-precision numbers in the machine's layout.
pub fn vertex_bytes() -> (bytes: Vec<u8>)
    ensures
        machine_layout(
            quad_positions().map_values(|coordinate: i32| single_bits(coordinate)),
            bytes@,
        ),
        bytes@.len() == VERTEX_COUNT * POSITION_COMPONENTS * WORD_SIZE,
{
    let words = position_words();
    cast_words(words.as_slice())
}

/// Every index of the two triangles names one of the four corners.
pub proof fn lemma_indices_name_corners(i: int)
    requires
        0 <= i < quad_indices().len(),
    ensures
        quad_indices()[i] < VERTEX_COUNT,
{
}

/// The two triangles have three different corners each, share the diagonal
/// from corner one to corner three, and between them take in all four
/// corners.
pub proof fn lemma_triangles_cover_quad()
    ensures
        quad_indices().len() == 6,
        quad_indices()[0] != quad_indices()[1] && quad_indices()[1] != quad_indices()[2]
            && quad_indices()[0] != quad_indices()[2],
        quad_indices()[3] != quad_indices()[4] && quad_indices()[4] != quad_indices()[5]
            && quad_indices()[3] != quad_indices()[5],
        quad_indices()[1] == quad_indices()[3] && quad_indices()[2] == quad_indices()[5],
        forall|corner: u32| corner < VERTEX_COUNT ==> #[trigger] quad_indices().contains(corner),
{
    assert forall|corner: u32| corner < VERTEX_COUNT implies #[trigger] quad_indices().contains(
        corner,
    ) by {
        if corner == 0 {
            assert(quad_indices()[0] == corner);
        } else if corner == 1 {
            assert(quad_indices()[1] == corner);
        } else if corner == 2 {
            assert(quad_indices()[4] == corner);
        } else {
            assert(quad_indices()[2] == corner);
        }
    }
}

/// Every coordinate of the quad is minus one, zero or one, and the third
/// coordinate of every corner is zero: the quad lies in the plane and spans
/// the whole picture.
pub proof fn lemma_positions_are_unit(i: int)
    requires
        0 <= i < quad_positions().len(),
    ensures
        -1 <= quad_positions()[i] <= 1,
        i % 3 == 2 ==> quad_positions()[i] == 0,
        i % 3 != 2 ==> quad_positions()[i] != 0,
{
}

} // verus!
