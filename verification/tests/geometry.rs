use birbgl::geometry::{
    index_bytes, indices, position_words, positions, vertex_bytes, vertex_stride, INDEX_COUNT,
    POSITION_COMPONENTS, VERTEX_COUNT, WORD_SIZE,
};

#[test]
fn quad_has_four_corners_and_two_triangles() {
    assert_eq!(VERTEX_COUNT, 4);
    assert_eq!(INDEX_COUNT, 6);
    assert_eq!(indices(), vec![0, 1, 3, 1, 2, 3]);
    assert_eq!(positions(), vec![1, 1, 0, 1, -1, 0, -1, -1, 0, -1, 1, 0]);
}

#[test]
fn indices_name_corners() {
    for index in indices() {
        assert!(index < VERTEX_COUNT);
    }
    for corner in 0..VERTEX_COUNT {
        assert!(indices().contains(&corner));
    }
}

#[test]
fn positions_are_tightly_packed() {
    assert_eq!(POSITION_COMPONENTS, 3);
    assert_eq!(WORD_SIZE, 4);
    assert_eq!(vertex_stride(), 12);
    assert_eq!(vertex_stride() as usize, 3 * std::mem::size_of::<f32>());
}

#[test]
fn position_words_are_the_bits_of_the_coordinates() {
    let words = position_words();
    let coordinates = positions();
    assert_eq!(words.len(), 12);
    for (word, coordinate) in words.iter().zip(coordinates.iter()) {
        assert_eq!(f32::from_bits(*word), *coordinate as f32);
    }
}

#[test]
fn index_bytes_are_the_indices_in_native_order() {
    let mut expected: Vec<u8> = Vec::new();
    for index in [0u32, 1, 3, 1, 2, 3] {
        expected.extend_from_slice(&index.to_ne_bytes());
    }
    assert_eq!(index_bytes(), expected);
    assert_eq!(index_bytes().len(), 24);
}

#[test]
fn index_bytes_match_a_cast_of_the_triangles() {
    let triangles: [[u32; 3]; 2] = [[0, 1, 3], [1, 2, 3]];
    let cast: &[u8] = bytemuck::cast_slice(&triangles);
    assert_eq!(index_bytes(), cast);
}

#[test]
fn vertex_bytes_match_a_cast_of_the_corners() {
    let corners: [[f32; 3]; 4] =
        [[1.0, 1.0, 0.0], [1.0, -1.0, 0.0], [-1.0, -1.0, 0.0], [-1.0, 1.0, 0.0]];
    let cast: &[u8] = bytemuck::cast_slice(&corners);
    assert_eq!(vertex_bytes(), cast);
    assert_eq!(vertex_bytes().len(), 48);
}
