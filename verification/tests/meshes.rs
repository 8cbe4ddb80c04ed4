use shadertrans::geometry::{create_cube, create_plane, vertex};
use shadertrans::spirv::spirv_to_u32_array;

#[test]
fn vertex_completes_the_homogeneous_tails() {
    let v = vertex([3, -2, 5], [0, 1, 0]);
    assert_eq!(v.position, [3, -2, 5, 1]);
    assert_eq!(v.normal, [0, 1, 0, 0]);
}

#[test]
fn cube_has_exactly_the_expected_buffers() {
    let (vertices, indices) = create_cube();
    assert_eq!(vertices.len(), 24);
    assert_eq!(indices.len(), 36);
    assert_eq!(vertices[0].position, [-1, -1, -1, 1]);
    assert_eq!(vertices[0].normal, [0, 0, -1, 0]);
    assert_eq!(vertices[6].position, [1, 1, 1, 1]);
    assert_eq!(vertices[6].normal, [0, 0, 1, 0]);
    assert_eq!(vertices[23].position, [1, -1, 1, 1]);
    assert_eq!(vertices[23].normal, [1, 0, 0, 0]);
    let expected: Vec<u16> = vec![
        0, 1, 2, 2, 3, 0, 4, 5, 6, 6, 7, 4, 8, 9, 10, 10, 11, 8, 12, 13, 14, 14, 15, 12, 16, 17,
        18, 18, 19, 16, 20, 21, 22, 22, 23, 20,
    ];
    assert_eq!(indices, expected);
    assert!(indices.iter().all(|&i| (i as usize) < vertices.len()));
}

#[test]
fn plane_is_one_upward_quad() {
    let (vertices, indices) = create_plane();
    assert_eq!(vertices.len(), 4);
    assert_eq!(indices, vec![0, 1, 2, 2, 3, 0]);
    for v in &vertices {
        assert_eq!(v.normal, [0, 1, 0, 0]);
        assert_eq!(v.position[1], 0);
    }
}

#[test]
fn spirv_words_are_little_endian() {
    let bytes: Vec<u8> = vec![1, 0, 0, 0, 0x12, 0x34, 0x56, 0x78];
    let words = spirv_to_u32_array(&bytes);
    assert_eq!(words, vec![1u32, 0x7856_3412]);
}

#[test]
fn spirv_of_no_bytes_is_no_words() {
    let words = spirv_to_u32_array(&[]);
    assert!(words.is_empty());
}
