//! Mesh helpers for the renderer that consumes the translated shaders: a
//! unit cube and a ground plane, as vertex and index buffers with exact,
//! fully pinned contents.
use vstd::prelude::*;

verus! {

/// A mesh vertex: a position and a normal, both as four signed bytes with
/// the usual homogeneous tails.
#[derive(Clone, Copy)]
pub struct Vertex {
    pub position: [i8; 4],
    pub normal: [i8; 4],
}

/// Builds a vertex from a three-component position and normal; the
/// position is completed with `w == 1`, the normal with `w == 0`.
pub fn vertex(pos: [i8; 3], nor: [i8; 3]) -> (v: Vertex)
    ensures
        v.position@ =~= seq![pos@[0], pos@[1], pos@[2], 1i8],
        v.normal@ =~= seq![nor@[0], nor@[1], nor@[2], 0i8],
{
    Vertex {
        position: [pos[0], pos[1], pos[2], 1],
        normal: [nor[0], nor[1], nor[2], 0],
    }
}

/// The index pattern of the cube and plane meshes: quad `k` spans the four
/// vertices `4k .. 4k+3`, split into the triangles `(0, 1, 2)` and
/// `(2, 3, 0)` of the quad.
pub open spec fn quad_index(i: int) -> int {
    let k = i / 6;
    let j = i % 6;
    4 * k + if j == 0 {
        0int
    } else if j == 1 {
        1int
    } else if j == 2 {
        2int
    } else if j == 3 {
        2int
    } else if j == 4 {
        3int
    } else {
        0int
    }
}

/// The outward normal of cube face `k`, as the view of a vertex normal.
pub open spec fn cube_normal(k: int) -> Seq<i8> {
    if k == 0 {
        seq![0i8, 0i8, -1i8, 0i8]
    } else if k == 1 {
        seq![0i8, 0i8, 1i8, 0i8]
    } else if k == 2 {
        seq![0i8, -1i8, 0i8, 0i8]
    } else if k == 3 {
        seq![0i8, 1i8, 0i8, 0i8]
    } else if k == 4 {
        seq![-1i8, 0i8, 0i8, 0i8]
    } else {
        seq![1i8, 0i8, 0i8, 0i8]
    }
}

/// The position of corner `j` of cube face `k`, as the view of a vertex
/// position.
pub open spec fn cube_position(k: int, j: int) -> Seq<i8> {
    if k == 0 {
        if j == 0 {
            seq![-1i8, -1i8, -1i8, 1i8]
        } else if j == 1 {
            seq![1i8, -1i8, -1i8, 1i8]
        } else if j == 2 {
            seq![1i8, 1i8, -1i8, 1i8]
        } else {
            seq![-1i8, 1i8, -1i8, 1i8]
        }
    } else if k == 1 {
        if j == 0 {
            seq![-1i8, -1i8, 1i8, 1i8]
        } else if j == 1 {
            seq![1i8, -1i8, 1i8, 1i8]
        } else if j == 2 {
            seq![1i8, 1i8, 1i8, 1i8]
        } else {
            seq![-1i8, 1i8, 1i8, 1i8]
        }
    } else if k == 2 {
        if j == 0 {
            seq![-1i8, -1i8, -1i8, 1i8]
        } else if j == 1 {
            seq![1i8, -1i8, -1i8, 1i8]
        } else if j == 2 {
            seq![1i8, -1i8, 1i8, 1i8]
        } else {
            seq![-1i8, -1i8, 1i8, 1i8]
        }
    } else if k == 3 {
        if j == 0 {
            seq![-1i8, 1i8, -1i8, 1i8]
        } else if j == 1 {
            seq![1i8, 1i8, -1i8, 1i8]
        } else if j == 2 {
            seq![1i8, 1i8, 1i8, 1i8]
        } else {
            seq![-1i8, 1i8, 1i8, 1i8]
        }
    } else if k == 4 {
        if j == 0 {
            seq![-1i8, -1i8, -1i8, 1i8]
        } else if j == 1 {
            seq![-1i8, 1i8, -1i8, 1i8]
        } else if j == 2 {
            seq![-1i8, 1i8, 1i8, 1i8]
        } else {
            seq![-1i8, -1i8, 1i8, 1i8]
        }
    } else {
        if j == 0 {
            seq![1i8, -1i8, -1i8, 1i8]
        } else if j == 1 {
            seq![1i8, 1i8, -1i8, 1i8]
        } else if j == 2 {
            seq![1i8, 1i8, 1i8, 1i8]
        } else {
            seq![1i8, -1i8, 1i8, 1i8]
        }
    }
}

/// Builds the unit cube: vertex `4k + j` is corner `j` of face `k` with
/// that face's outward normal, and the indices triangulate each face by
/// the quad pattern, staying within the 24 vertices.
#[verifier::rlimit(100)]
pub fn create_cube() -> (r: (Vec<Vertex>, Vec<u16>))
    ensures
        r.0@.len() == 24,
        r.1@.len() == 36,
        forall|i: int|
            0 <= i < 24 ==> (#[trigger] r.0@[i]).position@ == cube_position(i / 4, i % 4)
                && r.0@[i].normal@ == cube_normal(i / 4),
        forall|i: int| 0 <= i < 36 ==> (#[trigger] r.1@[i]) as int == quad_index(i),
        forall|i: int| 0 <= i < 36 ==> (#[trigger] r.1@[i]) < 24,
{
    let vertex_data: Vec<Vertex> = vec![
        vertex([-1, -1, -1], [0, 0, -1]),
        vertex([1, -1, -1], [0, 0, -1]),
        vertex([1, 1, -1], [0, 0, -1]),
        vertex([-1, 1, -1], [0, 0, -1]),
        vertex([-1, -1, 1], [0, 0, 1]),
        vertex([1, -1, 1], [0, 0, 1]),
        vertex([1, 1, 1], [0, 0, 1]),
        vertex([-1, 1, 1], [0, 0, 1]),
        vertex([-1, -1, -1], [0, -1, 0]),
        vertex([1, -1, -1], [0, -1, 0]),
        vertex([1, -1, 1], [0, -1, 0]),
        vertex([-1, -1, 1], [0, -1, 0]),
        vertex([-1, 1, -1], [0, 1, 0]),
        vertex([1, 1, -1], [0, 1, 0]),
        vertex([1, 1, 1], [0, 1, 0]),
        vertex([-1, 1, 1], [0, 1, 0]),
        vertex([-1, -1, -1], [-1, 0, 0]),
        vertex([-1, 1, -1], [-1, 0, 0]),
        vertex([-1, 1, 1], [-1, 0, 0]),
        vertex([-1, -1, 1], [-1, 0, 0]),
        vertex([1, -1, -1], [1, 0, 0]),
        vertex([1, 1, -1], [1, 0, 0]),
        vertex([1, 1, 1], [1, 0, 0]),
        vertex([1, -1, 1], [1, 0, 0]),
    ];
    let index_data: Vec<u16> = vec![
        0, 1, 2, 2, 3, 0,
        4, 5, 6, 6, 7, 4,
        8, 9, 10, 10, 11, 8,
        12, 13, 14, 14, 15, 12,
        16, 17, 18, 18, 19, 16,
        20, 21, 22, 22, 23, 20,
    ];
    (vertex_data, index_data)
}

/// Builds the ground plane: one upward-facing quad of side two.
pub fn create_plane() -> (r: (Vec<Vertex>, Vec<u16>))
    ensures
        r.0@.len() == 4,
        r.1@.len() == 6,
        forall|i: int|
            0 <= i < 4 ==> (#[trigger] r.0@[i]).normal@ == seq![0i8, 1i8, 0i8, 0i8]
                && r.0@[i].position@[1] == 0 && r.0@[i].position@[3] == 1,
        forall|i: int| 0 <= i < 6 ==> (#[trigger] r.1@[i]) as int == quad_index(i),
        forall|i: int| 0 <= i < 6 ==> (#[trigger] r.1@[i]) < 4,
{
    let vertex_data: Vec<Vertex> = vec![
        vertex([-1, 0, -1], [0, 1, 0]),
        vertex([1, 0, -1], [0, 1, 0]),
        vertex([1, 0, 1], [0, 1, 0]),
        vertex([-1, 0, 1], [0, 1, 0]),
    ];
    let index_data: Vec<u16> = vec![0, 1, 2, 2, 3, 0];
    (vertex_data, index_data)
}

} // verus!
