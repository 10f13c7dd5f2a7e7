//! The cube's geometry: 36 vertices (six faces of two triangles each), a
//! distinct color per face, texture coordinates and outward normals.
//!
//! The data is pinned down by a small mathematical model. Each face has an
//! outward normal `n` and two tangent directions `u` and `v`; the vertex for
//! texture corner `(cu, cv)` of that face sits at `n + (2*cu - 1)*u +
//! (2*cv - 1)*v`. The six vertices of a face walk the corners in the order
//! `(0,0) (1,0) (0,1) (0,1) (1,0) (1,1)`, so the two triangles share the
//! diagonal from `(1,0)` to `(0,1)` and wind the same way.

use vstd::prelude::*;
use vstd::arithmetic::div_mod::lemma_fundamental_div_mod_converse;

verus! {

/// A cube vertex as the shader receives it: a homogeneous position and a
/// homogeneous color, all of whose components here are small integers.
#[derive(Copy, Clone, Debug)]
pub struct Vertex {
    pub position: [i8; 4],
    pub color: [i8; 4],
}

/// The three components of an integer triple, as mathematical integers.
pub open spec fn arr3(a: [i8; 3]) -> (int, int, int) {
    (a@[0] as int, a@[1] as int, a@[2] as int)
}

/// The two components of an integer pair, as mathematical integers.
pub open spec fn arr2(a: [i8; 2]) -> (int, int) {
    (a@[0] as int, a@[1] as int)
}

/// The four components of an integer quadruple, as mathematical integers.
pub open spec fn arr4(a: [i8; 4]) -> (int, int, int, int) {
    (a@[0] as int, a@[1] as int, a@[2] as int, a@[3] as int)
}

/// The outward normal of face `f`, in the order the data lists the faces:
/// front, right, back, left, top, bottom.
pub open spec fn face_normal(f: int) -> (int, int, int) {
    if f == 0 {
        (0, 0, 1)
    } else if f == 1 {
        (1, 0, 0)
    } else if f == 2 {
        (0, 0, -1)
    } else if f == 3 {
        (-1, 0, 0)
    } else if f == 4 {
        (0, 1, 0)
    } else {
        (0, -1, 0)
    }
}

/// The tangent direction of face `f` along which the first texture
/// coordinate grows.
pub open spec fn face_tangent_u(f: int) -> (int, int, int) {
    if f == 0 {
        (1, 0, 0)
    } else if f == 1 {
        (0, 0, -1)
    } else if f == 2 {
        (-1, 0, 0)
    } else if f == 3 {
        (0, 0, 1)
    } else if f == 4 {
        (1, 0, 0)
    } else {
        (1, 0, 0)
    }
}

/// The tangent direction of face `f` along which the second texture
/// coordinate grows.
pub open spec fn face_tangent_v(f: int) -> (int, int, int) {
    if f == 0 {
        (0, 1, 0)
    } else if f == 1 {
        (0, 1, 0)
    } else if f == 2 {
        (0, 1, 0)
    } else if f == 3 {
        (0, 1, 0)
    } else if f == 4 {
        (0, 0, -1)
    } else {
        (0, 0, 1)
    }
}

/// The color of face `f`: blue, red, yellow, aqua, green, fuchsia.
pub open spec fn face_color(f: int) -> (int, int, int) {
    if f == 0 {
        (0, 0, 1)
    } else if f == 1 {
        (1, 0, 0)
    } else if f == 2 {
        (1, 1, 0)
    } else if f == 3 {
        (0, 1, 1)
    } else if f == 4 {
        (0, 1, 0)
    } else {
        (1, 0, 1)
    }
}

/// The texture corner visited by vertex `r` of a face: the two triangles
/// `(0,0) (1,0) (0,1)` and `(0,1) (1,0) (1,1)`.
pub open spec fn corner_uv(r: int) -> (int, int) {
    if r == 0 {
        (0, 0)
    } else if r == 1 {
        (1, 0)
    } else if r == 2 {
        (0, 1)
    } else if r == 3 {
        (0, 1)
    } else if r == 4 {
        (1, 0)
    } else {
        (1, 1)
    }
}

/// Componentwise sum of two integer triples.
pub open spec fn vec3_add(a: (int, int, int), b: (int, int, int)) -> (int, int, int) {
    (a.0 + b.0, a.1 + b.1, a.2 + b.2)
}

/// An integer triple scaled by `k`.
pub open spec fn vec3_scale(k: int, a: (int, int, int)) -> (int, int, int) {
    (k * a.0, k * a.1, k * a.2)
}

/// Dot product of two integer triples.
pub open spec fn vec3_dot(a: (int, int, int), b: (int, int, int)) -> int {
    a.0 * b.0 + a.1 * b.1 + a.2 * b.2
}

/// Cross product of two integer triples.
pub open spec fn vec3_cross(a: (int, int, int), b: (int, int, int)) -> (int, int, int) {
    (a.1 * b.2 - a.2 * b.1, a.2 * b.0 - a.0 * b.2, a.0 * b.1 - a.1 * b.0)
}

/// The position of vertex `i` of the cube: vertex `i % 6` of face `i / 6`,
/// placed from the face's normal and tangents at the texture corner the
/// vertex carries.
pub open spec fn cube_position(i: int) -> (int, int, int) {
    let f = i / 6;
    let c = corner_uv(i % 6);
    vec3_add(
        face_normal(f),
        vec3_add(
            vec3_scale(2 * c.0 - 1, face_tangent_u(f)),
            vec3_scale(2 * c.1 - 1, face_tangent_v(f)),
        ),
    )
}

/// The homogeneous position of vertex `i`: the cube position with weight 1.
pub open spec fn vertex_position(i: int) -> (int, int, int, int) {
    let p = cube_position(i);
    (p.0, p.1, p.2, 1)
}

/// The homogeneous color of vertex `i`: its face's color with weight 1.
pub open spec fn vertex_color(i: int) -> (int, int, int, int) {
    let c = face_color(i / 6);
    (c.0, c.1, c.2, 1)
}

/// The normal, first tangent, second tangent and color of face `f`.
fn face_basis(f: usize) -> (r: ([i8; 3], [i8; 3], [i8; 3], [i8; 3]))
    requires
        f < 6,
    ensures
        arr3(r.0) == face_normal(f as int),
        arr3(r.1) == face_tangent_u(f as int),
        arr3(r.2) == face_tangent_v(f as int),
        arr3(r.3) == face_color(f as int),
{
    if f == 0 {
        ([0, 0, 1], [1, 0, 0], [0, 1, 0], [0, 0, 1])
    } else if f == 1 {
        ([1, 0, 0], [0, 0, -1], [0, 1, 0], [1, 0, 0])
    } else if f == 2 {
        ([0, 0, -1], [-1, 0, 0], [0, 1, 0], [1, 1, 0])
    } else if f == 3 {
        ([-1, 0, 0], [0, 0, 1], [0, 1, 0], [0, 1, 1])
    } else if f == 4 {
        ([0, 1, 0], [1, 0, 0], [0, 0, -1], [0, 1, 0])
    } else {
        ([0, -1, 0], [1, 0, 0], [0, 0, 1], [1, 0, 1])
    }
}

/// The texture corner of vertex `r` of a face.
fn corner(r: usize) -> (c: [i8; 2])
    requires
        r < 6,
    ensures
        arr2(c) == corner_uv(r as int),
{
    if r == 0 {
        [0, 0]
    } else if r == 1 {
        [1, 0]
    } else if r == 2 {
        [0, 1]
    } else if r == 3 {
        [0, 1]
    } else if r == 4 {
        [1, 0]
    } else {
        [1, 1]
    }
}

/// One coordinate of a face corner: the normal component plus or minus each
/// tangent component, the sign chosen by the texture corner.
fn mix(n: i8, u: i8, v: i8, cu: i8, cv: i8) -> (r: i8)
    requires
        -1 <= n <= 1,
        -1 <= u <= 1,
        -1 <= v <= 1,
        0 <= cu <= 1,
        0 <= cv <= 1,
    ensures
        r as int == n + (2 * cu - 1) * u + (2 * cv - 1) * v,
{
    let du: i8 = if cu == 1 { u } else { -u };
    let dv: i8 = if cv == 1 { v } else { -v };
    proof {
        if cu == 1 {
            assert((2 * cu - 1) * u == u as int) by (nonlinear_arith)
                requires cu == 1i8;
        } else {
            assert((2 * cu - 1) * u == -(u as int)) by (nonlinear_arith)
                requires cu == 0i8;
        }
        if cv == 1 {
            assert((2 * cv - 1) * v == v as int) by (nonlinear_arith)
                requires cv == 1i8;
        } else {
            assert((2 * cv - 1) * v == -(v as int)) by (nonlinear_arith)
                requires cv == 0i8;
        }
    }
    n + du + dv
}

/// The cube's raw tables: 36 vertex positions, 36 colors, 36 texture
/// coordinates and 36 normals, six entries per face. Every face is built the
/// same way: its six vertices visit the texture corners in the fixed order,
/// each placed from the face's normal and tangents, and carry the face's
/// color and normal.
pub fn cube_data() -> (r: (Vec<[i8; 3]>, Vec<[i8; 3]>, Vec<[i8; 2]>, Vec<[i8; 3]>))
    ensures
        r.0@.len() == 36,
        r.1@.len() == 36,
        r.2@.len() == 36,
        r.3@.len() == 36,
        forall|i: int| 0 <= i < 36 ==> arr3(#[trigger] r.0@[i]) == cube_position(i),
        forall|i: int| 0 <= i < 36 ==> arr3(#[trigger] r.1@[i]) == face_color(i / 6),
        forall|i: int| 0 <= i < 36 ==> arr2(#[trigger] r.2@[i]) == corner_uv(i % 6),
        forall|i: int| 0 <= i < 36 ==> arr3(#[trigger] r.3@[i]) == face_normal(i / 6),
{
    let mut positions: Vec<[i8; 3]> = Vec::new();
    let mut colors: Vec<[i8; 3]> = Vec::new();
    let mut uvs: Vec<[i8; 2]> = Vec::new();
    let mut normals: Vec<[i8; 3]> = Vec::new();
    let mut i: usize = 0;
    while i < 36
        invariant
            i <= 36,
            positions@.len() == i,
            colors@.len() == i,
            uvs@.len() == i,
            normals@.len() == i,
            forall|j: int| 0 <= j < i ==> arr3(#[trigger] positions@[j]) == cube_position(j),
            forall|j: int| 0 <= j < i ==> arr3(#[trigger] colors@[j]) == face_color(j / 6),
            forall|j: int| 0 <= j < i ==> arr2(#[trigger] uvs@[j]) == corner_uv(j % 6),
            forall|j: int| 0 <= j < i ==> arr3(#[trigger] normals@[j]) == face_normal(j / 6),
        decreases 36 - i,
    {
        let f: usize = i / 6;
        let r: usize = i % 6;
        let (n, u, v, col) = face_basis(f);
        let c = corner(r);
        let p: [i8; 3] = [
            mix(n[0], u[0], v[0], c[0], c[1]),
            mix(n[1], u[1], v[1], c[0], c[1]),
            mix(n[2], u[2], v[2], c[0], c[1]),
        ];
        proof {
            assert(arr3(p) == cube_position(i as int));
        }
        positions.push(p);
        colors.push(col);
        uvs.push(c);
        normals.push(n);
        i = i + 1;
    }
    (positions, colors, uvs, normals)
}

/// One shader vertex from a position and a color, each made homogeneous with
/// weight 1.
fn vertex(p: [i8; 3], c: [i8; 3]) -> (r: Vertex)
    ensures
        arr4(r.position) == (arr3(p).0, arr3(p).1, arr3(p).2, 1int),
        arr4(r.color) == (arr3(c).0, arr3(c).1, arr3(c).2, 1int),
{
    Vertex { position: [p[0], p[1], p[2], 1], color: [c[0], c[1], c[2], 1] }
}

/// The cube's 36 shader vertices: position `i` of the raw tables paired with
/// color `i`, each made homogeneous.
pub fn create_vertices() -> (r: Vec<Vertex>)
    ensures
        r@.len() == 36,
        forall|i: int|
            0 <= i < 36 ==> arr4(#[trigger] r@[i].position) == vertex_position(i),
        forall|i: int| 0 <= i < 36 ==> arr4(#[trigger] r@[i].color) == vertex_color(i),
{
    let (pos, col, _uv, _normal) = cube_data();
    let mut data: Vec<Vertex> = Vec::new();
    let mut i: usize = 0;
    while i < 36
        invariant
            i <= 36,
            pos@.len() == 36,
            col@.len() == 36,
            data@.len() == i,
            forall|j: int| 0 <= j < 36 ==> arr3(#[trigger] pos@[j]) == cube_position(j),
            forall|j: int| 0 <= j < 36 ==> arr3(#[trigger] col@[j]) == face_color(j / 6),
            forall|j: int|
                0 <= j < i ==> arr4(#[trigger] data@[j].position) == vertex_position(j),
            forall|j: int| 0 <= j < i ==> arr4(#[trigger] data@[j].color) == vertex_color(j),
        decreases 36 - i,
    {
        data.push(vertex(pos[i], col[i]));
        i = i + 1;
    }
    data
}

/// Every face's tangents and normal form a right-handed frame: the cross
/// product of the two tangent directions is the outward normal. The two
/// triangles of each face therefore wind the same way, facing out of the
/// cube.
pub proof fn lemma_face_winding(f: int)
    requires
        0 <= f < 6,
    ensures
        vec3_cross(face_tangent_u(f), face_tangent_v(f)) == face_normal(f),
{
    if f == 0 {
        assert(vec3_cross((1int, 0int, 0int), (0int, 1int, 0int)) == (0int, 0int, 1int));
    } else if f == 1 {
        assert(vec3_cross((0int, 0int, -1int), (0int, 1int, 0int)) == (1int, 0int, 0int));
    } else if f == 2 {
        assert(vec3_cross((-1int, 0int, 0int), (0int, 1int, 0int)) == (0int, 0int, -1int));
    } else if f == 3 {
        assert(vec3_cross((0int, 0int, 1int), (0int, 1int, 0int)) == (-1int, 0int, 0int));
    } else if f == 4 {
        assert(vec3_cross((1int, 0int, 0int), (0int, 0int, -1int)) == (0int, 1int, 0int));
    } else {
        assert(vec3_cross((1int, 0int, 0int), (0int, 0int, 1int)) == (0int, -1int, 0int));
    }
}

/// The dot product of a corner position with the face's normal reduces to the
/// normal's own dot product with itself when the tangents are orthogonal to
/// it.
proof fn lemma_corner_dot(
    n0: int, n1: int, n2: int,
    u0: int, u1: int, u2: int,
    v0: int, v1: int, v2: int,
    su: int, sv: int,
    p0: int, p1: int, p2: int,
)
    requires
        p0 == n0 + su * u0 + sv * v0,
        p1 == n1 + su * u1 + sv * v1,
        p2 == n2 + su * u2 + sv * v2,
        n0 * u0 + n1 * u1 + n2 * u2 == 0,
        n0 * v0 + n1 * v1 + n2 * v2 == 0,
        n0 * n0 + n1 * n1 + n2 * n2 == 1,
    ensures
        p0 * n0 + p1 * n1 + p2 * n2 == 1,
{
    assert(p0 * n0 + p1 * n1 + p2 * n2 == 1) by (nonlinear_arith)
        requires
            p0 == n0 + su * u0 + sv * v0,
            p1 == n1 + su * u1 + sv * v1,
            p2 == n2 + su * u2 + sv * v2,
            n0 * u0 + n1 * u1 + n2 * u2 == 0,
            n0 * v0 + n1 * v1 + n2 * v2 == 0,
            n0 * n0 + n1 * n1 + n2 * n2 == 1;
}

/// A coordinate that mixes a signed unit from exactly one of the three
/// directions is 1 or -1.
proof fn lemma_corner_coord(n: int, u: int, v: int, su: int, sv: int, p: int)
    requires
        p == n + su * u + sv * v,
        su == 1 || su == -1,
        sv == 1 || sv == -1,
        ((n == 1 || n == -1) && u == 0 && v == 0) || (n == 0 && (u == 1 || u == -1) && v == 0)
            || (n == 0 && u == 0 && (v == 1 || v == -1)),
    ensures
        p == 1 || p == -1,
{
    assert(p == 1 || p == -1) by (nonlinear_arith)
        requires
            p == n + su * u + sv * v,
            su == 1 || su == -1,
            sv == 1 || sv == -1,
            ((n == 1 || n == -1) && u == 0 && v == 0) || (n == 0 && (u == 1 || u == -1) && v
                == 0) || (n == 0 && u == 0 && (v == 1 || v == -1));
}

/// Every vertex of a face lies on that face's plane: its position has dot
/// product 1 with the face's outward normal.
pub proof fn lemma_vertex_on_face(i: int)
    requires
        0 <= i < 36,
    ensures
        vec3_dot(cube_position(i), face_normal(i / 6)) == 1,
{
    let f = i / 6;
    let c = corner_uv(i % 6);
    let su = 2 * c.0 - 1;
    let sv = 2 * c.1 - 1;
    let p = cube_position(i);
    if f == 0 {
        lemma_corner_dot(0, 0, 1, 1, 0, 0, 0, 1, 0, su, sv, p.0, p.1, p.2);
    } else if f == 1 {
        lemma_corner_dot(1, 0, 0, 0, 0, -1, 0, 1, 0, su, sv, p.0, p.1, p.2);
    } else if f == 2 {
        lemma_corner_dot(0, 0, -1, -1, 0, 0, 0, 1, 0, su, sv, p.0, p.1, p.2);
    } else if f == 3 {
        lemma_corner_dot(-1, 0, 0, 0, 0, 1, 0, 1, 0, su, sv, p.0, p.1, p.2);
    } else if f == 4 {
        lemma_corner_dot(0, 1, 0, 1, 0, 0, 0, 0, -1, su, sv, p.0, p.1, p.2);
    } else {
        lemma_corner_dot(0, -1, 0, 1, 0, 0, 0, 0, 1, su, sv, p.0, p.1, p.2);
    }
}

/// Every vertex position is a corner of the cube: each coordinate is 1 or -1.
pub proof fn lemma_vertex_is_corner(i: int)
    requires
        0 <= i < 36,
    ensures
        (cube_position(i).0 == 1 || cube_position(i).0 == -1),
        (cube_position(i).1 == 1 || cube_position(i).1 == -1),
        (cube_position(i).2 == 1 || cube_position(i).2 == -1),
{
    let f = i / 6;
    let c = corner_uv(i % 6);
    let su = 2 * c.0 - 1;
    let sv = 2 * c.1 - 1;
    let p = cube_position(i);
    if f == 0 {
        lemma_corner_coord(0, 1, 0, su, sv, p.0);
        lemma_corner_coord(0, 0, 1, su, sv, p.1);
        lemma_corner_coord(1, 0, 0, su, sv, p.2);
    } else if f == 1 {
        lemma_corner_coord(1, 0, 0, su, sv, p.0);
        lemma_corner_coord(0, 0, 1, su, sv, p.1);
        lemma_corner_coord(0, -1, 0, su, sv, p.2);
    } else if f == 2 {
        lemma_corner_coord(0, -1, 0, su, sv, p.0);
        lemma_corner_coord(0, 0, 1, su, sv, p.1);
        lemma_corner_coord(-1, 0, 0, su, sv, p.2);
    } else if f == 3 {
        lemma_corner_coord(-1, 0, 0, su, sv, p.0);
        lemma_corner_coord(0, 0, 1, su, sv, p.1);
        lemma_corner_coord(0, 1, 0, su, sv, p.2);
    } else if f == 4 {
        lemma_corner_coord(0, 1, 0, su, sv, p.0);
        lemma_corner_coord(1, 0, 0, su, sv, p.1);
        lemma_corner_coord(0, 0, -1, su, sv, p.2);
    } else {
        lemma_corner_coord(0, 1, 0, su, sv, p.0);
        lemma_corner_coord(-1, 0, 0, su, sv, p.1);
        lemma_corner_coord(0, 0, 1, su, sv, p.2);
    }
}

/// The two triangles of each face share their diagonal: of the six vertices
/// of face `f`, the fourth repeats the third and the fifth repeats the
/// second.
pub proof fn lemma_shared_diagonal(f: int)
    requires
        0 <= f < 6,
    ensures
        cube_position(6 * f + 3) == cube_position(6 * f + 2),
        cube_position(6 * f + 4) == cube_position(6 * f + 1),
{
    lemma_fundamental_div_mod_converse(6 * f + 1, 6, f, 1);
    lemma_fundamental_div_mod_converse(6 * f + 2, 6, f, 2);
    lemma_fundamental_div_mod_converse(6 * f + 3, 6, f, 3);
    lemma_fundamental_div_mod_converse(6 * f + 4, 6, f, 4);
}

} // verus!
