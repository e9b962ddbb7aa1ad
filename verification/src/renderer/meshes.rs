use crate::alg::scalar::{fraction, one, ratio, two, zero, Scalar};
use crate::renderer::mesh::Mesh;
use crate::renderer::texture::Texture;
use crate::renderer::texture_coords::TextureCoords;
use vstd::prelude::*;

verus! {

/// The four corners of a rectangle that is `2 * hw` wide, `2 * hh` high and
/// centred on the origin, in the plane of depth zero: upper left, upper
/// right, lower left, lower right.
pub open spec fn corners<S: Scalar>(hw: S, hh: S) -> Seq<S> {
    seq![
        hw.negation(),
        hh,
        zero(),
        hw,
        hh,
        zero(),
        hw.negation(),
        hh.negation(),
        zero(),
        hw,
        hh.negation(),
        zero(),
    ]
}

/// The eight corners of the cube of side one that is centred on the origin:
/// the four of the front face, then the four of the back face.
pub open spec fn cube_corners<S: Scalar>() -> Seq<S> {
    let p = fraction::<S>(1, 2);
    let n = fraction::<S>(-1i32, 2);
    seq![n, p, p, p, p, p, n, n, p, p, n, p, n, p, n, p, p, n, n, n, n, p, n, n]
}

/// The corners of the triangle with equal sides whose corners lie on the
/// circle of radius one: the top, the lower left, the lower right.
pub open spec fn triangle_corners<S: Scalar>() -> Seq<S> {
    let half_root_of_three = S::of_i32(3).root().quotient(two());
    seq![
        zero(),
        one(),
        zero(),
        half_root_of_three.negation(),
        fraction::<S>(-1i32, 2),
        zero(),
        half_root_of_three,
        fraction::<S>(-1i32, 2),
        zero(),
    ]
}

/// The mesh has no texture and no normals.
pub open spec fn is_bare<S, H>(mesh: Mesh<S, H>) -> bool {
    mesh.texture_coords is None && mesh.normals is None
}

/// A square of side `width`, as two triangles.
pub fn quad<S: Scalar, H>(width: S) -> (mesh: Mesh<S, H>)
    ensures
        mesh.vertices@ == corners(width.quotient(two()), width.quotient(two())),
        mesh.indices@ == seq![0u32, 1, 2, 2, 1, 3],
        is_bare(mesh),
{
    rectangle(width, width)
}

/// A rectangle, `width` by `height` and centred on the origin, as two
/// triangles.
pub fn rectangle<S: Scalar, H>(width: S, height: S) -> (mesh: Mesh<S, H>)
    ensures
        mesh.vertices@ == corners(width.quotient(two()), height.quotient(two())),
        mesh.indices@ == seq![0u32, 1, 2, 2, 1, 3],
        is_bare(mesh),
{
    let zero = S::from_i32(0);
    let hw = width.div(S::from_i32(2));
    let hh = height.div(S::from_i32(2));
    let vertices = vec![
        hw.neg(),
        hh,
        zero,
        hw,
        hh,
        zero,
        hw.neg(),
        hh.neg(),
        zero,
        hw,
        hh.neg(),
        zero,
    ];
    let indices = vec![0, 1, 2, 2, 1, 3];
    assert(vertices@ =~= corners(hw, hh));
    Mesh { vertices, indices, texture_coords: None, normals: None }
}

/// The cube of side one that is centred on the origin, as twelve triangles.
pub fn cube<S: Scalar, H>() -> (mesh: Mesh<S, H>)
    ensures
        mesh.vertices@ == cube_corners::<S>(),
        mesh.indices@ == seq![
            0u32,
            1,
            2,
            2,
            1,
            3,
            4,
            5,
            6,
            6,
            5,
            7,
            0,
            1,
            4,
            1,
            4,
            5,
            4,
            2,
            0,
            6,
            2,
            4,
            2,
            6,
            3,
            6,
            7,
            3,
            3,
            7,
            5,
            5,
            3,
            1,
        ],
        is_bare(mesh),
{
    let p: S = ratio(1, 2);
    let n: S = ratio(-1, 2);
    let vertices = vec![n, p, p, p, p, p, n, n, p, p, n, p, n, p, n, p, p, n, n, n, n, p, n, n];
    let indices = vec![
        0,
        1,
        2,
        2,
        1,
        3,
        4,
        5,
        6,
        6,
        5,
        7,
        0,
        1,
        4,
        1,
        4,
        5,
        4,
        2,
        0,
        6,
        2,
        4,
        2,
        6,
        3,
        6,
        7,
        3,
        3,
        7,
        5,
        5,
        3,
        1,
    ];
    assert(vertices@ =~= cube_corners::<S>());
    Mesh { vertices, indices, texture_coords: None, normals: None }
}

/// The outline of a rectangle, `width` by `height` and centred on the
/// origin: its corners in the order in which a closed line runs through them.
pub fn line_rectangle<S: Scalar, H>(width: S, height: S) -> (mesh: Mesh<S, H>)
    ensures
        mesh.vertices@ == corners(width.quotient(two()), height.quotient(two())),
        mesh.indices@ == seq![0u32, 1, 3, 2],
        is_bare(mesh),
{
    let zero = S::from_i32(0);
    let hw = width.div(S::from_i32(2));
    let hh = height.div(S::from_i32(2));
    let vertices = vec![
        hw.neg(),
        hh,
        zero,
        hw,
        hh,
        zero,
        hw.neg(),
        hh.neg(),
        zero,
        hw,
        hh.neg(),
        zero,
    ];
    let indices = vec![0, 1, 3, 2];
    assert(vertices@ =~= corners(hw, hh));
    Mesh { vertices, indices, texture_coords: None, normals: None }
}

/// The triangle with equal sides whose corners lie on the circle of radius
/// one.
pub fn triangle<S: Scalar, H>() -> (mesh: Mesh<S, H>)
    ensures
        mesh.vertices@ == triangle_corners::<S>(),
        mesh.indices@ == seq![0u32, 1, 2],
        is_bare(mesh),
{
    let zero = S::from_i32(0);
    let half_root_of_three = S::from_i32(3).sqrt().div(S::from_i32(2));
    let minus_half: S = ratio(-1, 2);
    let vertices = vec![
        zero,
        S::from_i32(1),
        zero,
        half_root_of_three.neg(),
        minus_half,
        zero,
        half_root_of_three,
        minus_half,
        zero,
    ];
    let indices = vec![0, 1, 2];
    assert(vertices@ =~= triangle_corners::<S>());
    Mesh { vertices, indices, texture_coords: None, normals: None }
}

/// The mesh is the rectangle as wide as `texture` and of its aspect ratio,
/// with the whole texture laid over it: the corners of a texture are
/// `(0, 0)`, `(1, 0)`, `(0, 1)` and `(1, 1)`.
pub open spec fn is_textured_rectangle<S: Scalar, H>(mesh: Mesh<S, H>, texture: Texture<S, H>) -> bool {
    let hw = texture.width.quotient(two());
    let hh = texture.width.quotient(texture.width.quotient(texture.height)).quotient(two());
    &&& mesh.vertices@ == corners(hw, hh)
    &&& mesh.indices@ == seq![0u32, 1, 2, 2, 1, 3]
    &&& mesh.normals is None
    &&& mesh.texture_coords matches Some(coords) && coords.texture == texture && coords.coords@
        == seq![zero::<S>(), zero(), one(), zero(), zero(), one(), one(), one()]
}

/// A rectangle as wide as `texture` and of its aspect ratio, with the whole
/// texture laid over it. It never fails.
pub fn textured_rectangle<S: Scalar, H, E>(texture: Texture<S, H>) -> (made: Result<Mesh<S, H>, E>)
    ensures
        made matches Ok(mesh) && is_textured_rectangle(mesh, texture),
{
    let zero = S::from_i32(0);
    let one = S::from_i32(1);
    let width = texture.width;
    let mut mesh = rectangle(width, width.div(texture.aspect_ratio()));
    let text_coords = TextureCoords {
        texture,
        coords: vec![zero, zero, one, zero, zero, one, one, one],
    };
    mesh.texture_coords = Some(text_coords);
    Ok(mesh)
}

} // verus!
