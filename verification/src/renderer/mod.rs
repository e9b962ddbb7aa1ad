//! What a scene is made of and how it is looked at: the camera, the meshes,
//! the elements that can be picked, and the choice of the projection.

pub mod camera;
pub mod element;
pub mod mesh;
pub mod meshes;
pub mod texture;
pub mod texture_coords;

pub use camera::Camera;
pub use element::{Element, ElementKind, Plane, Rectangle};
pub use mesh::{get_height, get_width, Mesh};
pub use texture::Texture;
pub use texture_coords::TextureCoords;

use crate::alg::scalar::{fraction, is_tan_of, one, ratio, two, zero, Real, Scalar};
use crate::alg::utils::{
    orthographic, orthographic_matrix, perspective, perspective_matrix, radians,
};
use crate::alg::{Mat4, Vec4};
use vstd::prelude::*;

verus! {

/// Whether the scene is drawn flat, in parallel projection, or in space, in
/// perspective.
pub enum RenderMode {
    M2D,
    M3D,
}

/// The near plane of every projection: a tenth.
pub open spec fn near_plane<S: Scalar>() -> S {
    fraction(1, 10)
}

/// The far plane of every projection: a thousand.
pub open spec fn far_plane<S: Scalar>() -> S {
    S::of_i32(1000)
}

/// Half of the field of view of the perspective, in radians: half of ninety
/// degrees.
pub open spec fn half_field_of_view<S: Scalar>() -> S {
    radians(S::of_i32(90).product(fraction(1, 2)))
}

/// A pointer position of `pixel` out of `extent` pixels, on the scale of the
/// device that runs from minus one to one: `pixel * 2 / extent - 1`.
pub open spec fn device_coordinate<S: Scalar>(pixel: i32, extent: S) -> S {
    S::of_i32(pixel).product(two()).quotient(extent).difference(one())
}

/// The point of the scene that the pointer at pixel `(x, y)` is over, for a
/// canvas of `width` by `height` pixels and the inverse `unprojection` of
/// projection times view. Pixels count downwards, the device counts
/// upwards: the second coordinate changes its sign.
pub open spec fn pointer_in_scene<S: Scalar>(
    unprojection: Mat4<S>,
    x: i32,
    y: i32,
    width: S,
    height: S,
) -> Vec4<S> {
    unprojection.apply(
        Vec4(
            [
                device_coordinate(x, width),
                device_coordinate(y, height).product(S::of_i32(-1i32)),
                zero(),
                one(),
            ],
        ),
    )
}

/// `found` is the element of `plane` that the pointer at pixel `(x, y)` is
/// over, for a canvas of `width` by `height` pixels and the matrix
/// `projected` of projection times view: what a pick finds in the plane at
/// the point of the scene that the pointer is over, and nothing where there
/// is no plane.
pub open spec fn is_under_pointer<S: Scalar, V>(
    plane: Option<Element<S, V>>,
    projected: Mat4<S>,
    x: i32,
    y: i32,
    width: S,
    height: S,
    found: Option<&Element<S, V>>,
) -> bool {
    match plane {
        Some(plane) => {
            let at = pointer_in_scene(projected.inverted().unwrap(), x, y, width, height);
            plane.picks(at.0[0], at.0[1], found)
        },
        None => found is None,
    }
}

/// The projection for a canvas of the given aspect ratio: orthographic and
/// as wide as `zoom` for a flat scene, in perspective with a field of view of
/// ninety degrees for a scene in space. Both reach from a tenth to a
/// thousand. The perspective is the one for the tangent of half the field of
/// view, as the scalar's `tan` gives it.
pub fn get_projection_matrix<S: Real>(render_mode: &RenderMode, aspect_ratio: S, zoom: S) -> (m:
    Mat4<S>)
    ensures
        render_mode is M2D ==> m == orthographic(aspect_ratio, zoom, near_plane(), far_plane()),
        render_mode is M3D ==> exists|tangent: S|
            is_tan_of(half_field_of_view(), tangent) && m == #[trigger] perspective(
                aspect_ratio,
                tangent,
                near_plane(),
                far_plane(),
            ),
{
    let near: S = ratio(1, 10);
    let far = S::from_i32(1000);
    match render_mode {
        RenderMode::M2D => orthographic_matrix(aspect_ratio, zoom, near, far),
        RenderMode::M3D => {
            let m = perspective_matrix(aspect_ratio, S::from_i32(90), near, far);
            proof {
                let tangent = choose|tangent: S|
                    is_tan_of(half_field_of_view(), tangent) && m == #[trigger] perspective(
                        aspect_ratio,
                        tangent,
                        near,
                        far,
                    );
                assert(m == perspective(aspect_ratio, tangent, near_plane(), far_plane()));
            }
            m
        },
    }
}

/// What a movement of the mouse by `(movement_x, movement_y)` pixels does to
/// the camera: nothing unless the control key is held; else it zooms a flat
/// scene and turns the camera of a scene in space.
pub fn mouse_moved<S: Real>(
    camera: &mut Camera<S>,
    render_mode: &RenderMode,
    ctrl_key: bool,
    movement_x: i32,
    movement_y: i32,
)
    ensures
        !ctrl_key ==> final(camera).same_as(*old(camera)),
        ctrl_key && render_mode is M2D ==> final(camera).is_zoomed_from(
            *old(camera),
            S::of_i32(movement_y),
        ),
        ctrl_key && render_mode is M3D ==> final(camera).is_turned_from(
            *old(camera),
            S::of_i32(movement_x),
            S::of_i32(movement_y),
        ),
{
    if !ctrl_key {
        return ;
    }
    match render_mode {
        RenderMode::M2D => {
            camera.mouse_move_2d(S::from_i32(movement_x), S::from_i32(movement_y));
        },
        RenderMode::M3D => {
            camera.mouse_move_3d(S::from_i32(movement_x), S::from_i32(movement_y));
        },
    }
}

/// What a key does to the camera: a step in the plane for a flat scene, a
/// step in space for a scene in space.
pub fn key_pressed<S: Real>(camera: &mut Camera<S>, render_mode: &RenderMode, key: &str)
    ensures
        render_mode is M2D ==> final(camera).is_stepped_2d_from(*old(camera), key),
        render_mode is M3D ==> final(camera).is_stepped_3d_from(*old(camera), key),
{
    match render_mode {
        RenderMode::M2D => {
            camera.key_move_2d(key);
        },
        RenderMode::M3D => {
            camera.key_move_3d(key);
        },
    }
}

/// What a frame shows besides its background.
pub struct Drawing {
    /// The plane itself is drawn.
    pub plane: bool,
    /// The outline of the element under the pointer is drawn.
    pub frame: bool,
}

/// What a frame shows: the plane, unless it is being dragged, and the
/// outline of the element under the pointer. Without a plane nothing is
/// shown.
pub fn what_to_draw(has_plane: bool, plane_is_dragged: bool, has_hover: bool) -> (drawing: Drawing)
    ensures
        drawing.plane == (has_plane && !plane_is_dragged),
        drawing.frame == (has_plane && has_hover),
{
    Drawing { plane: has_plane && !plane_is_dragged, frame: has_plane && has_hover }
}

/// The element of `plane` that the pointer at pixel `(x, y)` is over, for a
/// canvas of `width` by `height` pixels. Projection times view has to have
/// an inverse where there is a plane.
pub fn check_hover<'a, S: Scalar, V>(
    plane: &'a Option<Element<S, V>>,
    projection: &Mat4<S>,
    view: &Mat4<S>,
    x: i32,
    y: i32,
    width: S,
    height: S,
) -> (found: Option<&'a Element<S, V>>)
    requires
        plane is Some ==> projection.times(*view).inverted() is Some,
    ensures
        is_under_pointer(*plane, projection.times(*view), x, y, width, height, found),
{
    match plane {
        Some(plane) => {
            let mat = *projection * *view;
            let mat = mat.inverse().unwrap();
            let one = S::from_i32(1);
            let two = S::from_i32(2);
            let glx = S::from_i32(x).mul(two).div(width).sub(one);
            let gly = S::from_i32(y).mul(two).div(height).sub(one);
            let gly = gly.mul(S::from_i32(-1));
            let mwp = mat.mul(&Vec4([glx, gly, S::from_i32(0), one]));
            plane.select(mwp.0[0], mwp.0[1])
        },
        None => None,
    }
}

} // verus!
