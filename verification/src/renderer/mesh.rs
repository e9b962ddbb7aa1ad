use crate::alg::scalar::{zero, Scalar};
use crate::renderer::texture_coords::TextureCoords;
use vstd::prelude::*;

verus! {

/// A shape as the graphics device takes it: three coordinates per vertex,
/// and the indices of the vertices in the order in which they are drawn.
pub struct Mesh<S, H> {
    pub vertices: Vec<S>,
    pub texture_coords: Option<TextureCoords<S, H>>,
    pub normals: Option<Vec<S>>,
    pub indices: Vec<u32>,
}

impl<S: Scalar, H> Mesh<S, H> {
    /// The width of the texture of the mesh, and zero for a mesh without
    /// one.
    pub open spec fn texture_width(self) -> S {
        match self.texture_coords {
            Some(coords) => coords.texture.width,
            None => zero(),
        }
    }

    /// The height of the texture of the mesh, and zero for a mesh without
    /// one.
    pub open spec fn texture_height(self) -> S {
        match self.texture_coords {
            Some(coords) => coords.texture.height,
            None => zero(),
        }
    }
}

/// The width of the texture of a mesh, and zero for a mesh without one.
pub fn get_width<S: Scalar, H>(mesh: &Mesh<S, H>) -> (width: S)
    ensures
        width == mesh.texture_width(),
{
    match &mesh.texture_coords {
        None => S::from_i32(0),
        Some(coords) => coords.texture.width,
    }
}

/// The height of the texture of a mesh, and zero for a mesh without one.
pub fn get_height<S: Scalar, H>(mesh: &Mesh<S, H>) -> (height: S)
    ensures
        height == mesh.texture_height(),
{
    match &mesh.texture_coords {
        None => S::from_i32(0),
        Some(coords) => coords.texture.height,
    }
}

} // verus!
