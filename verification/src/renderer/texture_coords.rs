use crate::renderer::texture::Texture;
use vstd::prelude::*;

verus! {

/// A texture and, for each vertex of a mesh, the point of the texture that
/// belongs to it: two coordinates per vertex.
pub struct TextureCoords<S, H> {
    pub texture: Texture<S, H>,
    pub coords: Vec<S>,
}

} // verus!
