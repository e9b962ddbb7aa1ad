use crate::alg::scalar::Scalar;
use vstd::prelude::*;

verus! {

/// An image on the graphics device: the handle `texture` under which the
/// device knows it, and its size in pixels. `H` is the type of the handle,
/// which this module only carries along.
pub struct Texture<S, H> {
    pub texture: H,
    pub width: S,
    pub height: S,
}

impl<S: Scalar, H> Texture<S, H> {
    /// Width over height.
    pub fn aspect_ratio(&self) -> (ratio: S)
        ensures
            ratio == self.width.quotient(self.height),
    {
        self.width.div(self.height)
    }
}

} // verus!
