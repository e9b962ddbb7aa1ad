//! The algebra: scalars, vectors, matrices, the matrices of projections and
//! views, and the laws that hold of them.

pub mod integer;
pub mod inverse;
pub mod laws;
pub mod mat4;
pub mod scalar;
pub mod utils;
pub mod vec4;

pub use mat4::Mat4;
pub use vec4::Vec4;
