//! Four by four matrices and four-vectors for homogeneous transforms, with
//! the projections and the camera of a small scene built on them.
//!
//! The arithmetic is that of a scalar type which the user supplies, see
//! [`alg::scalar::Scalar`]. Every function states which operations of the
//! scalar make up its result, and in which order: nothing is assumed of the
//! scalar beyond its operations being functions, so the statements hold for
//! machine numbers that round as they hold for exact integers.

pub mod alg;
pub mod renderer;
pub mod vars;
