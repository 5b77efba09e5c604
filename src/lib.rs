//! Data layout of rigid transforms shared between a math library and a
//! physics engine, and the decomposition of a 4x4 transform into a rotation
//! and a translation.
//!
//! Every type is generic over its scalar: what is proved here is where each
//! component goes and which inputs each policy rejects, which holds whatever
//! the scalar is. Floating-point work (lengths, normalization, quaternion to
//! matrix) stays with the math library and reaches this crate as values.

pub mod isometry;
pub mod types;
