//! Vectors, quaternions, poses, matrices and bounds, generic over the scalar.

use vstd::prelude::*;

verus! {

/// A three-component vector.
#[derive(Clone, Copy, Debug, PartialEq)]
pub struct Vector3<T> {
    pub x: T,
    pub y: T,
    pub z: T,
}

/// A four-component vector; a column of a [`Mat4`].
#[derive(Clone, Copy, Debug, PartialEq)]
pub struct Vector4<T> {
    pub x: T,
    pub y: T,
    pub z: T,
    pub w: T,
}

impl<T: Copy> Vector3<T> {
    pub fn new(x: T, y: T, z: T) -> (r: Vector3<T>)
        ensures
            r == (Vector3 { x, y, z }),
    {
        Vector3 { x, y, z }
    }

    /// The four-component vector with this vector's components and `w`.
    pub fn extend(self, w: T) -> (r: Vector4<T>)
        ensures
            r == (Vector4 { x: self.x, y: self.y, z: self.z, w }),
    {
        Vector4 { x: self.x, y: self.y, z: self.z, w }
    }
}

impl<T> Vector4<T> {
    pub open spec fn truncate_spec(self) -> Vector3<T> {
        Vector3 { x: self.x, y: self.y, z: self.z }
    }
}

impl<T: Copy> Vector4<T> {
    /// The first three components.
    pub fn truncate(self) -> (r: Vector3<T>)
        ensures
            r == self.truncate_spec(),
    {
        Vector3 { x: self.x, y: self.y, z: self.z }
    }
}

/// A rotation quaternion. Components are carried as given: unit length is
/// the caller's concern.
#[derive(Clone, Copy, Debug, PartialEq)]
pub struct Quaternion<T> {
    pub x: T,
    pub y: T,
    pub z: T,
    pub w: T,
}

/// A rigid-body pose as the physics engine stores it: a position and an
/// orientation.
#[derive(Clone, Copy, Debug, PartialEq)]
pub struct Pose<T> {
    pub p: Vector3<T>,
    pub q: Quaternion<T>,
}

/// A 4x4 matrix stored by columns. The first three columns are the basis
/// of the transform, the fourth its translation.
#[derive(Clone, Copy, Debug, PartialEq)]
pub struct Mat4<T> {
    pub x_axis: Vector4<T>,
    pub y_axis: Vector4<T>,
    pub z_axis: Vector4<T>,
    pub w_axis: Vector4<T>,
}

/// An axis-aligned box given by its two corners.
#[derive(Clone, Copy, Debug, PartialEq)]
pub struct Bounds<T> {
    pub min_size: Vector3<T>,
    pub max_size: Vector3<T>,
}

/// The matrix whose basis is the identity and whose fourth column is `t`
/// with `one` as its last component.
pub open spec fn translation_matrix<T>(t: Vector3<T>, zero: T, one: T) -> Mat4<T> {
    Mat4 {
        x_axis: Vector4 { x: one, y: zero, z: zero, w: zero },
        y_axis: Vector4 { x: zero, y: one, z: zero, w: zero },
        z_axis: Vector4 { x: zero, y: zero, z: one, w: zero },
        w_axis: Vector4 { x: t.x, y: t.y, z: t.z, w: one },
    }
}

impl<T: Copy> Quaternion<T> {
    pub fn new(x: T, y: T, z: T, w: T) -> (r: Quaternion<T>)
        ensures
            r == (Quaternion { x, y, z, w }),
    {
        Quaternion { x, y, z, w }
    }
}

impl<T: Copy> Mat4<T> {
    pub fn from_cols(x_axis: Vector4<T>, y_axis: Vector4<T>, z_axis: Vector4<T>, w_axis: Vector4<T>) -> (r: Mat4<T>)
        ensures
            r == (Mat4 { x_axis, y_axis, z_axis, w_axis }),
    {
        Mat4 { x_axis, y_axis, z_axis, w_axis }
    }

    /// The pure translation by `t`; `zero` and `one` are the scalar's
    /// neutral elements.
    pub fn from_translation(t: Vector3<T>, zero: T, one: T) -> (r: Mat4<T>)
        ensures
            r == translation_matrix(t, zero, one),
    {
        Mat4 {
            x_axis: Vector4 { x: one, y: zero, z: zero, w: zero },
            y_axis: Vector4 { x: zero, y: one, z: zero, w: zero },
            z_axis: Vector4 { x: zero, y: zero, z: one, w: zero },
            w_axis: t.extend(one),
        }
    }

    /// The translation part: the first three components of the fourth column.
    pub fn translation(&self) -> (r: Vector3<T>)
        ensures
            r == self.w_axis.truncate_spec(),
    {
        self.w_axis.truncate()
    }
}

impl<T: Copy> Pose<T> {
    pub fn new(p: Vector3<T>, q: Quaternion<T>) -> (r: Pose<T>)
        ensures
            r == (Pose { p, q }),
    {
        Pose { p, q }
    }

    /// The pose with the translation of `m` and the orientation `q`, which
    /// the caller has read off the basis of `m`.
    pub fn from_matrix(m: &Mat4<T>, q: Quaternion<T>) -> (r: Pose<T>)
        ensures
            r.p == m.w_axis.truncate_spec(),
            r.q == q,
    {
        Pose { p: m.translation(), q }
    }
}

impl<T: Copy> Bounds<T> {
    /// The bounds with corners `minimum` and `maximum`, copied as they are.
    pub fn new(minimum: Vector3<T>, maximum: Vector3<T>) -> (r: Bounds<T>)
        ensures
            r.min_size == minimum,
            r.max_size == maximum,
    {
        Bounds { min_size: minimum, max_size: maximum }
    }
}

} // verus!
