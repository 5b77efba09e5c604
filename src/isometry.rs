//! Splitting a 4x4 transform into a rotation and a translation.
//!
//! The floating-point work (lengths, normalization) is the math library's;
//! it reaches this module as the per-axis facts in [`BasisFacts`]. What is
//! decided here, and proved, is which policy rejects which matrix, with
//! which error, and where each component of the input lands.

use vstd::prelude::*;
use crate::types::{Mat4, Vector4, translation_matrix};

verus! {

/// One of the three basis columns of a transform.
#[derive(Clone, Copy, Debug, PartialEq, Eq, Structural)]
pub enum Axis {
    X,
    Y,
    Z,
}

/// The property of a basis column that the strict policy demands.
#[derive(Clone, Copy, Debug, PartialEq, Eq, Structural)]
pub enum BasisCheck {
    /// The column has length one.
    UnitLength,
    /// The column's fourth component is zero.
    ZeroW,
}

/// Why a matrix could not be split.
#[derive(Clone, Copy, Debug, PartialEq, Eq, Structural)]
pub enum DecomposeError {
    /// Strict policy: `axis` fails `check`.
    InvalidInput { axis: Axis, check: BasisCheck },
    /// Lenient policies: `axis` has length zero and cannot be normalized.
    DegenerateBasis { axis: Axis },
}

/// How far the basis of the input is trusted.
#[derive(Clone, Copy, Debug, PartialEq, Eq, Structural)]
pub enum NormalizationPolicy {
    /// Every basis column must already have length one and a zero fourth
    /// component.
    Strict,
    /// Each basis column is scaled to length one, fourth component included.
    Renormalize,
    /// Each basis column loses its fourth component, then is scaled to
    /// length one.
    TruncateRenormalize,
}

/// What the math library found of one basis column.
#[derive(Clone, Copy, Debug, PartialEq, Eq, Structural)]
pub struct AxisFacts {
    /// The column has length one, within the math library's tolerance.
    pub unit_length: bool,
    /// The column's fourth component is exactly zero.
    pub zero_w: bool,
    /// The part of the column that the policy normalizes has length zero.
    pub zero_length: bool,
}

/// The facts of the three basis columns.
#[derive(Clone, Copy, Debug, PartialEq, Eq, Structural)]
pub struct BasisFacts {
    pub x: AxisFacts,
    pub y: AxisFacts,
    pub z: AxisFacts,
}

/// A transform split into a pure rotation and a pure translation, such that
/// `translation * rotation` is the transform.
#[derive(Clone, Copy, Debug, PartialEq)]
pub struct Isometry<T> {
    pub translation: Mat4<T>,
    pub rotation: Mat4<T>,
}

pub open spec fn axis_facts(f: BasisFacts, a: Axis) -> AxisFacts {
    match a {
        Axis::X => f.x,
        Axis::Y => f.y,
        Axis::Z => f.z,
    }
}

pub open spec fn axis_index(a: Axis) -> nat {
    match a {
        Axis::X => 0,
        Axis::Y => 1,
        Axis::Z => 2,
    }
}

/// Whether the column `a` fails `check`.
pub open spec fn fails(f: BasisFacts, a: Axis, check: BasisCheck) -> bool {
    match check {
        BasisCheck::UnitLength => !axis_facts(f, a).unit_length,
        BasisCheck::ZeroW => !axis_facts(f, a).zero_w,
    }
}

/// The first column, in the order x, y, z, that fails `check`.
pub open spec fn first_failing(f: BasisFacts, check: BasisCheck) -> Option<Axis> {
    if fails(f, Axis::X, check) {
        Some(Axis::X)
    } else if fails(f, Axis::Y, check) {
        Some(Axis::Y)
    } else if fails(f, Axis::Z, check) {
        Some(Axis::Z)
    } else {
        None
    }
}

/// The first column, in the order x, y, z, of length zero.
pub open spec fn first_degenerate(f: BasisFacts) -> Option<Axis> {
    if f.x.zero_length {
        Some(Axis::X)
    } else if f.y.zero_length {
        Some(Axis::Y)
    } else if f.z.zero_length {
        Some(Axis::Z)
    } else {
        None
    }
}

/// The error that `policy` raises on a basis with facts `f`, if any. The
/// strict policy reports lengths before fourth components.
pub open spec fn basis_error(policy: NormalizationPolicy, f: BasisFacts) -> Option<DecomposeError> {
    match policy {
        NormalizationPolicy::Strict => match first_failing(f, BasisCheck::UnitLength) {
            Some(a) => Some(DecomposeError::InvalidInput { axis: a, check: BasisCheck::UnitLength }),
            None => match first_failing(f, BasisCheck::ZeroW) {
                Some(a) => Some(DecomposeError::InvalidInput { axis: a, check: BasisCheck::ZeroW }),
                None => None,
            },
        },
        _ => match first_degenerate(f) {
            Some(a) => Some(DecomposeError::DegenerateBasis { axis: a }),
            None => None,
        },
    }
}

/// `v` with its fourth component set to `zero`.
pub open spec fn direction<T>(v: Vector4<T>, zero: T) -> Vector4<T> {
    Vector4 { x: v.x, y: v.y, z: v.z, w: zero }
}

/// The rotation whose basis is that of `m` and whose fourth column is the
/// unit w vector.
pub open spec fn rotation_part<T>(m: Mat4<T>, zero: T, one: T) -> Mat4<T> {
    Mat4 {
        x_axis: direction(m.x_axis, zero),
        y_axis: direction(m.y_axis, zero),
        z_axis: direction(m.z_axis, zero),
        w_axis: Vector4 { x: zero, y: zero, z: zero, w: one },
    }
}

/// The split of `m`, with no check of its basis.
pub open spec fn isometry_of<T>(m: Mat4<T>, zero: T, one: T) -> Isometry<T> {
    Isometry {
        translation: translation_matrix(m.w_axis.truncate_spec(), zero, one),
        rotation: rotation_part(m, zero, one),
    }
}

/// The transform that `translation * rotation` stands for: the basis of the
/// rotation with the fourth column of the translation.
pub open spec fn recomposed<T>(i: Isometry<T>) -> Mat4<T> {
    Mat4 {
        x_axis: i.rotation.x_axis,
        y_axis: i.rotation.y_axis,
        z_axis: i.rotation.z_axis,
        w_axis: i.translation.w_axis,
    }
}

/// Every basis column has length one and a zero fourth component.
pub open spec fn rigid_basis(f: BasisFacts) -> bool {
    &&& f.x.unit_length && f.x.zero_w
    &&& f.y.unit_length && f.y.zero_w
    &&& f.z.unit_length && f.z.zero_w
}

/// No basis column has length zero.
pub open spec fn nondegenerate_basis(f: BasisFacts) -> bool {
    !f.x.zero_length && !f.y.zero_length && !f.z.zero_length
}

/// What [`Isometry::decompose`] returns.
pub open spec fn decomposition<T>(
    m: Mat4<T>,
    policy: NormalizationPolicy,
    f: BasisFacts,
    zero: T,
    one: T,
) -> Result<Isometry<T>, DecomposeError> {
    match basis_error(policy, f) {
        Some(e) => Err(e),
        None => Ok(isometry_of(m, zero, one)),
    }
}

impl AxisFacts {
    fn fails(&self, check: BasisCheck) -> (r: bool)
        ensures
            r == match check {
                BasisCheck::UnitLength => !self.unit_length,
                BasisCheck::ZeroW => !self.zero_w,
            },
    {
        match check {
            BasisCheck::UnitLength => !self.unit_length,
            BasisCheck::ZeroW => !self.zero_w,
        }
    }
}

impl BasisFacts {
    /// The first column, in the order x, y, z, that fails `check`.
    pub fn first_failing(&self, check: BasisCheck) -> (r: Option<Axis>)
        ensures
            r == first_failing(*self, check),
    {
        if self.x.fails(check) {
            Some(Axis::X)
        } else if self.y.fails(check) {
            Some(Axis::Y)
        } else if self.z.fails(check) {
            Some(Axis::Z)
        } else {
            None
        }
    }

    /// The first column, in the order x, y, z, of length zero.
    pub fn first_degenerate(&self) -> (r: Option<Axis>)
        ensures
            r == first_degenerate(*self),
    {
        if self.x.zero_length {
            Some(Axis::X)
        } else if self.y.zero_length {
            Some(Axis::Y)
        } else if self.z.zero_length {
            Some(Axis::Z)
        } else {
            None
        }
    }

    /// Checks the basis against `policy`: `Ok` exactly when the policy
    /// accepts it, else the error that names the first offending column.
    pub fn check(&self, policy: NormalizationPolicy) -> (r: Result<(), DecomposeError>)
        ensures
            r == match basis_error(policy, *self) {
                Some(e) => Err(e),
                None => Ok(()),
            },
            policy == NormalizationPolicy::Strict ==> (r is Ok <==> rigid_basis(*self)),
            policy != NormalizationPolicy::Strict ==> (r is Ok <==> nondegenerate_basis(*self)),
    {
        match policy {
            NormalizationPolicy::Strict => {
                if let Some(a) = self.first_failing(BasisCheck::UnitLength) {
                    return Err(DecomposeError::InvalidInput { axis: a, check: BasisCheck::UnitLength });
                }
                if let Some(a) = self.first_failing(BasisCheck::ZeroW) {
                    return Err(DecomposeError::InvalidInput { axis: a, check: BasisCheck::ZeroW });
                }
                Ok(())
            },
            _ => match self.first_degenerate() {
                Some(a) => Err(DecomposeError::DegenerateBasis { axis: a }),
                None => Ok(()),
            },
        }
    }
}

fn clear_w<T: Copy>(v: Vector4<T>, zero: T) -> (r: Vector4<T>)
    ensures
        r == direction(v, zero),
{
    Vector4 { x: v.x, y: v.y, z: v.z, w: zero }
}

impl<T: Copy> Isometry<T> {
    /// Splits `m` with no check of its basis: the rotation keeps the first
    /// three columns of `m` with their fourth components set to `zero`, the
    /// translation is the identity with the fourth column of `m`, whose last
    /// component is set to `one`. `zero` and `one` are the scalar's neutral
    /// elements.
    pub fn from_basis(m: &Mat4<T>, zero: T, one: T) -> (r: Isometry<T>)
        ensures
            r == isometry_of(*m, zero, one),
    {
        let rotation = Mat4::from_cols(
            clear_w(m.x_axis, zero),
            clear_w(m.y_axis, zero),
            clear_w(m.z_axis, zero),
            Vector4 { x: zero, y: zero, z: zero, w: one },
        );
        let translation = Mat4::from_translation(m.translation(), zero, one);
        Isometry { translation, rotation }
    }

    /// Splits `m` under `policy`. `facts` are the math library's findings on
    /// the basis of the matrix as the caller received it. Under a lenient
    /// policy `m` is that matrix with its basis columns already normalized as
    /// the policy says; under the strict policy it is the matrix itself.
    pub fn decompose(
        m: &Mat4<T>,
        policy: NormalizationPolicy,
        facts: &BasisFacts,
        zero: T,
        one: T,
    ) -> (r: Result<Isometry<T>, DecomposeError>)
        ensures
            r == decomposition(*m, policy, *facts, zero, one),
    {
        match facts.check(policy) {
            Err(e) => Err(e),
            Ok(()) => Ok(Isometry::from_basis(m, zero, one)),
        }
    }

    /// The transform that `translation * rotation` stands for, read off the
    /// columns: the basis of the rotation and the fourth column of the
    /// translation.
    pub fn recompose(&self) -> (r: Mat4<T>)
        ensures
            r == recomposed(*self),
    {
        Mat4::from_cols(self.rotation.x_axis, self.rotation.y_axis, self.rotation.z_axis, self.translation.w_axis)
    }
}

/// Under a lenient policy, a basis column of length zero makes the split
/// fail with `DegenerateBasis`, naming that column or an earlier one of
/// length zero; no matrix is returned.
pub proof fn lemma_degenerate_basis_rejected<T>(
    m: Mat4<T>,
    policy: NormalizationPolicy,
    f: BasisFacts,
    zero: T,
    one: T,
    a: Axis,
)
    requires
        policy != NormalizationPolicy::Strict,
        axis_facts(f, a).zero_length,
    ensures
        match decomposition(m, policy, f, zero, one) {
            Err(DecomposeError::DegenerateBasis { axis }) => axis_facts(f, axis).zero_length
                && axis_index(axis) <= axis_index(a),
            _ => false,
        },
{
}

/// Under the strict policy, a basis column that is not of length one makes
/// the split fail with `InvalidInput` for the length check, naming that
/// column or an earlier one that is not of length one either.
pub proof fn lemma_non_unit_axis_rejected<T>(m: Mat4<T>, f: BasisFacts, zero: T, one: T, a: Axis)
    requires
        !axis_facts(f, a).unit_length,
    ensures
        match decomposition(m, NormalizationPolicy::Strict, f, zero, one) {
            Err(DecomposeError::InvalidInput { axis, check }) => check == BasisCheck::UnitLength
                && !axis_facts(f, axis).unit_length && axis_index(axis) <= axis_index(a),
            _ => false,
        },
{
}

/// A matrix whose basis columns have a zero fourth component and whose
/// fourth column ends in `one`, once accepted by the policy, splits into a
/// rotation and a translation that recompose to the matrix itself; the
/// translation's fourth column is the matrix's.
pub proof fn lemma_split_recomposes<T>(
    m: Mat4<T>,
    policy: NormalizationPolicy,
    f: BasisFacts,
    zero: T,
    one: T,
)
    requires
        basis_error(policy, f) is None,
        m.x_axis.w == zero,
        m.y_axis.w == zero,
        m.z_axis.w == zero,
        m.w_axis.w == one,
    ensures
        match decomposition(m, policy, f, zero, one) {
            Ok(i) => recomposed(i) == m && i.translation.w_axis == m.w_axis,
            Err(_) => false,
        },
{
}

} // verus!
