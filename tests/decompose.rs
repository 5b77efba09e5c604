use physx::isometry::{Axis, AxisFacts, BasisCheck, BasisFacts, DecomposeError, Isometry, NormalizationPolicy};
use physx::types::{Mat4, Vector4};

const TOLERANCE: f32 = 1e-6;

fn col(v: glam::Vec4) -> Vector4<f32> {
    Vector4 { x: v.x, y: v.y, z: v.z, w: v.w }
}

fn to_mat(m: &glam::Mat4) -> Mat4<f32> {
    Mat4::from_cols(col(m.x_axis), col(m.y_axis), col(m.z_axis), col(m.w_axis))
}

fn to_glam(m: &Mat4<f32>) -> glam::Mat4 {
    let c = |v: Vector4<f32>| glam::Vec4::new(v.x, v.y, v.z, v.w);
    glam::Mat4::from_cols(c(m.x_axis), c(m.y_axis), c(m.z_axis), c(m.w_axis))
}

fn axis_facts(v: glam::Vec4, policy: NormalizationPolicy) -> AxisFacts {
    let zero_length = match policy {
        NormalizationPolicy::TruncateRenormalize => v.truncate().length_squared() == 0.0,
        _ => v.length_squared() == 0.0,
    };
    AxisFacts { unit_length: v.is_normalized(), zero_w: v.w == 0.0, zero_length }
}

fn facts(m: &glam::Mat4, policy: NormalizationPolicy) -> BasisFacts {
    BasisFacts {
        x: axis_facts(m.x_axis, policy),
        y: axis_facts(m.y_axis, policy),
        z: axis_facts(m.z_axis, policy),
    }
}

fn split(m: &glam::Mat4, policy: NormalizationPolicy) -> Result<Isometry<f32>, DecomposeError> {
    let f = facts(m, policy);
    let norm = |v: glam::Vec4| match policy {
        NormalizationPolicy::Strict => v,
        NormalizationPolicy::Renormalize => v.normalize(),
        NormalizationPolicy::TruncateRenormalize => v.truncate().normalize().extend(0.0),
    };
    let basis = glam::Mat4::from_cols(norm(m.x_axis), norm(m.y_axis), norm(m.z_axis), m.w_axis);
    Isometry::decompose(&to_mat(&basis), policy, &f, 0.0, 1.0)
}

fn close(a: &glam::Mat4, b: &glam::Mat4) -> bool {
    a.to_cols_array()
        .iter()
        .zip(b.to_cols_array().iter())
        .all(|(x, y)| (x - y).abs() <= TOLERANCE)
}

fn euler_rotation() -> glam::Mat4 {
    let rot_z = glam::Mat4::from_rotation_z(40.0f32.to_radians());
    let rot_y = glam::Mat4::from_rotation_y(30.0f32.to_radians());
    let rot_x = glam::Mat4::from_rotation_x(20.0f32.to_radians());
    rot_y * rot_x * rot_z
}

#[test]
fn isometry() {
    let rot = euler_rotation();
    let trans = glam::Mat4::from_translation(glam::Vec3::new(1.0, 2.0, 3.0));
    let m = trans * rot;

    let iso = split(&m, NormalizationPolicy::Strict).unwrap();
    assert!(to_glam(&iso.translation) == trans);
    assert!(close(&to_glam(&iso.rotation), &rot));
}

#[test]
fn translation_column_is_exact() {
    let m = glam::Mat4::from_translation(glam::Vec3::new(1.0, 2.0, 3.0)) * euler_rotation();
    let iso = split(&m, NormalizationPolicy::TruncateRenormalize).unwrap();
    assert_eq!(iso.translation.w_axis, Vector4 { x: 1.0, y: 2.0, z: 3.0, w: 1.0 });
    assert_eq!(iso.translation.x_axis, Vector4 { x: 1.0, y: 0.0, z: 0.0, w: 0.0 });
    assert_eq!(iso.rotation.w_axis, Vector4 { x: 0.0, y: 0.0, z: 0.0, w: 1.0 });
    assert!(close(&to_glam(&iso.rotation), &euler_rotation()));
}

#[test]
fn euler_rotation_matches_reference_formula() {
    let (a, b, c) = (30.0f32.to_radians(), 20.0f32.to_radians(), 40.0f32.to_radians());
    let ry = glam::Mat3::from_cols_array(&[a.cos(), 0.0, -a.sin(), 0.0, 1.0, 0.0, a.sin(), 0.0, a.cos()]);
    let rx = glam::Mat3::from_cols_array(&[1.0, 0.0, 0.0, 0.0, b.cos(), b.sin(), 0.0, -b.sin(), b.cos()]);
    let rz = glam::Mat3::from_cols_array(&[c.cos(), c.sin(), 0.0, -c.sin(), c.cos(), 0.0, 0.0, 0.0, 1.0]);
    let reference = glam::Mat4::from_mat3(ry * rx * rz);
    let m = glam::Mat4::from_translation(glam::Vec3::new(1.0, 2.0, 3.0)) * euler_rotation();
    let iso = split(&m, NormalizationPolicy::Strict).unwrap();
    assert!(close(&to_glam(&iso.rotation), &reference));
}

#[test]
fn quarter_turn_recomposes() {
    let rot = glam::Mat4::from_rotation_y(90.0f32.to_radians());
    let m = glam::Mat4::from_translation(glam::Vec3::new(-4.0, 0.5, 7.0)) * rot;
    for policy in [
        NormalizationPolicy::Strict,
        NormalizationPolicy::Renormalize,
        NormalizationPolicy::TruncateRenormalize,
    ] {
        let iso = split(&m, policy).unwrap();
        assert!(close(&to_glam(&iso.recompose()), &m));
        assert!(close(&(to_glam(&iso.translation) * to_glam(&iso.rotation)), &m));
    }
}

#[test]
fn zero_column_is_degenerate() {
    let mut m = glam::Mat4::from_translation(glam::Vec3::new(1.0, 2.0, 3.0));
    m.y_axis = glam::Vec4::ZERO;
    for policy in [NormalizationPolicy::Renormalize, NormalizationPolicy::TruncateRenormalize] {
        assert_eq!(split(&m, policy), Err(DecomposeError::DegenerateBasis { axis: Axis::Y }));
    }
}

#[test]
fn truncated_column_with_only_w_is_degenerate() {
    let mut m = glam::Mat4::IDENTITY;
    m.z_axis = glam::Vec4::new(0.0, 0.0, 0.0, 2.0);
    assert_eq!(
        split(&m, NormalizationPolicy::TruncateRenormalize),
        Err(DecomposeError::DegenerateBasis { axis: Axis::Z })
    );
    let iso = split(&m, NormalizationPolicy::Renormalize).unwrap();
    assert_eq!(iso.rotation.z_axis, Vector4 { x: 0.0, y: 0.0, z: 0.0, w: 0.0 });
}

#[test]
fn scaled_column_is_invalid_under_strict() {
    let mut m = euler_rotation();
    m.x_axis *= 2.0;
    assert_eq!(
        split(&m, NormalizationPolicy::Strict),
        Err(DecomposeError::InvalidInput { axis: Axis::X, check: BasisCheck::UnitLength })
    );
    let iso = split(&m, NormalizationPolicy::Renormalize).unwrap();
    assert!(close(&to_glam(&iso.rotation), &euler_rotation()));
}

#[test]
fn nonzero_w_is_invalid_under_strict() {
    let mut m = glam::Mat4::IDENTITY;
    m.z_axis = glam::Vec4::new(0.0, 0.0, 0.6, 0.8);
    let r = split(&m, NormalizationPolicy::Strict);
    assert_eq!(r, Err(DecomposeError::InvalidInput { axis: Axis::Z, check: BasisCheck::ZeroW }));
}

#[test]
fn lengths_are_reported_before_w() {
    let ok = AxisFacts { unit_length: true, zero_w: true, zero_length: false };
    let f = BasisFacts {
        x: AxisFacts { unit_length: true, zero_w: false, zero_length: false },
        y: ok,
        z: AxisFacts { unit_length: false, zero_w: true, zero_length: false },
    };
    assert_eq!(
        f.check(NormalizationPolicy::Strict),
        Err(DecomposeError::InvalidInput { axis: Axis::Z, check: BasisCheck::UnitLength })
    );
    assert_eq!(f.check(NormalizationPolicy::Renormalize), Ok(()));
    assert_eq!(f.first_failing(BasisCheck::ZeroW), Some(Axis::X));
    assert_eq!(f.first_degenerate(), None);
}
