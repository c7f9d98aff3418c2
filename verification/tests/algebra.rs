use cute_gorl::math::cosq;
use cute_gorl::vector2::Vector2;
use cute_gorl::vector3::Vector3;

fn v2(x: f64, y: f64) -> Vector2 {
    Vector2 { x: x.to_bits(), y: y.to_bits() }
}

fn v3(x: f64, y: f64, z: f64) -> Vector3 {
    Vector3 { x: x.to_bits(), y: y.to_bits(), z: z.to_bits() }
}

fn close(r: u64, expected: f64, tol: f64) -> bool {
    (f64::from_bits(r) - expected).abs() < tol
}

#[test]
fn gwa() {
    println!("Katy Time!!");
}

#[test]
fn is_normalized() {
    assert!(v2(1., 0.).is_normalized());
    assert!(v3(0., 0., 1.).is_normalized());
}

#[test]
fn normalization_tolerance() {
    assert!(!v2(0.75, 0.5).is_normalized());
    assert!(v2((0.75f64).sqrt(), 0.5).is_normalized());
    assert!(v2(1.0, 1e-5).is_normalized());
    assert!(!v2(1.0, 1e-3).is_normalized());
    assert!(!v2(f64::NAN, 0.0).is_normalized());
}

#[test]
fn is_nullvector() {
    assert!(v2(0., 0.).is_nullvector());
    assert!(!(v2(0.0001, 0.).is_nullvector()));
    assert!(v3(0., 0., 0.).is_nullvector());
    assert!(!(v3(0.0001, 0., 0.).is_nullvector()));
}

#[test]
fn nullvector_signed_zeros() {
    assert!(v2(0.0, -0.0).is_nullvector());
    assert!(v3(-0.0, 0.0, -0.0).is_nullvector());
    assert!(!v2(f64::NAN, 0.0).is_nullvector());
}

#[test]
fn dot_product_2d() {
    let s = Vector2::scalar(&v2(1.25, 0.5), &v2(2.0, 1.0));
    assert_eq!(s, (3.0f64).to_bits());
}

#[test]
fn dot_product_3d() {
    let s = Vector3::scalar(&v3(1.25, 0.5, 6.0), &v3(2.0, 1.0, -5.0));
    assert_eq!(s, (-27.0f64).to_bits());
}

#[test]
fn scalar_commutes() {
    let a = v2(0.1, -2.75);
    let b = v2(3.9, 0.3333);
    assert_eq!(Vector2::scalar(&a, &b), Vector2::scalar(&b, &a));
    let c = v3(0.1, -2.75, 1e300);
    let d = v3(3.9, 0.3333, -7.25e-3);
    assert_eq!(Vector3::scalar(&c, &d), Vector3::scalar(&d, &c));
}

#[test]
fn dist_symmetric() {
    let a = v2(3.5, 2.5);
    let b = v2(2.0, 2.0);
    assert_eq!(Vector2::dist(&a, &b), Vector2::dist(&b, &a));
    assert_eq!(Vector2::dist_sq(&a, &b), (2.5f64).to_bits());
    let c = v3(3.5, 2.5, 4.0);
    let d = v3(2.0, 2.0, -2.0);
    assert_eq!(Vector3::dist(&c, &d), Vector3::dist(&d, &c));
    assert_eq!(Vector3::dist_sq(&c, &d), (38.5f64).to_bits());
    assert_eq!(Vector3::dist(&c, &d), (38.5f64).sqrt().to_bits());
}

#[test]
fn magnitude() {
    assert_eq!(v2(3.0, 4.0).magn(), (5.0f64).to_bits());
    assert_eq!(v2(1.5, 0.5).magn_sq(), (2.5f64).to_bits());
    assert_eq!(v3(1.5, 0.5, 6.0).magn_sq(), (38.5f64).to_bits());
    assert_eq!(v3(1.5, 0.5, 6.0).magn(), (38.5f64).sqrt().to_bits());
}

#[test]
fn normalize_magnitude() {
    let mut a = v2(1.25, 0.5);
    let mut b = v2(10.0, 1.0);
    a.normalize();
    b.normalize();
    assert!(a.is_normalized() && b.is_normalized());
    assert!((f64::from_bits(a.magn()) - 1.0).abs() < 1e-8);
    let mut c = v3(1.25, 0.5, 6.0);
    let mut d = v3(10.0, 1.0, -5.0);
    c.normalize();
    d.normalize();
    assert!(c.is_normalized() && d.is_normalized());
    assert!((f64::from_bits(c.magn()) - 1.0).abs() < 1e-8);
}

#[test]
fn reflect_involution() {
    let a = v2(1.0, 1.0);
    let n = v2(0.0, 1.0);
    assert_eq!(a.reflect(&n), v2(1.0, -1.0));
    assert_eq!(a.reflect(&n).reflect(&n), a);
    let b = v2(0.3, 0.7);
    let m = v2(0.6, 0.8);
    let twice = b.reflect(&m).reflect(&m);
    assert!(close(twice.x, 0.3, 1e-12) && close(twice.y, 0.7, 1e-12));
    let mut c = v3(1.0, 1.0, 1.0);
    let k = v3(0.0, 0.0, 1.0);
    c.reflect(&k);
    assert_eq!(c, v3(1.0, 1.0, -1.0));
    c.reflect(&k);
    assert_eq!(c, v3(1.0, 1.0, 1.0));
}

#[test]
fn rotate_zero() {
    let a = v2(1.25, -0.5);
    assert_eq!(a.rotate((0.0f64).to_bits()), a);
    assert_eq!(a.rotate((-0.0f64).to_bits()), a);
    let b = v3(1.25, -0.5, 6.0);
    let n = v3(0.6, 0.8, 0.0);
    assert_eq!(b.rotate((0.0f64).to_bits(), &n), b);
    assert_eq!(b.rotate((-0.0f64).to_bits(), &n), b);
}

#[test]
fn rotate_roundtrip() {
    let a = v2(1.0, 2.0);
    let there = a.rotate((0.3f64).to_bits());
    let back = there.rotate((-0.3f64).to_bits());
    assert!(close(back.x, 1.0, 1e-9) && close(back.y, 2.0, 1e-9));
    let obtuse = a.rotate((2.0f64).to_bits()).rotate((-2.0f64).to_bits());
    assert!(close(obtuse.x, 1.0, 1e-9) && close(obtuse.y, 2.0, 1e-9));
    let mut n = v3(1.0, -1.0, 1.0);
    n.normalize();
    let b = v3(1.0, 1.0, 1.0);
    let around = b.rotate((0.4f64).to_bits(), &n).rotate((-0.4f64).to_bits(), &n);
    assert!(close(around.x, 1.0, 1e-9));
    assert!(close(around.y, 1.0, 1e-9));
    assert!(close(around.z, 1.0, 1e-9));
    let half = b.rotate((2.5f64).to_bits(), &n).rotate((-2.5f64).to_bits(), &n);
    assert!(close(half.x, 1.0, 1e-9));
    assert!(close(half.y, 1.0, 1e-9));
    assert!(close(half.z, 1.0, 1e-9));
}

#[test]
fn rotate_obtuse_angle() {
    let r = v2(1.0, 0.0).rotate(std::f64::consts::PI.to_bits());
    assert!(close(r.x, -1.0, 1e-9) && close(r.y, 0.0, 1e-9));
    let q = v2(1.0, 0.0).rotate((2.0f64).to_bits());
    assert!(close(q.x, (2.0f64).cos(), 1e-12) && close(q.y, (2.0f64).sin(), 1e-12));
}

#[test]
fn rotate_half_pi_2d() {
    let a = v2(1.0, 1.0);
    let r = a.rotate((0.5 * std::f64::consts::PI).to_bits());
    assert!(close(r.x, -1.0, 1e-9) && close(r.y, 1.0, 1e-9));
}

#[test]
fn rotate_axis_angle() {
    let mut n = v3(1.0, -1.0, 1.0);
    n.normalize();
    let r = v3(1.0, 1.0, 1.0).rotate((0.5 * std::f64::consts::PI).to_bits(), &n);
    assert!(close(r.x, -0.8213672050459182, 1e-12));
    assert!(close(r.y, -0.3333333333333334, 1e-12));
    assert!(close(r.z, 1.4880338717125852, 1e-12));
}

#[test]
fn rotate_fixed_2d() {
    let a = v2(1.0, 1.0);
    assert_eq!(a.rotate_right(), v2(-1.0, 1.0));
    assert_eq!(a.rotate_left(), v2(1.0, -1.0));
    let b = v2(0.25, -3.5);
    let roundtrip = b.rotate_right().rotate_left();
    assert_eq!(roundtrip.x, b.x);
    assert_eq!(roundtrip.y, b.y);
}

#[test]
fn rotate_fixed_3d() {
    let b = v3(1.0, 1.0, 1.0);
    let k = v3(0.0, 0.0, 1.0);
    assert_eq!(b.rotate_right(&k), v3(-1.0, 1.0, 1.0));
    assert_eq!(b.rotate_left(&k), v3(1.0, -1.0, 1.0));
}

#[test]
fn lerp_boundaries() {
    let a = v2(0.2, 0.1);
    let b = v2(-1.5, 7.0);
    assert_eq!(Vector2::lerp(&a, &b, (0.0f64).to_bits()), a);
    assert_eq!(Vector2::lerp(&a, &b, (1.0f64).to_bits()), b);
    let c = v3(0.2, 0.1, 0.3);
    let d = v3(-1.5, 7.0, 0.25);
    assert_eq!(Vector3::lerp(&c, &d, (0.0f64).to_bits()), c);
    assert_eq!(Vector3::lerp(&c, &d, (1.0f64).to_bits()), d);
    assert_eq!(Vector2::lerp(&a, &b, (-0.0f64).to_bits()), a);
    assert_eq!(Vector3::lerp(&c, &d, (-0.0f64).to_bits()), c);
}

#[test]
fn lerp_midpoint() {
    let a = v2(0.2, 0.1);
    let mid = Vector2::lerp(&a, &a.negate(), (0.5f64).to_bits());
    assert!(mid.is_nullvector());
}

#[test]
fn crossp_orthogonal() {
    let a = v3(1.0, 2.0, 3.0);
    let b = v3(4.0, -5.0, 0.0);
    let c = Vector3::crossp(&a, &b);
    assert_eq!(c, v3(15.0, 12.0, -13.0));
    assert_eq!(Vector3::scalar(&c, &a), (0.0f64).to_bits());
    assert_eq!(Vector3::scalar(&c, &b), (0.0f64).to_bits());
    assert!(!Vector3::is_coplanar(&a, &b, &c));
}

#[test]
fn crossp_anticommutes() {
    let a = v3(1.0, 2.0, 3.0);
    let b = v3(4.0, -5.0, 0.25);
    let c1 = Vector3::crossp(&a, &b);
    let c2 = Vector3::crossp(&b, &a);
    assert_eq!(c2, c1.negate());
    let d = v3(2.0, 4.0, 6.0);
    let parallel = Vector3::crossp(&a, &d);
    assert_eq!(Vector3::crossp(&d, &a), parallel.negate());
    assert!(parallel.is_nullvector());
}

#[test]
fn angle_3d_symmetric() {
    let a = v3(1.0, 1.0, 1.0);
    let b = v3(1.0, 1.0, -1.0);
    assert_eq!(Vector3::angle_between(&a, &b), Vector3::angle_between(&b, &a));
}

#[test]
fn collinear_2d() {
    let a = v2(0.75, 0.5);
    let b = a.scale((3.6f64).to_bits());
    assert!(Vector2::is_collinear(&a, &b));
    let c = Vector2 { x: (f64::from_bits(b.x) + 10.0).to_bits(), y: b.y };
    assert!(!Vector2::is_collinear(&a, &c));
}

#[test]
fn collinear_3d() {
    let a = v3(0.75, 0.5, 6.0);
    let b = a.scale((3.6f64).to_bits());
    assert!(Vector3::is_collinear(&a, &b));
    let c = Vector3 { x: (f64::from_bits(b.x) + 10.0).to_bits(), y: b.y, z: b.z };
    assert!(!Vector3::is_collinear(&a, &c));
}

#[test]
fn coplanar() {
    let a = v3(0.75, 0.5, 6.0);
    let b = v3(2.5, 1.0, -5.0);
    let c = v3(1.0, 0.0, -17.0);
    assert!(Vector3::is_coplanar(&a, &b, &c));
    let d = v3(2.0, 0.0, -17.0);
    assert!(!Vector3::is_coplanar(&a, &b, &d));
}

#[test]
fn angle_2d() {
    let a = v2(1.0, 1.0);
    let pi = Vector2::angle_between(&a, &a.negate());
    assert_eq!(pi, std::f64::consts::PI.to_bits());
    let quarter = Vector2::angle_between(&v2(1.0, 0.0), &v2(1.0, 1.0));
    assert!(close(quarter, 0.7853981633974483, 1e-12));
}

#[test]
fn angle_3d() {
    let r = Vector3::angle_between(&v3(1.0, 1.0, 1.0), &v3(1.0, 1.0, -1.0));
    assert!(close(r, 1.2309594173407747, 1e-12));
}

#[test]
fn clamping() {
    let mut a = v2(4.0, 4.0);
    a.clamp_max((1.0f64).to_bits());
    assert!(a.is_normalized());
    let mut b = v2(0.1, 0.1);
    b.clamp_min((1.0f64).to_bits());
    assert!(b.is_normalized());
    let c = v2(1.0, 1.0);
    let mut d = c;
    d.clamp_max((10.0f64).to_bits());
    assert_eq!(d.x, c.x);
    assert_eq!(d.y, c.y);
    let mut e = v3(4.0, 4.0, 4.0);
    e.clamp_max((1.0f64).to_bits());
    assert!(e.is_normalized());
    let mut g = v3(0.1, 0.1, 0.1);
    g.clamp_min((1.0f64).to_bits());
    assert!(g.is_normalized());
}

#[test]
fn named_arithmetic() {
    let a = v2(1.5, -2.0);
    let b = v2(0.25, 4.0);
    assert_eq!(a.add(&b), v2(1.75, 2.0));
    assert_eq!(a.sub(&b), v2(1.25, -6.0));
    assert_eq!(a.scale((2.0f64).to_bits()), v2(3.0, -4.0));
    assert_eq!(a.divide((4.0f64).to_bits()), v2(0.375, -0.5));
    assert_eq!(a.negate(), v2(-1.5, 2.0));
    let c = v3(1.5, -2.0, 8.0);
    let d = v3(0.25, 4.0, -0.5);
    assert_eq!(c.add(&d), v3(1.75, 2.0, 7.5));
    assert_eq!(c.sub(&d), v3(1.25, -6.0, 8.5));
    assert_eq!(c.scale((2.0f64).to_bits()), v3(3.0, -4.0, 16.0));
    assert_eq!(c.divide((4.0f64).to_bits()), v3(0.375, -0.5, 2.0));
    assert_eq!(c.negate(), v3(-1.5, 2.0, -8.0));
}

#[test]
fn equality_semantics() {
    assert_eq!(v2(0.0, -0.0), v2(-0.0, 0.0));
    let nan2 = v2(f64::NAN, 0.0);
    assert!(nan2 != nan2);
    assert_eq!(v3(0.0, -0.0, 0.0), v3(-0.0, 0.0, -0.0));
    let nan3 = v3(0.0, f64::NAN, 0.0);
    assert!(nan3 != nan3);
    assert!(v2(1.0, 2.0) != v2(1.0, 2.5));
}

#[test]
fn embedding() {
    let a = Vector3::from(v2(1.25, -0.5));
    assert_eq!(a, v3(1.25, -0.5, 0.0));
    assert_eq!(a.z, (0.0f64).to_bits());
}

#[test]
fn defaults() {
    assert!(Vector2::default().is_nullvector());
    assert!(Vector3::default().is_nullvector());
}

#[test]
fn cosine_from_sine() {
    assert_eq!(cosq((0.0f64).to_bits()), (1.0f64).to_bits());
    let s = (std::f64::consts::PI / 3.0).sin();
    assert!(close(cosq(s.to_bits()), 0.5, 1e-15));
}
