use raymath::Lerp;
use raymath::Vec2;
use raymath::Vec3;
use raymath::Vec4;

#[test]
fn constructors_give_exact_components() {
    let v = Vec3::new(1, -2, 3);
    assert_eq!(v.x, 1);
    assert_eq!(v.y, -2);
    assert_eq!(v.z, 3);
    let s = Vec4::splat(9);
    assert_eq!(s, Vec4::new(9, 9, 9, 9));
    assert_eq!(Vec2::splat(-4), Vec2::new(-4, -4));
}

#[test]
fn axis_values_are_exact() {
    assert_eq!(Vec2::up(), Vec2::new(0, 1));
    assert_eq!(Vec2::down(), Vec2::new(0, -1));
    assert_eq!(Vec2::left(), Vec2::new(-1, 0));
    assert_eq!(Vec2::right(), Vec2::new(1, 0));
    assert_eq!(Vec2::zero(), Vec2::new(0, 0));
    assert_eq!(Vec3::up(), Vec3::new(0, 1, 0));
    assert_eq!(Vec3::down(), Vec3::new(0, -1, 0));
    assert_eq!(Vec3::left(), Vec3::new(-1, 0, 0));
    assert_eq!(Vec3::right(), Vec3::new(1, 0, 0));
    assert_eq!(Vec3::zero(), Vec3::new(0, 0, 0));
    assert_eq!(Vec3::forward(), Vec3::new(0, 0, 1));
    assert_eq!(Vec3::backward(), Vec3::new(0, 0, -1));
    assert_eq!(Vec4::up(), Vec4::new(0, 1, 0, 0));
    assert_eq!(Vec4::down(), Vec4::new(0, -1, 0, 0));
    assert_eq!(Vec4::left(), Vec4::new(-1, 0, 0, 0));
    assert_eq!(Vec4::right(), Vec4::new(1, 0, 0, 0));
    assert_eq!(Vec4::zero(), Vec4::new(0, 0, 0, 0));
    assert_eq!(Vec4::forward(), Vec4::new(0, 0, 1, 0));
    assert_eq!(Vec4::backward(), Vec4::new(0, 0, -1, 0));
}

#[test]
fn add_then_sub_returns_original() {
    let v = Vec3::new(12, -7, 30);
    let w = Vec3::new(-5, 11, 2);
    assert_eq!(v.add(w).sub(w), v);
    let a = Vec2::new(100, -41);
    let b = Vec2::new(-3, 17);
    assert_eq!(a.add(b).sub(b), a);
    let p = Vec4::new(1, 2, 3, 4);
    let q = Vec4::new(-9, 8, -7, 6);
    assert_eq!(p.add(q).sub(q), p);
}

#[test]
fn scale_then_div_returns_original() {
    let v = Vec3::new(12, -7, 30);
    assert_eq!(v.scale(5).div_scalar(5), v);
    assert_eq!(v.scale(-3).div_scalar(-3), v);
    let a = Vec2::new(-41, 100);
    assert_eq!(a.scale(7).div_scalar(7), a);
    let p = Vec4::new(1, -2, 3, -4);
    assert_eq!(p.scale(11).div_scalar(11), p);
}

#[test]
fn division_truncates_toward_zero() {
    let v = Vec2::new(-7, 7);
    assert_eq!(v.div_scalar(2), Vec2::new(-3, 3));
    let w = Vec3::new(-9, 9, 10).div(Vec3::new(4, -4, 3));
    assert_eq!(w, Vec3::new(-2, -2, 3));
}

#[test]
fn dot_of_self_is_length_squared() {
    let v2 = Vec2::new(-3, 4);
    assert_eq!(v2.dot(&v2), v2.length_squared());
    assert_eq!(v2.length_squared(), 25);
    let v3 = Vec3::new(2, -3, 6);
    assert_eq!(v3.dot(v3), v3.length_squared());
    assert_eq!(v3.length_squared(), 49);
    let v4 = Vec4::new(1, 2, 3, 4);
    assert_eq!(v4.dot(&v4), v4.length_squared());
    assert_eq!(v4.length_squared(), 30);
}

#[test]
fn cross_is_antisymmetric_and_orthogonal() {
    let a = Vec3::new(3, -5, 7);
    let b = Vec3::new(2, 4, -6);
    let c = a.cross(b);
    assert_eq!(c, b.cross(a).neg());
    assert_eq!(c.dot(a), 0);
    assert_eq!(c.dot(b), 0);
    assert_eq!(Vec3::new(1, 0, 0).cross(Vec3::new(0, 1, 0)), Vec3::new(0, 0, 1));
}

#[test]
fn reflect_off_perpendicular_normal_is_identity() {
    let v = Vec3::new(1, 0, 0);
    let n = Vec3::new(0, 1, 0);
    assert_eq!(v.reflect(n), Vec3::new(1, 0, 0));
}

#[test]
fn reflect_flips_the_normal_component() {
    let v = Vec3::new(1, -1, 0);
    let n = Vec3::new(0, 1, 0);
    assert_eq!(v.reflect(n), Vec3::new(1, 1, 0));
}

#[test]
fn componentwise_products_and_quotients() {
    let v = Vec3::new(2, -3, 4);
    let w = Vec3::new(5, 6, -7);
    assert_eq!(v.mul(w), Vec3::new(10, -18, -28));
    assert_eq!(Vec3::new(10, -18, -28).div(w), Vec3::new(2, -3, 4));
    assert_eq!(v.neg(), Vec3::new(-2, 3, -4));
}

#[test]
fn in_place_forms_match_the_pure_forms() {
    let mut v = Vec2::new(1, 2);
    v.add_assign(Vec2::new(10, 20));
    assert_eq!(v, Vec2::new(11, 22));
    v.sub_assign(Vec2::new(1, 2));
    assert_eq!(v, Vec2::new(10, 20));
    v.mul_assign(Vec2::new(3, -1));
    assert_eq!(v, Vec2::new(30, -20));
    v.scale_assign(2);
    assert_eq!(v, Vec2::new(60, -40));
    v.div_assign(Vec2::new(6, 8));
    assert_eq!(v, Vec2::new(10, -5));
    v.div_scalar_assign(5);
    assert_eq!(v, Vec2::new(2, -1));
    let mut u = Vec4::new(1, 2, 3, 4);
    u.add_assign(Vec4::new(4, 3, 2, 1));
    assert_eq!(u, Vec4::splat(5));
    let mut t = Vec3::new(7, 8, 9);
    t.scale_assign(-1);
    assert_eq!(t, Vec3::new(-7, -8, -9));
}

#[test]
fn near_zero_only_at_the_origin() {
    assert!(Vec2::new(0, 0).near_zero());
    assert!(!Vec2::new(1, 0).near_zero());
    assert!(Vec3::new(0, 0, 0).near_zero());
    assert!(!Vec3::new(0, 0, -1).near_zero());
    assert!(Vec4::new(0, 0, 0, 0).near_zero());
    assert!(!Vec4::new(0, 1, 0, 0).near_zero());
}

#[test]
fn extend_and_truncate_move_between_arities() {
    let v2 = Vec2::new(1, 2);
    let v3 = v2.extend(3);
    assert_eq!(v3, Vec3::new(1, 2, 3));
    let v4 = v3.extend(4);
    assert_eq!(v4, Vec4::new(1, 2, 3, 4));
    assert_eq!(v4.truncate(), Vec3::new(1, 2, 3));
    assert_eq!(v3.truncate(), Vec2::new(1, 2));
}

#[test]
fn lerp_selects_rhs_at_zero_and_self_at_one() {
    let a: i64 = 7;
    let b: i64 = 3;
    assert_eq!(a.lerp(b, 0), 3);
    assert_eq!(a.lerp(b, 1), 7);
    let v = Vec3::new(1, 2, 3);
    let w = Vec3::new(40, 50, 60);
    assert_eq!(v.lerp(w, 0), w);
    assert_eq!(v.lerp(w, 1), v);
}

#[test]
fn lerp_combines_both_endpoints() {
    // (1 - 2) * 10 + 2 * 4 = -2
    let r: i64 = 4i64.lerp(10, 2);
    assert_eq!(r, -2);
}
