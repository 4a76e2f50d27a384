use phys2d::Vec2D;

#[test]
fn with_int() {
    let n: i32 = 4;
    let vect = Vec2D::new(n, n);
    assert!(vect.x == n && vect.y == n);
}

#[test]
fn with_float() {
    let n: f64 = 4.5;
    let vect = Vec2D::new(n, n);
    assert!(vect.x == n && vect.y == n);
}

#[test]
fn add_vecs() {
    let a = Vec2D::new(3i64, 3i64);
    let b = Vec2D::new(3i64, 3i64);
    assert_eq!(a.add(b), Vec2D::new(6i64, 6i64));
}

#[test]
fn add_commutes() {
    let a = Vec2D::new(2i64, -9i64);
    let b = Vec2D::new(31i64, 5i64);
    assert_eq!(a.add(b), b.add(a));
}

#[test]
fn sub_vecs() {
    let a = Vec2D::new(3i64, 3i64);
    let b = Vec2D::new(2i64, 2i64);
    assert_eq!(a.sub(b), Vec2D::new(1i64, 1i64));
}

#[test]
fn sub_self_is_zero() {
    let a = Vec2D::new(17i64, -8i64);
    assert_eq!(a.sub(a), Vec2D::new(0i64, 0i64));
}

#[test]
fn add_neg_is_zero() {
    let a = Vec2D::new(17i64, -8i64);
    assert_eq!(a.add(a.neg()), Vec2D::new(0i64, 0i64));
}

#[test]
fn neg_vec() {
    let a = Vec2D::new(1i32, -2i32);
    assert_eq!(a.neg(), Vec2D::new(-1i32, 2i32));
}

#[test]
fn mul_by_scalar() {
    let a = Vec2D::new(3i64, 3i64);
    assert_eq!(a.mul(2i64), Vec2D::new(6i64, 6i64));
}

#[test]
fn mul_distributes_over_add() {
    let a = Vec2D::new(4i64, -7i64);
    let b = Vec2D::new(9i64, 3i64);
    let s: i64 = 5;
    assert_eq!(a.add(b).mul(s), a.mul(s).add(b.mul(s)));
}

#[test]
fn div_truncates_for_ints() {
    let a = Vec2D::new(7i64, 7i64);
    assert_eq!(a.div(2i64), Vec2D::new(3i64, 3i64));
}

#[test]
fn div_truncates_toward_zero() {
    let a = Vec2D::new(-7i64, 7i64);
    assert_eq!(a.div(2i64), Vec2D::new(-3i64, 3i64));
    let b = Vec2D::new(-9i32, 9i32);
    assert_eq!(b.div(-2i32), Vec2D::new(4i32, -4i32));
}

#[test]
fn dot_product_sums_products() {
    let a = Vec2D::new(3i64, 3i64);
    let b = Vec2D::new(3i64, 3i64);
    assert_eq!(Vec2D::dot_product(a, b), 18i64);
}

#[test]
fn dot_product_symmetric() {
    let a = Vec2D::new(2i64, -9i64);
    let b = Vec2D::new(31i64, 5i64);
    assert_eq!(Vec2D::dot_product(a, b), Vec2D::dot_product(b, a));
}

#[test]
fn dot_product_distributes() {
    let a = Vec2D::new(2i64, -9i64);
    let b = Vec2D::new(31i64, 5i64);
    let c = Vec2D::new(-4i64, 6i64);
    assert_eq!(
        Vec2D::dot_product(a.add(b), c),
        Vec2D::dot_product(a, c) + Vec2D::dot_product(b, c)
    );
}

#[test]
fn add_assign_matches_add() {
    let a = Vec2D::new(3i64, 3i64);
    let b = Vec2D::new(2i64, 2i64);
    let mut t = a;
    t.add_assign(b);
    assert_eq!(t, a.add(b));
    assert_eq!(t, Vec2D::new(5i64, 5i64));
}

#[test]
fn sub_assign_matches_sub() {
    let a = Vec2D::new(3i64, 3i64);
    let b = Vec2D::new(2i64, 2i64);
    let mut t = a;
    t.sub_assign(b);
    assert_eq!(t, a.sub(b));
    assert_eq!(t, Vec2D::new(1i64, 1i64));
}

#[test]
fn mul_assign_matches_mul() {
    let a = Vec2D::new(3i64, 3i64);
    let mut t = a;
    t.mul_assign(2i64);
    assert_eq!(t, a.mul(2i64));
    assert_eq!(t, Vec2D::new(6i64, 6i64));
}

#[test]
fn div_assign_matches_div() {
    let a = Vec2D::new(7i64, 7i64);
    let mut t = a;
    t.div_assign(2i64);
    assert_eq!(t, a.div(2i64));
    assert_eq!(t, Vec2D::new(3i64, 3i64));
}

#[test]
fn unsigned_scalars() {
    let a = Vec2D::new(9u32, 6u32);
    let b = Vec2D::new(4u32, 5u32);
    assert_eq!(a.add(b), Vec2D::new(13u32, 11u32));
    assert_eq!(a.sub(b), Vec2D::new(5u32, 1u32));
    assert_eq!(a.mul(3u32), Vec2D::new(27u32, 18u32));
    assert_eq!(a.div(2u32), Vec2D::new(4u32, 3u32));
    assert_eq!(Vec2D::dot_product(a, b), 66u32);
}

#[test]
fn u64_scalars() {
    let a = Vec2D::new(1u64 << 40, 3u64);
    let b = Vec2D::new(1u64 << 40, 7u64);
    assert_eq!(a.add(b), Vec2D::new(1u64 << 41, 10u64));
    assert_eq!(a.div(1u64 << 20), Vec2D::new(1u64 << 20, 0u64));
}

#[test]
fn ordering_is_componentwise_partial() {
    let a = Vec2D::new(1i64, 2i64);
    let b = Vec2D::new(1i64, 3i64);
    assert!(a < b);
    let nan = Vec2D::new(f64::NAN, 0.0f64);
    assert!(nan != nan);
    assert!(nan.partial_cmp(&nan).is_none());
}
