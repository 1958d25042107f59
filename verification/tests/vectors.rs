use oxygine::math::{OutOfRange, Vec2, Vec3, Vec4};

fn close(a: f32, b: f32) -> bool {
    (a - b).abs() < 0.00001
}

#[test]
fn from_sets_the_components_in_order() {
    let a = Vec2::from(1, 2);
    assert_eq!((a.x, a.y), (1, 2));
    let b = Vec3::from(1.5f32, 2.5, 3.5);
    assert_eq!((b.x, b.y, b.z), (1.5, 2.5, 3.5));
    let c = Vec4::from('a', 'b', 'c', 'd');
    assert_eq!((c.x, c.y, c.z, c.w), ('a', 'b', 'c', 'd'));
}

#[test]
fn array_round_trip() {
    let a = Vec2::from(3, -4);
    assert_eq!(Vec2::from_array(a.to_array()), a);
    assert_eq!(Vec2::from_array([7, 8]).to_array(), [7, 8]);

    let b = Vec3::from(0.25f32, -1.0, 9.5);
    assert_eq!(Vec3::from_array(b.to_array()), b);
    assert_eq!(Vec3::from_array([7, 8, 9]).to_array(), [7, 8, 9]);

    let c = Vec4::from(1u8, 2, 3, 4);
    assert_eq!(Vec4::from_array(c.to_array()), c);
    assert_eq!(Vec4::from_array([7, 8, 9, 10]).to_array(), [7, 8, 9, 10]);
}

#[test]
fn set_overwrites_every_component() {
    let mut a = Vec2::from(1, 2);
    a.set(3, 4);
    assert_eq!(a, Vec2::from(3, 4));
    a.set_array([5, 6]);
    assert_eq!(a, Vec2::from(5, 6));

    let mut b = Vec3::from(1, 2, 3);
    b.set(4, 5, 6);
    assert_eq!(b, Vec3::from(4, 5, 6));
    b.set_array([7, 8, 9]);
    assert_eq!(b, Vec3::from(7, 8, 9));

    let mut c = Vec4::from(1, 2, 3, 4);
    c.set(5, 6, 7, 8);
    assert_eq!(c, Vec4::from(5, 6, 7, 8));
    c.set_array([9, 10, 11, 12]);
    assert_eq!(c, Vec4::from(9, 10, 11, 12));
}

#[test]
fn index_follows_the_order_of_the_components() {
    let a = Vec2::from(10, 20);
    assert_eq!((*a.index(0), *a.index(1)), (10, 20));
    let b = Vec3::from(10, 20, 30);
    assert_eq!((*b.index(0), *b.index(1), *b.index(2)), (10, 20, 30));
    let c = Vec4::from(10, 20, 30, 40);
    assert_eq!((*c.index(0), *c.index(1), *c.index(2), *c.index(3)), (10, 20, 30, 40));
}

#[test]
fn index_mut_writes_one_component() {
    let mut a = Vec2::from(10, 20);
    *a.index_mut(1) = 21;
    assert_eq!(a, Vec2::from(10, 21));
    let mut b = Vec3::from(10, 20, 30);
    *b.index_mut(2) += 1;
    assert_eq!(b, Vec3::from(10, 20, 31));
    let mut c = Vec4::from(10, 20, 30, 40);
    *c.index_mut(0) = 0;
    *c.index_mut(3) = 41;
    assert_eq!(c, Vec4::from(0, 20, 30, 41));
}

#[test]
fn out_of_range_index() {
    let a = Vec2::from(10, 20);
    assert_eq!(a.get(0), Ok(&10));
    assert_eq!(a.get(1), Ok(&20));
    assert_eq!(a.get(2), Err(OutOfRange { index: 2, len: 2 }));
    assert_eq!(a.get(5), Err(OutOfRange { index: 5, len: 2 }));
    assert_eq!(a.get(usize::MAX), Err(OutOfRange { index: usize::MAX, len: 2 }));

    let b = Vec3::from(10, 20, 30);
    assert_eq!(b.get(2), Ok(&30));
    assert_eq!(b.get(3), Err(OutOfRange { index: 3, len: 3 }));

    let c = Vec4::from(10, 20, 30, 40);
    assert_eq!(c.get(3), Ok(&40));
    assert_eq!(c.get(4), Err(OutOfRange { index: 4, len: 4 }));
}

#[test]
fn put_out_of_range_changes_nothing() {
    let mut a = Vec2::from(10, 20);
    assert_eq!(a.put(1, 21), Ok(()));
    assert_eq!(a, Vec2::from(10, 21));
    assert_eq!(a.put(5, 99), Err(OutOfRange { index: 5, len: 2 }));
    assert_eq!(a, Vec2::from(10, 21));

    let mut b = Vec3::from(10, 20, 30);
    assert_eq!(b.put(2, 31), Ok(()));
    assert_eq!(b.put(3, 99), Err(OutOfRange { index: 3, len: 3 }));
    assert_eq!(b, Vec3::from(10, 20, 31));

    let mut c = Vec4::from(10, 20, 30, 40);
    assert_eq!(c.put(3, 41), Ok(()));
    assert_eq!(c.put(4, 99), Err(OutOfRange { index: 4, len: 4 }));
    assert_eq!(c, Vec4::from(10, 20, 30, 41));
}

#[test]
fn arithmetic_is_component_by_component() {
    let a = Vec2::from(12, 20);
    let b = Vec2::from(3, 5);
    assert_eq!(a + b, Vec2::from(15, 25));
    assert_eq!(a - b, Vec2::from(9, 15));
    assert_eq!(a * b, Vec2::from(36, 100));
    assert_eq!(a / b, Vec2::from(4, 4));

    let c = Vec3::from(12.0f32, 20.0, -6.0);
    let d = Vec3::from(3.0f32, 5.0, 1.5);
    assert_eq!(c + d, Vec3::from(15.0, 25.0, -4.5));
    assert_eq!(c - d, Vec3::from(9.0, 15.0, -7.5));
    assert_eq!(c * d, Vec3::from(36.0, 100.0, -9.0));
    assert_eq!(c / d, Vec3::from(4.0, 4.0, -4.0));

    let e = Vec4::from(12u8, 20, 30, 40);
    let f = Vec4::from(3u8, 5, 6, 4);
    assert_eq!(e + f, Vec4::from(15, 25, 36, 44));
    assert_eq!(e - f, Vec4::from(9, 15, 24, 36));
    assert_eq!(e * f, Vec4::from(36, 100, 180, 160));
    assert_eq!(e / f, Vec4::from(4, 4, 5, 10));
}

#[test]
fn a_scalar_is_applied_to_every_component() {
    let a = Vec2::from(12, 20);
    assert_eq!(a + 4, Vec2::from(16, 24));
    assert_eq!(a - 4, Vec2::from(8, 16));
    assert_eq!(a * 4, Vec2::from(48, 80));
    assert_eq!(a / 4, Vec2::from(3, 5));

    let b = Vec3::from(12.0f32, 20.0, -6.0);
    assert_eq!(b + 0.5, Vec3::from(12.5, 20.5, -5.5));
    assert_eq!(b - 0.5, Vec3::from(11.5, 19.5, -6.5));
    assert_eq!(b * 0.5, Vec3::from(6.0, 10.0, -3.0));
    assert_eq!(b / 0.5, Vec3::from(24.0, 40.0, -12.0));

    let c = Vec4::from(12i64, 20, 30, 40);
    assert_eq!(c + 2, Vec4::from(14, 22, 32, 42));
    assert_eq!(c - 2, Vec4::from(10, 18, 28, 38));
    assert_eq!(c * 2, Vec4::from(24, 40, 60, 80));
    assert_eq!(c / 2, Vec4::from(6, 10, 15, 20));
}

#[test]
fn in_place_arithmetic_matches_the_operators() {
    let a = Vec2::from(12, 20);
    let b = Vec2::from(3, 5);
    let mut v = a;
    v.add_assign(b);
    assert_eq!(v, a + b);
    v = a;
    v.sub_assign(b);
    assert_eq!(v, a - b);
    v = a;
    v.mul_assign(b);
    assert_eq!(v, a * b);
    v = a;
    v.div_assign(b);
    assert_eq!(v, a / b);
    v = a;
    v.add_assign_scalar(4);
    assert_eq!(v, a + 4);
    v = a;
    v.sub_assign_scalar(4);
    assert_eq!(v, a - 4);
    v = a;
    v.mul_assign_scalar(4);
    assert_eq!(v, a * 4);
    v = a;
    v.div_assign_scalar(4);
    assert_eq!(v, a / 4);

    let c = Vec3::from(12.0f32, 20.0, -6.0);
    let d = Vec3::from(3.0f32, 5.0, 1.5);
    let mut w = c;
    w.add_assign(d);
    assert_eq!(w, c + d);
    w = c;
    w.sub_assign(d);
    assert_eq!(w, c - d);
    w = c;
    w.mul_assign(d);
    assert_eq!(w, c * d);
    w = c;
    w.div_assign(d);
    assert_eq!(w, c / d);
    w = c;
    w.add_assign_scalar(0.5);
    assert_eq!(w, c + 0.5);
    w = c;
    w.sub_assign_scalar(0.5);
    assert_eq!(w, c - 0.5);
    w = c;
    w.mul_assign_scalar(0.5);
    assert_eq!(w, c * 0.5);
    w = c;
    w.div_assign_scalar(0.5);
    assert_eq!(w, c / 0.5);

    let e = Vec4::from(12i64, 20, 30, 40);
    let f = Vec4::from(3i64, 5, 6, 4);
    let mut u = e;
    u.add_assign(f);
    assert_eq!(u, e + f);
    u = e;
    u.sub_assign(f);
    assert_eq!(u, e - f);
    u = e;
    u.mul_assign(f);
    assert_eq!(u, e * f);
    u = e;
    u.div_assign(f);
    assert_eq!(u, e / f);
    u = e;
    u.add_assign_scalar(2);
    assert_eq!(u, e + 2);
    u = e;
    u.sub_assign_scalar(2);
    assert_eq!(u, e - 2);
    u = e;
    u.mul_assign_scalar(2);
    assert_eq!(u, e * 2);
    u = e;
    u.div_assign_scalar(2);
    assert_eq!(u, e / 2);
}

#[test]
fn unit_constructors_of_two_components() {
    assert_eq!(Vec2::<f32>::zero(), Vec2::from(0.0, 0.0));
    assert_eq!(Vec2::<f32>::one(), Vec2::from(1.0, 1.0));
    assert_eq!(Vec2::<f32>::left(), Vec2::from(-1.0, 0.0));
    assert_eq!(Vec2::<f32>::right(), Vec2::from(1.0, 0.0));
    assert_eq!(Vec2::<f32>::down(), Vec2::from(0.0, -1.0));
    assert_eq!(Vec2::<f32>::up(), Vec2::from(0.0, 1.0));
    assert_eq!(Vec2::<i32>::left(), Vec2::from(-1, 0));
    assert_eq!(Vec2::<i64>::up(), Vec2::from(0, 1));
}

#[test]
fn unit_constructors_of_three_components() {
    assert_eq!(Vec3::<f32>::zero(), Vec3::from(0.0, 0.0, 0.0));
    assert_eq!(Vec3::<f32>::one(), Vec3::from(1.0, 1.0, 1.0));
    assert_eq!(Vec3::<f32>::left(), Vec3::from(-1.0, 0.0, 0.0));
    assert_eq!(Vec3::<f32>::right(), Vec3::from(1.0, 0.0, 0.0));
    assert_eq!(Vec3::<f32>::down(), Vec3::from(0.0, -1.0, 0.0));
    assert_eq!(Vec3::<f32>::up(), Vec3::from(0.0, 1.0, 0.0));
    assert_eq!(Vec3::<f32>::backward(), Vec3::from(0.0, 0.0, -1.0));
    assert_eq!(Vec3::<f32>::forward(), Vec3::from(0.0, 0.0, 1.0));
    assert_eq!(Vec3::<i32>::backward(), Vec3::from(0, 0, -1));
}

#[test]
fn unit_constructors_of_four_components() {
    assert_eq!(Vec4::<f32>::zero(), Vec4::from(0.0, 0.0, 0.0, 1.0));
    assert_eq!(Vec4::<f32>::one(), Vec4::from(1.0, 1.0, 1.0, 1.0));
    assert_eq!(Vec4::<f32>::left(), Vec4::from(-1.0, 0.0, 0.0, 1.0));
    assert_eq!(Vec4::<f32>::right(), Vec4::from(1.0, 0.0, 0.0, 1.0));
    assert_eq!(Vec4::<f32>::down(), Vec4::from(0.0, -1.0, 0.0, 1.0));
    assert_eq!(Vec4::<f32>::up(), Vec4::from(0.0, 1.0, 0.0, 1.0));
    assert_eq!(Vec4::<f32>::backward(), Vec4::from(0.0, 0.0, -1.0, 1.0));
    assert_eq!(Vec4::<f32>::forward(), Vec4::from(0.0, 0.0, 1.0, 1.0));
    assert_eq!(Vec4::<i64>::zero(), Vec4::from(0, 0, 0, 1));
}

#[test]
fn dot_is_the_sum_of_the_products() {
    assert_eq!(Vec2::from(1, 2).dot(&Vec2::from(3, 4)), 11);
    assert_eq!(Vec3::from(1, 2, 3).dot(&Vec3::from(4, -5, 6)), 12);
    assert_eq!(Vec4::from(1, 2, 3, 4).dot(&Vec4::from(5, 6, 7, 8)), 70);
    assert!(close(Vec3::from(0.5f32, 2.0, -1.0).dot(&Vec3::from(4.0, 0.25, 3.0)), -0.5));
}

#[test]
fn length_squared_is_the_dot_with_itself() {
    let a = Vec2::from(3, 4);
    assert_eq!(a.length_squared(), 25);
    assert_eq!(a.length_squared(), a.dot(&a));

    let b = Vec3::from(1.5f32, -2.0, 0.25);
    assert_eq!(b.length_squared(), b.dot(&b));
    assert!(close(b.length_squared(), 6.3125));
    assert!(close(b.length_squared().sqrt(), 2.512469));

    let c = Vec4::from(1, -2, 3, -4);
    assert_eq!(c.length_squared(), 30);
    assert_eq!(c.length_squared(), c.dot(&c));
}

#[test]
fn length_squared_is_zero_for_the_zero_vector_only() {
    assert_eq!(Vec2::from(0, 0).length_squared(), 0);
    assert_eq!(Vec3::from(0.0f32, 0.0, 0.0).length_squared(), 0.0);
    assert!(Vec3::from(0, 0, -1).length_squared() > 0);
    assert!(Vec4::from(0.0f32, 0.0, 0.0, 0.001).length_squared() > 0.0);
}

#[test]
fn distance_squared_is_the_squared_length_of_the_difference() {
    assert_eq!(Vec2::from(1, 1).distance_squared(&Vec2::from(4, 5)), 25);
    assert_eq!(Vec3::from(1, 2, 3).distance_squared(&Vec3::from(3, 5, 9)), 49);
    assert_eq!(Vec4::from(1, 2, 3, 4).distance_squared(&Vec4::from(2, 4, 6, 8)), 30);
    let a = Vec2::from(0.5f32, 0.5);
    let b = Vec2::from(3.5f32, 4.5);
    assert!(close(a.distance_squared(&b), 25.0));
    assert_eq!(a.distance_squared(&b), (a - b).length_squared());
}

#[test]
fn cross_of_the_axes() {
    let x = Vec3::from(1, 0, 0);
    let y = Vec3::from(0, 1, 0);
    let z = Vec3::from(0, 0, 1);
    assert_eq!(x.cross(y), z);
    assert_eq!(y.cross(z), x);
    assert_eq!(z.cross(x), y);
    assert_eq!(Vec3::from(1, 2, 3).cross(Vec3::from(4, 5, 6)), Vec3::from(-3, 6, -3));
}

#[test]
fn cross_is_anticommutative() {
    let a = Vec3::from(2, -7, 5);
    let b = Vec3::from(-3, 4, 11);
    let ab = a.cross(b);
    let ba = b.cross(a);
    assert_eq!(ab, Vec3::from(-ba.x, -ba.y, -ba.z));

    let c = Vec3::from(0.5f32, -1.25, 3.0);
    let d = Vec3::from(2.0f32, 7.5, -0.75);
    let cd = c.cross(d);
    let dc = d.cross(c);
    assert!(close(cd.x, -dc.x) && close(cd.y, -dc.y) && close(cd.z, -dc.z));
}

#[test]
fn cross_of_parallel_vectors_is_zero() {
    let a = Vec3::from(2, -7, 5);
    assert_eq!(a.cross(a), Vec3::from(0, 0, 0));
    assert_eq!(a.cross(a * 3), Vec3::from(0, 0, 0));
    assert_eq!(a.cross(Vec3::from(0, 0, 0)), Vec3::from(0, 0, 0));
    assert_ne!(a.cross(Vec3::from(2, -7, 6)), Vec3::from(0, 0, 0));
}

#[test]
fn cross_of_three_axes_in_four_dimensions() {
    let x = Vec4::from(1, 0, 0, 0);
    let y = Vec4::from(0, 1, 0, 0);
    let z = Vec4::from(0, 0, 1, 0);
    let w = Vec4::from(0, 0, 0, 1);
    assert_eq!(x.cross(y, z), Vec4::from(0, 0, 0, -1));
    assert_eq!(y.cross(z, w), Vec4::from(1, 0, 0, 0));
    assert_eq!(x.cross(z, w), Vec4::from(0, -1, 0, 0));
    assert_eq!(x.cross(y, w), Vec4::from(0, 0, 1, 0));
}

#[test]
fn cross_in_four_dimensions_is_at_right_angles() {
    let a = Vec4::from(2, -7, 5, 1);
    let b = Vec4::from(-3, 4, 11, 6);
    let c = Vec4::from(8, 0, -2, 9);
    let n = a.cross(b, c);
    assert_eq!(n, Vec4::from(-965, -515, -485, 750));
    assert_eq!(a.dot(&n), 0);
    assert_eq!(b.dot(&n), 0);
    assert_eq!(c.dot(&n), 0);
}

#[test]
fn dividing_the_zero_vector_by_its_length_is_not_a_number() {
    let zero = Vec3::from(0.0f32, 0.0, 0.0);
    let len = zero.length_squared().sqrt();
    assert_eq!(len, 0.0);
    let n = zero / len;
    assert!(n.x.is_nan() && n.y.is_nan() && n.z.is_nan());
    let mut m = Vec2::from(0.0f32, 0.0);
    m.div_assign_scalar(0.0);
    assert!(m.x.is_nan() && m.y.is_nan());
}

#[test]
fn dividing_by_the_length_gives_length_one() {
    let v = Vec3::from(3.0f32, 0.0, -4.0);
    let n = v / v.length_squared().sqrt();
    assert!(close(n.x, 0.6) && close(n.y, 0.0) && close(n.z, -0.8));
    assert!(close(n.length_squared(), 1.0));
    let w = Vec4::from(2.0f32, 2.0, 2.0, 2.0);
    let u = w / w.length_squared().sqrt();
    assert_eq!(u, Vec4::from(0.5, 0.5, 0.5, 0.5));
}

#[test]
fn laws_hold_for_every_integer_width() {
    assert_eq!(Vec3::from(1i16, 2, 3).cross(Vec3::from(4, 5, 6)), Vec3::from(-3, 6, -3));
    assert_eq!(Vec3::from(4i16, 5, 6).cross(Vec3::from(1, 2, 3)), Vec3::from(3, -6, 3));
    assert_eq!(Vec3::from(1i32, 2, 3).length_squared(), 14);
    assert_eq!(Vec2::from(-3i128, 4).length_squared(), 25);
    assert_eq!(Vec4::from(1isize, -1, 1, -1).length_squared(), 4);
    assert_eq!(Vec4::from(0i16, 0, 0, 0).length_squared(), 0);
}
