use oxygine::math::accessors::{accessor, accessor_count, accessors, all_accessors};
use oxygine::math::swizzle::{accessor_name, check_accessor, parse_accessor};
use oxygine::math::{Axis, SwizzleError, Swizzled, Vec2, Vec3, Vec4};

fn components<T: Copy>(s: Swizzled<T>) -> Vec<T> {
    match s {
        Swizzled::One(c) => vec![c],
        Swizzled::Two(v) => v.to_array().to_vec(),
        Swizzled::Three(v) => v.to_array().to_vec(),
        Swizzled::Four(v) => v.to_array().to_vec(),
    }
}

fn check_every_accessor(arity: usize, source: &[f32], swizzle: &dyn Fn(&[Axis]) -> Swizzled<f32>) {
    let list = all_accessors(arity);
    for axes in list.iter() {
        let got = components(swizzle(axes.as_slice()));
        assert_eq!(got.len(), axes.len());
        for i in 0..axes.len() {
            assert_eq!(got[i], source[axes[i].index()]);
        }
    }
}

#[test]
fn axes_are_numbered_in_component_order() {
    assert_eq!(Axis::X.index(), 0);
    assert_eq!(Axis::Y.index(), 1);
    assert_eq!(Axis::Z.index(), 2);
    assert_eq!(Axis::W.index(), 3);
    assert_eq!(Axis::from_index(0), Some(Axis::X));
    assert_eq!(Axis::from_index(1), Some(Axis::Y));
    assert_eq!(Axis::from_index(2), Some(Axis::Z));
    assert_eq!(Axis::from_index(3), Some(Axis::W));
    assert_eq!(Axis::from_index(4), None);
    assert_eq!(Axis::from_index(usize::MAX), None);
}

#[test]
fn axes_are_written_with_their_letters() {
    assert_eq!(Axis::X.letter(), 'x');
    assert_eq!(Axis::Y.letter(), 'y');
    assert_eq!(Axis::Z.letter(), 'z');
    assert_eq!(Axis::W.letter(), 'w');
    assert_eq!(Axis::from_letter('x'), Some(Axis::X));
    assert_eq!(Axis::from_letter('y'), Some(Axis::Y));
    assert_eq!(Axis::from_letter('z'), Some(Axis::Z));
    assert_eq!(Axis::from_letter('w'), Some(Axis::W));
    assert_eq!(Axis::from_letter('X'), None);
    assert_eq!(Axis::from_letter('v'), None);
    assert_eq!(Axis::from_letter(' '), None);
}

#[test]
fn single_letter_accessors() {
    let a = Vec2::from(1, 2);
    assert_eq!((a.x(), a.y()), (1, 2));
    let b = Vec3::from(1, 2, 3);
    assert_eq!((b.x(), b.y(), b.z()), (1, 2, 3));
    let c = Vec4::from(1, 2, 3, 4);
    assert_eq!((c.x(), c.y(), c.z(), c.w()), (1, 2, 3, 4));
    assert_eq!(c.component(Axis::W), 4);
    assert_eq!(b.component(Axis::Z), 3);
    assert_eq!(a.component(Axis::Y), 2);
}

#[test]
fn swizzles_select_in_the_order_of_the_accessor() {
    let a = Vec2::from(1, 2);
    assert_eq!(a.swizzle2(Axis::Y, Axis::X), Vec2::from(2, 1));
    assert_eq!(a.swizzle2(Axis::Y, Axis::Y), Vec2::from(2, 2));

    let b = Vec3::from(1, 2, 3);
    assert_eq!(b.swizzle2(Axis::Z, Axis::X), Vec2::from(3, 1));
    assert_eq!(b.swizzle3(Axis::Z, Axis::Y, Axis::X), Vec3::from(3, 2, 1));
    assert_eq!(b.swizzle3(Axis::X, Axis::X, Axis::Z), Vec3::from(1, 1, 3));

    let c = Vec4::from(1, 2, 3, 4);
    assert_eq!(c.swizzle2(Axis::W, Axis::Y), Vec2::from(4, 2));
    assert_eq!(c.swizzle3(Axis::W, Axis::W, Axis::X), Vec3::from(4, 4, 1));
    assert_eq!(c.swizzle4(Axis::W, Axis::Z, Axis::Y, Axis::X), Vec4::from(4, 3, 2, 1));
    assert_eq!(c.swizzle4(Axis::Y, Axis::Y, Axis::Y, Axis::Y), Vec4::from(2, 2, 2, 2));
}

#[test]
fn self_swizzle_is_the_identity() {
    let a = Vec2::from(0.5f32, -2.0);
    assert_eq!(a.swizzle2(Axis::X, Axis::Y), a);
    assert_eq!(a.swizzle_named("xy"), Ok(Swizzled::Two(a)));

    let b = Vec3::from(0.5f32, -2.0, 8.25);
    assert_eq!(b.swizzle3(Axis::X, Axis::Y, Axis::Z), b);
    assert_eq!(b.swizzle_named("xyz"), Ok(Swizzled::Three(b)));

    let c = Vec4::from(0.5f32, -2.0, 8.25, 100.0);
    assert_eq!(c.swizzle4(Axis::X, Axis::Y, Axis::Z, Axis::W), c);
    assert_eq!(c.swizzle_named("xyzw"), Ok(Swizzled::Four(c)));
}

#[test]
fn swizzles_can_be_chained() {
    let c = Vec4::from(1, 2, 3, 4);
    let twice = c
        .swizzle4(Axis::W, Axis::Z, Axis::Y, Axis::X)
        .swizzle4(Axis::W, Axis::Z, Axis::Y, Axis::X);
    assert_eq!(twice, c);
    assert_eq!(c.swizzle3(Axis::Y, Axis::Z, Axis::W).swizzle2(Axis::Z, Axis::X), Vec2::from(4, 2));
}

#[test]
fn swizzle_by_axes_picks_the_result_type_by_length() {
    let c = Vec4::from(10, 20, 30, 40);
    assert_eq!(c.swizzle(&[Axis::Z]), Ok(Swizzled::One(30)));
    assert_eq!(c.swizzle(&[Axis::Z, Axis::X]), Ok(Swizzled::Two(Vec2::from(30, 10))));
    assert_eq!(
        c.swizzle(&[Axis::W, Axis::W, Axis::Y]),
        Ok(Swizzled::Three(Vec3::from(40, 40, 20)))
    );
    assert_eq!(
        c.swizzle(&[Axis::Y, Axis::X, Axis::W, Axis::Z]),
        Ok(Swizzled::Four(Vec4::from(20, 10, 40, 30)))
    );

    let b = Vec3::from(10, 20, 30);
    assert_eq!(b.swizzle(&[Axis::Y]), Ok(Swizzled::One(20)));
    assert_eq!(b.swizzle(&[Axis::Y, Axis::Z]), Ok(Swizzled::Two(Vec2::from(20, 30))));
    assert_eq!(
        b.swizzle(&[Axis::Z, Axis::Z, Axis::X]),
        Ok(Swizzled::Three(Vec3::from(30, 30, 10)))
    );

    let a = Vec2::from(10, 20);
    assert_eq!(a.swizzle(&[Axis::X]), Ok(Swizzled::One(10)));
    assert_eq!(a.swizzle(&[Axis::Y, Axis::X]), Ok(Swizzled::Two(Vec2::from(20, 10))));
}

#[test]
fn swizzle_by_name() {
    let c = Vec4::from(10, 20, 30, 40);
    assert_eq!(c.swizzle_named("w"), Ok(Swizzled::One(40)));
    assert_eq!(c.swizzle_named("zx"), Ok(Swizzled::Two(Vec2::from(30, 10))));
    assert_eq!(c.swizzle_named("wwy"), Ok(Swizzled::Three(Vec3::from(40, 40, 20))));
    assert_eq!(c.swizzle_named("yxwz"), Ok(Swizzled::Four(Vec4::from(20, 10, 40, 30))));
    let b = Vec3::from(10, 20, 30);
    assert_eq!(b.swizzle_named("zyx"), Ok(Swizzled::Three(Vec3::from(30, 20, 10))));
    let a = Vec2::from(10, 20);
    assert_eq!(a.swizzle_named("yy"), Ok(Swizzled::Two(Vec2::from(20, 20))));
}

#[test]
fn an_accessor_of_the_wrong_length_is_refused() {
    let a = Vec2::from(10, 20);
    let b = Vec3::from(10, 20, 30);
    let c = Vec4::from(10, 20, 30, 40);
    assert_eq!(a.swizzle(&[]), Err(SwizzleError::Length));
    assert_eq!(b.swizzle(&[]), Err(SwizzleError::Length));
    assert_eq!(c.swizzle(&[]), Err(SwizzleError::Length));
    assert_eq!(a.swizzle(&[Axis::X, Axis::X, Axis::X]), Err(SwizzleError::Length));
    assert_eq!(b.swizzle(&[Axis::X, Axis::X, Axis::X, Axis::X]), Err(SwizzleError::Length));
    assert_eq!(c.swizzle(&[Axis::X, Axis::X, Axis::X, Axis::X, Axis::X]), Err(SwizzleError::Length));
    assert_eq!(a.swizzle_named(""), Err(SwizzleError::Length));
    assert_eq!(a.swizzle_named("xyx"), Err(SwizzleError::Length));
    assert_eq!(c.swizzle_named("xyzwx"), Err(SwizzleError::Length));
    // too long is reported before an axis that the vector lacks
    assert_eq!(a.swizzle_named("xyz"), Err(SwizzleError::Length));
}

#[test]
fn an_axis_that_the_vector_lacks_is_refused() {
    let a = Vec2::from(10, 20);
    let b = Vec3::from(10, 20, 30);
    assert_eq!(a.swizzle(&[Axis::Z]), Err(SwizzleError::OutOfRange));
    assert_eq!(a.swizzle(&[Axis::X, Axis::W]), Err(SwizzleError::OutOfRange));
    assert_eq!(b.swizzle(&[Axis::X, Axis::Y, Axis::W]), Err(SwizzleError::OutOfRange));
    assert_eq!(a.swizzle_named("xz"), Err(SwizzleError::OutOfRange));
    assert_eq!(b.swizzle_named("w"), Err(SwizzleError::OutOfRange));
    assert_eq!(check_accessor(3, &[Axis::X, Axis::W]), Err(SwizzleError::OutOfRange));
    assert_eq!(check_accessor(4, &[Axis::X, Axis::W]), Ok(()));
    assert_eq!(check_accessor(1, &[Axis::X, Axis::X]), Err(SwizzleError::Length));
}

#[test]
fn a_name_with_a_foreign_letter_is_refused() {
    let c = Vec4::from(10, 20, 30, 40);
    assert_eq!(c.swizzle_named("xq"), Err(SwizzleError::Letter));
    assert_eq!(c.swizzle_named("XY"), Err(SwizzleError::Letter));
    assert_eq!(c.swizzle_named("x y"), Err(SwizzleError::Letter));
    // a foreign letter is reported before a wrong length
    assert_eq!(c.swizzle_named("xyzw!"), Err(SwizzleError::Letter));
    assert_eq!(parse_accessor("rgba"), Err(SwizzleError::Letter));
}

#[test]
fn names_and_axes_round_trip() {
    assert_eq!(parse_accessor("xyzw"), Ok(vec![Axis::X, Axis::Y, Axis::Z, Axis::W]));
    assert_eq!(parse_accessor("wwx"), Ok(vec![Axis::W, Axis::W, Axis::X]));
    assert_eq!(parse_accessor(""), Ok(vec![]));
    assert_eq!(accessor_name(&[Axis::Z, Axis::Y, Axis::X]), "zyx");
    assert_eq!(accessor_name(&[]), "");
    for axes in all_accessors(4).iter() {
        assert_eq!(parse_accessor(&accessor_name(axes)), Ok(axes.clone()));
    }
}

#[test]
fn there_are_arity_to_the_length_accessors() {
    assert_eq!(accessor_count(2, 1), 2);
    assert_eq!(accessor_count(2, 2), 4);
    assert_eq!(accessor_count(3, 1), 3);
    assert_eq!(accessor_count(3, 2), 9);
    assert_eq!(accessor_count(3, 3), 27);
    assert_eq!(accessor_count(4, 1), 4);
    assert_eq!(accessor_count(4, 2), 16);
    assert_eq!(accessor_count(4, 3), 64);
    assert_eq!(accessor_count(4, 4), 256);
    assert_eq!(accessor_count(4, 0), 1);
    assert_eq!(all_accessors(2).len(), 6);
    assert_eq!(all_accessors(3).len(), 39);
    assert_eq!(all_accessors(4).len(), 340);
}

#[test]
fn accessors_are_listed_with_the_first_axis_outermost() {
    let names: Vec<String> = accessors(2, 2).iter().map(|a| accessor_name(a)).collect();
    assert_eq!(names, ["xx", "xy", "yx", "yy"]);
    let names: Vec<String> = accessors(3, 2).iter().map(|a| accessor_name(a)).collect();
    assert_eq!(names, ["xx", "xy", "xz", "yx", "yy", "yz", "zx", "zy", "zz"]);
    let names: Vec<String> = all_accessors(2).iter().map(|a| accessor_name(a)).collect();
    assert_eq!(names, ["x", "y", "xx", "xy", "yx", "yy"]);
    assert_eq!(accessor(4, 4, 0), [Axis::X, Axis::X, Axis::X, Axis::X]);
    assert_eq!(accessor(4, 4, 27), [Axis::X, Axis::Y, Axis::Z, Axis::W]);
    assert_eq!(accessor(4, 4, 255), [Axis::W, Axis::W, Axis::W, Axis::W]);
    assert_eq!(accessor(3, 3, 5), [Axis::X, Axis::Y, Axis::Z]);
}

#[test]
fn no_accessor_is_listed_twice_and_none_is_left_out() {
    for arity in 2..5usize {
        let names: Vec<String> = all_accessors(arity).iter().map(|a| accessor_name(a)).collect();
        let mut sorted = names.clone();
        sorted.sort();
        sorted.dedup();
        assert_eq!(sorted.len(), names.len());
        let letters = &["x", "y", "z", "w"][..arity];
        let mut expected: Vec<String> = Vec::new();
        let mut layer: Vec<String> = vec![String::new()];
        for _ in 0..arity {
            let mut next = Vec::new();
            for head in layer.iter() {
                for l in letters.iter() {
                    next.push(format!("{}{}", head, l));
                }
            }
            expected.extend(next.iter().cloned());
            layer = next;
        }
        assert_eq!(names, expected);
    }
}

#[test]
fn every_accessor_selects_the_components_it_names() {
    let a = Vec2::from(0.125f32, -7.5);
    check_every_accessor(2, &a.to_array(), &|axes| a.swizzle(axes).unwrap());
    let b = Vec3::from(0.125f32, -7.5, 31.0);
    check_every_accessor(3, &b.to_array(), &|axes| b.swizzle(axes).unwrap());
    let c = Vec4::from(0.125f32, -7.5, 31.0, 1024.5);
    check_every_accessor(4, &c.to_array(), &|axes| c.swizzle(axes).unwrap());
}

#[test]
fn every_accessor_by_name_matches_the_accessor_by_axes() {
    let c = Vec4::from(3, 5, 7, 11);
    for axes in all_accessors(4).iter() {
        assert_eq!(c.swizzle_named(&accessor_name(axes)), c.swizzle(axes));
    }
    let b = Vec3::from(3, 5, 7);
    for axes in all_accessors(3).iter() {
        assert_eq!(b.swizzle_named(&accessor_name(axes)), b.swizzle(axes));
    }
    let a = Vec2::from(3, 5);
    for axes in all_accessors(2).iter() {
        assert_eq!(a.swizzle_named(&accessor_name(axes)), a.swizzle(axes));
    }
}
