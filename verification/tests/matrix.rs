use oxygine::math::{Mat4, Vec3};

fn close(a: f32, b: f32) -> bool {
    (a - b).abs() < 0.00001
}

fn quarter_turn() -> (f32, f32) {
    let angle = 90f32.to_radians();
    (angle.cos(), angle.sin())
}

const COUNTING: [i64; 16] = [1, 2, 3, 4, 5, 6, 7, 8, 9, 10, 11, 12, 13, 14, 15, 16];

#[test]
fn matrix_multiply() {
    let a_data = [
        1.0, 5.0, 9.0, 13.0,
        2.0, 6.0, 10.0, 14.0,
        3.0, 7.0, 11.0, 15.0,
        4.0, 8.0, 12.0, 16.0f32,
    ];
    let b_data = [
        2.0, 2.0, 2.0, 2.0,
        2.0, 2.0, 2.0, 2.0,
        2.0, 2.0, 2.0, 2.0,
        2.0, 2.0, 2.0, 2.0f32,
    ];

    let a = Mat4::from_array(a_data);
    let b = Mat4::from_array(b_data);

    let r = a * b;

    let arr = r.as_array();

    println!("Layout:");
    for i in 0..4 {
        let mut line = String::from("| ");
        for j in 0..4 {
            line.push_str(&format!("{} ", j * 4 + i));
        }
        println!("{}|", line);
    }

    println!("Result matrix:");
    for i in 0..4 {
        let mut line = String::from("| ");
        for j in 0..4 {
            line.push_str(&format!("{} ", arr[j * 4 + i]));
        }
        println!("{}|", line);
    }

    assert!(arr[0] == arr[1] && arr[1] == arr[2] && arr[2] == arr[3]);
    assert!(arr[4] == arr[5] && arr[5] == arr[6] && arr[6] == arr[7]);
    assert!(arr[8] == arr[9] && arr[9] == arr[10] && arr[10] == arr[11]);
    assert!(arr[12] == arr[13] && arr[13] == arr[14] && arr[14] == arr[15]);

    assert!((arr[3] - 56.0).abs() < 0.00001);
    assert!((arr[5] - 64.0).abs() < 0.00001);
    assert!((arr[10] - 72.0).abs() < 0.00001);
    assert!((arr[12] - 80.0).abs() < 0.00001);
}

#[test]
fn vec3_multiply() {
    let mut m = Mat4::new();

    let (c, s) = quarter_turn();
    m.rotate_y(c, s);

    let r = m * Vec3::from(32.0, 0.0, 42.0);

    println!("r = <{}, {}, {}>", r.x, r.y, r.z);

    assert!((r.x - -42.0).abs() < 0.00001);
    assert!((r.z - 32.0).abs() < 0.00001);
}

#[test]
fn translate_rotate_z() {
    let mut m = Mat4::new();

    let (c, s) = quarter_turn();
    m.rotate_z(c, s);

    m.translate(Vec3::from(5.0, 0.0, 0.0));

    let arr = m.as_array();

    println!("result pos: <{}, {}, {}>", arr[12], arr[13], arr[14]);

    assert!((arr[12] - 0.0).abs() < 0.00001);
    assert!((arr[13] - 5.0).abs() < 0.00001);
}

#[test]
fn translate_rotate_x() {
    let mut m = Mat4::new();

    let (c, s) = quarter_turn();
    m.rotate_x(c, s);

    m.translate(Vec3::from(0.0, 5.0, 0.0));

    let arr = m.as_array();

    println!("result pos: <{}, {}, {}>", arr[12], arr[13], arr[14]);

    assert!((arr[12] - 0.0).abs() < 0.00001);
    assert!((arr[14] - 5.0).abs() < 0.00001);
}

#[test]
fn translate_rotate_y() {
    let mut m = Mat4::new();

    let (c, s) = quarter_turn();
    m.rotate_y(c, s);

    m.translate(Vec3::from(0.0, 0.0, 5.0));

    let arr = m.as_array();

    println!("result pos: <{}, {}, {}>", arr[12], arr[13], arr[14]);

    assert!((arr[12] - -5.0).abs() < 0.00001);
    assert!((arr[13] - 0.0).abs() < 0.00001);
}

#[test]
fn identity_is_one_on_the_diagonal() {
    let m: Mat4<i32> = Mat4::identity();
    assert_eq!(m.as_array(), [1, 0, 0, 0, 0, 1, 0, 0, 0, 0, 1, 0, 0, 0, 0, 1]);
    let n: Mat4<f32> = Mat4::new();
    assert_eq!(
        n.as_array(),
        [1.0, 0.0, 0.0, 0.0, 0.0, 1.0, 0.0, 0.0, 0.0, 0.0, 1.0, 0.0, 0.0, 0.0, 0.0, 1.0]
    );
}

#[test]
fn array_round_trip_of_a_matrix() {
    let m = Mat4::from_array(COUNTING);
    assert_eq!(m.as_array(), COUNTING);
}

#[test]
fn product_of_whole_numbers_is_exact() {
    let a: Mat4<i64> = Mat4::from_array([1, 5, 9, 13, 2, 6, 10, 14, 3, 7, 11, 15, 4, 8, 12, 16]);
    let b: Mat4<i64> = Mat4::from_array([2; 16]);
    assert_eq!(
        (a * b).as_array(),
        [56, 56, 56, 56, 64, 64, 64, 64, 72, 72, 72, 72, 80, 80, 80, 80]
    );
    assert_eq!(
        (b * a).as_array(),
        [20, 52, 84, 116, 20, 52, 84, 116, 20, 52, 84, 116, 20, 52, 84, 116]
    );
}

#[test]
fn product_is_not_commutative() {
    let mut turn: Mat4<i64> = Mat4::identity();
    turn.rotate_z(0, 1);
    let mut shift: Mat4<i64> = Mat4::identity();
    shift.translate(Vec3::from(5, 0, 0));
    assert_ne!((turn * shift).as_array(), (shift * turn).as_array());
    assert_eq!((turn * shift).as_array()[12..15], [5, 0, 0]);
    assert_eq!((shift * turn).as_array()[12..15], [0, 5, 0]);
}

#[test]
fn identity_law() {
    let m = Mat4::from_array(COUNTING);
    let id: Mat4<i64> = Mat4::identity();
    assert_eq!((id * m).as_array(), COUNTING);
    assert_eq!((m * id).as_array(), COUNTING);

    let data = [
        0.5, -1.25, 3.0, 7.5, 2.0, 9.0, -4.0, 0.125, 11.0, 6.5, -8.0, 1.0, 3.25, 0.0, 5.0, -2.5f32,
    ];
    let f = Mat4::from_array(data);
    let one: Mat4<f32> = Mat4::identity();
    let left = (one * f).as_array();
    let right = (f * one).as_array();
    for i in 0..16 {
        assert!(close(left[i], data[i]));
        assert!(close(right[i], data[i]));
    }
}

#[test]
fn matrix_times_vector_ignores_translation() {
    let mut m: Mat4<i64> = Mat4::identity();
    m.set_translation(Vec3::from(100, 200, 300));
    assert_eq!(m * Vec3::from(1, 2, 3), Vec3::from(1, 2, 3));

    let n = Mat4::from_array(COUNTING);
    assert_eq!(n * Vec3::from(1, 10, 100), Vec3::from(1 + 50 + 900, 2 + 60 + 1000, 3 + 70 + 1100));
}

#[test]
fn translate_adds_the_transformed_vector() {
    let mut m = Mat4::from_array(COUNTING);
    m.translate(Vec3::from(1, 10, 100));
    let mut expected = COUNTING;
    expected[12] = 13 + 951;
    expected[13] = 14 + 1062;
    expected[14] = 15 + 1173;
    assert_eq!(m.as_array(), expected);
}

#[test]
fn rotations_turn_two_columns() {
    let mut x = Mat4::from_array(COUNTING);
    x.rotate_x(2, 3);
    assert_eq!(
        x.as_array(),
        [1, 2, 3, 4, 37, 42, 47, 8, 3, 2, 1, 12, 13, 14, 15, 16]
    );

    let mut y = Mat4::from_array(COUNTING);
    y.rotate_y(2, 3);
    assert_eq!(
        y.as_array(),
        [29, 34, 39, 4, 5, 6, 7, 8, 15, 14, 13, 12, 13, 14, 15, 16]
    );

    let mut z = Mat4::from_array(COUNTING);
    z.rotate_z(2, 3);
    assert_eq!(
        z.as_array(),
        [17, 22, 27, 4, 7, 6, 5, 8, 9, 10, 11, 12, 13, 14, 15, 16]
    );
}

#[test]
fn rotate_goes_about_z_then_x_then_y() {
    let cos = Vec3::from(2, 3, 5);
    let sin = Vec3::from(7, 11, 13);
    let mut all = Mat4::from_array(COUNTING);
    all.rotate(cos, sin);

    let mut steps = Mat4::from_array(COUNTING);
    steps.rotate_z(5, 13);
    steps.rotate_x(2, 7);
    steps.rotate_y(3, 11);
    assert_eq!(all.as_array(), steps.as_array());

    let mut other = Mat4::from_array(COUNTING);
    other.rotate_x(2, 7);
    other.rotate_y(3, 11);
    other.rotate_z(5, 13);
    assert_ne!(all.as_array(), other.as_array());
}

#[test]
fn scale_multiplies_the_columns() {
    let mut m = Mat4::from_array(COUNTING);
    m.scale(Vec3::from(2, 3, 5));
    assert_eq!(
        m.as_array(),
        [2, 4, 6, 4, 15, 18, 21, 8, 45, 50, 55, 12, 13, 14, 15, 16]
    );
}

#[test]
fn scale_after_translate_leaves_the_translation() {
    let mut m: Mat4<i64> = Mat4::identity();
    m.translate(Vec3::from(1, 2, 3));
    m.scale(Vec3::from(2, 2, 2));
    assert_eq!(m.as_array(), [2, 0, 0, 0, 0, 2, 0, 0, 0, 0, 2, 0, 1, 2, 3, 1]);
}

#[test]
fn setters_overwrite_their_own_elements_only() {
    let mut t = Mat4::from_array(COUNTING);
    t.set_translation(Vec3::from(-1, -2, -3));
    assert_eq!(
        t.as_array(),
        [1, 2, 3, 4, 5, 6, 7, 8, 9, 10, 11, 12, -1, -2, -3, 16]
    );

    let mut s = Mat4::from_array(COUNTING);
    s.set_scaling(Vec3::from(-1, -2, -3));
    assert_eq!(
        s.as_array(),
        [-1, 2, 3, 4, 5, -2, 7, 8, 9, 10, -3, 12, 13, 14, 15, 16]
    );
}

#[test]
fn set_rotation_writes_the_rotation_block() {
    let mut m = Mat4::from_array(COUNTING);
    let cos = Vec3::from(2, 3, 5);
    let sin = Vec3::from(7, 11, 13);
    m.set_rotation(cos, sin);
    // cz*cy + sz*sx*sy, sz*cy + (cz*-sx)*sy, cx*sy
    // -sz*cx, cz*cx, sx
    // cz*-sy + sz*sx*cy, sz*-sy + (cz*-sx)*cy, cx*cy
    assert_eq!(
        m.as_array(),
        [
            15 + 1001,
            39 - 385,
            22,
            4,
            -26,
            10,
            7,
            8,
            -55 + 273,
            -143 - 105,
            6,
            12,
            13,
            14,
            15,
            16
        ]
    );
}

#[test]
fn set_rotation_about_one_axis_matches_rotate() {
    let (c, s) = quarter_turn();
    let mut set: Mat4<f32> = Mat4::identity();
    set.set_rotation(Vec3::from(1.0, 1.0, c), Vec3::from(0.0, 0.0, s));
    let mut turned: Mat4<f32> = Mat4::identity();
    turned.rotate_z(c, s);
    let a = set.as_array();
    let b = turned.as_array();
    for i in 0..16 {
        assert!(close(a[i], b[i]));
    }
}

#[test]
fn set_orthographic_writes_six_terms() {
    let mut m = Mat4::from_array(COUNTING);
    m.set_orthographic(-1, 1, -2, 0, 1, 2);
    // 2/(r-l), 2/(t-b), 1/(f-n); (l+r)/(l-r), (t+b)/(b-t), n/(n-f)
    assert_eq!(
        m.as_array(),
        [1, 2, 3, 4, 5, 1, 7, 8, 9, 10, 1, 12, 0, 1, -1, 16]
    );

    let mut f: Mat4<f32> = Mat4::identity();
    f.set_orthographic(0.0, 800.0, 0.0, 600.0, 0.1, 100.0);
    let a = f.as_array();
    assert!(close(a[0], 2.0 / 800.0));
    assert!(close(a[5], 2.0 / 600.0));
    assert!(close(a[10], 1.0 / 99.9));
    assert!(close(a[12], -1.0));
    assert!(close(a[13], -1.0));
    assert!(close(a[14], 0.1 / (0.1 - 100.0)));
    assert_eq!(a[15], 1.0);
}

#[test]
fn set_orthographic_of_an_empty_box_is_not_finite() {
    let mut f: Mat4<f32> = Mat4::identity();
    f.set_orthographic(1.0, 1.0, 0.0, 600.0, 0.1, 100.0);
    let a = f.as_array();
    assert!(a[0].is_infinite());
    assert!(!a[12].is_finite());
}

#[test]
fn set_perspective_writes_four_terms() {
    let mut m = Mat4::from_array(COUNTING);
    m.set_perspective(1, 1, 1, 3);
    // (1/t)/aspect, 1/t, f/(f-n), (-n*f)/(f-n)
    assert_eq!(
        m.as_array(),
        [1, 2, 3, 4, 5, 1, 7, 8, 9, 10, 1, 12, 13, 14, -1, 16]
    );

    let mut f: Mat4<f32> = Mat4::identity();
    let tan = (90f32 * 0.5).to_radians().tan();
    f.set_perspective(tan, 2.0, 1.0, 11.0);
    let a = f.as_array();
    assert!(close(a[0], 0.5));
    assert!(close(a[5], 1.0));
    assert!(close(a[10], 1.1));
    assert!(close(a[14], -1.1));
}

#[test]
fn product_is_associative() {
    let a = Mat4::from_array(COUNTING);
    let mut b: Mat4<i64> = Mat4::identity();
    b.rotate_z(2, 3);
    b.translate(Vec3::from(7, -1, 4));
    let mut c: Mat4<i64> = Mat4::identity();
    c.scale(Vec3::from(2, -3, 5));
    c.rotate_x(1, -2);
    assert_eq!(((a * b) * c).as_array(), (a * (b * c)).as_array());
}

#[test]
fn mutators_multiply_on_the_near_side() {
    let m = {
        let mut m: Mat4<i64> = Mat4::identity();
        m.rotate_z(2, 3);
        m.translate(Vec3::from(7, -1, 4));
        m
    };

    let mut shift: Mat4<i64> = Mat4::identity();
    shift.set_translation(Vec3::from(5, 6, 7));
    let mut moved = m;
    moved.translate(Vec3::from(5, 6, 7));
    assert_eq!(moved.as_array(), (shift * m).as_array());

    let mut size: Mat4<i64> = Mat4::identity();
    size.set_scaling(Vec3::from(2, 3, 5));
    let mut sized = m;
    sized.scale(Vec3::from(2, 3, 5));
    assert_eq!(sized.as_array(), (size * m).as_array());

    let mut turn: Mat4<i64> = Mat4::identity();
    turn.rotate_y(3, 4);
    let mut turned = m;
    turned.rotate_y(3, 4);
    assert_eq!(turned.as_array(), (turn * m).as_array());
}

#[test]
fn set_rotation_writes_what_rotate_leaves_of_the_identity() {
    let cos = Vec3::from(2i64, 3, 5);
    let sin = Vec3::from(7i64, 11, 13);
    let mut turned: Mat4<i64> = Mat4::identity();
    turned.rotate(cos, sin);
    let before = COUNTING;
    let mut set = Mat4::from_array(before);
    set.set_rotation(cos, sin);
    let q = turned.as_array();
    let r = set.as_array();
    for i in [0, 1, 2, 4, 5, 6, 8, 9, 10] {
        assert_eq!(r[i], q[i]);
    }
    for k in [3, 7, 11, 12, 13, 14, 15] {
        assert_eq!(r[k], before[k]);
    }
}

#[test]
fn set_rotation_matches_rotate_for_angles_in_degrees() {
    let degrees = [(30.0f32, 45.0f32, 60.0f32), (90.0, 90.0, 90.0), (-20.0, 135.0, 250.0), (0.0, 0.0, 0.0)];
    for (x, y, z) in degrees {
        let cos = Vec3::from(x.to_radians().cos(), y.to_radians().cos(), z.to_radians().cos());
        let sin = Vec3::from(x.to_radians().sin(), y.to_radians().sin(), z.to_radians().sin());
        let mut turned: Mat4<f32> = Mat4::identity();
        turned.rotate(cos, sin);
        let before = [
            0.5, -1.25, 3.0, 7.5, 2.0, 9.0, -4.0, 0.125, 11.0, 6.5, -8.0, 1.0, 3.25, 0.0, 5.0, -2.5f32,
        ];
        let mut set = Mat4::from_array(before);
        set.set_rotation(cos, sin);
        let q = turned.as_array();
        let r = set.as_array();
        for i in [0, 1, 2, 4, 5, 6, 8, 9, 10] {
            assert!(close(r[i], q[i]));
        }
        for k in [3, 7, 11, 12, 13, 14, 15] {
            assert_eq!(r[k], before[k]);
        }
    }
}

#[test]
fn set_rotation_by_quarter_turns_is_a_rotation() {
    let mut m: Mat4<i64> = Mat4::identity();
    m.set_rotation(Vec3::from(0, 0, 0), Vec3::from(1, 1, 1));
    assert_eq!(m.as_array(), [1, 0, 0, 0, 0, 0, 1, 0, 0, -1, 0, 0, 0, 0, 0, 1]);
}

#[test]
fn identity_law_for_every_integer_width() {
    let small: [i16; 16] = [1, -2, 3, -4, 5, -6, 7, -8, 9, -10, 11, -12, 13, -14, 15, -16];
    let m = Mat4::from_array(small);
    let id: Mat4<i16> = Mat4::identity();
    assert_eq!((id * m).as_array(), small);
    assert_eq!((m * id).as_array(), small);

    let wide: [i128; 16] = [i128::MAX, i128::MIN, 0, 1, -1, 2, -2, 3, -3, 4, -4, 5, -5, 6, -6, 7];
    let w = Mat4::from_array(wide);
    let one: Mat4<i128> = Mat4::identity();
    assert_eq!((one * w).as_array(), wide);
    assert_eq!((w * one).as_array(), wide);
}
