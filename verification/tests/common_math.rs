use flux::common::math::{abs, clamp, div_trunc, max, min, re, rem_trunc, signum};
use flux::common::matrix::Matrix;
use flux::common::pt::Pt;
use flux::common::rect::{inside_interv, interv_overlap, Rect};
use flux::common::vector::Vector;
use flux::common::vector2::{Int2, Usize2, Vector2};
use std::ops::Neg;

#[test]
fn signum_abs_clamp() {
    assert_eq!(signum(-17), -1);
    assert_eq!(signum(0), 0);
    assert_eq!(signum(i32::MAX), 1);
    assert_eq!(signum(i32::MIN), -1);
    assert_eq!(abs(-5), 5);
    assert_eq!(abs(5), 5);
    assert_eq!(abs(0), 0);
    assert_eq!(abs(i32::MIN + 1), i32::MAX);
    assert_eq!(clamp(5, 0, 10), 5);
    assert_eq!(clamp(-5, 0, 10), 0);
    assert_eq!(clamp(15, 0, 10), 10);
    assert_eq!(clamp(3, 3, 3), 3);
    assert_eq!(clamp(-9, -6, 6), -6);
}

#[test]
fn rectify_max_min() {
    assert_eq!(re(1.0), 1.0);
    assert_eq!(re(-1.0), 0.0);
    assert_eq!(re(7), 7);
    assert_eq!(re(-7), 0);
    assert_eq!(re(0u8), 0);
    assert_eq!(max(1, 2), 2);
    assert_eq!(max(2, 1), 2);
    assert_eq!(min(1, 2), 1);
    assert_eq!(min(2u8, 1u8), 1);
    assert_eq!(max(0.5, 0.25), 0.5);
    assert_eq!(min(-1.5, 2.0), -1.5);
    assert_eq!(max(3usize, 3usize), 3);
}

#[test]
fn division_rounds_toward_zero() {
    for (a, b) in [(7, 2), (-7, 2), (7, -2), (-7, -2), (0, 5), (64, 64), (-1, 64), (i32::MIN, 1),
        (i32::MAX, -1), (i32::MIN, 2), (i32::MIN, i32::MIN), (5, i32::MIN)]
    {
        assert_eq!(div_trunc(a, b), a / b);
        assert_eq!(rem_trunc(a, b), a % b);
    }
    assert_eq!(div_trunc(-7, 2), -3);
    assert_eq!(rem_trunc(-7, 2), -1);
    assert_eq!(rem_trunc(i32::MIN, -1), 0);
}

#[test]
fn pt_arithmetic() {
    let a = Pt(3, -4);
    let b = Pt(10, 20);
    assert_eq!(a.as_tuple(), (3, -4));
    assert_eq!(a.x(), 3);
    assert_eq!(a.y(), -4);
    assert!(a.is_neg());
    assert!(!b.is_neg());
    assert!(Pt(-1, 5).is_neg());
    assert_eq!(a[0], 3);
    assert_eq!(a[1], -4);
    assert_eq!(a + b, Pt(13, 16));
    assert_eq!(a + (1, 2), Pt(4, -2));
    assert_eq!(a - b, Pt(-7, -24));
    assert_eq!(a - (1, 2), Pt(2, -6));
    assert_eq!(-a, Pt(-3, 4));
    assert_eq!(a * 3, Pt(9, -12));
    assert_eq!(a * 64usize, Pt(192, -256));
    assert_eq!(Pt(-7, 9) / 2, Pt(-3, 4));
    assert_eq!(Pt(-65, 129) / 64usize, Pt(-1, 2));
    let mut c = a;
    c.add_assign(b);
    assert_eq!(c, Pt(13, 16));
}

#[test]
fn rect_is_half_open() {
    let r = Rect::new(Pt(1, 2), (3, 4));
    assert_eq!(r.min, Pt(1, 2));
    assert_eq!(r.max, Pt(4, 6));
    assert_eq!(r.dimensions(), (3, 4));
    assert!(!r.is_inside(Pt(0, 2)));
    assert!(!r.is_inside(Pt(1, 1)));
    assert!(r.is_inside(Pt(1, 2)));
    assert!(r.is_inside(Pt(3, 2)));
    assert!(!r.is_inside(Pt(4, 2)));
    assert!(r.is_inside(Pt(1, 5)));
    assert!(!r.is_inside(Pt(1, 6)));
    assert_eq!(r.center(), Pt(2, 4));
    assert_eq!(r.transl(Pt(10, -10)), Rect { min: Pt(11, -8), max: Pt(14, -4) });
    assert_eq!(r.vertices_incl(), [Pt(1, 2), Pt(3, 2), Pt(3, 5), Pt(1, 5)]);
    assert_eq!(r.vertices_bottom(), [Pt(3, 5), Pt(1, 5)]);
    assert_eq!(Rect::new(Pt(-3, -3), (1, 2)).center(), Pt(-2, -2));
}

#[test]
fn rect_overlaps() {
    let r = Rect::new(Pt(0, 0), (10, 10));
    assert!(r.overlaps(&Rect::new(Pt(0, 0), (1, 1))));
    assert!(r.overlaps(&Rect::new(Pt(0, 0), (10, 10))));
    assert!(r.overlaps(&Rect::new(Pt(0, 0), (20, 20))));
    assert!(r.overlaps(&Rect::new(Pt(1, 1), (1, 1))));
    assert!(r.overlaps(&Rect::new(Pt(1, 1), (20, 20))));
    assert!(r.overlaps(&Rect::new(Pt(9, 9), (20, 20))));
    assert!(!r.overlaps(&Rect::new(Pt(9, 10), (20, 20))));
    assert!(!r.overlaps(&Rect::new(Pt(10, 9), (20, 20))));
    assert!(!r.overlaps(&Rect::new(Pt(10, 10), (20, 20))));
    assert!(interv_overlap((0, 10), (9, 12)));
    assert!(!interv_overlap((0, 10), (10, 12)));
    assert!(interv_overlap((5, 6), (0, 10)));
    assert!(inside_interv(0, (0, 1)));
    assert!(!inside_interv(1, (0, 1)));
    assert!(!inside_interv(-1, (0, 1)));
}

#[test]
fn vector2_of_integers() {
    let a = Int2(2, 3);
    let b = Int2(5, 7);
    assert_eq!(a, Vector2(2, 3));
    assert_eq!(Usize2(1, 4), Vector2(1usize, 4usize));
    assert_eq!(a.x(), 2);
    assert_eq!(a.y(), 3);
    assert_eq!(a.dot(b), 31);
    assert_eq!(a.fmadd(3, b), Vector2(17, 24));
    assert_eq!(a + b, Vector2(7, 10));
    assert_eq!(a - b, Vector2(-3, -4));
    assert_eq!(a * 4, Vector2(8, 12));
    assert_eq!(a.neg(), Vector2(-2, -3));
    assert_eq!(Vector2::<i32>::default(), Vector2(0, 0));
}

#[test]
fn vector2_of_floats() {
    let a = Vector2(0.5, 0.25);
    let b = Vector2(2.0, 4.0);
    assert_eq!(a.dot(b), 2.0);
    assert_eq!(a.fmadd(2.0, b), Vector2(4.5, 8.25));
    assert_eq!(a + b, Vector2(2.5, 4.25));
    assert_eq!(b * 0.5, Vector2(1.0, 2.0));
    assert_eq!(-a, Vector2(-0.5, -0.25));
}

#[test]
fn vector_of_integers() {
    let a = Vector(1, 2, 3);
    let b = Vector(4, 5, 6);
    assert_eq!((a.x(), a.y(), a.z()), (1, 2, 3));
    assert_eq!(a.xy(), Vector2(1, 2));
    assert_eq!(a.dot(b), 32);
    assert_eq!(a.cross(b), Vector(-3, 6, -3));
    assert_eq!(a.cross(b).dot(a), 0);
    assert_eq!(a.cross(b).dot(b), 0);
    assert_eq!(Vector(1, 0, 0).cross(Vector(0, 1, 0)), Vector(0, 0, 1));
    assert_eq!(a.fmadd(2, b), Vector(9, 12, 15));
    assert_eq!(a + b, Vector(5, 7, 9));
    assert_eq!(b - a, Vector(3, 3, 3));
    assert_eq!(a * 3, Vector(3, 6, 9));
    assert_eq!(a.neg(), Vector(-1, -2, -3));
    assert_eq!((a[0], a[1], a[2]), (1, 2, 3));
    assert_eq!(Vector::<u8>::default(), Vector(0, 0, 0));
}

#[test]
fn vector_of_floats() {
    let a = Vector(1.0, 2.0, 3.0);
    let dir = Vector(0.0, 0.0, 1.0);
    assert_eq!(a.fmadd(0.5, dir), Vector(1.0, 2.0, 3.5));
    assert_eq!(a.dot(dir), 3.0);
    assert_eq!(Vector(1.0, 0.0, 0.0).cross(Vector(0.0, 1.0, 0.0)), Vector(0.0, 0.0, 1.0));
}

#[test]
fn matrix_columns() {
    let m = Matrix::<i32>::new();
    assert_eq!(m, Matrix(Vector(0, 0, 0), Vector(0, 0, 0), Vector(0, 0, 0)));
    let m = Matrix(Vector(1, 2, 3), Vector(4, 5, 6), Vector(7, 8, 9));
    assert_eq!(m[0], Vector(1, 2, 3));
    assert_eq!(m[1], Vector(4, 5, 6));
    assert_eq!(m[2][1], 8);
}

#[test]
fn matrix_products() {
    let m = Matrix(Vector(1, 2, 3), Vector(4, 5, 6), Vector(7, 8, 9));
    let id = Matrix(Vector(1, 0, 0), Vector(0, 1, 0), Vector(0, 0, 1));
    assert_eq!(m * Vector(1, 0, 0), Vector(1, 2, 3));
    assert_eq!(m * Vector(1, 0, 2), Vector(15, 18, 21));
    assert_eq!(m * 2, Matrix(Vector(2, 4, 6), Vector(8, 10, 12), Vector(14, 16, 18)));
    assert_eq!(m * id, m);
    assert_eq!(id * m, m);
    let turn = Matrix(Vector(0, 1, 0), Vector(-1, 0, 0), Vector(0, 0, 1));
    let flip = Matrix(Vector(-1, 0, 0), Vector(0, 1, 0), Vector(0, 0, 1));
    assert_eq!(turn * turn, Matrix(Vector(-1, 0, 0), Vector(0, -1, 0), Vector(0, 0, 1)));
    assert_eq!(turn * flip, Matrix(Vector(0, -1, 0), Vector(-1, 0, 0), Vector(0, 0, 1)));
    assert_eq!(flip * turn, Matrix(Vector(0, 1, 0), Vector(1, 0, 0), Vector(0, 0, 1)));
    let half = Matrix(Vector(0.5, 0.0, 0.0), Vector(0.0, 0.5, 0.0), Vector(0.0, 0.0, 0.5));
    assert_eq!(half * Vector(2.0, 4.0, 8.0), Vector(1.0, 2.0, 4.0));
}
