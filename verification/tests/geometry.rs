use playground::geometry::{HandyDandyRectBuilder, LayoutPoint, LayoutRect, LayoutSize, Scalar};

fn whole(n: i128) -> Scalar {
    Scalar { num: n, den: 1 }
}

fn rect(x: i128, y: i128, w: i128, h: i128) -> LayoutRect {
    LayoutRect {
        origin: LayoutPoint { x: whole(x), y: whole(y) },
        size: LayoutSize { width: whole(w), height: whole(h) },
    }
}

#[test]
fn to_spans_from_corner_to_corner() {
    assert_eq!((1, 2).to(11, 22), rect(1, 2, 10, 20));
    assert_eq!((0, 0).to(300, 400), rect(0, 0, 300, 400));
    assert_eq!((50, 0).to(100, 50), rect(50, 0, 50, 50));
}

#[test]
fn to_keeps_negative_sizes() {
    assert_eq!((10, 10).to(0, 5), rect(10, 10, -10, -5));
    assert_eq!((-1000, -1000).to(5000, 5000), rect(-1000, -1000, 6000, 6000));
}

#[test]
fn to_is_exact_at_the_ends_of_the_range() {
    let r = (i32::MAX, i32::MIN).to(i32::MIN, i32::MAX);
    assert_eq!(
        r,
        rect(2147483647, -2147483648, -4294967295, 4294967295)
    );
}

#[test]
fn by_takes_the_size_as_given() {
    assert_eq!(HandyDandyRectBuilder::by(&(3, 4), 5, 6), rect(3, 4, 5, 6));
    assert_eq!(HandyDandyRectBuilder::by(&(0, 0), 1000, 1000), rect(0, 0, 1000, 1000));
    assert_eq!(HandyDandyRectBuilder::by(&(-7, 9), -2, 0), rect(-7, 9, -2, 0));
    assert_eq!(
        HandyDandyRectBuilder::by(&(i32::MIN, i32::MAX), i32::MAX, i32::MIN),
        rect(-2147483648, 2147483647, 2147483647, -2147483648)
    );
}

#[test]
fn to_and_by_agree_on_the_same_rectangle() {
    assert_eq!((5, 7).to(25, 37), HandyDandyRectBuilder::by(&(5, 7), 20, 30));
}

#[test]
fn scalar_from_int_has_denominator_one() {
    assert_eq!(Scalar::from_int(-3), Scalar { num: -3, den: 1 });
    assert_eq!(Scalar::from_int(i64::MAX), Scalar { num: 9223372036854775807, den: 1 });
}

#[test]
fn rect_new_and_from_ints() {
    let origin = LayoutPoint { x: whole(1), y: whole(2) };
    let size = LayoutSize { width: Scalar { num: 7, den: 2 }, height: whole(4) };
    let r = LayoutRect::new(origin, size);
    assert_eq!(r.origin, origin);
    assert_eq!(r.size, size);
    assert_eq!(LayoutRect::from_ints(1, 2, 3, 4), rect(1, 2, 3, 4));
}
