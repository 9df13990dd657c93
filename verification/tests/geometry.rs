use anvil::geometry::{Point, Rectangle, Size};

fn rect(x: i32, y: i32, w: i32, h: i32) -> Rectangle {
    Rectangle { loc: Point { x, y }, size: Size { w, h } }
}

#[test]
fn points_add_and_subtract() {
    let a = Point { x: 3, y: -4 };
    let b = Point { x: 10, y: 32 };
    assert_eq!(a.translate(b), Point { x: 13, y: 28 });
    assert_eq!(a.relative_to(b), Point { x: -7, y: -36 });
    assert_eq!(a.translate(b).relative_to(b), a);
}

#[test]
fn points_saturate() {
    let end = Point { x: i32::MAX, y: i32::MIN };
    assert_eq!(end.translate(Point { x: 1, y: -1 }), end);
    assert_eq!(end.relative_to(Point { x: -5, y: 5 }), end);
    assert_eq!(
        end.relative_to(Point { x: i32::MIN, y: i32::MAX }),
        Point { x: i32::MAX, y: i32::MIN }
    );
}

#[test]
fn empty_rectangles() {
    assert!(rect(1, 2, 0, 5).is_empty());
    assert!(rect(1, 2, 5, 0).is_empty());
    assert!(!rect(1, 2, 5, 5).is_empty());
    assert!(!rect(0, 0, -1, 5).is_empty());
}

#[test]
fn merge_surrounds_both() {
    let left = rect(0, 0, 1920, 1080);
    let right = rect(1920, 200, 1280, 1024);
    assert_eq!(left.merge(right), rect(0, 0, 3200, 1224));
    assert_eq!(left.merge(rect(10, 10, 5, 5)), left);
    assert_eq!(rect(-10, -20, 1, 1).merge(rect(5, 5, 1, 1)), rect(-10, -20, 16, 26));
}

#[test]
fn merge_commutes() {
    let a = rect(-300, 40, 20, 2000);
    let b = rect(7, -9, 11, 13);
    assert_eq!(a.merge(b), b.merge(a));
    assert_eq!(a.merge(b), rect(-300, -9, 318, 2049));
}

#[test]
fn merge_turns_negative_sizes_round() {
    assert_eq!(rect(10, 10, -4, -6).merge(rect(8, 8, 1, 1)), rect(6, 4, 4, 6));
}

#[test]
fn merge_cuts_the_size_off() {
    let a = rect(i32::MIN, 0, 10, 10);
    let b = rect(i32::MAX - 10, 0, 10, 10);
    assert_eq!(a.merge(b), rect(i32::MIN, 0, i32::MAX, 10));
    assert_eq!(rect(i32::MAX, 0, 7, 1).merge(rect(i32::MAX, 0, 0, 1)), rect(i32::MAX, 0, 0, 1));
}

#[test]
fn merge_ignores_order() {
    let rects = vec![rect(0, 0, 100, 100), rect(100, -50, 30, 30), rect(-7, 60, 5, 90)];
    let forward = rects[0].merge(rects[1]).merge(rects[2]);
    let backward = rects[2].merge(rects[1]).merge(rects[0]);
    assert_eq!(forward, backward);
    assert_eq!(forward, rect(-7, -50, 137, 200));
}
