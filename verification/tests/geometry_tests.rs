use grpc_services::geometry::{in_range, Point, Rectangle};

fn p(latitude: i32, longitude: i32) -> Point {
    Point { latitude, longitude }
}

fn rect(lo: Point, hi: Point) -> Rectangle {
    Rectangle { lo: Some(lo), hi: Some(hi) }
}

#[test]
fn point_inside_rectangle() {
    let r = rect(p(400_000_000, -750_000_000), p(420_000_000, -730_000_000));
    assert_eq!(in_range(Some(p(409_146_138, -746_188_906)), &r), Some(true));
}

#[test]
fn point_outside_rectangle() {
    let r = rect(p(400_000_000, -750_000_000), p(420_000_000, -730_000_000));
    assert_eq!(in_range(Some(p(430_000_000, -746_188_906)), &r), Some(false));
    assert_eq!(in_range(Some(p(409_146_138, -760_000_000)), &r), Some(false));
}

#[test]
fn borders_are_inside() {
    let r = rect(p(0, 0), p(10, 20));
    assert_eq!(in_range(Some(p(0, 0)), &r), Some(true));
    assert_eq!(in_range(Some(p(10, 20)), &r), Some(true));
    assert_eq!(in_range(Some(p(10, 0)), &r), Some(true));
    assert_eq!(in_range(Some(p(11, 0)), &r), Some(false));
}

#[test]
fn corner_order_does_not_matter() {
    let a = p(5, -5);
    let b = p(-5, 5);
    let probes = [p(0, 0), p(5, 5), p(-5, -5), p(6, 0), p(0, -6)];
    for probe in probes {
        assert_eq!(in_range(Some(probe), &rect(a, b)), in_range(Some(probe), &rect(b, a)));
    }
    assert_eq!(in_range(Some(p(0, 0)), &rect(a, b)), Some(true));
    assert_eq!(in_range(Some(p(6, 0)), &rect(b, a)), Some(false));
}

#[test]
fn missing_parts_give_no_answer() {
    let full = rect(p(0, 0), p(1, 1));
    assert_eq!(in_range(None, &full), None);
    assert_eq!(in_range(Some(p(0, 0)), &Rectangle { lo: None, hi: Some(p(1, 1)) }), None);
    assert_eq!(in_range(Some(p(0, 0)), &Rectangle { lo: Some(p(0, 0)), hi: None }), None);
    assert_eq!(in_range(Some(p(0, 0)), &Rectangle::default()), None);
}
