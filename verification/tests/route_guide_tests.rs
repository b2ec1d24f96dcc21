use grpc_services::geometry::{Point, Rectangle};
use grpc_services::route_guide::{
    Feature, RouteChat, RouteGuideService, RouteNote, RouteRecorder, RouteSummary,
};

fn p(latitude: i32, longitude: i32) -> Point {
    Point { latitude, longitude }
}

fn feature(name: &str, location: Option<Point>) -> Feature {
    Feature { name: name.to_string(), location }
}

fn guide() -> RouteGuideService {
    RouteGuideService::new(vec![
        feature("Patriots Path, Mendham, NJ 07945, USA", Some(p(407_838_351, -746_143_763))),
        feature("101 New Jersey 10, Whippany, NJ 07981, USA", Some(p(408_122_808, -743_999_179))),
        feature("", Some(p(413_628_156, -749_015_468))),
        feature("Second name at Mendham", Some(p(407_838_351, -746_143_763))),
        feature("Nowhere", None),
    ])
}

#[test]
fn get_feature_finds_first_at_point() {
    let g = guide();
    let f = g.get_feature(&p(407_838_351, -746_143_763));
    assert_eq!(f.name, "Patriots Path, Mendham, NJ 07945, USA");
    assert_eq!(f.location, Some(p(407_838_351, -746_143_763)));
}

#[test]
fn get_feature_unknown_point_gives_default() {
    let g = guide();
    let f = g.get_feature(&p(0, 0));
    assert_eq!(f, Feature::default());
    assert_eq!(f.name, "");
    assert_eq!(f.location, None);
}

#[test]
fn get_feature_unnamed_feature_is_returned_as_stored() {
    let g = guide();
    let f = g.get_feature(&p(413_628_156, -749_015_468));
    assert_eq!(f.name, "");
    assert_eq!(f.location, Some(p(413_628_156, -749_015_468)));
}

#[test]
fn list_features_keeps_order_and_filters() {
    let g = guide();
    let r = Rectangle { lo: Some(p(400_000_000, -750_000_000)), hi: Some(p(410_000_000, -740_000_000)) };
    let listed = g.list_features(&r);
    let names: Vec<&str> = listed.iter().map(|f| f.name.as_str()).collect();
    assert_eq!(
        names,
        vec![
            "Patriots Path, Mendham, NJ 07945, USA",
            "101 New Jersey 10, Whippany, NJ 07981, USA",
            "Second name at Mendham",
        ]
    );
}

#[test]
fn list_features_incomplete_rectangle_lists_nothing() {
    let g = guide();
    let r = Rectangle { lo: None, hi: Some(p(410_000_000, -740_000_000)) };
    assert!(g.list_features(&r).is_empty());
}

#[test]
fn count_features_counts_duplicates() {
    let g = guide();
    assert_eq!(g.count_features_at(&p(407_838_351, -746_143_763)), 2);
    assert_eq!(g.count_features_at(&p(408_122_808, -743_999_179)), 1);
    assert_eq!(g.count_features_at(&p(1, 1)), 0);
}

#[test]
fn recorder_counts_points_features_and_distance() {
    let g = guide();
    let mut rec = RouteRecorder::new();
    assert_eq!(rec.visit(p(407_838_351, -746_143_763), &g.features), None);
    let prev = rec.visit(p(1, 1), &g.features);
    assert_eq!(prev, Some(p(407_838_351, -746_143_763)));
    rec.add_leg(1500);
    let prev = rec.visit(p(408_122_808, -743_999_179), &g.features);
    assert_eq!(prev, Some(p(1, 1)));
    rec.add_leg(-200);
    let summary = rec.finish(7);
    assert_eq!(
        summary,
        RouteSummary { point_count: 3, feature_count: 3, distance: 1300, elapsed_time: 7 }
    );
    assert_eq!(rec.last_point, Some(p(408_122_808, -743_999_179)));
}

#[test]
fn recorder_saturates_elapsed_time() {
    let rec = RouteRecorder::new();
    assert_eq!(rec.finish(u64::MAX).elapsed_time, i32::MAX);
    assert_eq!(rec.finish(2_147_483_647).elapsed_time, i32::MAX);
    assert_eq!(rec.finish(2_147_483_648).elapsed_time, i32::MAX);
    assert_eq!(rec.finish(0).elapsed_time, 0);
}

fn note(loc: Option<Point>, message: &str) -> RouteNote {
    RouteNote { location: loc, message: message.to_string() }
}

#[test]
fn route_chat_answers_with_notes_at_same_location() {
    let mut chat = RouteChat::new();
    let a = Some(p(1, 1));
    let b = Some(p(2, 2));
    assert_eq!(chat.receive(note(a, "first")), vec![note(a, "first")]);
    assert_eq!(chat.receive(note(b, "second")), vec![note(b, "second")]);
    assert_eq!(chat.receive(note(a, "third")), vec![note(a, "first"), note(a, "third")]);
    assert_eq!(chat.receive(note(None, "nowhere")), vec![note(None, "nowhere")]);
    assert_eq!(
        chat.receive(note(b, "fourth")),
        vec![note(b, "second"), note(b, "fourth")]
    );
    assert_eq!(
        chat.receive(note(None, "again")),
        vec![note(None, "nowhere"), note(None, "again")]
    );
}

#[test]
fn feature_clone_is_equal() {
    let f = feature("x", Some(p(3, 4)));
    assert_eq!(f.clone(), f);
    let n = note(None, "y");
    assert_eq!(n.clone(), n);
}
