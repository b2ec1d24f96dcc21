use grpc_services::client::{
    point_from_draws, random_point, random_route, route_for_count, route_chat_note_location, Commands,
    HealthOptions, NOTE_BASE_LATITUDE, NOTE_LONGITUDE,
};
use grpc_services::geometry::Point;

fn on_grid(p: &Point) -> bool {
    p.latitude % 10_000_000 == 0
        && (-900_000_000..=890_000_000).contains(&p.latitude)
        && p.longitude % 10_000_000 == 0
        && (-1_800_000_000..=1_790_000_000).contains(&p.longitude)
}

#[test]
fn draws_map_to_grid_points() {
    assert_eq!(point_from_draws(0, 0), Point { latitude: -900_000_000, longitude: -1_800_000_000 });
    assert_eq!(point_from_draws(179, 359), Point { latitude: 890_000_000, longitude: 1_790_000_000 });
    assert_eq!(point_from_draws(90, 180), Point { latitude: 0, longitude: 0 });
}

#[test]
fn random_points_are_on_grid() {
    let mut rng = fastrand::Rng::with_seed(7);
    let mut seen = std::collections::BTreeSet::new();
    for _ in 0..200 {
        let p = random_point(&mut rng);
        assert!(on_grid(&p), "{p:?}");
        seen.insert((p.latitude, p.longitude));
    }
    assert!(seen.len() > 1);
}

#[test]
fn random_routes_have_3_to_20_points() {
    let mut rng = fastrand::Rng::with_seed(42);
    let mut lengths = std::collections::BTreeSet::new();
    for _ in 0..200 {
        let route = random_route(&mut rng);
        assert!((3..=20).contains(&route.len()), "{}", route.len());
        assert!(route.iter().all(on_grid));
        lengths.insert(route.len());
    }
    assert!(lengths.len() > 1);
}

#[test]
fn note_locations_move_north_until_ten_seconds() {
    assert_eq!(
        route_chat_note_location(0),
        Some(Point { latitude: 409_146_138, longitude: -746_188_906 })
    );
    assert_eq!(
        route_chat_note_location(9),
        Some(Point { latitude: NOTE_BASE_LATITUDE + 9, longitude: NOTE_LONGITUDE })
    );
    assert_eq!(route_chat_note_location(10), None);
    assert_eq!(route_chat_note_location(u64::MAX), None);
}

#[test]
fn default_command_is_health_check() {
    assert_eq!(Commands::default(), Commands::Health(HealthOptions { services: vec![], watch: false }));
    assert_eq!(HealthOptions::default(), HealthOptions { services: vec![], watch: false });
}

#[test]
fn route_for_count_builds_one_more_point_than_the_count() {
    let mut rng = fastrand::Rng::with_seed(3);
    for count in 2..20 {
        let route = route_for_count(&mut rng, count);
        assert_eq!(route.len(), count as usize + 1);
        assert!(route.iter().all(on_grid));
    }
}
