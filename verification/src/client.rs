//! The client's own logic: random routes to record, the locations of the
//! notes it sends, and its command-line choices as plain values.

use vstd::prelude::*;
use crate::geometry::Point;

verus! {

#[verifier::external_type_specification]
#[verifier::external_body]
pub struct ExRng(fastrand::Rng);

/// `fastrand::Rng::i32` over the range `low..high`: a number drawn from the
/// generator, at least `low` and below `high`. Which number comes out depends
/// on the generator's state, which is not modelled; the range is all that is
/// stated. The range must not be empty (the call panics on an empty range).
#[verifier::external_body]
fn draw_i32(rng: &mut fastrand::Rng, low: i32, high: i32) -> (r: i32)
    requires
        low < high,
    ensures
        low <= r < high,
{
    rng.i32(low..high)
}

/// A point on the whole-degree grid: latitude a whole number of degrees in
/// [-90, 89], longitude one in [-180, 179], both in E7 units.
pub open spec fn is_grid_point(p: Point) -> bool {
    &&& p.latitude % 10_000_000 == 0
    &&& -900_000_000 <= p.latitude <= 890_000_000
    &&& p.longitude % 10_000_000 == 0
    &&& -1_800_000_000 <= p.longitude <= 1_790_000_000
}

/// The grid point for the draws `lat_draw` in [0, 180) and `lon_draw` in
/// [0, 360): `(lat_draw - 90)` and `(lon_draw - 180)` degrees.
pub fn point_from_draws(lat_draw: i32, lon_draw: i32) -> (p: Point)
    requires
        0 <= lat_draw < 180,
        0 <= lon_draw < 360,
    ensures
        p.latitude == (lat_draw - 90) * 10_000_000,
        p.longitude == (lon_draw - 180) * 10_000_000,
        is_grid_point(p),
{
    let latitude = (lat_draw - 90) * 10_000_000;
    let longitude = (lon_draw - 180) * 10_000_000;
    Point { latitude, longitude }
}

/// A random point on the whole-degree grid.
pub fn random_point(rng: &mut fastrand::Rng) -> (p: Point)
    ensures
        is_grid_point(p),
{
    let lat_draw = draw_i32(rng, 0, 180);
    let lon_draw = draw_i32(rng, 0, 360);
    point_from_draws(lat_draw, lon_draw)
}

/// A route of `point_count + 1` random grid points.
pub fn route_for_count(rng: &mut fastrand::Rng, point_count: i32) -> (points: Vec<Point>)
    requires
        2 <= point_count < 20,
    ensures
        points.len() == point_count + 1,
        forall|i: int| 0 <= i < points.len() ==> is_grid_point(#[trigger] points@[i]),
{
    let mut points: Vec<Point> = Vec::new();
    let mut i: i32 = 0;
    while i <= point_count
        invariant
            2 <= point_count < 20,
            0 <= i <= point_count + 1,
            points.len() == i,
            forall|j: int| 0 <= j < points.len() ==> is_grid_point(#[trigger] points@[j]),
        decreases point_count + 1 - i,
    {
        points.push(random_point(rng));
        i = i + 1;
    }
    points
}

/// A random route of 3 to 20 grid points: a count drawn from `2..20`, then
/// one more point than that count (see `route_for_count`).
pub fn random_route(rng: &mut fastrand::Rng) -> (points: Vec<Point>)
    ensures
        3 <= points.len() <= 20,
        forall|i: int| 0 <= i < points.len() ==> is_grid_point(#[trigger] points@[i]),
{
    let point_count = draw_i32(rng, 2, 20);
    route_for_count(rng, point_count)
}

/// The latitude of the first note of the note exchange.
pub const NOTE_BASE_LATITUDE: i32 = 409_146_138;

/// The longitude of every note of the note exchange.
pub const NOTE_LONGITUDE: i32 = -746_188_906;

/// The whole seconds counted into a note's latitude: the elapsed seconds when
/// they fit an `i32`, none otherwise.
pub open spec fn counted_seconds(elapsed_secs: u64) -> int {
    if elapsed_secs <= i32::MAX as u64 { elapsed_secs as int } else { 0 }
}

/// Where the note sent `elapsed_secs` seconds into the exchange stands, or
/// `None` once ten seconds have passed and the exchange ends. A note moves one
/// E7 unit north per elapsed second.
pub fn route_chat_note_location(elapsed_secs: u64) -> (r: Option<Point>)
    requires
        NOTE_BASE_LATITUDE + counted_seconds(elapsed_secs) <= i32::MAX,
    ensures
        elapsed_secs >= 10 ==> r is None,
        elapsed_secs < 10 ==> r == Some(Point {
            latitude: (NOTE_BASE_LATITUDE + elapsed_secs) as i32,
            longitude: NOTE_LONGITUDE,
        }),
{
    let secs: i32 = if elapsed_secs <= 2147483647u64 { elapsed_secs as i32 } else { 0 };
    let location = Point { latitude: NOTE_BASE_LATITUDE + secs, longitude: NOTE_LONGITUDE };
    if elapsed_secs >= 10 {
        None
    } else {
        Some(location)
    }
}

/// Options of the health check.
#[derive(Debug, Clone, PartialEq, Eq)]
pub struct HealthOptions {
    /// Services whose health is asked for.
    pub services: Vec<String>,
    /// Keep watching instead of asking once.
    pub watch: bool,
}

impl Default for HealthOptions {
    /// No service named, asking once.
    fn default() -> (r: Self)
        ensures
            r.services@ == Seq::<String>::empty(),
            !r.watch,
    {
        HealthOptions { services: Vec::new(), watch: false }
    }
}

/// What the client is asked to do.
#[derive(Debug, Clone, PartialEq, Eq)]
pub enum Commands {
    /// Check the services' health.
    Health(HealthOptions),
    /// Run the example exchanges.
    Examples,
    /// Send a chat message.
    Chat { message: String },
}

impl Default for Commands {
    /// Checking health with the default options.
    fn default() -> (r: Self)
        ensures
            r matches Commands::Health(o) && o.services@ == Seq::<String>::empty() && !o.watch,
    {
        Commands::Health(HealthOptions::default())
    }
}

} // verus!
