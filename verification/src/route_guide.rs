//! The route guide service: named features at points, lookups by point and by
//! rectangle, route summaries built point by point, and the note exchange in
//! which each note is answered with every note left at its location.

use vstd::prelude::*;
use crate::geometry::{Point, Rectangle, in_range, range_answer};
use crate::seq_facts::{
    lemma_filter_take_step, lemma_take_full, lemma_filter_take_zero, lemma_filter_prefix_len,
};

verus! {

/// A named place; a feature without a name stands for "nothing here".
#[derive(Debug, PartialEq, Eq)]
pub struct Feature {
    pub name: String,
    pub location: Option<Point>,
}

impl Clone for Feature {
    fn clone(&self) -> (r: Self)
        ensures
            r == *self,
    {
        Feature { name: self.name.clone(), location: self.location }
    }
}

impl Default for Feature {
    /// The unnamed feature at no location, answered when nothing is found.
    fn default() -> (r: Self)
        ensures
            r.name@ == Seq::<char>::empty(),
            r.location is None,
    {
        Feature { name: String::new(), location: None }
    }
}

/// A message left at a location.
#[derive(Debug, PartialEq, Eq)]
pub struct RouteNote {
    pub location: Option<Point>,
    pub message: String,
}

impl Clone for RouteNote {
    fn clone(&self) -> (r: Self)
        ensures
            r == *self,
    {
        RouteNote { location: self.location, message: self.message.clone() }
    }
}

/// What a client learns once it has streamed its route.
#[derive(Clone, Copy, Debug, PartialEq, Eq, Structural, Default)]
pub struct RouteSummary {
    pub point_count: i32,
    pub feature_count: i32,
    pub distance: i32,
    pub elapsed_time: i32,
}

/// The feature `f` stands exactly at `p`.
pub open spec fn located_at(f: Feature, p: Point) -> bool {
    f.location == Some(p)
}

/// The features that lie inside `rect`, in their stored order.
pub open spec fn features_in(features: Seq<Feature>, rect: Rectangle) -> Seq<Feature> {
    features.filter(|f: Feature| range_answer(f.location, rect) == Some(true))
}

/// How many stored features stand exactly at `p` (each entry counts).
pub open spec fn count_at(features: Seq<Feature>, p: Point) -> nat {
    features.filter(|f: Feature| located_at(f, p)).len()
}

/// A feature is listed for a rectangle exactly when it is one of the stored
/// features and lies inside the rectangle.
pub proof fn lemma_listed_iff_inside(features: Seq<Feature>, rect: Rectangle, f: Feature)
    ensures
        features_in(features, rect).contains(f) <==> (features.contains(f) && range_answer(f.location, rect) == Some(true)),
{
    let pred = |g: Feature| range_answer(g.location, rect) == Some(true);
    if features_in(features, rect).contains(f) {
        features.lemma_filter_contains_rev(pred, f);
        let k = choose|k: int| 0 <= k < features.filter(pred).len() && features.filter(pred)[k] == f;
        features.lemma_filter_pred(pred, k);
    }
    if features.contains(f) && range_answer(f.location, rect) == Some(true) {
        let k = choose|k: int| 0 <= k < features.len() && features[k] == f;
        features.lemma_filter_contains(pred, k);
    }
}

/// A feature is listed for the rectangle with corners `a` and `b` exactly
/// when it is stored, has a location, and that location lies between the
/// corners in both latitude and longitude.
pub proof fn lemma_listed_exact(features: Seq<Feature>, a: Point, b: Point, f: Feature)
    ensures
        features_in(features, Rectangle { lo: Some(a), hi: Some(b) }).contains(f) <==> (
        features.contains(f) && f.location is Some && ({
            let p = f.location->0;
            &&& (a.latitude <= p.latitude && p.latitude <= b.latitude) || (b.latitude <= p.latitude
                && p.latitude <= a.latitude)
            &&& (a.longitude <= p.longitude && p.longitude <= b.longitude) || (b.longitude
                <= p.longitude && p.longitude <= a.longitude)
        })),
{
    lemma_listed_iff_inside(features, Rectangle { lo: Some(a), hi: Some(b) }, f);
    if f.location is Some {
        crate::geometry::lemma_in_range_exact(f.location->0, a, b);
    }
}

/// No feature is counted at a point in an empty list.
pub proof fn lemma_count_at_empty(p: Point)
    ensures
        count_at(Seq::<Feature>::empty(), p) == 0,
{
    reveal(Seq::filter);
}

/// Appending a feature adds one to the count at `p` exactly when the feature
/// stands at `p` in both latitude and longitude, and nothing otherwise.
pub proof fn lemma_count_at_push(s: Seq<Feature>, f: Feature, p: Point)
    ensures
        count_at(s.push(f), p) == count_at(s, p) + if f.location == Some(p) { 1int } else { 0int },
        f.location matches Some(l) && (l.latitude != p.latitude || l.longitude != p.longitude)
            ==> count_at(s.push(f), p) == count_at(s, p),
{
    reveal(Seq::filter);
    assert(s.push(f).drop_last() =~= s);
}

/// A list in which no feature stands exactly at `p` counts nothing there.
pub proof fn lemma_count_at_none_here(s: Seq<Feature>, p: Point)
    requires
        forall|i: int| 0 <= i < s.len() ==> s[i].location != Some(p),
    ensures
        count_at(s, p) == 0,
    decreases s.len(),
{
    if s.len() == 0 {
        lemma_count_at_empty(p);
    } else {
        lemma_count_at_none_here(s.drop_last(), p);
        lemma_count_at_push(s.drop_last(), s.last(), p);
        assert(s.drop_last().push(s.last()) =~= s);
    }
}

/// The guide: a fixed list of features.
pub struct RouteGuideService {
    pub features: Vec<Feature>,
}

impl RouteGuideService {
    pub fn new(features: Vec<Feature>) -> (r: Self)
        ensures
            r.features == features,
    {
        RouteGuideService { features }
    }

    /// The first feature located exactly at `point`, or the unnamed feature at
    /// no location when there is none.
    pub fn get_feature(&self, point: &Point) -> (r: Feature)
        ensures
            forall|i: int|
                0 <= i < self.features.len() && located_at(#[trigger] self.features@[i], *point)
                    && (forall|j: int| 0 <= j < i ==> !located_at(self.features@[j], *point))
                    ==> r == self.features@[i],
            (forall|i: int| 0 <= i < self.features.len() ==> !located_at(#[trigger] self.features@[i], *point))
                ==> (r.name@ == Seq::<char>::empty() && r.location is None),
    {
        let n = self.features.len();
        for i in 0..n
            invariant
                n == self.features.len(),
                forall|j: int| 0 <= j < i ==> !located_at(#[trigger] self.features@[j], *point),
        {
            let here = match self.features[i].location {
                Some(l) => l == *point,
                None => false,
            };
            if here {
                return self.features[i].clone();
            }
        }
        Feature::default()
    }

    /// The features inside `rect` (borders included), in their stored order.
    /// A rectangle with a missing corner, or a feature without a location,
    /// gives no match.
    pub fn list_features(&self, rect: &Rectangle) -> (r: Vec<Feature>)
        ensures
            r@ == features_in(self.features@, *rect),
    {
        let ghost pred = |f: Feature| range_answer(f.location, *rect) == Some(true);
        let mut out: Vec<Feature> = Vec::new();
        let n = self.features.len();
        proof {
            lemma_filter_take_zero(self.features@, pred);
        }
        for i in 0..n
            invariant
                n == self.features.len(),
                pred == (|f: Feature| range_answer(f.location, *rect) == Some(true)),
                out@ == self.features@.take(i as int).filter(pred),
        {
            proof {
                lemma_filter_take_step(self.features@, pred, i as int);
            }
            let answer = in_range(self.features[i].location, rect);
            let inside = match answer {
                Some(b) => b,
                None => false,
            };
            if inside {
                out.push(self.features[i].clone());
            }
        }
        proof {
            lemma_take_full(self.features@);
        }
        out
    }

    /// How many stored features stand exactly at `point`.
    pub fn count_features_at(&self, point: &Point) -> (r: usize)
        ensures
            r == count_at(self.features@, *point),
    {
        let ghost pred = |f: Feature| located_at(f, *point);
        let mut count: usize = 0;
        let n = self.features.len();
        proof {
            lemma_filter_take_zero(self.features@, pred);
        }
        for i in 0..n
            invariant
                n == self.features.len(),
                pred == (|f: Feature| located_at(f, *point)),
                count == self.features@.take(i as int).filter(pred).len(),
                count <= i,
        {
            proof {
                lemma_filter_take_step(self.features@, pred, i as int);
            }
            let here = match self.features[i].location {
                Some(l) => l == *point,
                None => false,
            };
            if here {
                count = count + 1;
            }
        }
        proof {
            lemma_take_full(self.features@);
        }
        count
    }
}

/// The elapsed seconds of a route as reported: saturated at `i32::MAX`.
pub open spec fn saturated_seconds(secs: u64) -> i32 {
    if secs <= i32::MAX as u64 { secs as i32 } else { i32::MAX }
}

/// The running state of a route being recorded: the summary so far and the
/// point visited last.
pub struct RouteRecorder {
    pub summary: RouteSummary,
    pub last_point: Option<Point>,
}

impl RouteRecorder {
    /// Nothing visited yet.
    pub fn new() -> (r: Self)
        ensures
            r.summary == (RouteSummary { point_count: 0, feature_count: 0, distance: 0, elapsed_time: 0 }),
            r.last_point is None,
    {
        RouteRecorder {
            summary: RouteSummary { point_count: 0, feature_count: 0, distance: 0, elapsed_time: 0 },
            last_point: None,
        }
    }

    /// Visits `point`: counts it, counts every feature standing at it, and
    /// makes it the last point. Returns the point visited before, from which
    /// the caller measures the leg to add with `add_leg`.
    pub fn visit(&mut self, point: Point, features: &Vec<Feature>) -> (previous: Option<Point>)
        requires
            old(self).summary.point_count < i32::MAX,
            old(self).summary.feature_count + count_at(features@, point) <= i32::MAX,
        ensures
            previous == old(self).last_point,
            final(self).last_point == Some(point),
            final(self).summary == (RouteSummary {
                point_count: (old(self).summary.point_count + 1) as i32,
                feature_count: (old(self).summary.feature_count + count_at(features@, point)) as i32,
                ..old(self).summary
            }),
    {
        self.summary.point_count = self.summary.point_count + 1;
        let ghost pred = |f: Feature| located_at(f, point);
        let ghost start = self.summary.feature_count;
        let n = features.len();
        proof {
            lemma_filter_take_zero(features@, pred);
        }
        for i in 0..n
            invariant
                n == features.len(),
                pred == (|f: Feature| located_at(f, point)),
                self.summary.feature_count == start + features@.take(i as int).filter(pred).len(),
                start + count_at(features@, point) <= i32::MAX,
                self.summary.point_count == old(self).summary.point_count + 1,
                self.summary.distance == old(self).summary.distance,
                self.summary.elapsed_time == old(self).summary.elapsed_time,
                self.last_point == old(self).last_point,
        {
            proof {
                lemma_filter_take_step(features@, pred, i as int);
                lemma_filter_prefix_len(features@, pred, i + 1);
            }
            let here = match features[i].location {
                Some(l) => l == point,
                None => false,
            };
            if here {
                self.summary.feature_count = self.summary.feature_count + 1;
            }
        }
        proof {
            lemma_take_full(features@);
        }
        let previous = self.last_point;
        self.last_point = Some(point);
        previous
    }

    /// Adds the length of the leg just walked to the distance.
    pub fn add_leg(&mut self, leg: i32)
        requires
            i32::MIN <= old(self).summary.distance + leg <= i32::MAX,
        ensures
            final(self).last_point == old(self).last_point,
            final(self).summary == (RouteSummary {
                distance: (old(self).summary.distance + leg) as i32,
                ..old(self).summary
            }),
    {
        self.summary.distance = self.summary.distance + leg;
    }

    /// The summary to report once the route has ended after `elapsed_secs`
    /// seconds.
    pub fn finish(&self, elapsed_secs: u64) -> (r: RouteSummary)
        ensures
            r == (RouteSummary { elapsed_time: saturated_seconds(elapsed_secs), ..self.summary }),
    {
        let elapsed: i32 = if elapsed_secs <= 2147483647u64 { elapsed_secs as i32 } else { i32::MAX };
        RouteSummary { elapsed_time: elapsed, ..self.summary }
    }
}

/// The notes left so far at one location, oldest first.
pub struct NoteGroup {
    pub location: Option<Point>,
    pub notes: Vec<RouteNote>,
}

/// The note exchange of one client stream: every note received, grouped by
/// location.
pub struct RouteChat {
    groups: Vec<NoteGroup>,
}

impl RouteChat {
    /// No two groups share a location, and every note stands where its group does.
    pub closed spec fn wf(self) -> bool {
        &&& forall|i: int, j: int|
            0 <= i < j < self.groups.len() ==> self.groups@[i].location != self.groups@[j].location
        &&& forall|i: int, k: int|
            0 <= i < self.groups.len() && 0 <= k < self.groups@[i].notes@.len()
                ==> (#[trigger] self.groups@[i].notes@[k]).location == self.groups@[i].location
    }

    /// The notes received so far at `loc`, oldest first.
    pub closed spec fn notes_at(self, loc: Option<Point>) -> Seq<RouteNote> {
        if exists|i: int| 0 <= i < self.groups.len() && self.groups@[i].location == loc {
            let i = choose|i: int| 0 <= i < self.groups.len() && self.groups@[i].location == loc;
            self.groups@[i].notes@
        } else {
            Seq::empty()
        }
    }

    proof fn lemma_notes_at_group(self, i: int)
        requires
            self.wf(),
            0 <= i < self.groups.len(),
        ensures
            self.notes_at(self.groups@[i].location) == self.groups@[i].notes@,
    {
        let loc = self.groups@[i].location;
        let k = choose|k: int| 0 <= k < self.groups.len() && self.groups@[k].location == loc;
        if k < i {
            assert(self.groups@[k].location != self.groups@[i].location);
        } else if i < k {
            assert(self.groups@[i].location != self.groups@[k].location);
        }
    }

    /// Notes at a location other than `loc` are the same in `after` as in
    /// `before` when `after` differs from `before` only by groups at `loc`.
    proof fn lemma_notes_elsewhere(before: RouteChat, after: RouteChat, loc: Option<Point>, other: Option<Point>)
        requires
            before.wf(),
            after.wf(),
            other != loc,
            before.groups.len() <= after.groups.len(),
            forall|k: int| 0 <= k < before.groups.len() ==> (#[trigger] after.groups@[k]).location == before.groups@[k].location,
            forall|k: int|
                0 <= k < before.groups.len() && (#[trigger] before.groups@[k]).location != loc
                    ==> after.groups@[k] == before.groups@[k],
            forall|k: int| before.groups.len() <= k < after.groups.len() ==> (#[trigger] after.groups@[k]).location == loc,
        ensures
            after.notes_at(other) == before.notes_at(other),
    {
        if exists|k: int| 0 <= k < after.groups.len() && after.groups@[k].location == other {
            let k = choose|k: int| 0 <= k < after.groups.len() && after.groups@[k].location == other;
            after.lemma_notes_at_group(k);
            before.lemma_notes_at_group(k);
        } else if exists|k: int| 0 <= k < before.groups.len() && before.groups@[k].location == other {
            let k = choose|k: int| 0 <= k < before.groups.len() && before.groups@[k].location == other;
            assert(after.groups@[k].location == other);
        }
    }

    /// The index of the group at `loc`, if there is one.
    fn find_group(&self, loc: Option<Point>) -> (r: Option<usize>)
        ensures
            match r {
                Some(i) => i < self.groups.len() && self.groups@[i as int].location == loc,
                None => forall|j: int| 0 <= j < self.groups.len() ==> (#[trigger] self.groups@[j]).location != loc,
            },
    {
        let n = self.groups.len();
        for i in 0..n
            invariant
                n == self.groups.len(),
                forall|j: int| 0 <= j < i ==> (#[trigger] self.groups@[j]).location != loc,
        {
            let same = match (self.groups[i].location, loc) {
                (Some(a), Some(b)) => a == b,
                (None, None) => true,
                _ => false,
            };
            if same {
                return Some(i);
            }
        }
        None
    }

    /// No note received yet.
    pub fn new() -> (r: Self)
        ensures
            r.wf(),
            forall|loc: Option<Point>| #[trigger] r.notes_at(loc) == Seq::<RouteNote>::empty(),
    {
        RouteChat { groups: Vec::new() }
    }

    /// Records `note` at its location and answers with every note received at
    /// that location, this one last.
    pub fn receive(&mut self, note: RouteNote) -> (reply: Vec<RouteNote>)
        requires
            old(self).wf(),
        ensures
            final(self).wf(),
            forall|loc: Option<Point>| #[trigger] final(self).notes_at(loc) == if loc == note.location {
                old(self).notes_at(loc).push(note)
            } else {
                old(self).notes_at(loc)
            },
            reply@ == old(self).notes_at(note.location).push(note),
            forall|k: int| 0 <= k < reply.len() ==> (#[trigger] reply@[k]).location == note.location,
    {
        let loc = note.location;
        let found = self.find_group(loc);
        let ghost old_chat = *self;
        match found {
            Some(i) => {
                proof {
                    old_chat.lemma_notes_at_group(i as int);
                }
                let mut notes = self.groups[i].notes.clone();
                assert(notes@ =~= old_chat.groups@[i as int].notes@);
                notes.push(note);
                let reply = notes.clone();
                assert(reply@ =~= notes@);
                self.groups.set(i, NoteGroup { location: loc, notes });
                proof {
                    assert forall|loc2: Option<Point>| #[trigger] self.notes_at(loc2) == if loc2 == loc {
                        old_chat.notes_at(loc2).push(note)
                    } else {
                        old_chat.notes_at(loc2)
                    } by {
                        if loc2 == loc {
                            self.lemma_notes_at_group(i as int);
                        } else {
                            RouteChat::lemma_notes_elsewhere(old_chat, *self, loc, loc2);
                        }
                    }
                }
                reply
            },
            None => {
                let mut notes: Vec<RouteNote> = Vec::new();
                notes.push(note);
                let reply = notes.clone();
                assert(reply@ =~= notes@);
                self.groups.push(NoteGroup { location: loc, notes });
                proof {
                    assert(!exists|k: int| 0 <= k < old_chat.groups.len() && old_chat.groups@[k].location == loc);
                    assert(old_chat.notes_at(loc) == Seq::<RouteNote>::empty());
                    let last = self.groups.len() - 1;
                    self.lemma_notes_at_group(last);
                    assert(reply@ =~= old_chat.notes_at(loc).push(note));
                    assert forall|loc2: Option<Point>| #[trigger] self.notes_at(loc2) == if loc2 == loc {
                        old_chat.notes_at(loc2).push(note)
                    } else {
                        old_chat.notes_at(loc2)
                    } by {
                        if loc2 == loc {
                        } else {
                            RouteChat::lemma_notes_elsewhere(old_chat, *self, loc, loc2);
                        }
                    }
                }
                reply
            },
        }
    }
}

} // verus!
