//! The time-series point and the series that collects points for submission.

use vstd::prelude::*;
use crate::text::{copy_strings, join2, texts};

verus! {

/// What a point says: a metric name, a value, the second it was taken at and
/// its tags, each of the form `key:value`.
pub struct PointView {
    pub name: Seq<char>,
    pub value: int,
    pub timestamp: int,
    pub tags: Seq<Seq<char>>,
}

/// The point with the given content.
pub open spec fn point(name: Seq<char>, value: int, timestamp: int, tags: Seq<Seq<char>>)
    -> PointView {
    PointView { name, value, timestamp, tags }
}

/// The points that an optional counter contributes: one if the counter is
/// present, none if it is absent.
pub open spec fn optional_point(
    name: Seq<char>,
    value: Option<i64>,
    timestamp: int,
    tags: Seq<Seq<char>>,
) -> Seq<PointView> {
    match value {
        Some(v) => seq![point(name, v as int, timestamp, tags)],
        None => Seq::empty(),
    }
}

/// The tags that every point of a snapshot carries: its date and the source.
pub open spec fn standard_tag_texts(date: Seq<char>) -> Seq<Seq<char>> {
    seq!["date:"@ + date, "source:github-copilot-metrics"@]
}

/// One observation of one metric. The value is the integer counter that was
/// observed; it is turned into a gauge value only when the point is sent.
#[derive(Debug)]
pub struct MetricPoint {
    pub name: String,
    pub value: i64,
    pub timestamp: i64,
    pub tags: Vec<String>,
}

impl View for MetricPoint {
    type V = PointView;

    open spec fn view(&self) -> PointView {
        point(self.name@, self.value as int, self.timestamp as int, texts(self.tags@))
    }
}

impl MetricPoint {
    /// Makes a point.
    pub fn new(name: String, value: i64, timestamp: i64, tags: Vec<String>) -> (made: MetricPoint)
        ensures
            made@ == point(name@, value as int, timestamp as int, texts(tags@)),
    {
        MetricPoint { name, value, timestamp, tags }
    }

    /// Whether the value can be written as a double-precision number
    /// without loss: its magnitude is at most two to the power of 53.
    pub open spec fn exact_as_gauge(&self) -> bool {
        -0x20_0000_0000_0000 <= self.value <= 0x20_0000_0000_0000
    }

    /// Says whether the value can be written as a double-precision number
    /// without loss.
    pub fn is_exact_as_gauge(&self) -> (exact: bool)
        ensures
            exact == self.exact_as_gauge(),
    {
        -0x20_0000_0000_0000 <= self.value && self.value <= 0x20_0000_0000_0000
    }

    /// Copies a point.
    pub fn duplicate(&self) -> (copy: MetricPoint)
        ensures
            copy@ == self@,
    {
        MetricPoint {
            name: self.name.clone(),
            value: self.value,
            timestamp: self.timestamp,
            tags: copy_strings(self.tags.as_slice()),
        }
    }
}

/// The contents of a list of points.
pub open spec fn point_views(points: Seq<MetricPoint>) -> Seq<PointView> {
    points.map_values(|p: MetricPoint| p@)
}

/// An ordered collection of points, in the order they were added.
#[derive(Debug)]
pub struct MetricSeries {
    pub points: Vec<MetricPoint>,
}

impl View for MetricSeries {
    type V = Seq<PointView>;

    open spec fn view(&self) -> Seq<PointView> {
        point_views(self.points@)
    }
}

impl MetricSeries {
    /// Makes an empty series.
    pub fn new() -> (made: MetricSeries)
        ensures
            made@ == Seq::<PointView>::empty(),
    {
        let made = MetricSeries { points: Vec::new() };
        assert(made@ =~= Seq::<PointView>::empty());
        made
    }

    /// Adds a point at the end.
    pub fn add_point(&mut self, point: MetricPoint)
        ensures
            final(self)@ == old(self)@.push(point@),
    {
        self.points.push(point);
        assert(self@ =~= old(self)@.push(point@));
    }

    /// Adds a point for a counter that may be absent: nothing is added for an
    /// absent counter.
    pub fn add_optional_i64_point(
        &mut self,
        name: String,
        value: Option<i64>,
        timestamp: i64,
        tags: &[String],
    )
        ensures
            final(self)@ == old(self)@ + optional_point(
                name@,
                value,
                timestamp as int,
                texts(tags@),
            ),
    {
        if let Some(val) = value {
            self.add_point(MetricPoint::new(name, val, timestamp, copy_strings(tags)));
        }
        assert(self@ =~= old(self)@ + optional_point(
            name@,
            value,
            timestamp as int,
            texts(tags@),
        ));
    }

    /// The number of points.
    pub fn len(&self) -> (n: usize)
        ensures
            n == self@.len(),
    {
        self.points.len()
    }
}

impl Default for MetricSeries {
    fn default() -> (made: MetricSeries)
        ensures
            made@ == Seq::<PointView>::empty(),
    {
        MetricSeries::new()
    }
}

/// The tags that every point of a snapshot carries: `date:<date>` and the
/// fixed `source:github-copilot-metrics`.
pub fn standard_tags(date: &str) -> (tags: Vec<String>)
    ensures
        texts(tags@) == standard_tag_texts(date@),
{
    let mut tags: Vec<String> = Vec::new();
    tags.push(join2("date:", date));
    tags.push("source:github-copilot-metrics".to_string());
    assert(texts(tags@) =~= standard_tag_texts(date@));
    tags
}

} // verus!
