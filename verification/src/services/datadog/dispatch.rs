//! Cutting a series into batches and handing them out one after the other.
//!
//! A series is delivered in batches of a fixed size: the first batch holds
//! the first points, the next batch the points after them, and so on; only
//! the last batch may be smaller. Put end to end in that order, the batches
//! are the series again.

use vstd::prelude::*;
use crate::services::datadog::models::{point_views, MetricPoint, MetricSeries, PointView};

verus! {

/// The batches that a series is delivered in, in order.
pub open spec fn chunks(points: Seq<PointView>, size: nat) -> Seq<Seq<PointView>>
    decreases points.len(),
{
    if size == 0 || points.len() == 0 {
        Seq::empty()
    } else if points.len() <= size {
        seq![points]
    } else {
        seq![points.take(size as int)] + chunks(points.skip(size as int), size)
    }
}

/// Chunking loses nothing and reorders nothing: the batches, put end to end
/// in order, are the series that was cut.
pub proof fn lemma_chunks_concatenate_to_series(points: Seq<PointView>, size: nat)
    requires
        size > 0,
    ensures
        chunks(points, size).flatten() == points,
    decreases points.len(),
{
    if points.len() == 0 {
        assert(chunks(points, size).flatten() =~= points);
    } else if points.len() <= size {
        seq![points].lemma_flatten_one_element();
    } else {
        let first = points.take(size as int);
        let rest = chunks(points.skip(size as int), size);
        lemma_chunks_concatenate_to_series(points.skip(size as int), size);
        let all = seq![first] + rest;
        assert(all.first() == first);
        assert(all.drop_first() =~= rest);
        assert(all.flatten() == first + rest.flatten());
        assert(first + points.skip(size as int) =~= points);
    }
}

/// Every batch holds at least one point and at most `size`, and every batch
/// but the last holds exactly `size`. There are no more batches than points.
pub proof fn lemma_chunk_sizes(points: Seq<PointView>, size: nat)
    requires
        size > 0,
    ensures
        chunks(points, size).len() <= points.len(),
        points.len() > 0 ==> chunks(points, size).len() > 0,
        forall|k: int|
            0 <= k < chunks(points, size).len() ==> 0 < (#[trigger] chunks(points, size)[k]).len()
                <= size,
        forall|k: int|
            0 <= k < chunks(points, size).len() - 1 ==> (#[trigger] chunks(points, size)[k]).len()
                == size,
    decreases points.len(),
{
    if points.len() > size {
        lemma_chunk_sizes(points.skip(size as int), size);
        let first = points.take(size as int);
        let rest = chunks(points.skip(size as int), size);
        let all = seq![first] + rest;
        assert(all == chunks(points, size));
        assert forall|k: int| 0 <= k < all.len() implies 0 < (#[trigger] all[k]).len() <= size by {
            if k > 0 {
                assert(all[k] == rest[k - 1]);
            }
        }
        assert forall|k: int| 0 <= k < all.len() - 1 implies (#[trigger] all[k]).len() == size by {
            if k > 0 {
                assert(all[k] == rest[k - 1]);
            }
        }
    }
}

/// A series on its way out: the points, the batch size, and how far the
/// delivery has come.
#[derive(Debug)]
pub struct Dispatch {
    /// The points to deliver, in order.
    pub points: Vec<MetricPoint>,
    /// The number of points in a full batch.
    pub chunk_size: usize,
    /// The number of batches delivered so far.
    pub sent: usize,
    /// The number of points delivered so far.
    pub offset: usize,
}

impl Dispatch {
    /// The series that is being delivered.
    pub open spec fn series(&self) -> Seq<PointView> {
        point_views(self.points@)
    }

    /// All the batches of the delivery, delivered or not.
    pub open spec fn batches(&self) -> Seq<Seq<PointView>> {
        chunks(self.series(), self.chunk_size as nat)
    }

    /// The delivery is in order: the batches not yet delivered are the
    /// batches of the points not yet delivered.
    pub open spec fn wf(&self) -> bool {
        &&& self.chunk_size > 0
        &&& self.sent <= self.offset <= self.points.len()
        &&& self.sent <= self.batches().len()
        &&& self.batches().skip(self.sent as int) == chunks(
            self.series().skip(self.offset as int),
            self.chunk_size as nat,
        )
    }

    /// Whether every batch has been delivered.
    pub open spec fn finished(&self) -> bool {
        self.sent == self.batches().len()
    }

    /// A delivery loses nothing and reorders nothing: its batches, put end to
    /// end in the order they are handed out, are the series.
    pub proof fn lemma_batches_concatenate_to_series(&self)
        requires
            self.wf(),
        ensures
            self.batches().flatten() == self.series(),
    {
        lemma_chunks_concatenate_to_series(self.series(), self.chunk_size as nat);
    }

    /// Starts the delivery of a series in batches of `chunk_size` points.
    pub fn new(series: MetricSeries, chunk_size: usize) -> (dispatch: Dispatch)
        requires
            chunk_size > 0,
        ensures
            dispatch.wf(),
            dispatch.series() == series@,
            dispatch.chunk_size == chunk_size,
            dispatch.sent == 0,
    {
        let dispatch = Dispatch { points: series.points, chunk_size, sent: 0, offset: 0 };
        assert(dispatch.series().skip(0) =~= dispatch.series());
        assert(dispatch.batches().skip(0) =~= dispatch.batches());
        dispatch
    }

    /// Says whether every batch has been delivered.
    pub fn is_finished(&self) -> (done: bool)
        requires
            self.wf(),
        ensures
            done == self.finished(),
    {
        proof {
            lemma_chunk_sizes(self.series().skip(self.offset as int), self.chunk_size as nat);
        }
        self.offset >= self.points.len()
    }

    /// Copies the batch that is to be delivered next.
    pub fn next_chunk(&self) -> (chunk: Vec<MetricPoint>)
        requires
            self.wf(),
            !self.finished(),
        ensures
            point_views(chunk@) == self.batches()[self.sent as int],
    {
        proof {
            lemma_chunk_sizes(self.series().skip(self.offset as int), self.chunk_size as nat);
        }
        let remaining = self.points.len() - self.offset;
        let count = if remaining < self.chunk_size {
            remaining
        } else {
            self.chunk_size
        };
        let ghost rest = self.series().skip(self.offset as int);
        let ghost expected = rest.take(count as int);
        assert(chunks(rest, self.chunk_size as nat)[0] == expected) by {
            if rest.len() <= self.chunk_size {
                assert(rest.take(count as int) =~= rest);
            }
        }
        assert(self.batches()[self.sent as int] == self.batches().skip(self.sent as int)[0]);
        let mut chunk: Vec<MetricPoint> = Vec::new();
        let mut i: usize = 0;
        while i < count
            invariant
                i <= count,
                self.offset + count <= self.points.len(),
                expected == self.series().skip(self.offset as int).take(count as int),
                point_views(chunk@) == expected.take(i as int),
            decreases count - i,
        {
            let ghost before = chunk@;
            chunk.push(self.points[self.offset + i].duplicate());
            assert(expected[i as int] == self.series()[self.offset + i]);
            assert(self.series()[self.offset + i] == self.points@[self.offset + i]@);
            assert(point_views(chunk@) =~= point_views(before).push(expected[i as int]));
            assert(expected.take(i + 1) =~= expected.take(i as int).push(expected[i as int]));
            i = i + 1;
        }
        assert(expected.take(count as int) =~= expected);
        chunk
    }

    /// Marks the next batch as delivered.
    pub fn advance(&mut self)
        requires
            old(self).wf(),
            !old(self).finished(),
        ensures
            final(self).wf(),
            final(self).points == old(self).points,
            final(self).chunk_size == old(self).chunk_size,
            final(self).sent == old(self).sent + 1,
    {
        proof {
            lemma_chunk_sizes(self.series().skip(self.offset as int), self.chunk_size as nat);
        }
        let remaining = self.points.len() - self.offset;
        let count = if remaining < self.chunk_size {
            remaining
        } else {
            self.chunk_size
        };
        let ghost rest = self.series().skip(self.offset as int);
        let ghost size = self.chunk_size as nat;
        assert(chunks(rest, size).skip(1) =~= chunks(rest.skip(count as int), size)) by {
            if rest.len() <= size {
                assert(rest.skip(count as int).len() == 0);
            }
        }
        assert(rest.skip(count as int) =~= self.series().skip(self.offset + count));
        assert(self.batches().skip(self.sent as int).skip(1) =~= self.batches().skip(
            self.sent + 1,
        ));
        self.offset = self.offset + count;
        self.sent = self.sent + 1;
    }
}

} // verus!
