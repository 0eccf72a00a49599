//! Paths: a flat buffer of fixed-size native records, and the single-pass
//! decoder that reads it as drawing segments.
//!
//! Coordinates are IEEE-754 doubles in native memory. They are carried here
//! unchanged, as the 64 bits of each double, and never computed with.

use vstd::prelude::*;
use crate::enums::PathDataType;
use crate::enums::Status;

verus! {

/// One coordinate pair, each coordinate as the bits of a double.
pub type Point = (u64, u64);

/// One fixed-size record of a native path buffer, read both ways at once: as
/// a segment header (`data_type`, `length`) and as a coordinate pair (`x`,
/// `y`). Which reading applies depends on where the record stands, and that is
/// what the decoder works out.
#[derive(Clone, Copy, Debug, PartialEq, Eq, Structural)]
pub struct PathRecord {
    /// The native tag of the segment's kind, if this record is a header.
    pub data_type: i32,
    /// The segment's length in records, header included, if it is a header.
    pub length: i32,
    /// The first coordinate, if this record is a coordinate pair.
    pub x: u64,
    /// The second coordinate, if this record is a coordinate pair.
    pub y: u64,
}

/// One drawing instruction of a path.
#[derive(Clone, Copy, Debug, PartialEq, Eq)]
pub enum PathSegment {
    MoveTo(Point),
    LineTo(Point),
    CurveTo(Point, Point, Point),
    ClosePath,
}

impl PathRecord {
    /// A header record.
    pub fn header(data_type: PathDataType, length: i32) -> (record: PathRecord)
        ensures
            record == (PathRecord { data_type: data_type.spec_code(), length, x: 0, y: 0 }),
    {
        PathRecord { data_type: data_type.code(), length, x: 0, y: 0 }
    }

    /// A coordinate record.
    pub fn point(x: u64, y: u64) -> (record: PathRecord)
        ensures
            record == (PathRecord { data_type: 0, length: 0, x, y }),
    {
        PathRecord { data_type: 0, length: 0, x, y }
    }

    /// The coordinate pair that this record holds.
    pub open spec fn pair(self) -> Point {
        (self.x, self.y)
    }
}

/// The coordinate pair of a record.
pub fn to_tuple(pair: &PathRecord) -> (point: Point)
    ensures
        point == pair.pair(),
{
    (pair.x, pair.y)
}

/// Whether a well-formed segment starts at `at` in the first `total` records
/// of `data`: the header names a known kind, declares room for its own
/// coordinate pairs, and the declared length ends within `total`.
pub open spec fn segment_at(data: Seq<PathRecord>, total: int, at: int) -> bool {
    &&& 0 <= at < total <= data.len()
    &&& PathDataType::of_code(data[at].data_type) is Some
    &&& data[at].length > PathDataType::of_code(data[at].data_type).unwrap().spec_points()
    &&& at + data[at].length <= total
}

/// The segment that starts at `at`, where one does.
pub open spec fn segment_of(data: Seq<PathRecord>, at: int) -> PathSegment {
    match PathDataType::of_code(data[at].data_type) {
        Some(PathDataType::MoveTo) => PathSegment::MoveTo(data[at + 1].pair()),
        Some(PathDataType::LineTo) => PathSegment::LineTo(data[at + 1].pair()),
        Some(PathDataType::CurveTo) => PathSegment::CurveTo(
            data[at + 1].pair(),
            data[at + 2].pair(),
            data[at + 3].pair(),
        ),
        _ => PathSegment::ClosePath,
    }
}

/// Every segment that decoding yields from position `at` on, in order.
/// Decoding ends at `total`, and at the first position where no well-formed
/// segment starts.
pub open spec fn decode_from(data: Seq<PathRecord>, total: int, at: int) -> Seq<PathSegment>
    decreases total - at,
{
    if segment_at(data, total, at) {
        seq![segment_of(data, at)] + decode_from(data, total, at + data[at].length)
    } else {
        Seq::empty()
    }
}

/// The position that decoding has reached once it ends, having started at `at`.
pub open spec fn end_from(data: Seq<PathRecord>, total: int, at: int) -> int
    decreases total - at,
{
    if segment_at(data, total, at) {
        end_from(data, total, at + data[at].length)
    } else {
        at
    }
}

/// Decoding never walks past the declared record count: wherever it starts
/// within the buffer, it ends at or before `total`.
pub proof fn lemma_decoding_stays_within_total(data: Seq<PathRecord>, total: int, at: int)
    requires
        0 <= at <= total <= data.len(),
    ensures
        at <= end_from(data, total, at) <= total,
    decreases total - at,
{
    if segment_at(data, total, at) {
        lemma_decoding_stays_within_total(data, total, at + data[at].length);
    }
}

/// A path of `total - at` records holds at most that many segments, so
/// decoding is finite.
pub proof fn lemma_segments_are_bounded_by_records(data: Seq<PathRecord>, total: int, at: int)
    requires
        0 <= at <= total <= data.len(),
    ensures
        decode_from(data, total, at).len() <= total - at,
    decreases total - at,
{
    if segment_at(data, total, at) {
        lemma_segments_are_bounded_by_records(data, total, at + data[at].length);
    }
}

/// A buffer that declares no records decodes to no segments, whatever it holds.
pub proof fn lemma_empty_path_has_no_segments(data: Seq<PathRecord>)
    ensures
        decode_from(data, 0, 0) == Seq::<PathSegment>::empty(),
{
}

/// Decoding from a position depends only on the records before `total`:
/// two buffers that agree there decode alike.
pub proof fn lemma_decoding_reads_declared_records_only(
    a: Seq<PathRecord>,
    b: Seq<PathRecord>,
    total: int,
    at: int,
)
    requires
        0 <= at <= total,
        total <= a.len(),
        total <= b.len(),
        forall|k: int| 0 <= k < total ==> a[k] == b[k],
    ensures
        decode_from(a, total, at) == decode_from(b, total, at),
    decreases total - at,
{
    if segment_at(a, total, at) {
        assert(segment_at(b, total, at));
        assert(segment_of(a, at) == segment_of(b, at));
        lemma_decoding_reads_declared_records_only(a, b, total, at + a[at].length);
    } else if segment_at(b, total, at) {
        assert(segment_at(a, total, at));
    }
}

/// A path as the native engine hands it out: the status of the call that
/// produced it, and its records.
pub struct Path {
    status: Status,
    data: Vec<PathRecord>,
}

impl Path {
    /// The status that the engine attached to this path.
    pub closed spec fn spec_status(&self) -> Status {
        self.status
    }

    /// The records of this path.
    pub closed spec fn records(&self) -> Seq<PathRecord> {
        self.data@
    }

    /// The segments of this path, in order.
    pub open spec fn view(&self) -> Seq<PathSegment> {
        decode_from(self.records(), self.records().len() as int, 0)
    }

    /// A path over `data`, all of whose records are declared.
    pub fn new(status: Status, data: Vec<PathRecord>) -> (path: Path)
        ensures
            path.spec_status() == status,
            path.records() == data@,
    {
        Path { status, data }
    }

    /// The status that the engine attached to this path.
    #[verifier::when_used_as_spec(spec_status)]
    pub fn status(&self) -> (status: Status)
        ensures
            status == self.spec_status(),
    {
        self.status
    }

    /// Succeeds exactly when the engine produced this path without an error,
    /// and otherwise hands out the engine's status.
    pub fn ensure_status(&self) -> (checked: Result<(), Status>)
        ensures
            checked == self.spec_status().spec_to_result(),
    {
        self.status.to_result()
    }

    /// A decoder at the start of this path.
    pub fn iter(&self) -> (segments: PathSegments)
        ensures
            segments.records() == self.records(),
            segments.total() == self.records().len(),
            segments.position() == 0,
            segments@ == self@,
    {
        let length: usize = self.data.len();
        PathSegments { data: self.data.clone(), i: 0, num_data: length }
    }

    /// All segments of this path, in order.
    pub fn segments(&self) -> (all: Vec<PathSegment>)
        ensures
            all@ == self@,
    {
        let mut decoder = self.iter();
        decoder.collect()
    }
}

/// A single-pass decoder over the records of a path.
pub struct PathSegments {
    data: Vec<PathRecord>,
    i: usize,
    num_data: usize,
}

impl PathSegments {
    #[verifier::type_invariant]
    closed spec fn within_buffer(&self) -> bool {
        self.i <= self.num_data <= self.data.len()
    }

    /// The records that this decoder reads.
    pub closed spec fn records(&self) -> Seq<PathRecord> {
        self.data@
    }

    /// The declared record count, where decoding ends.
    pub closed spec fn total(&self) -> int {
        self.num_data as int
    }

    /// The record at which the next segment is looked for.
    pub closed spec fn position(&self) -> int {
        self.i as int
    }

    /// The segments that are still to come, in order.
    pub open spec fn view(&self) -> Seq<PathSegment> {
        decode_from(self.records(), self.total(), self.position())
    }

    /// A decoder over the first `num_data` records of `data`, or over all of
    /// them where `num_data` declares more than there are.
    pub fn new(data: Vec<PathRecord>, num_data: usize) -> (segments: PathSegments)
        ensures
            segments.records() == data@,
            segments.total() == if num_data <= data.len() { num_data as int } else { data.len() as int },
            segments.position() == 0,
    {
        let declared: usize = if num_data <= data.len() { num_data } else { data.len() };
        PathSegments { data, i: 0, num_data: declared }
    }

    /// The next segment, if a well-formed one starts at the cursor. The
    /// cursor then moves on by the length that the segment's header declares.
    /// At the declared end, and at a header that names no known kind, leaves
    /// no room for its own coordinates or reaches past the declared end,
    /// there is none, and the cursor stays.
    pub fn next(&mut self) -> (segment: Option<PathSegment>)
        ensures
            final(self).records() == old(self).records(),
            final(self).total() == old(self).total(),
            0 <= final(self).position() <= final(self).total() <= final(self).records().len(),
            segment_at(old(self).records(), old(self).total(), old(self).position()) ==> {
                &&& segment == Some(segment_of(old(self).records(), old(self).position()))
                &&& final(self).position() == old(self).position()
                    + old(self).records()[old(self).position()].length
            },
            !segment_at(old(self).records(), old(self).total(), old(self).position()) ==> {
                &&& segment is None
                &&& final(self).position() == old(self).position()
            },
            segment is Some <==> old(self)@.len() > 0,
            segment is Some ==> segment == Some(old(self)@[0]) && final(self)@ == old(self)@.skip(1),
            segment is None ==> final(self)@ == old(self)@,
    {
        proof {
            use_type_invariant(&*self);
        }
        let i: usize = self.i;
        if i >= self.num_data {
            return None;
        }
        let header = self.data[i];
        let kind = match PathDataType::from_code(header.data_type) {
            Some(kind) => kind,
            None => {
                return None;
            },
        };
        let points: usize = kind.points();
        if header.length <= 0 {
            return None;
        }
        let length: usize = header.length as usize;
        if length <= points || length > self.num_data - i {
            return None;
        }
        let segment = match kind {
            PathDataType::MoveTo => PathSegment::MoveTo(to_tuple(&self.data[i + 1])),
            PathDataType::LineTo => PathSegment::LineTo(to_tuple(&self.data[i + 1])),
            PathDataType::CurveTo => PathSegment::CurveTo(
                to_tuple(&self.data[i + 1]),
                to_tuple(&self.data[i + 2]),
                to_tuple(&self.data[i + 3]),
            ),
            PathDataType::ClosePath => PathSegment::ClosePath,
        };
        self.i = i + length;
        proof {
            let rest = decode_from(self.data@, self.num_data as int, i + length);
            assert((seq![segment] + rest).skip(1) =~= rest);
        }
        Some(segment)
    }

    /// Every segment that is still to come, in order. The decoder is spent
    /// afterwards.
    pub fn collect(&mut self) -> (all: Vec<PathSegment>)
        ensures
            all@ == old(self)@,
            final(self)@.len() == 0,
            final(self).records() == old(self).records(),
            final(self).total() == old(self).total(),
    {
        proof {
            use_type_invariant(&*self);
        }
        let mut all: Vec<PathSegment> = Vec::new();
        let ghost start = self@;
        loop
            invariant
                self.records() == old(self).records(),
                self.total() == old(self).total(),
                0 <= self.position() <= self.total(),
                all@ + self@ == start,
                start == old(self)@,
            ensures
                self@.len() == 0,
                all@ == start,
            decreases self.total() - self.position(),
        {
            let ghost before = self@;
            let ghost so_far = all@;
            match self.next() {
                Some(segment) => {
                    all.push(segment);
                    proof {
                        assert(so_far.push(segment) + before.skip(1) =~= so_far + before);
                    }
                },
                None => {
                    proof {
                        assert(all@ + self@ =~= all@);
                    }
                    break;
                },
            }
        }
        all
    }
}

} // verus!
