use cairo::enums::{PathDataType, Status};
use cairo::paths::{to_tuple, Path, PathRecord, PathSegment, PathSegments};

fn pt(x: f64, y: f64) -> PathRecord {
    PathRecord::point(x.to_bits(), y.to_bits())
}

fn bits(x: f64, y: f64) -> (u64, u64) {
    (x.to_bits(), y.to_bits())
}

fn sample() -> Vec<PathRecord> {
    vec![
        PathRecord::header(PathDataType::MoveTo, 2),
        pt(0.0, 0.0),
        PathRecord::header(PathDataType::LineTo, 2),
        pt(10.0, 10.0),
        PathRecord::header(PathDataType::CurveTo, 4),
        pt(1.0, 1.0),
        pt(2.0, 2.0),
        pt(3.0, 3.0),
        PathRecord::header(PathDataType::ClosePath, 1),
    ]
}

#[test]
fn decodes_the_four_kinds_in_order() {
    let path = Path::new(Status::Success, sample());
    let segments = path.segments();
    assert_eq!(
        segments,
        vec![
            PathSegment::MoveTo(bits(0.0, 0.0)),
            PathSegment::LineTo(bits(10.0, 10.0)),
            PathSegment::CurveTo(bits(1.0, 1.0), bits(2.0, 2.0), bits(3.0, 3.0)),
            PathSegment::ClosePath,
        ]
    );
}

#[test]
fn coordinates_survive_as_doubles() {
    let path = Path::new(Status::Success, sample());
    match path.segments()[1] {
        PathSegment::LineTo((x, y)) => {
            assert_eq!(f64::from_bits(x), 10.0);
            assert_eq!(f64::from_bits(y), 10.0);
        }
        other => panic!("unexpected segment {:?}", other),
    }
}

#[test]
fn empty_buffer_yields_no_segments() {
    let path = Path::new(Status::Success, Vec::new());
    assert_eq!(path.segments(), Vec::new());
    let mut decoder = path.iter();
    assert_eq!(decoder.next(), None);
    assert_eq!(decoder.next(), None);
}

#[test]
fn next_is_single_pass() {
    let path = Path::new(Status::Success, sample());
    let mut decoder = path.iter();
    assert_eq!(decoder.next(), Some(PathSegment::MoveTo(bits(0.0, 0.0))));
    assert_eq!(decoder.next(), Some(PathSegment::LineTo(bits(10.0, 10.0))));
    let rest = decoder.collect();
    assert_eq!(rest.len(), 2);
    assert_eq!(rest[1], PathSegment::ClosePath);
    assert_eq!(decoder.next(), None);
    assert_eq!(decoder.collect(), Vec::new());
}

#[test]
fn declared_count_bounds_decoding() {
    let mut decoder = PathSegments::new(sample(), 4);
    assert_eq!(
        decoder.collect(),
        vec![
            PathSegment::MoveTo(bits(0.0, 0.0)),
            PathSegment::LineTo(bits(10.0, 10.0)),
        ]
    );
}

#[test]
fn declared_count_beyond_buffer_is_clamped() {
    let mut decoder = PathSegments::new(sample(), 1000);
    assert_eq!(decoder.collect().len(), 4);
}

#[test]
fn segment_reaching_past_the_end_stops_decoding() {
    let data = vec![
        PathRecord::header(PathDataType::MoveTo, 2),
        pt(5.0, 6.0),
        PathRecord::header(PathDataType::CurveTo, 4),
        pt(1.0, 1.0),
    ];
    let path = Path::new(Status::Success, data);
    assert_eq!(path.segments(), vec![PathSegment::MoveTo(bits(5.0, 6.0))]);
}

#[test]
fn header_without_room_for_its_points_stops_decoding() {
    let data = vec![
        PathRecord::header(PathDataType::ClosePath, 1),
        PathRecord::header(PathDataType::LineTo, 1),
        pt(1.0, 1.0),
    ];
    assert_eq!(Path::new(Status::Success, data).segments(), vec![PathSegment::ClosePath]);
    let zero = vec![PathRecord::header(PathDataType::ClosePath, 0)];
    assert_eq!(Path::new(Status::Success, zero).segments(), Vec::new());
    let negative = vec![PathRecord::header(PathDataType::ClosePath, -1)];
    assert_eq!(Path::new(Status::Success, negative).segments(), Vec::new());
}

#[test]
fn unknown_kind_stops_decoding() {
    let data = vec![
        PathRecord::header(PathDataType::ClosePath, 1),
        PathRecord { data_type: 9, length: 1, x: 0, y: 0 },
        PathRecord::header(PathDataType::ClosePath, 1),
    ];
    assert_eq!(Path::new(Status::Success, data).segments(), vec![PathSegment::ClosePath]);
}

#[test]
fn longer_declared_length_skips_the_extra_records() {
    let data = vec![
        PathRecord::header(PathDataType::MoveTo, 3),
        pt(7.0, 8.0),
        pt(99.0, 99.0),
        PathRecord::header(PathDataType::ClosePath, 1),
    ];
    assert_eq!(
        Path::new(Status::Success, data).segments(),
        vec![PathSegment::MoveTo(bits(7.0, 8.0)), PathSegment::ClosePath]
    );
}

#[test]
fn path_status_is_checked() {
    assert_eq!(Path::new(Status::Success, Vec::new()).ensure_status(), Ok(()));
    assert_eq!(
        Path::new(Status::NoMemory, Vec::new()).ensure_status(),
        Err(Status::NoMemory)
    );
    assert_eq!(Path::new(Status::InvalidPathData, Vec::new()).status(), Status::InvalidPathData);
}

#[test]
fn record_readings() {
    let record = pt(1.5, -2.5);
    assert_eq!(to_tuple(&record), bits(1.5, -2.5));
    assert_eq!(PathDataType::from_code(2), Some(PathDataType::CurveTo));
    assert_eq!(PathDataType::from_code(4), None);
    assert_eq!(PathDataType::from_code(-1), None);
    assert_eq!(PathDataType::CurveTo.code(), 2);
    assert_eq!(PathDataType::CurveTo.points(), 3);
    assert_eq!(PathDataType::ClosePath.points(), 0);
}
