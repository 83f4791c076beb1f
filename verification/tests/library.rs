use gztool::{
    extraction_outcome, extraction_params, Access, BuildIndexOption, ExtractionParams,
    GzToolError, IndexAndExtractionOption, Point, VerbosityLevel, ZlibError, DEFAULT_SPAN,
};

fn points_every(step: u64, count: u64) -> Vec<Point> {
    let mut v = Vec::new();
    for i in 0..count {
        v.push(Point::new(i * step, i * step / 3 + 10, (i % 8) as u32, 1000 + i * 64, 32 + i as u32));
    }
    v
}

#[test]
fn zlib_error_from_known_codes() {
    assert_eq!(ZlibError::from(-1), ZlibError::Errno);
    assert_eq!(ZlibError::from(-2), ZlibError::StreamError);
    assert_eq!(ZlibError::from(-3), ZlibError::DataError);
    assert_eq!(ZlibError::from(-4), ZlibError::MemError);
    assert_eq!(ZlibError::from(-5), ZlibError::BufError);
    assert_eq!(ZlibError::from(-6), ZlibError::VersionError);
}

#[test]
fn zlib_error_from_unknown_codes() {
    assert_eq!(ZlibError::from(0), ZlibError::UnknownError);
    assert_eq!(ZlibError::from(1), ZlibError::UnknownError);
    assert_eq!(ZlibError::from(-7), ZlibError::UnknownError);
    assert_eq!(ZlibError::from(i32::MIN), ZlibError::UnknownError);
    assert_eq!(ZlibError::from(i32::MAX), ZlibError::UnknownError);
}

#[test]
fn zlib_error_code_round_trip() {
    let all = [
        ZlibError::Errno,
        ZlibError::StreamError,
        ZlibError::DataError,
        ZlibError::MemError,
        ZlibError::BufError,
        ZlibError::VersionError,
        ZlibError::UnknownError,
    ];
    let codes = [-1, -2, -3, -4, -5, -6, 0];
    for (e, c) in all.iter().zip(codes.iter()) {
        assert_eq!(e.code(), *c);
        assert_eq!(ZlibError::from(e.code()), *e);
    }
    for c in -6..=-1 {
        assert_eq!(ZlibError::from(c).code(), c);
    }
}

#[test]
fn zlib_error_messages() {
    assert_eq!(ZlibError::Errno.message(), "Errno");
    assert_eq!(ZlibError::StreamError.message(), "Stream error");
    assert_eq!(ZlibError::DataError.message(), "Data error");
    assert_eq!(ZlibError::MemError.message(), "Memory error");
    assert_eq!(ZlibError::BufError.message(), "Buffer error");
    assert_eq!(ZlibError::VersionError.message(), "VersionError");
    assert_eq!(ZlibError::UnknownError.message(), "Unknown Error");
}

#[test]
fn verbosity_level_values() {
    assert_eq!(u32::from(VerbosityLevel::Silent), 0);
    assert_eq!(u32::from(VerbosityLevel::Normal), 1);
    assert_eq!(u32::from(VerbosityLevel::Excessive), 2);
    assert_eq!(u32::from(VerbosityLevel::Maniac), 3);
    assert_eq!(u32::from(VerbosityLevel::Crazy), 4);
    assert_eq!(u32::from(VerbosityLevel::Nuts), 5);
}

fn fixed_fields_hold(p: &ExtractionParams) {
    assert_eq!(p.line_number_offset, 0);
    assert_eq!(p.end_on_first_proper_gzip_eof, 0);
    assert_eq!(p.always_create_a_complete_index, 0);
    assert_eq!(p.waiting_time, 4);
    assert_eq!(p.extend_index_with_lines, 0);
    assert_eq!(p.gzip_stream_may_be_damaged, 0);
    assert!(!p.lazy_gzip_stream_patching_at_eof);
    assert_eq!(p.range_number_of_lines, 0);
    assert!(!p.adjust_index_points_to_byte_boundary);
    assert!(!p.continue_tailing_on_eof);
}

#[test]
fn extraction_params_create_index() {
    let (p, access) = extraction_params::<Access>(Some(1024 * 1024), BuildIndexOption::CreateIndex);
    assert!(access.is_none());
    assert_eq!(p.span, 1024 * 1024);
    assert_eq!(p.indx_n_extraction_opts, IndexAndExtractionOption::JustCreateIndex);
    assert_eq!(p.offset, 0);
    assert_eq!(p.range_number_of_bytes, 0);
    assert_eq!(p.write_index_to_disk, 1);
    assert_eq!(p.expected_first_byte, 1);
    fixed_fields_hold(&p);
}

#[test]
fn extraction_params_default_span() {
    let (p, _) = extraction_params::<Access>(None, BuildIndexOption::CreateIndex);
    assert_eq!(p.span, DEFAULT_SPAN);
    assert_eq!(p.span, 10_485_760);
}

#[test]
fn extraction_params_decompress_range() {
    let access = Access::new(Some(points_every(1 << 20, 3)));
    let (p, handed) = extraction_params(
        Some(1024 * 1024),
        BuildIndexOption::Decompress {
            starting_decompressed_byte: 5_000_000,
            decompressed_size: Some(2_000_000),
            starting_compressed_byte: Some(1_234),
            access,
        },
    );
    assert_eq!(p.indx_n_extraction_opts, IndexAndExtractionOption::ExtractFromByte);
    assert_eq!(p.offset, 5_000_000);
    assert_eq!(p.range_number_of_bytes, 2_000_000);
    assert_eq!(p.expected_first_byte, 1_234);
    assert_eq!(p.write_index_to_disk, 0);
    assert_eq!(p.span, 1024 * 1024);
    fixed_fields_hold(&p);
    let handed = handed.expect("the index goes with the call");
    assert_eq!(handed.list_iter().unwrap().collect_points(), points_every(1 << 20, 3));
}

#[test]
fn extraction_params_decompress_defaults() {
    let (p, handed) = extraction_params(
        None,
        BuildIndexOption::Decompress {
            starting_decompressed_byte: 7,
            decompressed_size: None,
            starting_compressed_byte: None,
            access: 42u8,
        },
    );
    assert_eq!(handed, Some(42u8));
    assert_eq!(p.offset, 7);
    assert_eq!(p.range_number_of_bytes, 0);
    assert_eq!(p.expected_first_byte, 1);
    assert_eq!(p.span, DEFAULT_SPAN);
}

#[test]
fn extraction_outcome_success() {
    let out = extraction_outcome(0, vec![1, 2, 3]).unwrap();
    assert_eq!(out, vec![1, 2, 3]);
    let out = extraction_outcome(17, vec![]).unwrap();
    assert!(out.is_empty());
}

#[test]
fn extraction_outcome_errors() {
    for (code, expected) in [
        (-1, ZlibError::Errno),
        (-2, ZlibError::StreamError),
        (-3, ZlibError::DataError),
        (-4, ZlibError::MemError),
        (-5, ZlibError::BufError),
        (-6, ZlibError::VersionError),
        (-100, ZlibError::UnknownError),
    ] {
        match extraction_outcome(code, vec![9, 9]) {
            Err(GzToolError::ZlibError(e)) => assert_eq!(e, expected),
            other => panic!("unexpected outcome {:?}", other),
        }
    }
}

#[test]
fn point_fields() {
    let p = Point::new(5_000_000, 1_700_000, 3, 4096, 512);
    assert_eq!(p.decompressed_index(), 5_000_000);
    assert_eq!(p.compressed_index(), 1_700_000);
    assert_eq!(p.bits(), 3);
    assert_eq!(p.window_beginning(), 4096);
    assert_eq!(p.window_size(), 512);
}

#[test]
fn access_without_index_has_no_points() {
    let access = Access::new(None);
    assert!(access.list_iter().is_none());
}

#[test]
fn point_iter_walks_points_in_order() {
    let points = points_every(1000, 4);
    let access = Access::new(Some(points.clone()));
    let mut it = access.list_iter().expect("index present");
    for p in &points {
        assert_eq!(it.next(), Some(*p));
    }
    assert_eq!(it.next(), None);
    assert_eq!(it.next(), None);
    // The index is unchanged and can be walked again.
    assert_eq!(access.list_iter().unwrap().collect_points(), points);
}

#[test]
fn point_iter_collects_what_is_left() {
    let points = points_every(10, 5);
    let access = Access::new(Some(points.clone()));
    let mut it = access.list_iter().unwrap();
    it.next();
    it.next();
    assert_eq!(it.collect_points(), points[2..].to_vec());
    let empty = Access::new(Some(Vec::new()));
    assert_eq!(empty.list_iter().unwrap().next(), None);
}

/// Finds, as a reader of an index does, the last point before a range and
/// the first point after it, and the decompress arguments that cover it.
#[test]
fn windows_around_a_range() {
    let bytes_start: u64 = 5_000_000;
    let bytes_end: u64 = 7_000_000;
    let access = Access::new(Some(points_every(1024 * 1024, 12)));
    let nums: Vec<(u64, u64)> = access
        .list_iter()
        .unwrap()
        .collect_points()
        .iter()
        .map(|p| (p.decompressed_index(), p.compressed_index()))
        .collect();
    let mut before = None;
    let mut after = None;
    for &(d, c) in &nums {
        if d < bytes_start {
            before = Some((d, c));
        }
        if d > bytes_end {
            after = Some((d, c));
            break;
        }
    }
    let (d_start, c_start) = before.unwrap();
    let (d_end, _) = after.unwrap();
    assert_eq!(d_start, 4 * 1024 * 1024);
    assert_eq!(c_start, 4 * 1024 * 1024 / 3 + 10);
    assert_eq!(d_end, 7 * 1024 * 1024);
    let (p, _) = extraction_params(
        Some(1024 * 1024),
        BuildIndexOption::Decompress {
            starting_decompressed_byte: d_start,
            decompressed_size: Some(d_end - d_start),
            starting_compressed_byte: Some(c_start),
            access,
        },
    );
    assert_eq!(p.offset, d_start);
    assert_eq!(p.range_number_of_bytes, 3 * 1024 * 1024);
    assert_eq!(p.expected_first_byte, c_start);
}
