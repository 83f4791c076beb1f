use vstd::prelude::*;

use crate::error::{zlib_code_of, zlib_error_of, GzToolError, GzToolResult, ZlibError};

verus! {

/// The span between access points that an index gets when none is asked
/// for: 10 MiB.
pub const DEFAULT_SPAN: u64 = 10_485_760;

/// What gztool is asked to do (its `INDEX_AND_EXTRACTION_OPTIONS`, as far
/// as this library uses them).
#[derive(Debug, Clone, Copy, PartialEq, Eq, Structural)]
pub enum IndexAndExtractionOption {
    /// Build an index and write it to disk (`JUST_CREATE_INDEX`).
    JustCreateIndex,
    /// Decompress from a byte offset with an index (`EXTRACT_FROM_BYTE`).
    ExtractFromByte,
}

/// What one run of gztool does: build an index, or decompress a range of
/// bytes with the help of an index `A`.
pub enum BuildIndexOption<A> {
    CreateIndex,
    Decompress {
        starting_decompressed_byte: u64,
        decompressed_size: Option<u64>,
        starting_compressed_byte: Option<u64>,
        access: A,
    },
}

/// The plain arguments of one call of gztool's `decompress_and_build_index`.
#[derive(Debug, Clone, Copy, PartialEq, Eq, Structural)]
pub struct ExtractionParams {
    pub span: u64,
    pub indx_n_extraction_opts: IndexAndExtractionOption,
    pub offset: u64,
    pub line_number_offset: u64,
    pub write_index_to_disk: i32,
    pub end_on_first_proper_gzip_eof: i32,
    pub always_create_a_complete_index: i32,
    pub waiting_time: i32,
    pub extend_index_with_lines: i32,
    pub expected_first_byte: u64,
    pub gzip_stream_may_be_damaged: i32,
    pub lazy_gzip_stream_patching_at_eof: bool,
    pub range_number_of_bytes: u64,
    pub range_number_of_lines: u64,
    pub adjust_index_points_to_byte_boundary: bool,
    pub continue_tailing_on_eof: bool,
}

/// The arguments of the call for a span and a task. The span falls back to
/// `DEFAULT_SPAN`. Building an index starts at byte 0 of the stream, reads
/// it all, writes the index to disk and expects the stream at compressed
/// byte 1; decompressing starts at the given decompressed byte, reads the
/// given number of bytes (0: to the end), writes no index, and expects the
/// given compressed byte (1 when none is given). Everything else is fixed:
/// no line numbers, no tailing, a waiting time of 4, an index that need not
/// be complete and a stream that is taken as undamaged.
pub open spec fn call_params<A>(span: Option<u64>, option: BuildIndexOption<A>) -> ExtractionParams {
    let span = match span {
        Some(s) => s,
        None => DEFAULT_SPAN,
    };
    let (opts, offset, range, write, first) = match option {
        BuildIndexOption::CreateIndex => (
            IndexAndExtractionOption::JustCreateIndex,
            0u64,
            0u64,
            1i32,
            1u64,
        ),
        BuildIndexOption::Decompress {
            starting_decompressed_byte,
            decompressed_size,
            starting_compressed_byte,
            ..
        } => (
            IndexAndExtractionOption::ExtractFromByte,
            starting_decompressed_byte,
            match decompressed_size {
                Some(n) => n,
                None => 0u64,
            },
            0i32,
            match starting_compressed_byte {
                Some(b) => b,
                None => 1u64,
            },
        ),
    };
    ExtractionParams {
        span,
        indx_n_extraction_opts: opts,
        offset,
        line_number_offset: 0,
        write_index_to_disk: write,
        end_on_first_proper_gzip_eof: 0,
        always_create_a_complete_index: 0,
        waiting_time: 4,
        extend_index_with_lines: 0,
        expected_first_byte: first,
        gzip_stream_may_be_damaged: 0,
        lazy_gzip_stream_patching_at_eof: false,
        range_number_of_bytes: range,
        range_number_of_lines: 0,
        adjust_index_points_to_byte_boundary: false,
        continue_tailing_on_eof: false,
    }
}

/// The index that a task hands to gztool: none for building one.
pub open spec fn call_access<A>(option: BuildIndexOption<A>) -> Option<A> {
    match option {
        BuildIndexOption::CreateIndex => None,
        BuildIndexOption::Decompress { access, .. } => Some(access),
    }
}

/// Building an index, whatever the span, asks gztool to build it from the
/// start of the stream (compressed byte 1, decompressed byte 0, the whole
/// stream), to write it to disk, and hands it no index.
pub proof fn lemma_create_index_writes_index<A>(span: Option<u64>)
    ensures
        call_params(span, BuildIndexOption::<A>::CreateIndex).indx_n_extraction_opts
            == IndexAndExtractionOption::JustCreateIndex,
        call_params(span, BuildIndexOption::<A>::CreateIndex).write_index_to_disk == 1,
        call_params(span, BuildIndexOption::<A>::CreateIndex).offset == 0,
        call_params(span, BuildIndexOption::<A>::CreateIndex).range_number_of_bytes == 0,
        call_params(span, BuildIndexOption::<A>::CreateIndex).expected_first_byte == 1,
        call_access(BuildIndexOption::<A>::CreateIndex) is None,
{
}

/// Every decompression, whatever its size and compressed start, asks gztool
/// to extract from the requested decompressed byte, writes no index, and
/// hands gztool the index it was given.
pub proof fn lemma_decompress_extracts_from_byte<A>(
    span: Option<u64>,
    start: u64,
    size: Option<u64>,
    first: Option<u64>,
    access: A,
)
    ensures
        ({
            let option = BuildIndexOption::Decompress {
                starting_decompressed_byte: start,
                decompressed_size: size,
                starting_compressed_byte: first,
                access,
            };
            &&& call_params(span, option).indx_n_extraction_opts
                == IndexAndExtractionOption::ExtractFromByte
            &&& call_params(span, option).offset == start
            &&& call_params(span, option).write_index_to_disk == 0
            &&& call_access(option) == Some(access)
        }),
{
}

/// A decompression asks gztool for exactly the requested number of bytes,
/// and for the rest of the stream (0) only when no size is given, whatever
/// the compressed start.
pub proof fn lemma_decompress_reads_requested_size<A>(
    span: Option<u64>,
    start: u64,
    size: Option<u64>,
    first: Option<u64>,
    access: A,
)
    ensures
        ({
            let p = call_params(
                span,
                BuildIndexOption::Decompress {
                    starting_decompressed_byte: start,
                    decompressed_size: size,
                    starting_compressed_byte: first,
                    access,
                },
            );
            &&& (size matches Some(n) ==> p.range_number_of_bytes == n)
            &&& (size is None ==> p.range_number_of_bytes == 0)
        }),
{
}

/// A decompression tells gztool at which compressed byte its data starts:
/// the given one, or byte 1 (the start of the stream) when none is given,
/// whatever the size.
pub proof fn lemma_decompress_starts_at_given_byte<A>(
    span: Option<u64>,
    start: u64,
    size: Option<u64>,
    first: Option<u64>,
    access: A,
)
    ensures
        ({
            let p = call_params(
                span,
                BuildIndexOption::Decompress {
                    starting_decompressed_byte: start,
                    decompressed_size: size,
                    starting_compressed_byte: first,
                    access,
                },
            );
            &&& (first matches Some(b) ==> p.expected_first_byte == b)
            &&& (first is None ==> p.expected_first_byte == 1)
        }),
{
}

/// The span is the one asked for, or 10 MiB when none is, whatever the task.
pub proof fn lemma_span_is_requested_or_default<A>(span: Option<u64>, option: BuildIndexOption<A>)
    ensures
        span matches Some(s) ==> call_params(span, option).span == s,
        span is None ==> call_params(span, option).span == 10_485_760,
{
}

/// The arguments of the call of `decompress_and_build_index` that builds an
/// index or decompresses a range, and the index it is handed.
pub fn extraction_params<A>(span: Option<u64>, option: BuildIndexOption<A>) -> (r: (
    ExtractionParams,
    Option<A>,
))
    ensures
        r.0 == call_params(span, option),
        r.1 == call_access(option),
        span matches Some(s) ==> r.0.span == s,
        span is None ==> r.0.span == 10_485_760,
        option is CreateIndex ==> {
            &&& r.0.indx_n_extraction_opts == IndexAndExtractionOption::JustCreateIndex
            &&& r.0.offset == 0
            &&& r.0.range_number_of_bytes == 0
            &&& r.0.write_index_to_disk == 1
            &&& r.0.expected_first_byte == 1
            &&& r.1 is None
        },
        option matches BuildIndexOption::Decompress {
            starting_decompressed_byte,
            decompressed_size,
            starting_compressed_byte,
            access,
        } ==> {
            &&& r.0.indx_n_extraction_opts == IndexAndExtractionOption::ExtractFromByte
            &&& r.0.offset == starting_decompressed_byte
            &&& (decompressed_size matches Some(n) ==> r.0.range_number_of_bytes == n)
            &&& (decompressed_size is None ==> r.0.range_number_of_bytes == 0)
            &&& r.0.write_index_to_disk == 0
            &&& (starting_compressed_byte matches Some(b) ==> r.0.expected_first_byte == b)
            &&& (starting_compressed_byte is None ==> r.0.expected_first_byte == 1)
            &&& r.1 == Some(access)
        },
        r.0.line_number_offset == 0,
        r.0.end_on_first_proper_gzip_eof == 0,
        r.0.always_create_a_complete_index == 0,
        r.0.waiting_time == 4,
        r.0.extend_index_with_lines == 0,
        r.0.gzip_stream_may_be_damaged == 0,
        !r.0.lazy_gzip_stream_patching_at_eof,
        r.0.range_number_of_lines == 0,
        !r.0.adjust_index_points_to_byte_boundary,
        !r.0.continue_tailing_on_eof,
{
    let (indx_n_extraction_opts, offset, range_number_of_bytes, write_index_to_disk, access, expected_first_byte) =
        match option {
        BuildIndexOption::CreateIndex => (
            IndexAndExtractionOption::JustCreateIndex,
            0u64,
            0u64,
            1i32,
            None,
            1u64,
        ),
        BuildIndexOption::Decompress {
            starting_decompressed_byte,
            decompressed_size,
            starting_compressed_byte,
            access,
        } => (
            IndexAndExtractionOption::ExtractFromByte,
            starting_decompressed_byte,
            match decompressed_size {
                Some(n) => n,
                None => 0u64,
            },
            0i32,
            Some(access),
            match starting_compressed_byte {
                Some(b) => b,
                None => 1u64,
            },
        ),
    };
    let span = match span {
        Some(s) => s,
        None => DEFAULT_SPAN,
    };
    let params = ExtractionParams {
        span,
        indx_n_extraction_opts,
        offset,
        line_number_offset: 0,
        write_index_to_disk,
        end_on_first_proper_gzip_eof: 0,
        always_create_a_complete_index: 0,
        waiting_time: 4,
        extend_index_with_lines: 0,
        expected_first_byte,
        gzip_stream_may_be_damaged: 0,
        lazy_gzip_stream_patching_at_eof: false,
        range_number_of_bytes,
        range_number_of_lines: 0,
        adjust_index_points_to_byte_boundary: false,
        continue_tailing_on_eof: false,
    };
    (params, access)
}

/// What a call of `decompress_and_build_index` comes to, from the error
/// code it returned and the bytes it wrote: the bytes where the code is not
/// negative, else the zlib error that the code stands for.
pub fn extraction_outcome(error: i32, output: Vec<u8>) -> (r: GzToolResult<Vec<u8>>)
    ensures
        error >= 0 ==> (r matches Ok(v) && v@ == output@),
        error < 0 ==> (r matches Err(GzToolError::ZlibError(e)) && e == zlib_error_of(error as int)),
        error < 0 ==> (r matches Err(GzToolError::ZlibError(e)) && (-6 <= error <= -1 ==> zlib_code_of(e)
            == error) && (error < -6 ==> e == ZlibError::UnknownError)),
{
    if error >= 0 {
        Ok(output)
    } else {
        Err(GzToolError::ZlibError(ZlibError::from(error)))
    }
}

} // verus!
