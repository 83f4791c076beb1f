//! Verified core of a wrapper around gztool: the error codes that zlib
//! reports, the verbosity levels, the access points of a `.gzi` index, and
//! the plan of arguments and the reading of the result of one call of
//! gztool's `decompress_and_build_index`.

mod error;
mod extraction;
mod index;
mod verbosity;

pub use error::{GzToolError, GzToolResult, ZlibError};
pub use extraction::{
    extraction_outcome, extraction_params, BuildIndexOption, ExtractionParams,
    IndexAndExtractionOption, DEFAULT_SPAN,
};
pub use index::{Access, Point, PointIter, PointView};
pub use verbosity::VerbosityLevel;
