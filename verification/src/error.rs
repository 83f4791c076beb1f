use vstd::prelude::*;

verus! {

/// The error codes that zlib reports through gztool.
#[derive(Debug, Clone, Copy, PartialEq, Eq, Structural)]
pub enum ZlibError {
    Errno,
    StreamError,
    DataError,
    MemError,
    BufError,
    VersionError,
    UnknownError,
}

/// The variant that a zlib return code stands for: the codes -1 to -6 name
/// their errors, every other code is an unknown error.
pub open spec fn zlib_error_of(code: int) -> ZlibError {
    if code == -1 {
        ZlibError::Errno
    } else if code == -2 {
        ZlibError::StreamError
    } else if code == -3 {
        ZlibError::DataError
    } else if code == -4 {
        ZlibError::MemError
    } else if code == -5 {
        ZlibError::BufError
    } else if code == -6 {
        ZlibError::VersionError
    } else {
        ZlibError::UnknownError
    }
}

/// The code that stands for each variant; the unknown error has code 0.
pub open spec fn zlib_code_of(e: ZlibError) -> int {
    match e {
        ZlibError::Errno => -1,
        ZlibError::StreamError => -2,
        ZlibError::DataError => -3,
        ZlibError::MemError => -4,
        ZlibError::BufError => -5,
        ZlibError::VersionError => -6,
        ZlibError::UnknownError => 0,
    }
}

impl ZlibError {
    /// The zlib code of this error (0 for an unknown error).
    pub fn code(&self) -> (c: i32)
        ensures
            c == zlib_code_of(*self),
            -6 <= c <= 0,
            c == 0 <==> *self == ZlibError::UnknownError,
    {
        match self {
            ZlibError::Errno => -1,
            ZlibError::StreamError => -2,
            ZlibError::DataError => -3,
            ZlibError::MemError => -4,
            ZlibError::BufError => -5,
            ZlibError::VersionError => -6,
            ZlibError::UnknownError => 0,
        }
    }
}

/// The text by which each error is shown.
pub open spec fn zlib_message(e: ZlibError) -> Seq<char> {
    match e {
        ZlibError::Errno => "Errno"@,
        ZlibError::StreamError => "Stream error"@,
        ZlibError::DataError => "Data error"@,
        ZlibError::MemError => "Memory error"@,
        ZlibError::BufError => "Buffer error"@,
        ZlibError::VersionError => "VersionError"@,
        ZlibError::UnknownError => "Unknown Error"@,
    }
}

impl ZlibError {
    /// The text by which this error is shown.
    pub fn message(&self) -> (m: &'static str)
        ensures
            m@ == zlib_message(*self),
    {
        match self {
            ZlibError::Errno => "Errno",
            ZlibError::StreamError => "Stream error",
            ZlibError::DataError => "Data error",
            ZlibError::MemError => "Memory error",
            ZlibError::BufError => "Buffer error",
            ZlibError::VersionError => "VersionError",
            ZlibError::UnknownError => "Unknown Error",
        }
    }
}

impl From<i32> for ZlibError {
    fn from(value: i32) -> (e: Self)
        ensures
            value == -1 ==> e == ZlibError::Errno,
            value == -2 ==> e == ZlibError::StreamError,
            value == -3 ==> e == ZlibError::DataError,
            value == -4 ==> e == ZlibError::MemError,
            value == -5 ==> e == ZlibError::BufError,
            value == -6 ==> e == ZlibError::VersionError,
            value < -6 || value > -1 ==> e == ZlibError::UnknownError,
    {
        if value == -1 {
            ZlibError::Errno
        } else if value == -2 {
            ZlibError::StreamError
        } else if value == -3 {
            ZlibError::DataError
        } else if value == -4 {
            ZlibError::MemError
        } else if value == -5 {
            ZlibError::BufError
        } else if value == -6 {
            ZlibError::VersionError
        } else {
            ZlibError::UnknownError
        }
    }
}

impl vstd::std_specs::convert::FromSpecImpl<i32> for ZlibError {
    open spec fn obeys_from_spec() -> bool {
        true
    }

    open spec fn from_spec(v: i32) -> ZlibError {
        zlib_error_of(v as int)
    }
}

/// Reading back the code of an error gives the same error.
pub proof fn lemma_zlib_code_round_trip(e: ZlibError)
    ensures
        zlib_error_of(zlib_code_of(e)) == e,
{
}

/// A code from -6 to -1 is the code of the error it is read as; any other
/// code is read as an unknown error.
pub proof fn lemma_zlib_error_code_round_trip(code: int)
    ensures
        -6 <= code <= -1 ==> zlib_code_of(zlib_error_of(code)) == code,
        !(-6 <= code <= -1) ==> zlib_error_of(code) == ZlibError::UnknownError,
{
}

/// Errors of the gztool wrapper.
#[derive(Debug)]
pub enum GzToolError {
    Io(std::io::Error),
    /// A string handed to C held a NUL byte at `position`; `bytes` is the
    /// string.
    Ffi { position: usize, bytes: Vec<u8> },
    IndexFileError(std::path::PathBuf),
    PathToStringError(std::path::PathBuf),
    ZlibError(ZlibError),
}

pub type GzToolResult<T> = Result<T, GzToolError>;

/// std's `std::io::Error`, carried through unread.
#[verifier::external_type_specification]
#[verifier::external_body]
pub struct ExIoError(std::io::Error);

/// std's `std::path::PathBuf`, carried through unread.
#[verifier::external_type_specification]
#[verifier::external_body]
pub struct ExPathBuf(std::path::PathBuf);

} // verus!
