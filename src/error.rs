//! Errors of reading counter files.
use std::path::PathBuf;
use vstd::prelude::*;

verus! {

/// An I/O failure, carried through unchanged.
#[verifier::external_type_specification]
#[verifier::external_body]
pub struct ExIoError(std::io::Error);

/// A modification time before the epoch, carried through unchanged.
#[verifier::external_type_specification]
#[verifier::external_body]
pub struct ExSystemTimeError(std::time::SystemTimeError);

/// The path of a counter file, carried into errors for diagnosis.
#[verifier::external_type_specification]
#[verifier::external_body]
pub struct ExPathBuf(PathBuf);

/// The errors of reading counter files.
#[derive(Debug)]
pub enum ErrorKind {
    /// An I/O failure.
    IoError(std::io::Error),
    /// A failure described by text alone.
    Stringy(String),
    /// A modification time that could not be expressed in seconds since the epoch.
    SysTime(std::time::SystemTimeError),
    /// A line of a counter file that is not a `u64`.
    ParseU64Error {
        /// The text of the line, without its terminator.
        input_value: String,
        /// The 0-based line, which is the ordinal of the field it was meant for.
        input_line: usize,
        /// The file that was being read.
        input_file: PathBuf,
    },
    /// A path given as a counter file is something that cannot be read as one,
    /// such as a directory.
    CacheLeafNonFile {
        /// The path.
        input_path: PathBuf,
    },
}

impl From<std::io::Error> for ErrorKind {
    fn from(e: std::io::Error) -> (r: ErrorKind)
        ensures
            r == ErrorKind::IoError(e),
    {
        ErrorKind::IoError(e)
    }
}

impl vstd::std_specs::convert::FromSpecImpl<std::io::Error> for ErrorKind {
    open spec fn obeys_from_spec() -> bool {
        true
    }

    open spec fn from_spec(e: std::io::Error) -> ErrorKind {
        ErrorKind::IoError(e)
    }
}

impl From<std::time::SystemTimeError> for ErrorKind {
    fn from(e: std::time::SystemTimeError) -> (r: ErrorKind)
        ensures
            r == ErrorKind::SysTime(e),
    {
        ErrorKind::SysTime(e)
    }
}

impl vstd::std_specs::convert::FromSpecImpl<std::time::SystemTimeError> for ErrorKind {
    open spec fn obeys_from_spec() -> bool {
        true
    }

    open spec fn from_spec(e: std::time::SystemTimeError) -> ErrorKind {
        ErrorKind::SysTime(e)
    }
}

} // verus!
