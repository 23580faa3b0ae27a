//! Filesystem errors that carry the path and the call site of the failed
//! operation, so that a failure can be traced without running it again.

use vstd::prelude::*;

verus! {

/// Declares `std::io::Error`, the platform's I/O error, so that it can be carried
/// as the cause of a failure. It stays opaque: nothing is assumed of its contents.
#[verifier::external_type_specification]
#[verifier::external_body]
pub struct ExIoError(std::io::Error);

/// A failed filesystem operation.
#[derive(Debug)]
pub enum FsWrapError {
    /// The platform call failed with `source` on `path`, in the operation
    /// `function` wrapped at `file`:`line`.
    IoError {
        source: std::io::Error,
        path: String,
        function: &'static str,
        file: &'static str,
        line: u32,
    },
}

impl FsWrapError {
    /// This error holds exactly the given cause, path and call site.
    pub open spec fn records(
        self,
        source: std::io::Error,
        path: Seq<char>,
        function: Seq<char>,
        file: Seq<char>,
        line: u32,
    ) -> bool {
        match self {
            FsWrapError::IoError { source: s, path: p, function: f, file: fl, line: l } => {
                &&& s == source
                &&& p@ == path
                &&& f@ == function
                &&& fl@ == file
                &&& l == line
            },
        }
    }

    /// Wraps the platform error `source` of the operation `function` on `path`,
    /// which was called at `file`:`line`.
    pub fn wrap_io_error(
        source: std::io::Error,
        path: &str,
        function: &'static str,
        file: &'static str,
        line: u32,
    ) -> (r: FsWrapError)
        ensures
            r.records(source, path@, function@, file@, line),
    {
        FsWrapError::IoError { source, path: path.to_owned(), function, file, line }
    }
}

/// The outcome of a wrapped operation: a success passes through unchanged, and
/// a failure becomes an error recording its cause, the path and the call site.
pub open spec fn wraps_outcome<T>(
    outcome: Result<T, std::io::Error>,
    r: Result<T, FsWrapError>,
    path: Seq<char>,
    function: Seq<char>,
    file: Seq<char>,
    line: u32,
) -> bool {
    match outcome {
        Ok(v) => r == Ok::<T, FsWrapError>(v),
        Err(e) => r is Err && r->Err_0.records(e, path, function, file, line),
    }
}

/// Finishes an open of `path` attempted by the operation `function` at
/// `file`:`line`.
pub fn wrap_file_open<T>(
    outcome: Result<T, std::io::Error>,
    path: &str,
    function: &'static str,
    file: &'static str,
    line: u32,
) -> (r: Result<T, FsWrapError>)
    ensures
        wraps_outcome(outcome, r, path@, function@, file@, line),
{
    match outcome {
        Ok(handle) => Ok(handle),
        Err(source) => Err(FsWrapError::wrap_io_error(source, path, function, file, line)),
    }
}

/// The location that the context-free conversion records as its call site.
pub const CONVERSION_FILE: &'static str = "src/fs_wrap_error.rs";

/// A platform error with no path or operation known. The error records an
/// empty path, and the conversion itself as both operation and call site,
/// not where the failure arose: prefer [`wrap_file_open`] where the path is
/// known.
impl From<std::io::Error> for FsWrapError {
    fn from(error: std::io::Error) -> (r: Self)
        ensures
            r.records(error, Seq::empty(), CONVERSION_FILE@, CONVERSION_FILE@, CONVERSION_LINE),
    {
        FsWrapError::IoError {
            source: error,
            path: String::new(),
            function: CONVERSION_FILE,
            file: CONVERSION_FILE,
            line: CONVERSION_LINE,
        }
    }
}

/// Two errors that record the same values may still differ as values (their
/// strings are compared only by content), so the conversion is described by
/// the `ensures` of `from`, and `from_spec` names one such error.
impl vstd::std_specs::convert::FromSpecImpl<std::io::Error> for FsWrapError {
    open spec fn obeys_from_spec() -> bool {
        false
    }

    open spec fn from_spec(error: std::io::Error) -> FsWrapError {
        choose|r: FsWrapError|
            r.records(error, Seq::empty(), CONVERSION_FILE@, CONVERSION_FILE@, CONVERSION_LINE)
    }
}

/// The line of this file that the context-free conversion records.
pub const CONVERSION_LINE: u32 = 111;

/// Files opened for reading, with failures reported as [`FsWrapError`].
pub struct File {}

impl File {
    /// Finishes opening `path` for reading, given what the platform's open
    /// returned: the handle on success, and otherwise an error that records
    /// the platform's error, `path` exactly as given, the operation `"open"`,
    /// and the call site `file`:`line` of the caller.
    pub fn open<T>(path: &str, outcome: Result<T, std::io::Error>, file: &'static str, line: u32) -> (r:
        Result<T, FsWrapError>)
        ensures
            wraps_outcome(outcome, r, path@, "open"@, file@, line),
    {
        wrap_file_open(outcome, path, "open", file, line)
    }
}

} // verus!
