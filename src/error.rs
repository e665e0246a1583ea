use vstd::prelude::*;

verus! {

/// How a failed operation is reported to its caller.
#[derive(Clone, Copy, Debug, PartialEq, Eq, Hash, Structural)]
pub enum ErrorKind {
    /// A path that is not valid text.
    InvalidPath,
    /// A path that does not exist.
    NotFound,
    /// A destination that already exists.
    Exists,
    /// Access was refused.
    NoAccess,
    /// Anything else; the message says what.
    Other,
}

/// A failure: its class and a message for diagnostics.
#[derive(Debug)]
pub struct Error {
    pub kind: ErrorKind,
    pub message: String,
}

/// The classes of failure that the filesystem layer reports.
#[derive(Clone, Copy, Debug, PartialEq, Eq, Hash, Structural)]
pub enum FsErrorKind {
    NotFound,
    PermissionDenied,
    AlreadyExists,
    Interrupted,
    InvalidFolder,
    InvalidFile,
    InvalidFileName,
    InvalidPath,
    Io,
    StripPrefix,
    OsString,
    Other,
}

/// A failure as the filesystem layer reported it, with its message.
#[derive(Debug)]
pub struct FsError {
    pub kind: FsErrorKind,
    pub message: String,
}

/// The class under which a failed query is reported.
pub open spec fn query_error_kind(k: FsErrorKind) -> ErrorKind {
    match k {
        FsErrorKind::NotFound => ErrorKind::NotFound,
        _ => ErrorKind::Other,
    }
}

/// The class under which a failed copy or move is reported.
pub open spec fn transfer_error_kind(k: FsErrorKind) -> ErrorKind {
    match k {
        FsErrorKind::NotFound => ErrorKind::NotFound,
        FsErrorKind::AlreadyExists => ErrorKind::Exists,
        FsErrorKind::PermissionDenied => ErrorKind::NoAccess,
        FsErrorKind::OsString => ErrorKind::InvalidPath,
        _ => ErrorKind::Other,
    }
}

impl Error {
    /// The report of a failed query: not-found stays not-found, everything
    /// else is `Other`; the message is kept verbatim.
    pub fn from_query_failure(f: FsError) -> (r: Error)
        ensures
            r.kind == query_error_kind(f.kind),
            r.message@ == f.message@,
    {
        let kind = match f.kind {
            FsErrorKind::NotFound => ErrorKind::NotFound,
            _ => ErrorKind::Other,
        };
        Error { kind, message: f.message }
    }

    /// The report of a failed copy or move; the message is kept verbatim.
    pub fn from_transfer_failure(f: FsError) -> (r: Error)
        ensures
            r.kind == transfer_error_kind(f.kind),
            r.message@ == f.message@,
    {
        let kind = match f.kind {
            FsErrorKind::NotFound => ErrorKind::NotFound,
            FsErrorKind::AlreadyExists => ErrorKind::Exists,
            FsErrorKind::PermissionDenied => ErrorKind::NoAccess,
            FsErrorKind::OsString => ErrorKind::InvalidPath,
            _ => ErrorKind::Other,
        };
        Error { kind, message: f.message }
    }
}

/// The text that `bytes` encode in UTF-8, or `None` where they are not UTF-8.
pub uninterp spec fn utf8_text(bytes: Seq<u8>) -> Option<Seq<char>>;

/// Relies on std::str::from_utf8: it accepts exactly the valid UTF-8 byte
/// sequences and yields the text they encode.
#[verifier::external_body]
fn decode_utf8(bytes: &[u8]) -> (r: Option<String>)
    ensures
        match r {
            Some(s) => utf8_text(bytes@) == Some(s@),
            None => utf8_text(bytes@) is None,
        },
{
    match std::str::from_utf8(bytes) {
        Ok(s) => Some(s.to_string()),
        Err(_) => None,
    }
}

/// Decodes a path given as bytes. A path that is not UTF-8 text fails with
/// `InvalidPath` and the message `what`.
pub fn decode_path(bytes: &Vec<u8>, what: &str) -> (r: Result<String, Error>)
    ensures
        match r {
            Ok(s) => utf8_text(bytes@) == Some(s@),
            Err(e) => utf8_text(bytes@) is None && e.kind == ErrorKind::InvalidPath
                && e.message@ == what@,
        },
{
    match decode_utf8(bytes.as_slice()) {
        Some(s) => Ok(s),
        None => Err(Error { kind: ErrorKind::InvalidPath, message: what.to_owned() }),
    }
}

} // verus!
