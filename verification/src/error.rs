use vstd::prelude::*;
use vstd::string::StringExecFns;

verus! {

/// Broad classification of failures, used by callers to decide whether an
/// operation may be retried or must be surfaced.
#[derive(Clone, Copy, Debug, PartialEq, Eq, Structural)]
pub enum ErrorKind {
    /// A required facility is not present (backend not compiled in, listener
    /// could not bind, daemon reported a fatal registration problem).
    Unavailable,
    /// A name was looked up that is not known at all.
    NotFound,
    /// A request carried malformed or unauthenticated data; rejected locally.
    InvalidArgument,
}

/// An error with a classification and an optional human-readable message.
#[derive(Debug)]
pub struct Error {
    pub kind: ErrorKind,
    pub message: Option<String>,
}

impl Error {
    /// Builds an `Unavailable` error with the given message.
    pub fn unavailable(message: &str) -> (r: Error)
        ensures
            r.kind == ErrorKind::Unavailable,
            r.message matches Some(m) && m@ == message@,
    {
        Error { kind: ErrorKind::Unavailable, message: Some(String::from_str(message)) }
    }

    /// Builds a `NotFound` error with the given message.
    pub fn not_found(message: &str) -> (r: Error)
        ensures
            r.kind == ErrorKind::NotFound,
            r.message matches Some(m) && m@ == message@,
    {
        Error { kind: ErrorKind::NotFound, message: Some(String::from_str(message)) }
    }

    /// Builds an `InvalidArgument` error with the given message.
    pub fn invalid_argument(message: &str) -> (r: Error)
        ensures
            r.kind == ErrorKind::InvalidArgument,
            r.message matches Some(m) && m@ == message@,
    {
        Error { kind: ErrorKind::InvalidArgument, message: Some(String::from_str(message)) }
    }
}

/// Failures of the discovery subsystem, before classification.
#[derive(Debug)]
pub enum DiscoveryError {
    /// Setting up the block cipher failed.
    AesError,
    /// Setting up or talking to the local-discovery daemon failed.
    DnsSdError(String),
    /// An authentication tag or checksum did not match; carries the
    /// mismatching value.
    HmacError(Vec<u8>),
    /// Setting up the pairing listener failed.
    HttpServerError(String),
    /// A required request parameter was missing or malformed; carries the
    /// parameter's name.
    ParamsError(String),
}

/// The classification each `DiscoveryError` variant maps to.
pub open spec fn spec_error_kind(err: DiscoveryError) -> ErrorKind {
    match err {
        DiscoveryError::AesError => ErrorKind::Unavailable,
        DiscoveryError::DnsSdError(_) => ErrorKind::Unavailable,
        DiscoveryError::HmacError(_) => ErrorKind::InvalidArgument,
        DiscoveryError::HttpServerError(_) => ErrorKind::Unavailable,
        DiscoveryError::ParamsError(_) => ErrorKind::InvalidArgument,
    }
}

/// The classified error a `DiscoveryError` converts into: the variant's kind,
/// keeping the variant's own text where it has one.
pub open spec fn spec_classified(err: DiscoveryError) -> Error {
    match err {
        DiscoveryError::AesError => Error { kind: ErrorKind::Unavailable, message: None },
        DiscoveryError::DnsSdError(s) => Error { kind: ErrorKind::Unavailable, message: Some(s) },
        DiscoveryError::HmacError(_) => Error { kind: ErrorKind::InvalidArgument, message: None },
        DiscoveryError::HttpServerError(s) => Error {
            kind: ErrorKind::Unavailable,
            message: Some(s),
        },
        DiscoveryError::ParamsError(s) => Error {
            kind: ErrorKind::InvalidArgument,
            message: Some(s),
        },
    }
}

impl From<DiscoveryError> for Error {
    fn from(err: DiscoveryError) -> (r: Error) {
        match err {
            DiscoveryError::AesError => Error { kind: ErrorKind::Unavailable, message: None },
            DiscoveryError::DnsSdError(s) => Error {
                kind: ErrorKind::Unavailable,
                message: Some(s),
            },
            DiscoveryError::HmacError(_) => Error {
                kind: ErrorKind::InvalidArgument,
                message: None,
            },
            DiscoveryError::HttpServerError(s) => Error {
                kind: ErrorKind::Unavailable,
                message: Some(s),
            },
            DiscoveryError::ParamsError(s) => Error {
                kind: ErrorKind::InvalidArgument,
                message: Some(s),
            },
        }
    }
}

impl vstd::std_specs::convert::FromSpecImpl<DiscoveryError> for Error {
    open spec fn obeys_from_spec() -> bool {
        true
    }

    open spec fn from_spec(err: DiscoveryError) -> Error {
        spec_classified(err)
    }
}

} // verus!
