use vstd::prelude::*;

verus! {

/// The error taxonomy of the library.
///
/// Every failure of a catalog, registry or resource-manager operation is
/// surfaced as one of these variants; the library never retries and never
/// terminates the process.
#[derive(Debug)]
pub enum Error {
    /// No record matches a required lookup: an unknown gid, an unknown
    /// datastore id, or an empty query result where exactly one was required.
    NotFound(String),
    /// A local filesystem failure while reading a source or writing a
    /// destination path.
    FileError(String),
    /// A backend operation failed; the payload describes the underlying cause.
    OperationFailed(String),
    /// An unknown backend kind or a malformed configuration payload,
    /// discovered when a backend client is constructed.
    ConfigError(String),
}

impl Error {
    /// The message carried by the error, whichever variant holds it.
    pub open spec fn message_spec(&self) -> Seq<char> {
        match self {
            Error::NotFound(m) => m@,
            Error::FileError(m) => m@,
            Error::OperationFailed(m) => m@,
            Error::ConfigError(m) => m@,
        }
    }

    /// Borrows the human-readable message of the error.
    pub fn message(&self) -> (m: &String)
        ensures
            m@ == self.message_spec(),
    {
        match self {
            Error::NotFound(m) => m,
            Error::FileError(m) => m,
            Error::OperationFailed(m) => m,
            Error::ConfigError(m) => m,
        }
    }

    /// Consumes the error and hands back its message, for callers that
    /// re-classify a failure under another variant.
    pub fn into_message(self) -> (m: String)
        ensures
            m@ == self.message_spec(),
    {
        match self {
            Error::NotFound(m) => m,
            Error::FileError(m) => m,
            Error::OperationFailed(m) => m,
            Error::ConfigError(m) => m,
        }
    }
}

} // verus!
