use vstd::prelude::*;

verus! {

/// The error kinds this library reports, each with its message.
#[derive(Debug, Clone, PartialEq, Eq)]
pub enum ErrorCode {
    /// An internal failure (an unexpected value or an empty column).
    Internal(String),
    /// Bytes that cannot be decoded as the expected value.
    BadBytes(String),
    /// A stored user record that is not a valid user description.
    IllegalUserInfoFormat(String),
    /// A TLS certificate or key that cannot be used.
    TLSConfigurationFailure(String),
    /// A requested operation that a table engine does not support.
    Unimplemented(String),
    /// A failure to read: too few bytes, or a file that cannot be read.
    Io(String),
}

impl ErrorCode {
    /// The error's message.
    pub open spec fn spec_message(&self) -> Seq<char> {
        match self {
            ErrorCode::Internal(m) => m@,
            ErrorCode::BadBytes(m) => m@,
            ErrorCode::IllegalUserInfoFormat(m) => m@,
            ErrorCode::TLSConfigurationFailure(m) => m@,
            ErrorCode::Unimplemented(m) => m@,
            ErrorCode::Io(m) => m@,
        }
    }

    /// The error's message.
    pub fn message(&self) -> (r: &String)
        ensures
            r@ == self.spec_message(),
    {
        match self {
            ErrorCode::Internal(m) => m,
            ErrorCode::BadBytes(m) => m,
            ErrorCode::IllegalUserInfoFormat(m) => m,
            ErrorCode::TLSConfigurationFailure(m) => m,
            ErrorCode::Unimplemented(m) => m,
            ErrorCode::Io(m) => m,
        }
    }
}

} // verus!
