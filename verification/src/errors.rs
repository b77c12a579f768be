use vstd::prelude::*;

verus! {

/// Failure taxonomy of the metadata pipeline. No error is recovered from
/// locally: each one short-circuits the current request, and the HTTP
/// boundary maps it to a status code with the message as plain-text body.
#[derive(Debug, Clone)]
pub enum PackError {
    /// A file, mod or side that does not exist.
    NotFound(String),
    /// The filesystem refused access.
    PermissionDenied(String),
    /// A malformed filename or suffix.
    InvalidInput(String),
    /// Any other read or stat failure.
    IoError(String),
    /// A document could not be encoded.
    SerializationError(String),
}

/// The HTTP status that the boundary answers with for a given error:
/// 404 for a missing thing, 403 for refused access, 500 for the rest.
pub open spec fn spec_http_status(e: PackError) -> u16 {
    match e {
        PackError::NotFound(_) => 404,
        PackError::PermissionDenied(_) => 403,
        PackError::InvalidInput(_) => 500,
        PackError::IoError(_) => 500,
        PackError::SerializationError(_) => 500,
    }
}

/// The message carried by an error.
pub open spec fn spec_message(e: PackError) -> Seq<char> {
    match e {
        PackError::NotFound(m) => m@,
        PackError::PermissionDenied(m) => m@,
        PackError::InvalidInput(m) => m@,
        PackError::IoError(m) => m@,
        PackError::SerializationError(m) => m@,
    }
}

impl PackError {
    /// The status code the HTTP boundary must use for this error.
    pub fn http_status(&self) -> (code: u16)
        ensures
            code == spec_http_status(*self),
    {
        match self {
            PackError::NotFound(_) => 404,
            PackError::PermissionDenied(_) => 403,
            PackError::InvalidInput(_) => 500,
            PackError::IoError(_) => 500,
            PackError::SerializationError(_) => 500,
        }
    }

    /// The plain-text body served alongside the status code.
    pub fn message(&self) -> (m: &String)
        ensures
            m@ == spec_message(*self),
    {
        match self {
            PackError::NotFound(m) => m,
            PackError::PermissionDenied(m) => m,
            PackError::InvalidInput(m) => m,
            PackError::IoError(m) => m,
            PackError::SerializationError(m) => m,
        }
    }
}

} // verus!
