use vstd::prelude::*;

verus! {

/// The two ways an admin operation can fail.
#[derive(Debug, Clone, Copy, PartialEq, Eq, Structural)]
pub enum AdminError {
    /// The requested identifier or resource does not exist.
    NotFound,
    /// Serialisation, decoding, identifier parsing or a collaborator failed.
    InternalError,
}

impl AdminError {
    /// The HTTP status that a failure is answered with.
    pub fn status_code(&self) -> (r: u16)
        ensures
            r == match self {
                AdminError::NotFound => 404u16,
                AdminError::InternalError => 500u16,
            },
    {
        match self {
            AdminError::NotFound => 404,
            AdminError::InternalError => 500,
        }
    }
}

/// Outcome of checking one field value before creation.
#[derive(Debug, Clone, PartialEq, Eq)]
pub enum ValidationResult {
    Invalid(String),
    Valid,
}

/// Failure while turning a page description into markup.
#[derive(Debug, Clone, Copy, PartialEq, Eq, Structural)]
pub enum RenderError {
    InternalError,
}

} // verus!
