//! The ways in which a request can fail.

use vstd::prelude::*;

verus! {

/// Why a request was not served.
#[derive(Debug, Clone, Copy, PartialEq, Eq, Structural)]
pub enum RedirectError {
    /// The target is not an absolute URL.
    InvalidUrl,
    /// A usage budget was given and is zero or negative.
    InvalidUsage,
    /// A duration string has no leading `<digits><unit>`, or stands for more
    /// seconds than a `u32` holds.
    InvalidFormat,
    /// No live record has the key: it never existed, has expired or is spent.
    NotFound,
    /// The store could not complete the operation within its retry budget.
    Storage,
}

/// The three classes of failure that a caller tells apart.
#[derive(Debug, Clone, Copy, PartialEq, Eq, Structural)]
pub enum ErrorClass {
    /// The request itself is wrong; repeating it cannot help.
    Validation,
    /// The key leads nowhere.
    NotFound,
    /// The store failed.
    Storage,
}

impl RedirectError {
    /// The class of this error.
    pub open spec fn spec_class(self) -> ErrorClass {
        match self {
            RedirectError::InvalidUrl => ErrorClass::Validation,
            RedirectError::InvalidUsage => ErrorClass::Validation,
            RedirectError::InvalidFormat => ErrorClass::Validation,
            RedirectError::NotFound => ErrorClass::NotFound,
            RedirectError::Storage => ErrorClass::Storage,
        }
    }

    /// The reason in words, for the caller to read.
    pub open spec fn spec_message(self) -> Seq<char> {
        match self {
            RedirectError::InvalidUrl => "Invalid URL"@,
            RedirectError::InvalidUsage => "Invalid remaining usage"@,
            RedirectError::InvalidFormat => "Invalid duration"@,
            RedirectError::NotFound => "Not found"@,
            RedirectError::Storage => "Internal server error"@,
        }
    }

    /// The reason in words, for the caller to read.
    pub fn message(self) -> (text: &'static str)
        ensures
            text@ == self.spec_message(),
    {
        match self {
            RedirectError::InvalidUrl => "Invalid URL",
            RedirectError::InvalidUsage => "Invalid remaining usage",
            RedirectError::InvalidFormat => "Invalid duration",
            RedirectError::NotFound => "Not found",
            RedirectError::Storage => "Internal server error",
        }
    }

    /// The class of this error.
    #[verifier::when_used_as_spec(spec_class)]
    pub fn class(self) -> (c: ErrorClass)
        ensures
            c == self.spec_class(),
    {
        match self {
            RedirectError::InvalidUrl => ErrorClass::Validation,
            RedirectError::InvalidUsage => ErrorClass::Validation,
            RedirectError::InvalidFormat => ErrorClass::Validation,
            RedirectError::NotFound => ErrorClass::NotFound,
            RedirectError::Storage => ErrorClass::Storage,
        }
    }
}

} // verus!
