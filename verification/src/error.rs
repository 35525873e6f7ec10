//! The error type shared by every validation check.

use vstd::prelude::*;

verus! {

/// Returned when an argument or state condition fails validation.
///
/// Carries a single human-readable message describing what failed. Its view
/// is the message text, as a sequence of characters.
#[derive(Debug, Clone, PartialEq, Eq)]
pub struct ArgumentError {
    message: String,
}

impl View for ArgumentError {
    type V = Seq<char>;

    closed spec fn view(&self) -> Seq<char> {
        self.message@
    }
}

impl ArgumentError {
    /// Creates a new error with the given message.
    pub fn new(message: &str) -> (r: Self)
        ensures
            r@ == message@,
    {
        ArgumentError { message: message.to_owned() }
    }

    /// Returns the error message.
    pub fn message(&self) -> (r: &str)
        ensures
            r@ == self@,
    {
        self.message.as_str()
    }
}

impl From<String> for ArgumentError {
    /// Wraps a message string in an error.
    fn from(message: String) -> (r: ArgumentError) {
        ArgumentError { message }
    }
}

impl vstd::std_specs::convert::FromSpecImpl<String> for ArgumentError {
    open spec fn obeys_from_spec() -> bool {
        true
    }

    closed spec fn from_spec(message: String) -> ArgumentError {
        ArgumentError { message }
    }
}

impl<'a> From<&'a str> for ArgumentError {
    /// Wraps a message string in an error.
    fn from(message: &'a str) -> (r: ArgumentError) {
        ArgumentError::new(message)
    }
}

impl<'a> vstd::std_specs::convert::FromSpecImpl<&'a str> for ArgumentError {
    open spec fn obeys_from_spec() -> bool {
        false
    }

    closed spec fn from_spec(message: &'a str) -> ArgumentError {
        arbitrary()
    }
}

/// The outcome of a validation check: the validated value, or the error
/// describing the failed condition.
pub type ArgumentResult<T> = Result<T, ArgumentError>;

} // verus!
