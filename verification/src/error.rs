//! The ways in which the picker can fail.

use vstd::prelude::*;

verus! {

/// The kind of a failure.
#[derive(Clone, Copy, Debug, PartialEq, Eq, Structural)]
pub enum ErrorKind {
    /// The corpus document is missing and cannot be fetched.
    CorpusUnavailable,
    /// The corpus document is not well formed, or a code point in it is no
    /// hexadecimal number.
    MalformedRecord,
    /// The index cannot be opened, created, written or searched.
    IndexUnavailable,
    /// The query text does not parse.
    QuerySyntax,
    /// The chosen character could not be delivered.
    InjectionFailure,
}

/// A failure, with a description of its cause.
#[derive(Clone, Debug, PartialEq, Eq)]
pub enum PickerError {
    CorpusUnavailable(String),
    MalformedRecord(String),
    IndexUnavailable(String),
    QuerySyntax(String),
    InjectionFailure(String),
}

impl PickerError {
    /// The kind of the failure.
    pub open spec fn spec_kind(&self) -> ErrorKind {
        match self {
            PickerError::CorpusUnavailable(_) => ErrorKind::CorpusUnavailable,
            PickerError::MalformedRecord(_) => ErrorKind::MalformedRecord,
            PickerError::IndexUnavailable(_) => ErrorKind::IndexUnavailable,
            PickerError::QuerySyntax(_) => ErrorKind::QuerySyntax,
            PickerError::InjectionFailure(_) => ErrorKind::InjectionFailure,
        }
    }

    /// The description of the cause.
    pub open spec fn cause(&self) -> Seq<char> {
        match self {
            PickerError::CorpusUnavailable(detail) => detail@,
            PickerError::MalformedRecord(detail) => detail@,
            PickerError::IndexUnavailable(detail) => detail@,
            PickerError::QuerySyntax(detail) => detail@,
            PickerError::InjectionFailure(detail) => detail@,
        }
    }

    /// The kind of the failure.
    #[verifier::when_used_as_spec(spec_kind)]
    pub fn kind(&self) -> (k: ErrorKind)
        ensures
            k == self.spec_kind(),
    {
        match self {
            PickerError::CorpusUnavailable(_) => ErrorKind::CorpusUnavailable,
            PickerError::MalformedRecord(_) => ErrorKind::MalformedRecord,
            PickerError::IndexUnavailable(_) => ErrorKind::IndexUnavailable,
            PickerError::QuerySyntax(_) => ErrorKind::QuerySyntax,
            PickerError::InjectionFailure(_) => ErrorKind::InjectionFailure,
        }
    }

    /// Whether the program must stop at startup on this failure. Failures of
    /// a single keystroke never end the session.
    pub open spec fn spec_is_fatal(&self) -> bool {
        self.spec_kind() == ErrorKind::CorpusUnavailable
            || self.spec_kind() == ErrorKind::MalformedRecord
            || self.spec_kind() == ErrorKind::IndexUnavailable
    }

    /// Whether the program must stop at startup on this failure.
    #[verifier::when_used_as_spec(spec_is_fatal)]
    pub fn is_fatal(&self) -> (fatal: bool)
        ensures
            fatal == self.spec_is_fatal(),
    {
        match self {
            PickerError::CorpusUnavailable(_) => true,
            PickerError::MalformedRecord(_) => true,
            PickerError::IndexUnavailable(_) => true,
            PickerError::QuerySyntax(_) => false,
            PickerError::InjectionFailure(_) => false,
        }
    }

    /// The description of the cause.
    pub fn detail(&self) -> (d: &str)
        ensures
            d@ == self.cause(),
    {
        match self {
            PickerError::CorpusUnavailable(detail) => detail.as_str(),
            PickerError::MalformedRecord(detail) => detail.as_str(),
            PickerError::IndexUnavailable(detail) => detail.as_str(),
            PickerError::QuerySyntax(detail) => detail.as_str(),
            PickerError::InjectionFailure(detail) => detail.as_str(),
        }
    }
}

} // verus!
