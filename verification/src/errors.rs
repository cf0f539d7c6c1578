use vstd::prelude::*;

use crate::text::str_eq;

verus! {

/// Service-level failures outside query validation. Every variant carries
/// what its message needs as plain values.
#[derive(Clone, Debug)]
pub enum Error {
    ParseObjectIDFailed(String),
    InvalidUuid(String),
    EnvironmentVariableNotSet(String),
    NotFound(String),
    NotImplemented,
}

/// The mathematical value of `Error`.
pub enum ErrorView {
    ParseObjectIDFailed(Seq<char>),
    InvalidUuid(Seq<char>),
    EnvironmentVariableNotSet(Seq<char>),
    NotFound(Seq<char>),
    NotImplemented,
}

impl View for Error {
    type V = ErrorView;

    open spec fn view(&self) -> ErrorView {
        match self {
            Error::ParseObjectIDFailed(s) => ErrorView::ParseObjectIDFailed(s@),
            Error::InvalidUuid(s) => ErrorView::InvalidUuid(s@),
            Error::EnvironmentVariableNotSet(s) => ErrorView::EnvironmentVariableNotSet(s@),
            Error::NotFound(s) => ErrorView::NotFound(s@),
            Error::NotImplemented => ErrorView::NotImplemented,
        }
    }
}

impl PartialEq for Error {
    fn eq(&self, other: &Error) -> (r: bool) {
        match (self, other) {
            (Error::ParseObjectIDFailed(a), Error::ParseObjectIDFailed(b)) => str_eq(
                a.as_str(),
                b.as_str(),
            ),
            (Error::InvalidUuid(a), Error::InvalidUuid(b)) => str_eq(a.as_str(), b.as_str()),
            (Error::EnvironmentVariableNotSet(a), Error::EnvironmentVariableNotSet(b)) => str_eq(
                a.as_str(),
                b.as_str(),
            ),
            (Error::NotFound(a), Error::NotFound(b)) => str_eq(a.as_str(), b.as_str()),
            (Error::NotImplemented, Error::NotImplemented) => true,
            (_, _) => false,
        }
    }
}

impl vstd::std_specs::cmp::PartialEqSpecImpl for Error {
    open spec fn obeys_eq_spec() -> bool {
        true
    }

    open spec fn eq_spec(&self, other: &Error) -> bool {
        self@ == other@
    }
}

impl Error {
    /// The message surfaced to the caller, verbatim.
    pub fn message(&self) -> (r: String)
        ensures
            (*self) matches Error::ParseObjectIDFailed(s) ==> r@ == s@
                + " is not a valid ObjectId"@,
            (*self) matches Error::InvalidUuid(s) ==> r@ == "InvalidUuid: UUID "@ + s@
                + " is not valid"@,
            (*self) matches Error::EnvironmentVariableNotSet(s) ==> r@ == "ENV VARIABLE for `"@
                + s@ + "` is not set"@,
            (*self) matches Error::NotFound(s) ==> r@ == "Resource Not Found: "@ + s@,
            (*self) matches Error::NotImplemented ==> r@ == "Resource not implemented"@,
    {
        match self {
            Error::ParseObjectIDFailed(s) => {
                let mut m = s.clone();
                m.append(" is not a valid ObjectId");
                m
            },
            Error::InvalidUuid(s) => {
                let mut m = String::from_str("InvalidUuid: UUID ");
                m.append(s.as_str());
                m.append(" is not valid");
                m
            },
            Error::EnvironmentVariableNotSet(s) => {
                let mut m = String::from_str("ENV VARIABLE for `");
                m.append(s.as_str());
                m.append("` is not set");
                m
            },
            Error::NotFound(s) => {
                let mut m = String::from_str("Resource Not Found: ");
                m.append(s.as_str());
                m
            },
            Error::NotImplemented => String::from_str("Resource not implemented"),
        }
    }
}

} // verus!
