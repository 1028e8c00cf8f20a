//! The errors of the program around the codec.

use vstd::prelude::*;
use vstd::std_specs::convert::FromSpecImpl;

verus! {

/// `std::io::ErrorKind`: the kind of an error of the system's input and
/// output. It is carried through as it is.
#[verifier::external_type_specification]
#[verifier::external_body]
pub struct ExIoErrorKind(std::io::ErrorKind);

/// `std::io::Error`: an error of the system's input and output. It is
/// carried through as it is.
#[verifier::external_type_specification]
#[verifier::external_body]
pub struct ExIoError(std::io::Error);

/// `Clone::clone` of `std::io::ErrorKind`, a `Copy` type: the clone is the
/// value itself.
pub assume_specification[ <std::io::ErrorKind as Clone>::clone ](
    kind: &std::io::ErrorKind,
) -> (copy: std::io::ErrorKind)
    ensures
        copy == *kind,
;

/// An error reported by the vision library, kept as plain values.
#[derive(Debug, Clone, PartialEq, Eq)]
pub struct OpenCVError {
    pub code: i32,
    pub message: String,
}

/// Every error of the program.
#[derive(Debug, Clone)]
pub enum BigHeroXError {
    DialogClosed,
    IoError(std::io::ErrorKind),
    OpenCVError(OpenCVError),
}

pub type BigHeroXResult<T> = Result<T, BigHeroXError>;

/// `std::io::Error::kind`: the kind of an error. Nothing is claimed of the
/// kind that comes back.
#[verifier::external_body]
fn kind_of(error: &std::io::Error) -> (kind: std::io::ErrorKind) {
    error.kind()
}

impl From<std::io::Error> for BigHeroXError {
    fn from(value: std::io::Error) -> (e: Self)
        ensures
            e is IoError,
    {
        BigHeroXError::IoError(kind_of(&value))
    }
}

impl FromSpecImpl<std::io::Error> for BigHeroXError {
    open spec fn obeys_from_spec() -> bool {
        false
    }

    open spec fn from_spec(value: std::io::Error) -> Self {
        arbitrary()
    }
}

impl From<std::io::ErrorKind> for BigHeroXError {
    fn from(value: std::io::ErrorKind) -> (e: Self) {
        BigHeroXError::IoError(value)
    }
}

impl FromSpecImpl<std::io::ErrorKind> for BigHeroXError {
    open spec fn obeys_from_spec() -> bool {
        true
    }

    open spec fn from_spec(value: std::io::ErrorKind) -> Self {
        BigHeroXError::IoError(value)
    }
}

impl From<OpenCVError> for BigHeroXError {
    fn from(value: OpenCVError) -> (e: Self) {
        BigHeroXError::OpenCVError(value)
    }
}

impl FromSpecImpl<OpenCVError> for BigHeroXError {
    open spec fn obeys_from_spec() -> bool {
        true
    }

    open spec fn from_spec(value: OpenCVError) -> Self {
        BigHeroXError::OpenCVError(value)
    }
}

} // verus!
