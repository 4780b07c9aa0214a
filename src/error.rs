//! The crate's general-purpose error type.
use vstd::prelude::*;

verus! {

/// Makes `std::io::Error` usable in signatures; its contents stay opaque.
#[verifier::external_type_specification]
#[verifier::external_body]
pub struct ExIoError(std::io::Error);

/// Makes `std::num::ParseIntError` usable in signatures; its contents stay opaque.
#[verifier::external_type_specification]
#[verifier::external_body]
pub struct ExParseIntError(std::num::ParseIntError);

/// Makes `serde_json::Error` usable in signatures; its contents stay opaque.
#[verifier::external_type_specification]
#[verifier::external_body]
pub struct ExJsonError(serde_json::Error);

/// An error from I/O, from parsing an integer, from JSON, or one of our own.
pub enum MyError {
    Io(std::io::Error),
    Parse(std::num::ParseIntError),
    Serialize(serde_json::Error),
    Custom(String),
}

impl From<std::io::Error> for MyError {
    fn from(e: std::io::Error) -> (r: MyError)
        ensures
            r == MyError::Io(e),
    {
        MyError::Io(e)
    }
}

impl vstd::std_specs::convert::FromSpecImpl<std::io::Error> for MyError {
    open spec fn obeys_from_spec() -> bool {
        true
    }

    open spec fn from_spec(e: std::io::Error) -> MyError {
        MyError::Io(e)
    }
}

impl From<std::num::ParseIntError> for MyError {
    fn from(e: std::num::ParseIntError) -> (r: MyError)
        ensures
            r == MyError::Parse(e),
    {
        MyError::Parse(e)
    }
}

impl vstd::std_specs::convert::FromSpecImpl<std::num::ParseIntError> for MyError {
    open spec fn obeys_from_spec() -> bool {
        true
    }

    open spec fn from_spec(e: std::num::ParseIntError) -> MyError {
        MyError::Parse(e)
    }
}

impl From<serde_json::Error> for MyError {
    fn from(e: serde_json::Error) -> (r: MyError)
        ensures
            r == MyError::Serialize(e),
    {
        MyError::Serialize(e)
    }
}

impl vstd::std_specs::convert::FromSpecImpl<serde_json::Error> for MyError {
    open spec fn obeys_from_spec() -> bool {
        true
    }

    open spec fn from_spec(e: serde_json::Error) -> MyError {
        MyError::Serialize(e)
    }
}

/// The message carried by the error that `fail_with_error` returns.
pub open spec fn custom_failure_text() -> Seq<char> {
    "An error occurred"@
}

/// Always fails, with a custom error.
pub fn fail_with_error() -> (r: Result<(), MyError>)
    ensures
        r matches Err(MyError::Custom(s)) && s@ == custom_failure_text(),
{
    Err(MyError::Custom("An error occurred".to_string()))
}

} // verus!
