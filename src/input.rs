//! Checks on what a user hands the console before anything is fetched or
//! written.
use crate::text::{starts_with, starts_with_text};
use vstd::prelude::*;

verus! {

/// Why an input was refused.
#[derive(Clone, Copy, Debug, PartialEq, Eq, Structural)]
pub enum InputError {
    EmptyUri,
    UriNotHttp,
    EmptyFileName,
}

impl InputError {
    /// A sentence for the user.
    pub fn message(&self) -> (r: &'static str)
        ensures
            *self == InputError::EmptyUri ==> r@ == "URI is empty"@,
            *self == InputError::UriNotHttp ==> r@ == "URI must start with http or https"@,
            *self == InputError::EmptyFileName ==> r@ == "File name is empty"@,
    {
        match self {
            InputError::EmptyUri => "URI is empty",
            InputError::UriNotHttp => "URI must start with http or https",
            InputError::EmptyFileName => "File name is empty",
        }
    }
}

/// `s` begins with `http` (which covers `https`).
pub open spec fn starts_with_http(s: Seq<char>) -> bool {
    starts_with(s, "http"@)
}

/// Accepts a non-empty address that begins with `http`.
pub fn validate_uri(uri: &str) -> (r: Result<(), InputError>)
    ensures
        uri@.len() == 0 ==> r == Err::<(), InputError>(InputError::EmptyUri),
        uri@.len() > 0 && !starts_with_http(uri@) ==> r == Err::<(), InputError>(
            InputError::UriNotHttp,
        ),
        uri@.len() > 0 && starts_with_http(uri@) ==> r is Ok,
{
    let n = uri.unicode_len();
    if n == 0 {
        Err(InputError::EmptyUri)
    } else if !starts_with_text(uri, "http") {
        Err(InputError::UriNotHttp)
    } else {
        Ok(())
    }
}

/// Accepts any non-empty file name.
pub fn validate_file_name(file_name: &str) -> (r: Result<(), InputError>)
    ensures
        file_name@.len() == 0 <==> r == Err::<(), InputError>(InputError::EmptyFileName),
        file_name@.len() > 0 <==> r is Ok,
{
    if file_name.unicode_len() == 0 {
        Err(InputError::EmptyFileName)
    } else {
        Ok(())
    }
}

} // verus!
