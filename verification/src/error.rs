//! The failures a lookup or a search can end in.

use vstd::prelude::*;

verus! {

/// The parser error of the `url` crate, carried inside [`Error::Url`] as it is.
#[verifier::external_type_specification]
#[verifier::external_body]
pub struct ExParseError(url::ParseError);

/// Why a lookup or a search failed.
#[derive(Debug)]
pub enum Error {
    /// The site could not be reached or its reply could not be read; holds
    /// the description of the underlying cause.
    Net(String),
    /// The site answered 404.
    NotFound,
    /// The site answered with a status other than 200 and 404.
    UnexpectedResponse(u16),
    /// The route did not resolve to a URL.
    Url(url::ParseError),
    /// The page did not have the expected shape; holds the parser's message.
    Parse(String),
}

/// The mathematical content of an [`Error`]. The cause of a URL failure is
/// opaque to the prover, so the model records only that there was one.
pub enum ErrorModel {
    Net(Seq<char>),
    NotFound,
    UnexpectedResponse(u16),
    Url,
    Parse(Seq<char>),
}

impl View for Error {
    type V = ErrorModel;

    open spec fn view(&self) -> ErrorModel {
        match *self {
            Error::Net(cause) => ErrorModel::Net(cause@),
            Error::NotFound => ErrorModel::NotFound,
            Error::UnexpectedResponse(status) => ErrorModel::UnexpectedResponse(status),
            Error::Url(_) => ErrorModel::Url,
            Error::Parse(message) => ErrorModel::Parse(message@),
        }
    }
}

} // verus!
