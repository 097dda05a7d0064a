//! The errors of a registry call.
use vstd::prelude::*;

verus! {

/// Why a registry call failed.
#[derive(Clone, Debug, PartialEq, Eq)]
pub enum ApiError {
    /// A URL did not parse.
    InvalidUrl,
    /// The request's headers could not be assembled.
    RequestBuild,
    /// The network exchange failed; the transport's description of why.
    Transport(String),
    /// The reply was no JSON, matched no envelope, or its payload had the wrong shape.
    Decode,
    /// The registry answered with an error message.
    Application(String),
}

/// The mathematical value of an `ApiError`.
pub enum ErrorModel {
    InvalidUrl,
    RequestBuild,
    Transport(Seq<char>),
    Decode,
    Application(Seq<char>),
}

impl View for ApiError {
    type V = ErrorModel;

    open spec fn view(&self) -> ErrorModel {
        match self {
            ApiError::InvalidUrl => ErrorModel::InvalidUrl,
            ApiError::RequestBuild => ErrorModel::RequestBuild,
            ApiError::Transport(e) => ErrorModel::Transport(e@),
            ApiError::Decode => ErrorModel::Decode,
            ApiError::Application(m) => ErrorModel::Application(m@),
        }
    }
}

} // verus!
