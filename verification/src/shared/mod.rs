//! What all backends share: the tag model, the query builder, the request
//! description, and the errors of a dispatch.
pub mod client;
pub mod model;
pub mod request;
pub mod text;

pub use self::model::{Sort, Tag, Tags, ValidationError};

use crate::danbooru::client::DanbooruError;
use vstd::prelude::*;

verus! {

/// The error of the transport. It is carried as it comes, and nothing is
/// read from it.
#[verifier::external_type_specification]
#[verifier::external_body]
pub struct ExTransportError(reqwest::Error);

/// Why a dispatch failed.
#[derive(Debug)]
pub enum BooruError {
    /// The transport failed: no connection, a timeout, or a failure status
    /// whose body says nothing that a backend is known to say.
    Reqwest(reqwest::Error),
    /// Danbooru refused the request and said why.
    Danbooru(DanbooruError),
    /// The backend answered with success, but not in the expected shape.
    Unexpected,
}

impl vstd::std_specs::convert::FromSpecImpl<reqwest::Error> for BooruError {
    open spec fn obeys_from_spec() -> bool {
        true
    }

    open spec fn from_spec(value: reqwest::Error) -> Self {
        BooruError::Reqwest(value)
    }
}

impl From<reqwest::Error> for BooruError {
    fn from(value: reqwest::Error) -> (out: Self) {
        BooruError::Reqwest(value)
    }
}

impl vstd::std_specs::convert::FromSpecImpl<DanbooruError> for BooruError {
    open spec fn obeys_from_spec() -> bool {
        true
    }

    open spec fn from_spec(value: DanbooruError) -> Self {
        BooruError::Danbooru(value)
    }
}

impl From<DanbooruError> for BooruError {
    fn from(value: DanbooruError) -> (out: Self) {
        BooruError::Danbooru(value)
    }
}

/// What the body of a response is read as.
#[derive(Debug, Clone, Copy, PartialEq, Eq, Structural)]
pub enum Reading {
    /// As the posts that were asked for.
    Answer,
    /// As the backend's account of why it refused.
    Refusal,
    /// Not at all: the response failed, and its backend gives no account.
    Nothing,
}

/// Whether an HTTP status reports success.
pub open spec fn status_is_success(status: u16) -> bool {
    200 <= status < 300
}

/// Whether an HTTP status reports success. A dispatcher reads posts from the
/// body of such a response, and the reason of the failure from any other.
pub fn is_success(status: u16) -> (success: bool)
    ensures
        success == status_is_success(status),
{
    200 <= status && status < 300
}

/// The error of a response whose body could not be read as what its status
/// called for: an unexpected shape where the status reported success, a
/// failure of the transport where it did not.
pub fn undecodable(status: u16, cause: reqwest::Error) -> (error: BooruError)
    ensures
        error == if status_is_success(status) {
            BooruError::Unexpected
        } else {
            BooruError::Reqwest(cause)
        },
{
    if is_success(status) {
        BooruError::Unexpected
    } else {
        BooruError::Reqwest(cause)
    }
}

/// The error of a response that reports a failure and says nothing that its
/// backend is known to say: the failure that the transport makes of the
/// status, where it makes one of it, and an unexpected answer where it does
/// not.
pub fn unexplained(cause: Option<reqwest::Error>) -> (error: BooruError)
    ensures
        error == match cause {
            Some(cause) => BooruError::Reqwest(cause),
            None => BooruError::Unexpected,
        },
{
    match cause {
        Some(cause) => BooruError::Reqwest(cause),
        None => BooruError::Unexpected,
    }
}

/// The first of the posts that a lookup returned, if it returned any.
pub open spec fn first_of<P>(posts: Seq<P>) -> Option<P> {
    if posts.len() == 0 {
        None
    } else {
        Some(posts[0])
    }
}

/// The post that a lookup by id found: the first of those returned, or none
/// where the backend returned an empty list.
pub fn first_post<P>(posts: Vec<P>) -> (first: Option<P>)
    ensures
        first == first_of(posts@),
{
    let mut posts = posts;
    if posts.len() == 0 {
        None
    } else {
        Some(posts.remove(0))
    }
}

} // verus!
