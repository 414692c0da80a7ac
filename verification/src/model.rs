//! The values that travel between a caller and the remote service.

use crate::entity::{Entity, Role};
use vstd::prelude::*;

verus! {

/// One grant of a role to an entity on a bucket, as the service reports it.
/// The service assigns `id`, `etag` and `self_link`.
#[derive(Clone, Debug, PartialEq, Eq)]
pub struct BucketAccessControl {
    pub entity: Entity,
    pub role: Role,
    pub id: String,
    pub etag: String,
    pub self_link: String,
}

/// What a caller sends to have an entry created: the part of an entry that
/// the service does not assign.
#[derive(Clone, Debug, PartialEq, Eq)]
pub struct NewBucketAccessControl {
    pub entity: Entity,
    pub role: Role,
}

/// One page of a listing, in the order in which the service sent it.
#[derive(Clone, Debug, PartialEq, Eq)]
pub struct ListResponse<T> {
    pub items: Vec<T>,
}

/// One reason within an error that the service reports.
#[derive(Clone, Debug, PartialEq, Eq)]
pub struct Reason {
    pub domain: String,
    pub reason: String,
    pub message: String,
}

/// An error that the service reports in a well-formed error object.
#[derive(Clone, Debug, PartialEq, Eq)]
pub struct ApiError {
    pub status: u16,
    pub message: String,
    pub reasons: Vec<Reason>,
}

/// What a decoded response body holds: the value asked for, or the
/// service's error object. Never both.
#[derive(Clone, Debug, PartialEq, Eq)]
pub enum ApiResult<T> {
    Success(T),
    Failure(ApiError),
}

/// Every way in which an operation can fail.
#[derive(Clone, Debug, PartialEq, Eq)]
pub enum Error {
    /// No response arrived: the connection, the protocol or a timeout failed.
    Transport(String),
    /// A response arrived whose body is not what was expected.
    Decode(String),
    /// The service answered with an error of its own.
    Api(ApiError),
}

} // verus!
