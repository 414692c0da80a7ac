//! The operations on the access-control entries of one bucket.
//!
//! Each operation is one round trip. The method named after it plans the
//! request; [`Call::authorize`](crate::exchange::Call::authorize),
//! [`Expect::receive`](crate::exchange::Expect::receive) and the functions
//! of [`unify`](crate::unify) take it from there.
//!
//! The service refuses every one of these operations on a bucket with
//! uniform bucket-level access; the refusal arrives as an ordinary API
//! error.

use crate::entity::Entity;
use crate::exchange::{Body, Call, Expect, Method};
use crate::locator::{collection_url, locate_collection, locate_member, member_url};
use crate::model::{BucketAccessControl, NewBucketAccessControl};
use vstd::prelude::*;

verus! {

/// Operations on the [`BucketAccessControl`]s of one bucket.
#[derive(Debug)]
pub struct BucketAccessControlClient {
    bucket_acl_url: String,
}

impl BucketAccessControlClient {
    /// The URL of the collection that this client works on.
    pub closed spec fn collection(&self) -> Seq<char> {
        self.bucket_acl_url@
    }

    /// A client for the entries of `bucket`, served under `base_url`.
    pub fn new(base_url: &str, bucket: &str) -> (client: Self)
        ensures
            client.collection() == collection_url(base_url@, bucket@),
    {
        BucketAccessControlClient { bucket_acl_url: locate_collection(base_url, bucket) }
    }

    /// The URL of the collection.
    pub fn collection_url(&self) -> (url: &str)
        ensures
            url@ == self.collection(),
    {
        self.bucket_acl_url.as_str()
    }

    /// The URL of the entry of one entity.
    pub fn locate_member(&self, entity: &Entity) -> (url: String)
        ensures
            url@ == member_url(self.collection(), *entity),
    {
        locate_member(self.bucket_acl_url.as_str(), entity)
    }

    /// Plans the creation of an entry: a POST of the new entry to the
    /// collection, answered with the entry as created.
    pub fn create_using<'a>(&self, new_bucket_access_control: &'a NewBucketAccessControl) -> (call:
        Call<'a>)
        ensures
            call.method == Method::Post,
            call.url@ == self.collection(),
            call.body == Body::NewEntry(new_bucket_access_control),
            call.expect == Expect::Entry,
    {
        Call {
            method: Method::Post,
            url: self.bucket_acl_url.clone(),
            body: Body::NewEntry(new_bucket_access_control),
            expect: Expect::Entry,
        }
    }

    /// Plans the listing of all entries: a GET of the collection, answered
    /// with one page of entries.
    pub fn list(&self) -> (call: Call<'static>)
        ensures
            call.method == Method::Get,
            call.url@ == self.collection(),
            call.body == Body::Empty,
            call.expect == Expect::Entries,
    {
        Call {
            method: Method::Get,
            url: self.bucket_acl_url.clone(),
            body: Body::Empty,
            expect: Expect::Entries,
        }
    }

    /// Plans the reading of the entry of one entity: a GET of that member,
    /// answered with the entry.
    pub fn read(&self, entity: &Entity) -> (call: Call<'static>)
        ensures
            call.method == Method::Get,
            call.url@ == member_url(self.collection(), *entity),
            call.body == Body::Empty,
            call.expect == Expect::Entry,
    {
        Call {
            method: Method::Get,
            url: self.locate_member(entity),
            body: Body::Empty,
            expect: Expect::Entry,
        }
    }

    /// Plans the replacement of an entry: a PUT of the whole entry to the
    /// member that its entity names now, answered with the entry as stored.
    pub fn update<'a>(&self, bucket_access_control: &'a BucketAccessControl) -> (call: Call<'a>)
        ensures
            call.method == Method::Put,
            call.url@ == member_url(self.collection(), bucket_access_control.entity),
            call.body == Body::Entry(bucket_access_control),
            call.expect == Expect::Entry,
    {
        Call {
            method: Method::Put,
            url: self.locate_member(&bucket_access_control.entity),
            body: Body::Entry(bucket_access_control),
            expect: Expect::Entry,
        }
    }

    /// Plans the removal of an entry: a DELETE of the member that its
    /// entity names, judged by the status of the response.
    pub fn delete(&self, bucket_access_control: BucketAccessControl) -> (call: Call<'static>)
        ensures
            call.method == Method::Delete,
            call.url@ == member_url(self.collection(), bucket_access_control.entity),
            call.body == Body::Empty,
            call.expect == Expect::NoContent,
    {
        Call {
            method: Method::Delete,
            url: self.locate_member(&bucket_access_control.entity),
            body: Body::Empty,
            expect: Expect::NoContent,
        }
    }
}

} // verus!
