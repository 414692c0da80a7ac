//! One round trip, step by step. The caller performs the outside work
//! (fetching credentials, sending, decoding) and hands each result in; the
//! functions here decide what happens next.

use crate::model::{BucketAccessControl, Error, NewBucketAccessControl};
use vstd::prelude::*;

verus! {

/// The HTTP verb of a request.
#[derive(Clone, Copy, Debug, PartialEq, Eq, Structural)]
pub enum Method {
    Get,
    Post,
    Put,
    Delete,
}

/// What a request carries as its JSON body.
#[derive(Clone, Copy, Debug, PartialEq, Eq)]
pub enum Body<'a> {
    Empty,
    NewEntry(&'a NewBucketAccessControl),
    Entry(&'a BucketAccessControl),
}

/// One header of a request.
#[derive(Clone, Debug, PartialEq, Eq)]
pub struct Header {
    pub name: String,
    pub value: String,
}

/// What a successful response to an operation carries.
#[derive(Clone, Copy, Debug, PartialEq, Eq, Structural)]
pub enum Expect {
    /// One entry.
    Entry,
    /// A page of entries.
    Entries,
    /// Nothing: the status alone tells success from refusal.
    NoContent,
}

/// An operation that has been planned and not yet sent.
#[derive(Debug, PartialEq, Eq)]
pub struct Call<'a> {
    pub method: Method,
    pub url: String,
    pub body: Body<'a>,
    pub expect: Expect,
}

/// A request that is ready to be sent.
#[derive(Debug, PartialEq, Eq)]
pub struct Request<'a> {
    pub method: Method,
    pub url: String,
    pub headers: Vec<Header>,
    pub body: Body<'a>,
}

/// As what the body of a response is to be decoded.
#[derive(Clone, Copy, Debug, PartialEq, Eq, Structural)]
pub enum Schema {
    /// One entry, or the service's error object.
    Entry,
    /// A page of entries, or the service's error object.
    Entries,
    /// The service's error object and nothing else; the response came with
    /// the given status.
    Rejection(u16),
}

/// What follows the attempt to send a request.
#[derive(Debug, PartialEq, Eq)]
pub enum Next {
    /// The body is to be decoded.
    Decode(Schema),
    /// The operation is over, and the body is not looked at.
    Done(Result<(), Error>),
}

/// Whether a status is of the success class.
pub open spec fn is_success(status: u16) -> bool {
    200 <= status <= 299
}

/// What follows once the credentials were asked for: the request with
/// exactly the headers that came, or the error that came.
pub open spec fn authorized<'a>(call: Call<'a>, headers: Result<Vec<Header>, Error>) -> Result<
    Request<'a>,
    Error,
> {
    match headers {
        Ok(set) => Ok(Request { method: call.method, url: call.url, headers: set, body: call.body }),
        Err(error) => Err(error),
    }
}

/// What follows the attempt to send: a transport fault ends the operation;
/// where nothing is expected back the status decides; every other body is
/// decoded.
pub open spec fn received(expect: Expect, outcome: Result<u16, String>) -> Next {
    match outcome {
        Err(why) => Next::Done(Err(Error::Transport(why))),
        Ok(status) => match expect {
            Expect::Entry => Next::Decode(Schema::Entry),
            Expect::Entries => Next::Decode(Schema::Entries),
            Expect::NoContent => if is_success(status) {
                Next::Done(Ok(()))
            } else {
                Next::Decode(Schema::Rejection(status))
            },
        },
    }
}

impl<'a> Call<'a> {
    /// Takes what the credential provider gave. With headers the request is
    /// ready; without, the operation ends with the provider's error.
    pub fn authorize(self, headers: Result<Vec<Header>, Error>) -> (result: Result<
        Request<'a>,
        Error,
    >)
        ensures
            result == authorized(self, headers),
    {
        match headers {
            Ok(set) => Ok(Request { method: self.method, url: self.url, headers: set, body: self.body }),
            Err(error) => Err(error),
        }
    }
}

impl Expect {
    /// Takes what the transport gave: the status of the response, or the
    /// fault that kept a response from arriving.
    pub fn receive(self, outcome: Result<u16, String>) -> (next: Next)
        ensures
            next == received(self, outcome),
    {
        match outcome {
            Err(why) => Next::Done(Err(Error::Transport(why))),
            Ok(status) => match self {
                Expect::Entry => Next::Decode(Schema::Entry),
                Expect::Entries => Next::Decode(Schema::Entries),
                Expect::NoContent => if 200 <= status && status <= 299 {
                    Next::Done(Ok(()))
                } else {
                    Next::Decode(Schema::Rejection(status))
                },
            },
        }
    }
}

} // verus!
