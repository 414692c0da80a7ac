//! One result for every outcome of a round trip: the value asked for, or
//! exactly one error.

use crate::model::{ApiError, ApiResult, Error, ListResponse, Reason};
use vstd::prelude::*;

verus! {

/// What a decoded body resolves to: a body that could not be decoded is a
/// decode error, the service's error object an API error, anything else
/// the value.
pub open spec fn unified<T>(decoded: Result<ApiResult<T>, String>) -> Result<T, Error> {
    match decoded {
        Err(why) => Err(Error::Decode(why)),
        Ok(ApiResult::Failure(error)) => Err(Error::Api(error)),
        Ok(ApiResult::Success(value)) => Ok(value),
    }
}

/// What a decoded listing resolves to: its items, in their order.
pub open spec fn unified_list<T>(decoded: Result<ApiResult<ListResponse<T>>, String>) -> Result<
    Vec<T>,
    Error,
> {
    match unified(decoded) {
        Ok(page) => Ok(page.items),
        Err(error) => Err(error),
    }
}

/// Whether an API error carries a status and nothing else.
pub open spec fn is_bare(error: ApiError, status: u16) -> bool {
    error.status == status && error.message@ == Seq::<char>::empty() && error.reasons@
        == Seq::<Reason>::empty()
}

/// Whether `error` is what a refusal with the given status resolves to: the
/// service's error object where the body held one, else the bare status.
pub open spec fn is_rejection(error: Error, status: u16, decoded: Result<ApiError, String>) -> bool {
    match decoded {
        Ok(reported) => error == Error::Api(reported),
        Err(_) => error is Api && is_bare(error->Api_0, status),
    }
}

/// Resolves a decoded body into the value or the error it stands for.
pub fn unify<T>(decoded: Result<ApiResult<T>, String>) -> (result: Result<T, Error>)
    ensures
        result == unified(decoded),
{
    match decoded {
        Err(why) => Err(Error::Decode(why)),
        Ok(ApiResult::Failure(error)) => Err(Error::Api(error)),
        Ok(ApiResult::Success(value)) => Ok(value),
    }
}

/// Resolves a decoded listing into its items, or the error it stands for.
pub fn unify_list<T>(decoded: Result<ApiResult<ListResponse<T>>, String>) -> (result: Result<
    Vec<T>,
    Error,
>)
    ensures
        result == unified_list(decoded),
{
    match unify(decoded) {
        Ok(page) => Ok(page.items),
        Err(error) => Err(error),
    }
}

/// Resolves a response that the status already marks as refused. The
/// result is always an API error: the service's error object where the
/// body held one, and else one that carries the status alone, whatever
/// the body looked like.
pub fn unify_rejection(status: u16, decoded: Result<ApiError, String>) -> (result: Result<
    (),
    Error,
>)
    ensures
        result is Err,
        is_rejection(result->Err_0, status, decoded),
{
    match decoded {
        Ok(reported) => Err(Error::Api(reported)),
        Err(_) => Err(Error::Api(ApiError { status, message: String::new(), reasons: Vec::new() })),
    }
}

} // verus!
