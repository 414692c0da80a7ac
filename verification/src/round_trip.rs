//! What holds of every round trip, whichever operation it serves.

use crate::exchange::{is_success, received, Expect, Next, Schema};
use crate::model::{ApiError, ApiResult, Error, ListResponse};
use crate::unify::{is_bare, is_rejection, unified, unified_list};
use vstd::prelude::*;

verus! {

/// A transport that fails before any response arrives ends the operation
/// with a transport error that carries the fault. No body is decoded.
pub proof fn transport_fault_ends_operation(expect: Expect, why: String)
    ensures
        received(expect, Err(why)) == Next::Done(Err(Error::Transport(why))),
        !(received(expect, Err(why)) is Decode),
{
}

/// An operation that expects a value has the body of every response
/// decoded, whatever the status; only a transport fault ends it before.
pub proof fn value_is_always_decoded(expect: Expect, status: u16)
    requires
        expect != Expect::NoContent,
    ensures
        expect == Expect::Entry ==> received(expect, Ok(status)) == Next::Decode(Schema::Entry),
        expect == Expect::Entries ==> received(expect, Ok(status)) == Next::Decode(Schema::Entries),
{
}

/// A well-formed success body resolves to the decoded value and to no
/// error.
pub proof fn success_body_gives_value<T>(value: T)
    ensures
        unified(Ok::<ApiResult<T>, String>(ApiResult::Success(value))) == Ok::<T, Error>(value),
{
}

/// A well-formed page resolves to its items, in the order in which they
/// came.
pub proof fn success_page_gives_items<T>(page: ListResponse<T>)
    ensures
        unified_list(Ok::<ApiResult<ListResponse<T>>, String>(ApiResult::Success(page))) == Ok::<
            Vec<T>,
            Error,
        >(page.items),
{
}

/// A well-formed error object resolves to an API error that carries that
/// object unchanged: its status, its message and its reasons.
pub proof fn error_body_gives_api_error<T>(error: ApiError)
    ensures
        unified(Ok::<ApiResult<T>, String>(ApiResult::Failure(error))) == Err::<T, Error>(
            Error::Api(error),
        ),
        unified_list(Ok::<ApiResult<ListResponse<T>>, String>(ApiResult::Failure(error))) == Err::<
            Vec<T>,
            Error,
        >(Error::Api(error)),
{
}

/// A body that cannot be decoded resolves to a decode error, where a value
/// was expected.
pub proof fn malformed_body_gives_decode_error<T>(why: String)
    ensures
        unified(Err::<ApiResult<T>, String>(why)) == Err::<T, Error>(Error::Decode(why)),
{
}

/// A removal succeeds exactly on a status of the success class, and then
/// without a look at the body. On every other status the body is decoded
/// as an error object only.
pub proof fn removal_is_judged_by_status(status: u16)
    ensures
        is_success(status) ==> received(Expect::NoContent, Ok(status)) == Next::Done(Ok(())),
        !is_success(status) ==> received(Expect::NoContent, Ok(status)) == Next::Decode(
            Schema::Rejection(status),
        ),
{
}

/// A refused removal resolves to an API error whatever the body holds: to
/// the service's error object, or to the bare status where the body holds
/// none (an empty body, or one that looks like a success).
pub proof fn refused_removal_gives_api_error(
    status: u16,
    decoded: Result<ApiError, String>,
    error: Error,
)
    requires
        is_rejection(error, status, decoded),
    ensures
        error is Api,
        decoded is Ok ==> error->Api_0 == decoded->Ok_0,
        decoded is Err ==> is_bare(error->Api_0, status),
{
}

/// Every round trip ends in exactly one of four ways: the value, an API
/// error, a transport error, or a decode error.
pub proof fn outcomes_are_exclusive<T>(result: Result<T, Error>)
    ensures
        (result is Ok && !(result is Err)) || (result is Err && !(result is Ok)),
        result is Err ==> {
            let error = result->Err_0;
            (error is Api && !(error is Transport) && !(error is Decode)) || (error is Transport
                && !(error is Api) && !(error is Decode)) || (error is Decode && !(error is Api)
                && !(error is Transport))
        },
{
}

} // verus!
