//! What the replies of the upstream server mean for the operations on feeds
//! and items.

use vstd::prelude::*;

use crate::auth::Reply;
use crate::auth::ReplyView;
use crate::client::result_of;
use crate::error::is_success;
use crate::error::status_is_success;
use crate::error::Operation;
use crate::error::SyncError;
use crate::error::SyncErrorView;
use crate::error::UNAUTHORIZED;

verus! {

/// The failure that a status other than success means for `operation`: a
/// 401 can only be the second rejection of the token, since the client has
/// renewed it once; any other status is the server's refusal of the
/// operation.
pub open spec fn failure(operation: Operation, status: u16) -> SyncErrorView {
    if status == 401 {
        SyncErrorView::UnauthorizedAfterRetry(operation)
    } else {
        SyncErrorView::ResourceOperationFailed(status, operation)
    }
}

/// The failure of a finished call of `operation`, if it failed: the client's
/// own failure, or the one that the status of the reply means.
pub open spec fn refused(operation: Operation, done: Result<ReplyView, SyncErrorView>) -> Option<
    SyncErrorView,
> {
    match done {
        Ok(reply) => if is_success(reply.status) {
            None
        } else {
            Some(failure(operation, reply.status))
        },
        Err(error) => Some(error),
    }
}

/// What a finished call of a changing operation yields: `message` where the
/// server reported success, else the failure.
pub open spec fn acknowledged(
    operation: Operation,
    message: Seq<char>,
    done: Result<ReplyView, SyncErrorView>,
) -> Result<Seq<char>, SyncErrorView> {
    match refused(operation, done) {
        Some(error) => Err(error),
        None => Ok(message),
    }
}

/// What a finished call of a reading operation yields, given the value that
/// its body decoded to: the value where the server reported success and the
/// body could be decoded, `MalformedResponse` where it reported success and
/// the body could not, else the failure.
pub open spec fn decoded<T>(
    operation: Operation,
    done: Result<ReplyView, SyncErrorView>,
    value: Option<T>,
) -> Result<T, SyncErrorView> {
    match refused(operation, done) {
        Some(error) => Err(error),
        None => match value {
            Some(v) => Ok(v),
            None => Err(SyncErrorView::MalformedResponse),
        },
    }
}

/// A message or the view of the failure in its place.
pub open spec fn message_result(result: Result<String, SyncError>) -> Result<
    Seq<char>,
    SyncErrorView,
> {
    match result {
        Ok(message) => Ok(message@),
        Err(error) => Err(error@),
    }
}

/// A value or the view of the failure in its place.
pub open spec fn value_of<T>(result: Result<T, SyncError>) -> Result<T, SyncErrorView> {
    match result {
        Ok(value) => Ok(value),
        Err(error) => Err(error@),
    }
}

/// Tells whether a finished call failed, and how.
pub fn require_success(operation: Operation, done: Result<Reply, SyncError>) -> (checked: Result<
    Reply,
    SyncError,
>)
    ensures
        match refused(operation, result_of(done)) {
            Some(error) => checked matches Err(e) && e@ == error,
            None => checked == done && checked is Ok,
        },
{
    match done {
        Ok(reply) => {
            if status_is_success(reply.status) {
                Ok(reply)
            } else if reply.status == UNAUTHORIZED {
                Err(SyncError::UnauthorizedAfterRetry(operation))
            } else {
                Err(SyncError::ResourceOperationFailed(reply.status, operation))
            }
        },
        Err(error) => Err(error),
    }
}

/// The result of a changing operation: `message` on success.
pub fn acknowledge(operation: Operation, message: &str, done: Result<Reply, SyncError>) -> (result:
    Result<String, SyncError>)
    ensures
        message_result(result) == acknowledged(operation, message@, result_of(done)),
{
    match require_success(operation, done) {
        Ok(_) => Ok(message.to_owned()),
        Err(error) => Err(error),
    }
}

/// The result of a reading operation, given what the body of the reply
/// decoded to.
pub fn decode<T>(operation: Operation, done: Result<Reply, SyncError>, value: Option<T>) -> (result:
    Result<T, SyncError>)
    ensures
        value_of(result) == decoded(operation, result_of(done), value),
{
    match require_success(operation, done) {
        Ok(_) => match value {
            Some(v) => Ok(v),
            None => Err(SyncError::MalformedResponse),
        },
        Err(error) => Err(error),
    }
}

} // verus!
