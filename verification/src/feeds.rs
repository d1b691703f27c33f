//! The operations on feeds: the call that each one makes, and what the
//! reply to it means.

use vstd::prelude::*;
use vstd::string::StringExecFns;

use crate::auth::Method;
use crate::auth::Reply;
use crate::client::result_of;
use crate::client::AuthClient;
use crate::client::Call;
use crate::client::CallView;
use crate::error::Operation;
use crate::error::SyncError;
use crate::gateway::acknowledge;
use crate::gateway::acknowledged;
use crate::gateway::decode;
use crate::gateway::decoded;
use crate::gateway::message_result;
use crate::gateway::value_of;
use crate::text::decimal_text;
use crate::text::signed_decimal;

verus! {

/// The path of the feed with the identifier `id`.
pub open spec fn feed_path(id: i32) -> Seq<char> {
    "/feeds/"@ + decimal_text(id as int)
}

/// Writes the path of one feed.
pub fn path_of(id: i32) -> (path: String)
    ensures
        path@ == feed_path(id),
{
    "/feeds/".to_owned().concat(signed_decimal(id as i64).as_str())
}

/// The call that creates a feed from the JSON text of its description.
pub fn create(client: &AuthClient, body: String) -> (call: Call)
    ensures
        call@ == (CallView {
            method: Method::Post,
            url: client@.url + "/feeds"@,
            body: Some(body@),
        }),
{
    client.post("/feeds", body)
}

/// What the reply to `create` means.
pub fn create_reply(done: Result<Reply, SyncError>) -> (result: Result<String, SyncError>)
    ensures
        message_result(result) == acknowledged(
            Operation::CreateFeed,
            "New feed added"@,
            result_of(done),
        ),
{
    acknowledge(Operation::CreateFeed, "New feed added", done)
}

/// The call that reads all feeds.
pub fn read_all(client: &AuthClient) -> (call: Call)
    ensures
        call@ == (CallView { method: Method::Get, url: client@.url + "/feeds"@, body: None }),
{
    client.get("/feeds")
}

/// What the reply to `read_all` means, given the feeds that its body decoded
/// to.
pub fn read_all_reply<T>(done: Result<Reply, SyncError>, feeds: Option<T>) -> (result: Result<
    T,
    SyncError,
>)
    ensures
        value_of(result) == decoded(Operation::ReadFeeds, result_of(done), feeds),
{
    decode(Operation::ReadFeeds, done, feeds)
}

/// The call that reads the feed with the identifier `id`.
pub fn read(client: &AuthClient, id: i32) -> (call: Call)
    ensures
        call@ == (CallView { method: Method::Get, url: client@.url + feed_path(id), body: None }),
{
    client.get(path_of(id).as_str())
}

/// What the reply to `read` means, given what its body decoded to.
pub fn read_reply<T>(done: Result<Reply, SyncError>, feed: Option<T>) -> (result: Result<
    T,
    SyncError,
>)
    ensures
        value_of(result) == decoded(Operation::ReadFeed, result_of(done), feed),
{
    decode(Operation::ReadFeed, done, feed)
}

/// The call that updates the feed with the identifier `id` from the JSON
/// text of the changes.
pub fn update(client: &AuthClient, id: i32, body: String) -> (call: Call)
    ensures
        call@ == (CallView {
            method: Method::Patch,
            url: client@.url + feed_path(id),
            body: Some(body@),
        }),
{
    client.patch(path_of(id).as_str(), body)
}

/// What the reply to `update` means.
pub fn update_reply(done: Result<Reply, SyncError>) -> (result: Result<String, SyncError>)
    ensures
        message_result(result) == acknowledged(
            Operation::UpdateFeed,
            "Feed updated"@,
            result_of(done),
        ),
{
    acknowledge(Operation::UpdateFeed, "Feed updated", done)
}

/// The call that deletes the feed with the identifier `id`.
pub fn delete(client: &AuthClient, id: i32) -> (call: Call)
    ensures
        call@ == (CallView {
            method: Method::Delete,
            url: client@.url + feed_path(id),
            body: None,
        }),
{
    client.delete(path_of(id).as_str())
}

/// What the reply to `delete` means.
pub fn delete_reply(done: Result<Reply, SyncError>) -> (result: Result<String, SyncError>)
    ensures
        message_result(result) == acknowledged(
            Operation::DeleteFeed,
            "Feed deleted"@,
            result_of(done),
        ),
{
    acknowledge(Operation::DeleteFeed, "Feed deleted", done)
}

} // verus!
