//! The operations on items: the call that each one makes, and what the
//! reply to it means.
//!
//! The options of a read travel as a JSON body on a `GET`: the read changes
//! nothing on the server.

use vstd::prelude::*;
use vstd::string::StringExecFns;

use crate::auth::Method;
use crate::auth::Reply;
use crate::auth::ReplyView;
use crate::client::result_of;
use crate::client::AuthClient;
use crate::client::Call;
use crate::client::CallView;
use crate::error::status_is_success;
use crate::error::Operation;
use crate::error::SyncError;
use crate::error::SyncErrorView;
use crate::gateway::acknowledge;
use crate::gateway::acknowledged;
use crate::gateway::decode;
use crate::gateway::decoded;
use crate::gateway::message_result;
use crate::gateway::refused;
use crate::gateway::value_of;
use crate::text::decimal_text;
use crate::text::signed_decimal;

verus! {

/// What `serde_json::from_slice::<i64>` decodes from `body`, or `None`
/// where it reports an error.
pub uninterp spec fn json_integer(body: Seq<u8>) -> Option<i64>;

/// Calls `serde_json::from_slice::<i64>`. The contract only gives the
/// result its name.
#[verifier::external_body]
fn decode_json_integer(body: &[u8]) -> (number: Option<i64>)
    ensures
        number == json_integer(body@),
{
    serde_json::from_slice::<i64>(body).ok()
}

/// The path of the item with the identifier `id`.
pub open spec fn item_path(id: i32) -> Seq<char> {
    "/items/"@ + decimal_text(id as int)
}

/// Writes the path of one item.
pub fn path_of(id: i32) -> (path: String)
    ensures
        path@ == item_path(id),
{
    "/items/".to_owned().concat(signed_decimal(id as i64).as_str())
}

/// The call that creates an item from the JSON text of its description.
pub fn create(client: &AuthClient, body: String) -> (call: Call)
    ensures
        call@ == (CallView {
            method: Method::Post,
            url: client@.url + "/items"@,
            body: Some(body@),
        }),
{
    client.post("/items", body)
}

/// What the reply to `create` means.
pub fn create_reply(done: Result<Reply, SyncError>) -> (result: Result<String, SyncError>)
    ensures
        message_result(result) == acknowledged(
            Operation::CreateItem,
            "Item created"@,
            result_of(done),
        ),
{
    acknowledge(Operation::CreateItem, "Item created", done)
}

/// The call that reads the items that the JSON text of the options selects.
pub fn read_all(client: &AuthClient, options: String) -> (call: Call)
    ensures
        call@ == (CallView {
            method: Method::Get,
            url: client@.url + "/items"@,
            body: Some(options@),
        }),
{
    client.get_with_json("/items", options)
}

/// What the reply to `read_all` means, given the items that its body
/// decoded to.
pub fn read_all_reply<T>(done: Result<Reply, SyncError>, items: Option<T>) -> (result: Result<
    T,
    SyncError,
>)
    ensures
        value_of(result) == decoded(Operation::ReadItems, result_of(done), items),
{
    decode(Operation::ReadItems, done, items)
}

/// The call that counts the items that the JSON text of the options
/// selects.
pub fn count_all(client: &AuthClient, options: String) -> (call: Call)
    ensures
        call@ == (CallView {
            method: Method::Get,
            url: client@.url + "/items/count"@,
            body: Some(options@),
        }),
{
    client.get_with_json("/items/count", options)
}

/// The number that the body of a finished call holds, if there is a body
/// and it holds one.
pub open spec fn counted(done: Result<ReplyView, SyncErrorView>) -> Option<i64> {
    match done {
        Ok(reply) => json_integer(reply.body),
        Err(_) => None,
    }
}

/// Decodes the body of a successful reply as a number.
fn decode_count(done: &Result<Reply, SyncError>) -> (number: Option<i64>)
    ensures
        number == (if refused(Operation::CountItems, result_of(*done)) is None {
            counted(result_of(*done))
        } else {
            None
        }),
{
    match done {
        Ok(reply) => {
            if status_is_success(reply.status) {
                decode_json_integer(reply.body.as_slice())
            } else {
                None
            }
        },
        Err(_) => None,
    }
}

/// What the reply to `count_all` means: the number that its body holds.
pub fn count_all_reply(done: Result<Reply, SyncError>) -> (result: Result<i64, SyncError>)
    ensures
        value_of(result) == decoded(
            Operation::CountItems,
            result_of(done),
            counted(result_of(done)),
        ),
{
    let number = decode_count(&done);
    decode(Operation::CountItems, done, number)
}

/// The call that updates the item with the identifier `id` from the JSON
/// text of the changes.
pub fn update(client: &AuthClient, id: i32, body: String) -> (call: Call)
    ensures
        call@ == (CallView {
            method: Method::Patch,
            url: client@.url + item_path(id),
            body: Some(body@),
        }),
{
    client.patch(path_of(id).as_str(), body)
}

/// What the reply to `update` means.
pub fn update_reply(done: Result<Reply, SyncError>) -> (result: Result<String, SyncError>)
    ensures
        message_result(result) == acknowledged(
            Operation::UpdateItem,
            "Item updated"@,
            result_of(done),
        ),
{
    acknowledge(Operation::UpdateItem, "Item updated", done)
}

/// The call that updates every item that the JSON text selects.
pub fn update_all(client: &AuthClient, body: String) -> (call: Call)
    ensures
        call@ == (CallView {
            method: Method::Patch,
            url: client@.url + "/items"@,
            body: Some(body@),
        }),
{
    client.patch("/items", body)
}

/// What the reply to `update_all` means.
pub fn update_all_reply(done: Result<Reply, SyncError>) -> (result: Result<String, SyncError>)
    ensures
        message_result(result) == acknowledged(
            Operation::UpdateItems,
            "Items updated"@,
            result_of(done),
        ),
{
    acknowledge(Operation::UpdateItems, "Items updated", done)
}

} // verus!
