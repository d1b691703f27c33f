use upstream_sync::auth::Method;
use upstream_sync::auth::Reply;
use upstream_sync::client::AuthClient;
use upstream_sync::client::Call;
use upstream_sync::error::Operation;
use upstream_sync::error::SyncError;
use upstream_sync::feeds;
use upstream_sync::gateway::acknowledge;
use upstream_sync::gateway::require_success;
use upstream_sync::gateway::decode;
use upstream_sync::items;
use upstream_sync::source::create_auth_client;
use upstream_sync::source::source_for_command;
use upstream_sync::source::Source;

fn client() -> AuthClient {
    AuthClient::new("http://up".to_string(), "k".to_string(), "s".to_string())
}

fn done(status: u16, body: &str) -> Result<Reply, SyncError> {
    Ok(Reply { status, body: body.as_bytes().to_vec() })
}

fn call(method: Method, url: &str, body: Option<&str>) -> Call {
    Call { method, url: url.to_string(), body: body.map(|b| b.to_string()) }
}

#[test]
fn feed_calls_follow_the_wire_contract() {
    let c = client();
    assert_eq!(
        feeds::create(&c, "{\"title\":\"a\"}".to_string()),
        call(Method::Post, "http://up/feeds", Some("{\"title\":\"a\"}"))
    );
    assert_eq!(feeds::read_all(&c), call(Method::Get, "http://up/feeds", None));
    assert_eq!(feeds::read(&c, 12), call(Method::Get, "http://up/feeds/12", None));
    assert_eq!(feeds::read(&c, -3), call(Method::Get, "http://up/feeds/-3", None));
    assert_eq!(
        feeds::update(&c, 7, "{\"id\":7}".to_string()),
        call(Method::Patch, "http://up/feeds/7", Some("{\"id\":7}"))
    );
    assert_eq!(
        feeds::delete(&c, 2147483647),
        call(Method::Delete, "http://up/feeds/2147483647", None)
    );
    assert_eq!(feeds::path_of(0), "/feeds/0");
    assert_eq!(feeds::path_of(i32::MIN), "/feeds/-2147483648");
}

#[test]
fn item_calls_follow_the_wire_contract() {
    let c = client();
    assert_eq!(
        items::create(&c, "{}".to_string()),
        call(Method::Post, "http://up/items", Some("{}"))
    );
    assert_eq!(
        items::read_all(&c, "{\"status\":\"Unread\"}".to_string()),
        call(Method::Get, "http://up/items", Some("{\"status\":\"Unread\"}"))
    );
    assert_eq!(
        items::count_all(&c, "{}".to_string()),
        call(Method::Get, "http://up/items/count", Some("{}"))
    );
    assert_eq!(
        items::update(&c, 5, "{\"id\":5}".to_string()),
        call(Method::Patch, "http://up/items/5", Some("{\"id\":5}"))
    );
    assert_eq!(
        items::update_all(&c, "{}".to_string()),
        call(Method::Patch, "http://up/items", Some("{}"))
    );
    assert_eq!(items::path_of(10), "/items/10");
}

#[test]
fn changes_are_acknowledged_on_success() {
    assert_eq!(feeds::create_reply(done(201, "")), Ok("New feed added".to_string()));
    assert_eq!(feeds::update_reply(done(200, "")), Ok("Feed updated".to_string()));
    assert_eq!(feeds::delete_reply(done(204, "")), Ok("Feed deleted".to_string()));
    assert_eq!(items::create_reply(done(200, "ignored")), Ok("Item created".to_string()));
    assert_eq!(items::update_reply(done(299, "")), Ok("Item updated".to_string()));
    assert_eq!(items::update_all_reply(done(200, "")), Ok("Items updated".to_string()));
    assert_eq!(acknowledge(Operation::ReadFeed, "fine", done(200, "")), Ok("fine".to_string()));
}

#[test]
fn refusals_carry_status_and_operation() {
    assert_eq!(
        feeds::create_reply(done(400, "")),
        Err(SyncError::ResourceOperationFailed(400, Operation::CreateFeed))
    );
    assert_eq!(
        feeds::update_reply(done(404, "")),
        Err(SyncError::ResourceOperationFailed(404, Operation::UpdateFeed))
    );
    assert_eq!(
        feeds::delete_reply(done(500, "")),
        Err(SyncError::ResourceOperationFailed(500, Operation::DeleteFeed))
    );
    assert_eq!(
        items::create_reply(done(199, "")),
        Err(SyncError::ResourceOperationFailed(199, Operation::CreateItem))
    );
    assert_eq!(
        items::update_reply(done(300, "")),
        Err(SyncError::ResourceOperationFailed(300, Operation::UpdateItem))
    );
    assert_eq!(
        items::update_all_reply(done(403, "")),
        Err(SyncError::ResourceOperationFailed(403, Operation::UpdateItems))
    );
    assert_eq!(
        feeds::read_all_reply(done(502, "[]"), Some(vec![1])),
        Err(SyncError::ResourceOperationFailed(502, Operation::ReadFeeds))
    );
    assert_eq!(
        feeds::read_reply(done(404, "null"), Some(Some(1))),
        Err(SyncError::ResourceOperationFailed(404, Operation::ReadFeed))
    );
    assert_eq!(
        items::read_all_reply(done(400, "[]"), Some(vec![1])),
        Err(SyncError::ResourceOperationFailed(400, Operation::ReadItems))
    );
    assert_eq!(
        items::count_all_reply(done(400, "3")),
        Err(SyncError::ResourceOperationFailed(400, Operation::CountItems))
    );
}

#[test]
fn second_rejection_is_a_failure_of_its_own() {
    assert_eq!(
        feeds::create_reply(done(401, "")),
        Err(SyncError::UnauthorizedAfterRetry(Operation::CreateFeed))
    );
    assert_eq!(
        items::read_all_reply(done(401, "[]"), Some(vec![1])),
        Err(SyncError::UnauthorizedAfterRetry(Operation::ReadItems))
    );
    assert_eq!(
        items::count_all_reply(done(401, "1")),
        Err(SyncError::UnauthorizedAfterRetry(Operation::CountItems))
    );
    assert_eq!(
        require_success(Operation::DeleteFeed, done(401, "")),
        Err(SyncError::UnauthorizedAfterRetry(Operation::DeleteFeed))
    );
}

#[test]
fn failures_of_the_client_pass_through() {
    let lost = || Err(SyncError::TransportFailed("reset".to_string()));
    assert_eq!(
        feeds::create_reply(lost()),
        Err(SyncError::TransportFailed("reset".to_string()))
    );
    assert_eq!(
        items::update_reply(Err(SyncError::AuthenticationFailed(403))),
        Err(SyncError::AuthenticationFailed(403))
    );
    assert_eq!(
        items::count_all_reply(lost()),
        Err(SyncError::TransportFailed("reset".to_string()))
    );
    assert_eq!(
        feeds::read_all_reply(Err(SyncError::MalformedResponse), Some(0)),
        Err(SyncError::MalformedResponse)
    );
    assert_eq!(require_success(Operation::ReadFeed, lost()), lost());
}

#[test]
fn reads_hand_on_the_decoded_value() {
    assert_eq!(feeds::read_all_reply(done(200, "[1,2]"), Some(vec![1, 2])), Ok(vec![1, 2]));
    assert_eq!(feeds::read_reply(done(200, "null"), Some(None::<i32>)), Ok(None));
    assert_eq!(items::read_all_reply(done(200, "[]"), Some(Vec::<u8>::new())), Ok(Vec::new()));
    assert_eq!(decode(Operation::ReadItems, done(200, ""), Some("v")), Ok("v"));
}

#[test]
fn undecodable_success_is_malformed() {
    assert_eq!(
        feeds::read_all_reply(done(200, "<html>"), None::<Vec<i32>>),
        Err(SyncError::MalformedResponse)
    );
    assert_eq!(feeds::read_reply(done(200, ""), None::<i32>), Err(SyncError::MalformedResponse));
    assert_eq!(
        items::read_all_reply(done(204, ""), None::<i32>),
        Err(SyncError::MalformedResponse)
    );
    assert_eq!(
        decode(Operation::ReadItems, done(200, ""), None::<i32>),
        Err(SyncError::MalformedResponse)
    );
}

#[test]
fn count_decodes_a_json_integer() {
    assert_eq!(items::count_all_reply(done(200, "0")), Ok(0));
    assert_eq!(items::count_all_reply(done(200, "42")), Ok(42));
    assert_eq!(items::count_all_reply(done(200, " -7 ")), Ok(-7));
    assert_eq!(items::count_all_reply(done(200, "9223372036854775807")), Ok(i64::MAX));
}

#[test]
fn count_refuses_what_is_no_integer() {
    for body in ["", "many", "\"3\"", "3.5", "[3]", "9223372036854775808", "3 4", "null"] {
        assert_eq!(
            items::count_all_reply(done(200, body)),
            Err(SyncError::MalformedResponse),
            "{:?}",
            body
        );
    }
}

#[test]
fn success_is_handed_back() {
    assert_eq!(require_success(Operation::ReadFeeds, done(200, "x")), done(200, "x"));
    assert_eq!(require_success(Operation::ReadFeeds, done(299, "")), done(299, ""));
}

#[test]
fn client_needs_credentials() {
    assert_eq!(
        create_auth_client(Some(("k".to_string(), "s".to_string())), "http://up".to_string()),
        Ok(client())
    );
    assert_eq!(
        create_auth_client(None, "http://up".to_string()),
        Err(SyncError::ConfigurationMissing)
    );
}

#[test]
fn commands_choose_their_source() {
    let credentials = Some(("k".to_string(), "s".to_string()));
    assert_eq!(source_for_command(None, None), Ok(Source::Local));
    assert_eq!(source_for_command(None, credentials.clone()), Ok(Source::Local));
    assert_eq!(
        source_for_command(Some("http://up".to_string()), credentials),
        Ok(Source::Upstream(client()))
    );
    assert_eq!(
        source_for_command(Some("http://up".to_string()), None),
        Err(SyncError::ConfigurationMissing)
    );
}
