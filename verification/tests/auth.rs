use upstream_sync::auth::accept_token;
use upstream_sync::auth::clear_token_cache;
use upstream_sync::auth::create_auth_headers;
use upstream_sync::auth::fetch_new_token;
use upstream_sync::auth::get_token;
use upstream_sync::auth::receive_token;
use upstream_sync::auth::Method;
use upstream_sync::auth::Reply;
use upstream_sync::auth::Request;
use upstream_sync::auth::TokenCache;
use upstream_sync::auth::TokenStep;
use upstream_sync::error::SyncError;

fn reply(status: u16, body: &str) -> Result<Reply, String> {
    Ok(Reply { status, body: body.as_bytes().to_vec() })
}

#[test]
fn new_cache_holds_no_token() {
    assert_eq!(TokenCache::new().token(), None);
}

#[test]
fn cache_stores_and_forgets() {
    let mut cache = TokenCache::new();
    cache.store("abc".to_string());
    assert_eq!(cache.token(), Some("abc".to_string()));
    cache.store("def".to_string());
    assert_eq!(cache.token(), Some("def".to_string()));
    cache.invalidate();
    assert_eq!(cache.token(), None);
    cache.invalidate();
    assert_eq!(cache.token(), None);
}

#[test]
fn clear_token_cache_is_unconditional() {
    let mut cache = TokenCache::new();
    clear_token_cache(&mut cache);
    assert_eq!(cache.token(), None);
    cache.store("abc".to_string());
    clear_token_cache(&mut cache);
    assert_eq!(cache.token(), None);
}

#[test]
fn auth_headers_carry_bearer_token() {
    assert_eq!(create_auth_headers("abc").authorization, Some("Bearer abc".to_string()));
    assert_eq!(create_auth_headers("").authorization, Some("Bearer ".to_string()));
    assert_eq!(create_auth_headers("a b\tc").authorization, Some("Bearer a b\tc".to_string()));
    assert_eq!(create_auth_headers("tökén").authorization, Some("Bearer tökén".to_string()));
}

#[test]
fn auth_headers_stay_empty_for_unsendable_token() {
    assert_eq!(create_auth_headers("a\nb").authorization, None);
    assert_eq!(create_auth_headers("a\rb").authorization, None);
    assert_eq!(create_auth_headers("a\u{0}b").authorization, None);
    assert_eq!(create_auth_headers("a\u{1f}").authorization, None);
    assert_eq!(create_auth_headers("\u{7f}").authorization, None);
}

#[test]
fn auth_request_presents_basic_credentials() {
    assert_eq!(
        fetch_new_token("https://up.example.com", "user", "pass"),
        Request {
            method: Method::Get,
            url: "https://up.example.com/auth".to_string(),
            authorization: Some("Basic dXNlcjpwYXNz".to_string()),
            body: None,
        }
    );
    assert_eq!(
        fetch_new_token("http://localhost:33003", "Aladdin", "open sesame").authorization,
        Some("Basic QWxhZGRpbjpvcGVuIHNlc2FtZQ==".to_string())
    );
    assert_eq!(fetch_new_token("", "", "").authorization, Some("Basic Og==".to_string()));
    assert_eq!(fetch_new_token("", "", "").url, "/auth");
}

#[test]
fn get_token_prefers_the_cache() {
    let mut cache = TokenCache::new();
    assert_eq!(
        get_token(&cache, "https://up.example.com", "user", "pass"),
        TokenStep::Fetch(fetch_new_token("https://up.example.com", "user", "pass"))
    );
    cache.store("cached".to_string());
    assert_eq!(
        get_token(&cache, "https://up.example.com", "user", "pass"),
        TokenStep::Cached("cached".to_string())
    );
    assert_eq!(cache.token(), Some("cached".to_string()));
}

#[test]
fn accept_token_caches_on_success() {
    let mut cache = TokenCache::new();
    assert_eq!(accept_token(&mut cache, 200, Some("t1".to_string())), Ok("t1".to_string()));
    assert_eq!(cache.token(), Some("t1".to_string()));
    assert_eq!(accept_token(&mut cache, 299, Some("t2".to_string())), Ok("t2".to_string()));
    assert_eq!(cache.token(), Some("t2".to_string()));
}

#[test]
fn accept_token_reports_failures_and_keeps_cache() {
    let mut cache = TokenCache::new();
    cache.store("old".to_string());
    assert_eq!(accept_token(&mut cache, 200, None), Err(SyncError::MalformedResponse));
    assert_eq!(
        accept_token(&mut cache, 401, Some("t".to_string())),
        Err(SyncError::AuthenticationFailed(401))
    );
    assert_eq!(accept_token(&mut cache, 199, None), Err(SyncError::AuthenticationFailed(199)));
    assert_eq!(accept_token(&mut cache, 300, None), Err(SyncError::AuthenticationFailed(300)));
    assert_eq!(accept_token(&mut cache, 500, None), Err(SyncError::AuthenticationFailed(500)));
    assert_eq!(cache.token(), Some("old".to_string()));
}

#[test]
fn receive_token_decodes_json_string() {
    let mut cache = TokenCache::new();
    assert_eq!(receive_token(&mut cache, reply(200, "\"abc.def\"")), Ok("abc.def".to_string()));
    assert_eq!(cache.token(), Some("abc.def".to_string()));
    assert_eq!(
        receive_token(&mut cache, reply(201, " \"with \\\"quotes\\\"\" ")),
        Ok("with \"quotes\"".to_string())
    );
    assert_eq!(cache.token(), Some("with \"quotes\"".to_string()));
}

#[test]
fn receive_token_refuses_body_that_is_no_string() {
    let mut cache = TokenCache::new();
    for body in ["abc", "", "{\"token\":\"abc\"}", "42", "null", "\"abc", "\"a\" \"b\""] {
        assert_eq!(receive_token(&mut cache, reply(200, body)), Err(SyncError::MalformedResponse));
        assert_eq!(cache.token(), None);
    }
}

#[test]
fn receive_token_reports_status_and_transport() {
    let mut cache = TokenCache::new();
    cache.store("old".to_string());
    assert_eq!(
        receive_token(&mut cache, reply(401, "\"abc\"")),
        Err(SyncError::AuthenticationFailed(401))
    );
    assert_eq!(
        receive_token(&mut cache, reply(503, "busy")),
        Err(SyncError::AuthenticationFailed(503))
    );
    assert_eq!(
        receive_token(&mut cache, Err("dns error".to_string())),
        Err(SyncError::TransportFailed("dns error".to_string()))
    );
    assert_eq!(cache.token(), Some("old".to_string()));
}
