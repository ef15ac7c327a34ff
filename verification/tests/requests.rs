use pocketbase_sdk::admin::Admin;
use pocketbase_sdk::client::{Auth, Client, NoAuth};
use pocketbase_sdk::httpc::{HttpMethod, HttpRequest, Httpc};
use pocketbase_sdk::json::{push_decimal, push_json_string};
use pocketbase_sdk::settings::{EmailTemplateType, S3FileSystem};

const URL: &str = "http://localhost:8090";

fn pair(a: &str, b: &str) -> (String, String) {
    (a.to_string(), b.to_string())
}

fn signed_in() -> Client<Auth> {
    Client::new(URL).authenticated("tok-123".to_string())
}

fn body(request: &HttpRequest) -> &str {
    request.body.as_deref().unwrap()
}

#[test]
fn json_string_plain() {
    let mut out = String::from("x=");
    push_json_string(&mut out, "hello");
    assert_eq!(out, "x=\"hello\"");
}

#[test]
fn json_string_escapes() {
    let mut out = String::new();
    push_json_string(&mut out, "a\"b\\c\nd\te\r\u{8}\u{c}\u{1}\u{1f}é/");
    assert_eq!(out, "\"a\\\"b\\\\c\\nd\\te\\r\\b\\f\\u0001\\u001fé/\"");
}

#[test]
fn json_string_empty() {
    let mut out = String::new();
    push_json_string(&mut out, "");
    assert_eq!(out, "\"\"");
}

#[test]
fn decimal_numbers() {
    for (n, text) in [(0usize, "0"), (7, "7"), (10, "10"), (15777000, "15777000"), (usize::MAX, &usize::MAX.to_string()[..])] {
        let mut out = String::from("#");
        push_decimal(&mut out, n);
        assert_eq!(out, format!("#{}", text));
    }
}

#[test]
fn new_client_has_no_token() {
    let client = Client::new(URL);
    assert_eq!(client.base_url, URL);
    assert!(client.auth_token.is_none());
}

#[test]
fn health_check_request_without_token() {
    let request = Client::new(URL).health_check();
    assert_eq!(request.method, HttpMethod::Get);
    assert_eq!(request.url, "http://localhost:8090/api/health");
    assert_eq!(request.headers, vec![pair("Authorization", "")]);
    assert!(request.query.is_empty());
    assert!(request.body.is_none());
}

#[test]
fn health_check_request_with_token() {
    let request = signed_in().health_check();
    assert_eq!(request.headers, vec![pair("Authorization", "tok-123")]);
}

#[test]
fn get_with_query_pairs() {
    let client = signed_in();
    let request = Httpc::get(&client, "u", Some(vec![("page", "2"), ("filter", "a = 'b'")]));
    assert_eq!(request.query, vec![pair("page", "2"), pair("filter", "a = 'b'")]);
    assert_eq!(request.url, "u");
}

#[test]
fn post_patch_delete_headers() {
    let client = signed_in();
    let post = Httpc::post(&client, "u", "{}".to_string());
    assert_eq!(post.method, HttpMethod::Post);
    assert_eq!(post.headers, vec![pair("Content-Type", "application/json"), pair("Authorization", "tok-123")]);
    assert_eq!(body(&post), "{}");
    let patch = Httpc::patch(&client, "u", "[]".to_string());
    assert_eq!(patch.method, HttpMethod::Patch);
    assert_eq!(patch.headers, post.headers);
    let delete = Httpc::delete(&client, "u");
    assert_eq!(delete.method, HttpMethod::Delete);
    assert_eq!(delete.headers, vec![pair("Authorization", "tok-123")]);
    assert!(delete.body.is_none());
    let anonymous: Client<NoAuth> = Client::new(URL);
    let post = Httpc::post(&anonymous, "u", String::new());
    assert_eq!(post.headers, vec![pair("Content-Type", "application/json")]);
    assert!(Httpc::delete(&anonymous, "u").headers.is_empty());
}

#[test]
fn record_sign_in_request() {
    let request = Client::new(URL).auth_with_password("users", "me@uxsoft.cz", "pa\"ss");
    assert_eq!(request.method, HttpMethod::Post);
    assert_eq!(request.url, "http://localhost:8090/api/collections/users/auth-with-password");
    assert_eq!(body(&request), "{\"identity\":\"me@uxsoft.cz\",\"password\":\"pa\\\"ss\"}");
    assert_eq!(request.headers, vec![pair("Content-Type", "application/json")]);
}

#[test]
fn record_sign_in_result() {
    let client = Client::new(URL).authenticated("t".to_string());
    assert_eq!(client.base_url, URL);
    assert_eq!(client.auth_token.as_deref(), Some("t"));
}

#[test]
fn admin_sign_in_request() {
    let admin = Admin::new(URL);
    assert_eq!(admin.base_url, URL);
    let request = admin.auth_with_password("wrongidentity@wrongidentity.com", "wrongpassword");
    assert_eq!(request.url, "http://localhost:8090/api/admins/auth-with-password");
    assert_eq!(
        body(&request),
        "{\"identity\":\"wrongidentity@wrongidentity.com\",\"password\":\"wrongpassword\"}"
    );
    assert_eq!(request.headers, vec![pair("Content-Type", "application/json")]);
    let client = admin.authenticated("admintoken".to_string());
    assert_eq!(client.base_url, URL);
    assert_eq!(client.auth_token.as_deref(), Some("admintoken"));
}

#[test]
fn managers_keep_the_client() {
    let client = signed_in();
    assert!(std::ptr::eq(client.collections().client, &client));
    assert!(std::ptr::eq(client.logs().client, &client));
    let records = client.records("posts");
    assert_eq!(records.name, "posts");
    assert!(std::ptr::eq(client.settings().client, &client));
    assert!(std::ptr::eq(client.realtime().client, &client));
}

#[test]
fn settings_get_all_request() {
    let client = signed_in();
    let request = client.settings().get_all().call();
    assert_eq!(request.method, HttpMethod::Get);
    assert_eq!(request.url, "http://localhost:8090/api/settings");
    assert_eq!(request.headers, vec![pair("Authorization", "tok-123")]);
}

#[test]
fn settings_test_s3_requests() {
    let client = signed_in();
    let storage = client.settings().test_s3();
    assert_eq!(storage.filesystem, S3FileSystem::Storage);
    let request = storage.call();
    assert_eq!(request.url, "http://localhost:8090/api/settings/test/s3");
    assert_eq!(body(&request), "{\"filesystem\":\"storage\"}");
    let backups = storage.filesystem(S3FileSystem::Backups);
    assert_eq!(backups.filesystem, S3FileSystem::Backups);
    assert_eq!(body(&backups.call()), "{\"filesystem\":\"backups\"}");
}

#[test]
fn settings_test_email_requests() {
    let client = signed_in();
    let builder = client.settings().test_email("me@uxsoft.cz");
    assert_eq!(builder.template, EmailTemplateType::Verification);
    assert_eq!(body(&builder.call()), "{\"email\":\"me@uxsoft.cz\",\"template\":\"verification\"}");
    let change = builder.template(EmailTemplateType::EmailChange);
    assert_eq!(change.email, "me@uxsoft.cz");
    let request = change.call();
    assert_eq!(request.url, "http://localhost:8090/api/settings/test/email");
    assert_eq!(body(&request), "{\"email\":\"me@uxsoft.cz\",\"template\":\"email-change\"}");
    let reset = builder.template(EmailTemplateType::PasswordReset);
    assert_eq!(body(&reset.call()), "{\"email\":\"me@uxsoft.cz\",\"template\":\"password-reset\"}");
}

#[test]
fn settings_apple_client_secret_request() {
    let client = signed_in();
    let builder = client.settings().generate_apple_client_secret("cid", "team", "kid", "-----KEY-----\nabc", 15777000);
    assert_eq!(builder.duration, 15777000);
    let request = builder.call();
    assert_eq!(request.url, "http://localhost:8090/api/settings/apple/generate-client-secret");
    assert_eq!(
        body(&request),
        "{\"clientId\":\"cid\",\"duration\":15777000,\"keyId\":\"kid\",\"privateKey\":\"-----KEY-----\\nabc\",\"teamId\":\"team\"}"
    );
}

#[test]
fn settings_update_does_nothing() {
    let client = signed_in();
    let () = client.settings().update("anything");
}

#[test]
fn realtime_connect_request() {
    let client = signed_in();
    let request = client.realtime().connect();
    assert_eq!(request.method, HttpMethod::Get);
    assert_eq!(request.url, "http://localhost:8090/api/realtime");
    assert!(request.headers.is_empty());
}

#[test]
fn realtime_announce_topics_request() {
    let client = signed_in();
    let connection = client.realtime().connected("abc".to_string());
    assert_eq!(connection.client_id, "abc");
    let request = connection.announce_topics(&["posts"]);
    assert_eq!(request.method, HttpMethod::Post);
    assert_eq!(request.url, "http://localhost:8090/api/realtime");
    assert_eq!(request.headers, vec![pair("Content-Type", "application/json")]);
    assert_eq!(body(&request), "{\"clientId\":\"abc\",\"subscriptions\":[\"posts\"]}");
    let many = connection.announce_topics(&["posts", "users/x", "q\""]);
    assert_eq!(body(&many), "{\"clientId\":\"abc\",\"subscriptions\":[\"posts\",\"users/x\",\"q\\\"\"]}");
    let none = connection.announce_topics(&[]);
    assert_eq!(body(&none), "{\"clientId\":\"abc\",\"subscriptions\":[]}");
}

#[test]
fn distinct_credentials_give_distinct_bodies() {
    let client = Client::new(URL);
    let a = client.auth_with_password("users", "a\"", "b");
    let b = client.auth_with_password("users", "a", "\"b");
    assert_ne!(a.body, b.body);
}
