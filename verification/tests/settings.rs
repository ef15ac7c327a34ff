//! The requests of the original's server tests, built from the same inputs.
//! What the server answers is not part of the library and is not asserted.
use pocketbase_sdk::admin::Admin;
use pocketbase_sdk::client::{Auth, Client};
use pocketbase_sdk::httpc::HttpMethod;
use pocketbase_sdk::settings::{EmailTemplateType, S3FileSystem};

const POCKETBASE_URL: &str = "http://localhost:8090";
const USER_EMAIL: &str = "me@uxsoft.cz";

fn admin_client() -> Client<Auth> {
    Admin::new(POCKETBASE_URL).authenticated("admin-token".to_string())
}

fn pair(a: &str, b: &str) -> (String, String) {
    (a.to_string(), b.to_string())
}

#[test]
fn health_check_health_check() {
    let client = Client::new(POCKETBASE_URL);
    let request = client.health_check();
    assert_eq!(request.method, HttpMethod::Get);
    assert_eq!(request.url, "http://localhost:8090/api/health");
}

#[test]
fn settings_settings_get_all() {
    let client = admin_client();
    let request = client.settings().get_all().fields(vec!["meta".to_string()]).call();
    assert_eq!(request.method, HttpMethod::Get);
    assert_eq!(request.url, "http://localhost:8090/api/settings");
    assert_eq!(request.query, vec![pair("fields", "meta")]);
    assert_eq!(request.headers, vec![pair("Authorization", "admin-token")]);
}

#[test]
fn settings_test_s3() {
    let client = admin_client();
    let request = client.settings().get_all().fields(vec!["meta".to_string()]).call();
    assert_eq!(request.query, vec![pair("fields", "meta")]);
    assert!(request.body.is_none());
}

#[test]
fn settings_tests_settings_get_all() {
    let client = admin_client();
    let request = client.settings().get_all().call();
    assert_eq!(request.url, "http://localhost:8090/api/settings");
    assert!(request.query.is_empty());
}

#[test]
fn settings_tests_test_s3() {
    let client = admin_client();
    let backups = client.settings().test_s3().filesystem(S3FileSystem::Backups).call();
    let storage = client.settings().test_s3().filesystem(S3FileSystem::Storage).call();
    assert_eq!(backups.url, "http://localhost:8090/api/settings/test/s3");
    assert_eq!(backups.body.as_deref(), Some("{\"filesystem\":\"backups\"}"));
    assert_eq!(storage.body.as_deref(), Some("{\"filesystem\":\"storage\"}"));
}

#[test]
fn test_email() {
    let client = admin_client();
    let request = client.settings().test_email(&USER_EMAIL.to_string()).template(EmailTemplateType::EmailChange).call();
    assert_eq!(request.url, "http://localhost:8090/api/settings/test/email");
    assert_eq!(request.body.as_deref(), Some("{\"email\":\"me@uxsoft.cz\",\"template\":\"email-change\"}"));
}

#[test]
fn test_generate_apple_client_secret() {
    let client = admin_client();
    let request = client
        .settings()
        .generate_apple_client_secret("apple-client", "apple-team", "apple-key", "apple-private-key", 15777000)
        .call();
    assert_eq!(request.url, "http://localhost:8090/api/settings/apple/generate-client-secret");
    assert_eq!(
        request.body.as_deref(),
        Some("{\"clientId\":\"apple-client\",\"duration\":15777000,\"keyId\":\"apple-key\",\"privateKey\":\"apple-private-key\",\"teamId\":\"apple-team\"}")
    );
}

#[test]
fn get_all_fields_joined_by_commas() {
    let client = admin_client();
    let builder = client.settings().get_all().fields(vec!["meta".to_string(), "smtp".to_string(), "s3".to_string()]);
    assert_eq!(builder.call().query, vec![pair("fields", "meta,smtp,s3")]);
    let none = builder.fields(Vec::new());
    assert!(none.call().query.is_empty());
}
