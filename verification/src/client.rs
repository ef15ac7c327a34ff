//! The client: the server's base URL and, once signed in, the auth token.
use crate::collections::CollectionsManager;
use crate::httpc::{self, Httpc, HttpRequest, HttpRequestView, HttpMethod};
use crate::json::{self, push_json_string};
use crate::logs::LogsManager;
use crate::realtime::RealtimeManager;
use crate::records::RecordsManager;
use crate::settings::SettingsManager;
use vstd::prelude::*;

verus! {

/// The state of a client that has not signed in.
#[derive(Debug, Clone, Copy)]
pub struct NoAuth;

/// The state of a client that has signed in.
#[derive(Debug, Clone, Copy)]
pub struct Auth;

/// A PocketBase client in a given sign-in state.
#[derive(Debug, Clone)]
pub struct Client<State = NoAuth> {
    pub base_url: String,
    pub auth_token: Option<String>,
    pub state: State,
}

/// The server's answer to a health check.
#[derive(Debug, Clone)]
pub struct HealthCheckResponse {
    pub code: i32,
    pub message: String,
}

/// The JSON body of a password sign-in:
/// `{"identity":<identity>,"password":<password>}`.
pub open spec fn credentials_body(identity: Seq<char>, password: Seq<char>) -> Seq<char> {
    "{\"identity\":"@ + json::json_quote(identity) + ",\"password\":"@ + json::json_quote(password) + "}"@
}

/// The sign-in body is the JSON object whose `identity` member is the
/// identifier and whose `password` member is the secret, as strings.
pub proof fn law_credentials_body_fields(identity: Seq<char>, password: Seq<char>)
    ensures
        credentials_body(identity, password) == json::json_object(seq![
            ("identity"@, json::json_quote(identity)),
            ("password"@, json::json_quote(password)),
        ]),
{
    let f0 = ("identity"@, json::json_quote(identity));
    let f1 = ("password"@, json::json_quote(password));
    json::lemma_json_object_2(f0, f1);
    assert(seq!['{'] + json::json_member(f0) == "{\"identity\":"@ + json::json_quote(identity)) by {
        reveal_strlit("identity");
        reveal_strlit("{\"identity\":");
        assert("identity"@ =~= seq!['i', 'd', 'e', 'n', 't', 'i', 't', 'y']);
        json::lemma_plain_member(f0.0, f0.1);
        assert(seq!['{'] + json::json_member(f0) =~= "{\"identity\":"@ + json::json_quote(identity));
    }
    assert(seq![','] + json::json_member(f1) + seq!['}']
        == ",\"password\":"@ + json::json_quote(password) + "}"@) by {
        reveal_strlit("password");
        reveal_strlit(",\"password\":");
        reveal_strlit("}");
        assert("password"@ =~= seq!['p', 'a', 's', 's', 'w', 'o', 'r', 'd']);
        json::lemma_plain_member(f1.0, f1.1);
        assert(seq![','] + json::json_member(f1) + seq!['}']
            =~= ",\"password\":"@ + json::json_quote(password) + "}"@);
    }
    let a = seq!['{'] + json::json_member(f0);
    let b = seq![','] + json::json_member(f1) + seq!['}'];
    assert(json::json_object(seq![f0, f1]) =~= a + b);
}

/// A sign-in body determines the credentials: distinct credentials give
/// distinct bodies.
pub proof fn law_credentials_body_injective(
    identity: Seq<char>,
    password: Seq<char>,
    other_identity: Seq<char>,
    other_password: Seq<char>,
)
    requires
        credentials_body(identity, password) == credentials_body(other_identity, other_password),
    ensures
        identity == other_identity,
        password == other_password,
{
    let head = "{\"identity\":"@;
    let middle = ",\"password\":"@;
    let tail = "}"@;
    let body = credentials_body(identity, password);
    let rest = middle + json::json_quote(password) + tail;
    let other_rest = middle + json::json_quote(other_password) + tail;
    assert(body.skip(head.len() as int) =~= json::json_quote(identity) + rest);
    assert(credentials_body(other_identity, other_password).skip(head.len() as int)
        =~= json::json_quote(other_identity) + other_rest);
    json::law_json_quote_prefix_free(identity, other_identity, rest, other_rest);
    assert(rest.skip(middle.len() as int) =~= json::json_quote(password) + tail);
    assert(other_rest.skip(middle.len() as int) =~= json::json_quote(other_password) + tail);
    json::law_json_quote_prefix_free(password, other_password, tail, tail);
}

/// Writes the JSON body of a password sign-in.
pub(crate) fn credentials(identifier: &str, secret: &str) -> (body: String)
    ensures
        body@ == credentials_body(identifier@, secret@),
{
    let mut body = String::from_str("{\"identity\":");
    push_json_string(&mut body, identifier);
    body.append(",\"password\":");
    push_json_string(&mut body, secret);
    body.append("}");
    body
}

impl<State> Client<State> {
    /// The token that the client sends, by its characters.
    pub open spec fn token_view(&self) -> Option<Seq<char>> {
        httpc::opt_string_view(self.auth_token)
    }

    /// The request of a health check: a GET of `<base_url>/api/health`
    /// without query pairs.
    pub fn health_check(&self) -> (request: HttpRequest)
        ensures
            request@.method == HttpMethod::Get,
            request@.url == self.base_url@ + "/api/health"@,
            request@.headers == seq![("Authorization"@, httpc::get_auth_value(self.token_view()))],
            request@.query == Seq::<(Seq<char>, Seq<char>)>::empty(),
            request@.body is None,
    {
        let mut url = self.base_url.clone();
        url.append("/api/health");
        Httpc::get(self, url.as_str(), None)
    }
}

impl Client<Auth> {
    /// The manager of the server's collections.
    pub fn collections(&self) -> (manager: CollectionsManager<'_>)
        ensures
            manager.client == self,
    {
        CollectionsManager { client: self }
    }

    /// The manager of the server's logs.
    pub fn logs(&self) -> (manager: LogsManager<'_>)
        ensures
            manager.client == self,
    {
        LogsManager { client: self }
    }

    /// The manager of the records of the collection `record_name`.
    pub fn records(&self, record_name: &'static str) -> (manager: RecordsManager<'_>)
        ensures
            manager.client == self,
            manager.name@ == record_name@,
    {
        RecordsManager { client: self, name: String::from_str(record_name) }
    }

    /// The manager of the server's settings.
    pub fn settings(&self) -> (manager: SettingsManager<'_>)
        ensures
            manager.client == self,
    {
        SettingsManager { client: self }
    }

    /// The manager of the realtime API.
    pub fn realtime(&self) -> (manager: RealtimeManager<'_>)
        ensures
            manager.client == self,
    {
        RealtimeManager { client: self }
    }
}

impl Client<NoAuth> {
    /// A client of the server at `base_url` that has not signed in.
    pub fn new(base_url: &str) -> (client: Self)
        ensures
            client.base_url@ == base_url@,
            client.auth_token is None,
    {
        Client { base_url: String::from_str(base_url), auth_token: None, state: NoAuth }
    }

    /// The request that signs in with a password as a record of
    /// `collection`: a POST of the credentials to
    /// `<base_url>/api/collections/<collection>/auth-with-password`.
    pub fn auth_with_password(&self, collection: &str, identifier: &str, secret: &str) -> (request: HttpRequest)
        ensures
            request@ == (HttpRequestView {
                method: HttpMethod::Post,
                url: self.base_url@ + "/api/collections/"@ + collection@ + "/auth-with-password"@,
                headers: httpc::json_headers(self.token_view()),
                query: Seq::empty(),
                body: Some(credentials_body(identifier@, secret@)),
            }),
    {
        let mut url = self.base_url.clone();
        url.append("/api/collections/");
        url.append(collection);
        url.append("/auth-with-password");
        Httpc::post(self, url.as_str(), credentials(identifier, secret))
    }

    /// The signed-in client, once the server has answered a sign-in with
    /// `token`: the same base URL, and the token.
    pub fn authenticated(&self, token: String) -> (client: Client<Auth>)
        ensures
            client.base_url@ == self.base_url@,
            client.auth_token == Some(token),
    {
        Client { base_url: self.base_url.clone(), state: Auth, auth_token: Some(token) }
    }
}

} // verus!
