//! The server's settings: the types of what it answers, and the requests
//! that read them and test the mail, S3 and Apple sign-in configuration.
use crate::client::{Auth, Client};
use crate::httpc::{self, Httpc, HttpRequest, HttpRequestView, HttpMethod};
use crate::json::{self, push_decimal, push_json_string};
use vstd::prelude::*;

verus! {

/// All the settings of the server.
#[derive(Debug, Clone)]
pub struct SettingsResponse {
    pub meta: Meta,
    pub logs: Logs,
    pub smtp: Smtp,
    pub s3: S3,
    pub backups: Backups,
    pub admin_auth_token: AuthToken,
    pub admin_password_reset_token: AuthToken,
    pub admin_file_token: AuthToken,
    pub record_auth_token: AuthToken,
    pub record_password_reset_token: AuthToken,
    pub record_email_change_token: AuthToken,
    pub record_verification_token: AuthToken,
    pub record_file_token: AuthToken,
    pub email_auth: EmailAuth,
    pub google_auth: SocialAuth,
    pub facebook_auth: SocialAuth,
    pub github_auth: SocialAuth,
    pub gitlab_auth: SocialAuth,
    pub discord_auth: SocialAuth,
    pub twitter_auth: SocialAuth,
    pub microsoft_auth: SocialAuth,
    pub spotify_auth: SocialAuth,
    pub kakao_auth: SocialAuth,
    pub twitch_auth: SocialAuth,
    pub strava_auth: SocialAuth,
    pub gitee_auth: SocialAuth,
    pub livechat_auth: SocialAuth,
    pub gitea_auth: SocialAuth,
    pub oidc_auth: SocialAuth,
    pub oidc2_auth: SocialAuth,
    pub oidc3_auth: SocialAuth,
    pub apple_auth: SocialAuth,
    pub instagram_auth: SocialAuth,
    pub vk_auth: SocialAuth,
    pub yandex_auth: SocialAuth,
    pub patreon_auth: SocialAuth,
    pub mailcow_auth: SocialAuth,
}

/// A mail template.
#[derive(Debug, Clone)]
pub struct EmailTemplate {
    pub body: String,
    pub subject: String,
    pub action_url: String,
}

/// The application's name, address and mail templates.
#[derive(Debug, Clone)]
pub struct Meta {
    pub app_name: String,
    pub app_url: String,
    pub hide_controls: bool,
    pub sender_name: String,
    pub sender_address: String,
    pub verification_template: EmailTemplate,
    pub reset_password_template: EmailTemplate,
    pub confirm_email_change_template: EmailTemplate,
}

/// How long logs are kept, and from which level.
#[derive(Debug, Clone)]
pub struct Logs {
    pub max_days: usize,
    pub min_level: usize,
    pub log_ip: bool,
}

/// The mail server.
#[derive(Debug, Clone)]
pub struct Smtp {
    pub enabled: bool,
    pub host: String,
    pub port: usize,
    pub username: String,
    pub password: String,
    pub auth_method: String,
    pub tls: bool,
    pub local_name: String,
}

/// An S3 storage.
#[derive(Debug, Clone)]
pub struct S3 {
    pub enabled: bool,
    pub bucket: String,
    pub region: String,
    pub endpoint: String,
    pub access_key: String,
    pub secret: String,
    pub force_path_style: bool,
}

/// When backups are made, how many are kept, and where.
#[derive(Debug, Clone)]
pub struct Backups {
    pub cron: String,
    pub cron_max_keep: usize,
    pub s3: S3,
}

/// The secret and lifetime of one kind of token.
#[derive(Debug, Clone)]
pub struct AuthToken {
    pub secret: String,
    pub duration: usize,
}

/// Sign-in by mail and password.
#[derive(Debug, Clone)]
pub struct EmailAuth {
    pub enabled: bool,
    pub except_domains: Option<String>,
    pub only_domains: Option<String>,
    pub min_password_length: usize,
}

/// Sign-in through one OAuth2 provider.
#[derive(Debug, Clone)]
pub struct SocialAuth {
    pub enabled: bool,
    pub client_id: String,
    pub client_secret: String,
    pub auth_url: String,
    pub token_url: String,
    pub user_api_url: String,
    pub display_name: String,
    pub pkce: Option<String>,
}

/// The files of the server that an S3 test concerns.
#[derive(Debug, Clone, Copy, PartialEq, Eq, Structural)]
pub enum S3FileSystem {
    Storage,
    Backups,
}

/// The name of a file system in a request body.
pub open spec fn s3_filesystem_name(filesystem: S3FileSystem) -> Seq<char> {
    match filesystem {
        S3FileSystem::Storage => "storage"@,
        S3FileSystem::Backups => "backups"@,
    }
}

impl S3FileSystem {
    /// The name of the file system in a request body.
    pub fn name(&self) -> (name: &'static str)
        ensures
            name@ == s3_filesystem_name(*self),
    {
        match self {
            S3FileSystem::Storage => "storage",
            S3FileSystem::Backups => "backups",
        }
    }
}

/// The mail templates that a test mail can use.
#[derive(Debug, Clone, Copy, PartialEq, Eq, Structural)]
pub enum EmailTemplateType {
    Verification,
    PasswordReset,
    EmailChange,
}

/// The name of a mail template in a request body.
pub open spec fn email_template_name(template: EmailTemplateType) -> Seq<char> {
    match template {
        EmailTemplateType::Verification => "verification"@,
        EmailTemplateType::PasswordReset => "password-reset"@,
        EmailTemplateType::EmailChange => "email-change"@,
    }
}

impl EmailTemplateType {
    /// The name of the mail template in a request body.
    pub fn name(&self) -> (name: &'static str)
        ensures
            name@ == email_template_name(*self),
    {
        match self {
            EmailTemplateType::Verification => "verification",
            EmailTemplateType::PasswordReset => "password-reset",
            EmailTemplateType::EmailChange => "email-change",
        }
    }
}

/// Reads all the settings, or only the fields named in `fields`.
#[derive(Debug, Clone)]
pub struct GetAllRequestBuilder<'a> {
    pub client: &'a Client<Auth>,
    /// The fields to read; all of them when empty.
    pub fields: Vec<String>,
}

/// A list of strings, each by its characters.
pub open spec fn strings_view(items: Seq<String>) -> Seq<Seq<char>> {
    items.map_values(|s: String| s@)
}

/// The items of a list separated by commas.
pub open spec fn comma_join(items: Seq<Seq<char>>) -> Seq<char>
    decreases items.len(),
{
    if items.len() == 0 {
        Seq::empty()
    } else if items.len() == 1 {
        items[0]
    } else {
        comma_join(items.drop_last()) + ","@ + items.last()
    }
}

/// The query of a request for the settings: none for all of them, else the
/// single pair `fields=<field>,<field>,..`.
pub open spec fn fields_query(fields: Seq<String>) -> Seq<(Seq<char>, Seq<char>)> {
    if fields.len() == 0 {
        Seq::empty()
    } else {
        seq![("fields"@, comma_join(strings_view(fields)))]
    }
}

/// The field names are taken one for one, in order, and joined by commas as
/// the members of a JSON text are.
pub proof fn law_fields_query_elementwise(fields: Seq<String>)
    ensures
        strings_view(fields).len() == fields.len(),
        forall|i: int| 0 <= i < fields.len() ==> #[trigger] strings_view(fields)[i] == fields[i]@,
        comma_join(strings_view(fields)) == json::comma_separated(strings_view(fields)),
        fields.len() == 0 ==> fields_query(fields) == Seq::<(Seq<char>, Seq<char>)>::empty(),
        fields.len() > 0 ==> fields_query(fields)
            == seq![("fields"@, json::comma_separated(strings_view(fields)))],
{
    lemma_comma_join_separated(strings_view(fields));
}

proof fn lemma_comma_join_separated(items: Seq<Seq<char>>)
    ensures
        comma_join(items) == json::comma_separated(items),
    decreases items.len(),
{
    if items.len() > 1 {
        lemma_comma_join_separated(items.drop_last());
        assert(","@ =~= seq![',']) by {
            reveal_strlit(",");
        }
    }
}

/// Writes the names of the fields separated by commas.
fn join_fields(fields: &Vec<String>) -> (joined: String)
    ensures
        joined@ == comma_join(strings_view(fields@)),
{
    let mut joined = String::new();
    let n: usize = fields.len();
    let mut i: usize = 0;
    while i < n
        invariant
            n == fields@.len(),
            i <= n,
            joined@ == comma_join(strings_view(fields@.take(i as int))),
        decreases n - i,
    {
        assert(strings_view(fields@.take(i as int + 1)).drop_last() =~= strings_view(fields@.take(i as int)));
        assert(strings_view(fields@.take(i as int + 1)).last() == fields@[i as int]@);
        if i > 0 {
            joined.append(",");
        } else {
            assert(joined@ =~= Seq::<char>::empty());
            assert(strings_view(fields@.take(1)) =~= seq![fields@[0]@]);
        }
        joined.append(fields[i].as_str());
        i = i + 1;
    }
    assert(fields@.take(n as int) =~= fields@);
    joined
}

impl<'a> GetAllRequestBuilder<'a> {
    /// The request that reads the settings: a GET of
    /// `<base_url>/api/settings`, with the query pair `fields=<f1>,<f2>,..`
    /// where fields were named.
    pub fn call(&self) -> (request: HttpRequest)
        ensures
            request@.method == HttpMethod::Get,
            request@.url == self.client.base_url@ + "/api/settings"@,
            request@.headers == seq![("Authorization"@, httpc::get_auth_value(self.client.token_view()))],
            request@.query == fields_query(self.fields@),
            request@.body is None,
    {
        let mut url = self.client.base_url.clone();
        url.append("/api/settings");
        if self.fields.len() == 0 {
            Httpc::get(self.client, url.as_str(), None)
        } else {
            let joined = join_fields(&self.fields);
            let mut query: Vec<(&str, &str)> = Vec::new();
            query.push(("fields", joined.as_str()));
            assert(httpc::str_pairs_view(query@) =~= seq![("fields"@, joined@)]);
            Httpc::get(self.client, url.as_str(), Some(query))
        }
    }

    /// The same request, reading only the fields named in `fields`.
    pub fn fields(&self, fields: Vec<String>) -> (builder: Self)
        ensures
            builder.client == self.client,
            builder.fields@ == fields@,
    {
        GetAllRequestBuilder { client: self.client, fields }
    }
}

/// Tests the connection to an S3 storage.
#[derive(Debug, Clone, Copy)]
pub struct TestS3RequestBuilder<'a> {
    pub client: &'a Client<Auth>,
    pub filesystem: S3FileSystem,
}

/// The JSON body of an S3 test: `{"filesystem":<name>}`.
pub open spec fn test_s3_body(filesystem: S3FileSystem) -> Seq<char> {
    "{\"filesystem\":"@ + json::json_quote(s3_filesystem_name(filesystem)) + "}"@
}

/// The name of a file system in a body determines the file system.
pub proof fn law_s3_filesystem_name_injective(a: S3FileSystem, b: S3FileSystem)
    requires
        s3_filesystem_name(a) == s3_filesystem_name(b),
    ensures
        a == b,
{
    reveal_strlit("storage");
    reveal_strlit("backups");
    assert("storage"@[0] != "backups"@[0]);
}

/// The S3 test body is the JSON object whose only member `filesystem` names
/// the chosen file system.
pub proof fn law_test_s3_body_fields(filesystem: S3FileSystem)
    ensures
        test_s3_body(filesystem) == json::json_object(seq![
            ("filesystem"@, json::json_quote(s3_filesystem_name(filesystem))),
        ]),
{
    let f0 = ("filesystem"@, json::json_quote(s3_filesystem_name(filesystem)));
    json::lemma_json_object_1(f0);
    reveal_strlit("filesystem");
    reveal_strlit("{\"filesystem\":");
    reveal_strlit("}");
    assert("filesystem"@ =~= seq!['f', 'i', 'l', 'e', 's', 'y', 's', 't', 'e', 'm']);
    json::lemma_plain_member(f0.0, f0.1);
    assert(test_s3_body(filesystem) =~= json::json_object(seq![f0]));
}

impl<'a> TestS3RequestBuilder<'a> {
    /// The request of the S3 test: a POST of the file system to
    /// `<base_url>/api/settings/test/s3`. The test has succeeded when the
    /// server answers it without error.
    pub fn call(&self) -> (request: HttpRequest)
        ensures
            request@ == (HttpRequestView {
                method: HttpMethod::Post,
                url: self.client.base_url@ + "/api/settings/test/s3"@,
                headers: httpc::json_headers(self.client.token_view()),
                query: Seq::empty(),
                body: Some(test_s3_body(self.filesystem)),
            }),
    {
        let mut url = self.client.base_url.clone();
        url.append("/api/settings/test/s3");
        let mut body = String::from_str("{\"filesystem\":");
        push_json_string(&mut body, self.filesystem.name());
        body.append("}");
        Httpc::post(self.client, url.as_str(), body)
    }

    /// The same test, of the file system `filesystem`.
    pub fn filesystem(&self, filesystem: S3FileSystem) -> (builder: Self)
        ensures
            builder.client == self.client,
            builder.filesystem == filesystem,
    {
        TestS3RequestBuilder { filesystem, client: self.client }
    }
}

/// Sends a test mail.
#[derive(Debug, Clone)]
pub struct TestEmailRequestBuilder<'a> {
    pub client: &'a Client<Auth>,
    pub email: String,
    pub template: EmailTemplateType,
}

/// The JSON body of a test mail: `{"email":<email>,"template":<name>}`.
pub open spec fn test_email_body(email: Seq<char>, template: EmailTemplateType) -> Seq<char> {
    "{\"email\":"@ + json::json_quote(email) + ",\"template\":"@ + json::json_quote(email_template_name(template)) + "}"@
}

/// The test mail body is the JSON object whose `email` member is the
/// address and whose `template` member names the chosen template, whatever
/// the address.
pub proof fn law_test_email_body_fields(email: Seq<char>, template: EmailTemplateType)
    ensures
        test_email_body(email, template) == json::json_object(seq![
            ("email"@, json::json_quote(email)),
            ("template"@, json::json_quote(email_template_name(template))),
        ]),
{
    reveal_strlit("email");
    reveal_strlit("template");
    reveal_strlit("{\"email\":");
    reveal_strlit(",\"template\":");
    reveal_strlit("}");
    assert("email"@ =~= seq!['e', 'm', 'a', 'i', 'l']);
    assert("template"@ =~= seq!['t', 'e', 'm', 'p', 'l', 'a', 't', 'e']);
    json::lemma_plain_unescaped("email"@);
    json::lemma_plain_unescaped("template"@);
    let f0 = ("email"@, json::json_quote(email));
    let f1 = ("template"@, json::json_quote(email_template_name(template)));
    assert(seq![f0, f1] =~= seq![f0].push(f1));
    json::lemma_json_members_push(seq![f0], f1);
    assert(json::json_members(seq![f0]) =~= seq![json::json_member(f0)]);
    json::lemma_comma_separated_push(seq![json::json_member(f0)], json::json_member(f1));
    assert(test_email_body(email, template) =~= json::json_object(seq![f0, f1]));
}

/// The name of a template in a body determines the template.
pub proof fn law_email_template_name_injective(a: EmailTemplateType, b: EmailTemplateType)
    requires
        email_template_name(a) == email_template_name(b),
    ensures
        a == b,
{
    reveal_strlit("verification");
    reveal_strlit("password-reset");
    reveal_strlit("email-change");
    assert("verification"@[0] != "password-reset"@[0]);
    assert("verification"@[0] != "email-change"@[0]);
    assert("password-reset"@[0] != "email-change"@[0]);
}

/// A test mail body determines the address and the template: two builders
/// whose requests carry the same body ask for the same mail.
pub proof fn law_test_email_body_injective(
    email: Seq<char>,
    template: EmailTemplateType,
    other_email: Seq<char>,
    other_template: EmailTemplateType,
)
    requires
        test_email_body(email, template) == test_email_body(other_email, other_template),
    ensures
        email == other_email,
        template == other_template,
{
    let head = "{\"email\":"@;
    let middle = ",\"template\":"@;
    let tail = "}"@;
    let rest = middle + json::json_quote(email_template_name(template)) + tail;
    let other_rest = middle + json::json_quote(email_template_name(other_template)) + tail;
    assert(test_email_body(email, template).skip(head.len() as int) =~= json::json_quote(email) + rest);
    assert(test_email_body(other_email, other_template).skip(head.len() as int)
        =~= json::json_quote(other_email) + other_rest);
    json::law_json_quote_prefix_free(email, other_email, rest, other_rest);
    assert(rest.skip(middle.len() as int) =~= json::json_quote(email_template_name(template)) + tail);
    assert(other_rest.skip(middle.len() as int)
        =~= json::json_quote(email_template_name(other_template)) + tail);
    json::law_json_quote_prefix_free(email_template_name(template), email_template_name(other_template), tail, tail);
    law_email_template_name_injective(template, other_template);
}

impl<'a> TestEmailRequestBuilder<'a> {
    /// The request of the test mail: a POST of the address and the template
    /// to `<base_url>/api/settings/test/email`. The mail has been sent when
    /// the server answers it without error.
    pub fn call(&self) -> (request: HttpRequest)
        ensures
            request@ == (HttpRequestView {
                method: HttpMethod::Post,
                url: self.client.base_url@ + "/api/settings/test/email"@,
                headers: httpc::json_headers(self.client.token_view()),
                query: Seq::empty(),
                body: Some(test_email_body(self.email@, self.template)),
            }),
    {
        let mut url = self.client.base_url.clone();
        url.append("/api/settings/test/email");
        let mut body = String::from_str("{\"email\":");
        push_json_string(&mut body, self.email.as_str());
        body.append(",\"template\":");
        push_json_string(&mut body, self.template.name());
        body.append("}");
        Httpc::post(self.client, url.as_str(), body)
    }

    /// The same test mail, with the template `template`.
    pub fn template(&self, template: EmailTemplateType) -> (builder: Self)
        ensures
            builder.client == self.client,
            builder.email@ == self.email@,
            builder.template == template,
    {
        TestEmailRequestBuilder { template, client: self.client, email: self.email.clone() }
    }
}

/// Generates the client secret of Apple sign-in.
#[derive(Debug, Clone)]
pub struct GenerateAppleClientSecretRequestBuilder<'a> {
    pub client: &'a Client<Auth>,
    pub client_id: String,
    pub team_id: String,
    pub key_id: String,
    pub private_key: String,
    pub duration: usize,
}

/// The JSON body of the generation of an Apple client secret, its keys in
/// the order in which JSON objects are written:
/// `{"clientId":..,"duration":..,"keyId":..,"privateKey":..,"teamId":..}`.
pub open spec fn apple_client_secret_body(
    client_id: Seq<char>,
    team_id: Seq<char>,
    key_id: Seq<char>,
    private_key: Seq<char>,
    duration: nat,
) -> Seq<char> {
    "{\"clientId\":"@ + json::json_quote(client_id) + ",\"duration\":"@ + json::decimal(duration) + ",\"keyId\":"@
        + json::json_quote(key_id) + ",\"privateKey\":"@ + json::json_quote(private_key) + ",\"teamId\":"@
        + json::json_quote(team_id) + "}"@
}

/// The body of an Apple client-secret generation is the JSON object whose
/// `clientId`, `keyId`, `privateKey` and `teamId` members are the client id,
/// key id, private key and team id as strings, and whose `duration` member is
/// the duration as a number, whatever their values.
#[verifier::rlimit(40)]
pub proof fn law_apple_client_secret_body_fields(
    client_id: Seq<char>,
    team_id: Seq<char>,
    key_id: Seq<char>,
    private_key: Seq<char>,
    duration: nat,
)
    ensures
        apple_client_secret_body(client_id, team_id, key_id, private_key, duration) == json::json_object(seq![
            ("clientId"@, json::json_quote(client_id)),
            ("duration"@, json::decimal(duration)),
            ("keyId"@, json::json_quote(key_id)),
            ("privateKey"@, json::json_quote(private_key)),
            ("teamId"@, json::json_quote(team_id)),
        ]),
{
    let f0 = ("clientId"@, json::json_quote(client_id));
    let f1 = ("duration"@, json::decimal(duration));
    let f2 = ("keyId"@, json::json_quote(key_id));
    let f3 = ("privateKey"@, json::json_quote(private_key));
    let f4 = ("teamId"@, json::json_quote(team_id));
    json::lemma_json_object_5(f0, f1, f2, f3, f4);
    assert(seq!['{'] + json::json_member(f0) == "{\"clientId\":"@ + json::json_quote(client_id)) by {
        reveal_strlit("clientId");
        reveal_strlit("{\"clientId\":");
        assert("clientId"@ =~= seq!['c', 'l', 'i', 'e', 'n', 't', 'I', 'd']);
        json::lemma_plain_member(f0.0, f0.1);
        assert(seq!['{'] + json::json_member(f0) =~= "{\"clientId\":"@ + json::json_quote(client_id));
    }
    assert(seq![','] + json::json_member(f1) == ",\"duration\":"@ + json::decimal(duration)) by {
        reveal_strlit("duration");
        reveal_strlit(",\"duration\":");
        assert("duration"@ =~= seq!['d', 'u', 'r', 'a', 't', 'i', 'o', 'n']);
        json::lemma_plain_member(f1.0, f1.1);
        assert(seq![','] + json::json_member(f1) =~= ",\"duration\":"@ + json::decimal(duration));
    }
    assert(seq![','] + json::json_member(f2) == ",\"keyId\":"@ + json::json_quote(key_id)) by {
        reveal_strlit("keyId");
        reveal_strlit(",\"keyId\":");
        assert("keyId"@ =~= seq!['k', 'e', 'y', 'I', 'd']);
        json::lemma_plain_member(f2.0, f2.1);
        assert(seq![','] + json::json_member(f2) =~= ",\"keyId\":"@ + json::json_quote(key_id));
    }
    assert(seq![','] + json::json_member(f3) == ",\"privateKey\":"@ + json::json_quote(private_key)) by {
        reveal_strlit("privateKey");
        reveal_strlit(",\"privateKey\":");
        assert("privateKey"@ =~= seq!['p', 'r', 'i', 'v', 'a', 't', 'e', 'K', 'e', 'y']);
        json::lemma_plain_member(f3.0, f3.1);
        assert(seq![','] + json::json_member(f3) =~= ",\"privateKey\":"@ + json::json_quote(private_key));
    }
    assert(seq![','] + json::json_member(f4) == ",\"teamId\":"@ + json::json_quote(team_id)) by {
        reveal_strlit("teamId");
        reveal_strlit(",\"teamId\":");
        assert("teamId"@ =~= seq!['t', 'e', 'a', 'm', 'I', 'd']);
        json::lemma_plain_member(f4.0, f4.1);
        assert(seq![','] + json::json_member(f4) =~= ",\"teamId\":"@ + json::json_quote(team_id));
    }
    assert(seq!['}'] == "}"@) by {
        reveal_strlit("}");
        assert(seq!['}'] =~= "}"@);
    }
}

impl<'a> GenerateAppleClientSecretRequestBuilder<'a> {
    /// The request of the generation: a POST of the identifiers, the key and
    /// the duration to `<base_url>/api/settings/apple/generate-client-secret`.
    /// The secret has been generated when the server answers it without error.
    pub fn call(&self) -> (request: HttpRequest)
        ensures
            request@ == (HttpRequestView {
                method: HttpMethod::Post,
                url: self.client.base_url@ + "/api/settings/apple/generate-client-secret"@,
                headers: httpc::json_headers(self.client.token_view()),
                query: Seq::empty(),
                body: Some(apple_client_secret_body(
                    self.client_id@,
                    self.team_id@,
                    self.key_id@,
                    self.private_key@,
                    self.duration as nat,
                )),
            }),
    {
        let mut url = self.client.base_url.clone();
        url.append("/api/settings/apple/generate-client-secret");
        let mut body = String::from_str("{\"clientId\":");
        push_json_string(&mut body, self.client_id.as_str());
        body.append(",\"duration\":");
        push_decimal(&mut body, self.duration);
        body.append(",\"keyId\":");
        push_json_string(&mut body, self.key_id.as_str());
        body.append(",\"privateKey\":");
        push_json_string(&mut body, self.private_key.as_str());
        body.append(",\"teamId\":");
        push_json_string(&mut body, self.team_id.as_str());
        body.append("}");
        Httpc::post(self.client, url.as_str(), body)
    }
}

/// Gives access to the server's settings for a signed-in client.
#[derive(Debug, Clone, Copy)]
pub struct SettingsManager<'a> {
    pub client: &'a Client<Auth>,
}

impl<'a> SettingsManager<'a> {
    /// Reads all the settings.
    pub fn get_all(&self) -> (builder: GetAllRequestBuilder<'a>)
        ensures
            builder.client == self.client,
            builder.fields@ == Seq::<String>::empty(),
    {
        GetAllRequestBuilder { client: self.client, fields: Vec::new() }
    }

    /// Updating the settings is not offered: this does nothing.
    pub fn update(&self, identifier: &'a str) -> () {
    }

    /// Tests the connection to the S3 storage of the stored files.
    pub fn test_s3(&self) -> (builder: TestS3RequestBuilder<'a>)
        ensures
            builder.client == self.client,
            builder.filesystem == S3FileSystem::Storage,
    {
        TestS3RequestBuilder { client: self.client, filesystem: S3FileSystem::Storage }
    }

    /// Sends a test mail to `to`, with the verification template.
    pub fn test_email(&self, to: &str) -> (builder: TestEmailRequestBuilder<'a>)
        ensures
            builder.client == self.client,
            builder.email@ == to@,
            builder.template == EmailTemplateType::Verification,
    {
        TestEmailRequestBuilder {
            client: self.client,
            email: String::from_str(to),
            template: EmailTemplateType::Verification,
        }
    }

    /// Generates the client secret of Apple sign-in from these identifiers,
    /// private key and duration.
    pub fn generate_apple_client_secret(
        &self,
        client_id: &str,
        team_id: &str,
        key_id: &str,
        private_key: &str,
        duration: usize,
    ) -> (builder: GenerateAppleClientSecretRequestBuilder<'a>)
        ensures
            builder.client == self.client,
            builder.client_id@ == client_id@,
            builder.team_id@ == team_id@,
            builder.key_id@ == key_id@,
            builder.private_key@ == private_key@,
            builder.duration == duration,
    {
        GenerateAppleClientSecretRequestBuilder {
            client: self.client,
            client_id: String::from_str(client_id),
            team_id: String::from_str(team_id),
            key_id: String::from_str(key_id),
            private_key: String::from_str(private_key),
            duration,
        }
    }
}

} // verus!
