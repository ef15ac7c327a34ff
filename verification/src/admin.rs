//! Signing in as an administrator.
use crate::client::{self, Auth, Client, credentials};
use crate::httpc::{self, Httpc, HttpRequest, HttpRequestView, HttpMethod};
use vstd::prelude::*;

verus! {

/// An administrator of the server at `base_url`, before signing in.
#[derive(Debug, Clone, Copy)]
pub struct Admin<'a> {
    pub base_url: &'a str,
}

impl<'a> Admin<'a> {
    /// The request that signs the administrator in with a password: a POST,
    /// by a client that has no token, of the credentials to
    /// `<base_url>/api/admins/auth-with-password`.
    pub fn auth_with_password(&self, identifier: &str, secret: &str) -> (request: HttpRequest)
        ensures
            request@ == (HttpRequestView {
                method: HttpMethod::Post,
                url: self.base_url@ + "/api/admins/auth-with-password"@,
                headers: httpc::json_headers(None),
                query: Seq::empty(),
                body: Some(client::credentials_body(identifier@, secret@)),
            }),
    {
        let mut url = String::from_str(self.base_url);
        url.append("/api/admins/auth-with-password");
        let client = Client::new(self.base_url);
        Httpc::post(&client, url.as_str(), credentials(identifier, secret))
    }

    /// The signed-in client, once the server has answered the administrator's
    /// sign-in with `token`.
    pub fn authenticated(&self, token: String) -> (client: Client<Auth>)
        ensures
            client.base_url@ == self.base_url@,
            client.auth_token == Some(token),
    {
        Client { base_url: String::from_str(self.base_url), state: Auth, auth_token: Some(token) }
    }

    /// An administrator of the server at `base_url`.
    pub fn new(base_url: &'a str) -> (admin: Admin<'a>)
        ensures
            admin.base_url == base_url,
    {
        Admin { base_url }
    }
}

} // verus!
