//! The HTTP requests that the client sends, as plain values: method, URL,
//! headers, query pairs and body. Sending them is left to the caller.
use crate::client::Client;
use vstd::prelude::*;

verus! {

/// The HTTP method of a request.
#[derive(Clone, Copy, Debug, PartialEq, Eq, Structural)]
pub enum HttpMethod {
    Get,
    Post,
    Delete,
    Patch,
}

/// A request to the PocketBase server, ready to be sent.
#[derive(Clone, Debug)]
pub struct HttpRequest {
    pub method: HttpMethod,
    pub url: String,
    /// Header fields in the order in which they are set.
    pub headers: Vec<(String, String)>,
    /// Query pairs appended to the URL, in order.
    pub query: Vec<(String, String)>,
    pub body: Option<String>,
}

/// The mathematical content of a request.
pub struct HttpRequestView {
    pub method: HttpMethod,
    pub url: Seq<char>,
    pub headers: Seq<(Seq<char>, Seq<char>)>,
    pub query: Seq<(Seq<char>, Seq<char>)>,
    pub body: Option<Seq<char>>,
}

/// A list of string pairs, each string taken by its characters.
pub open spec fn pairs_view(pairs: Seq<(String, String)>) -> Seq<(Seq<char>, Seq<char>)> {
    pairs.map_values(|p: (String, String)| (p.0@, p.1@))
}

/// A list of string-slice pairs, each slice taken by its characters.
pub open spec fn str_pairs_view<'a>(pairs: Seq<(&'a str, &'a str)>) -> Seq<(Seq<char>, Seq<char>)> {
    pairs.map_values(|p: (&'a str, &'a str)| (p.0@, p.1@))
}

/// An optional string taken by its characters.
pub open spec fn opt_string_view(s: Option<String>) -> Option<Seq<char>> {
    match s {
        Some(s) => Some(s@),
        None => None,
    }
}

impl View for HttpRequest {
    type V = HttpRequestView;

    open spec fn view(&self) -> HttpRequestView {
        HttpRequestView {
            method: self.method,
            url: self.url@,
            headers: pairs_view(self.headers@),
            query: pairs_view(self.query@),
            body: opt_string_view(self.body),
        }
    }
}

/// The `Authorization` header that a client with the given token sends, if any.
pub open spec fn auth_headers(token: Option<Seq<char>>) -> Seq<(Seq<char>, Seq<char>)> {
    match token {
        Some(t) => seq![("Authorization"@, t)],
        None => Seq::empty(),
    }
}

/// The headers of a request that carries a JSON body.
pub open spec fn json_headers(token: Option<Seq<char>>) -> Seq<(Seq<char>, Seq<char>)> {
    seq![("Content-Type"@, "application/json"@)] + auth_headers(token)
}

/// The value of the `Authorization` header that a GET request carries: the
/// token, or the empty string when the client has none.
pub open spec fn get_auth_value(token: Option<Seq<char>>) -> Seq<char> {
    match token {
        Some(t) => t,
        None => Seq::empty(),
    }
}

/// A client that holds a token sends it as the `Authorization` header of
/// every request: a GET carries it as the header's value, a POST, PATCH or
/// DELETE carries the header with it.
pub proof fn law_token_is_sent(token: Seq<char>)
    ensures
        get_auth_value(Some(token)) == token,
        json_headers(Some(token)).contains(("Authorization"@, token)),
        auth_headers(Some(token)).contains(("Authorization"@, token)),
{
    assert(json_headers(Some(token))[1] == ("Authorization"@, token));
    assert(auth_headers(Some(token))[0] == ("Authorization"@, token));
}

/// Pairs are taken one for one, in order, each string by its characters; an
/// optional string keeps whether it is there.
pub proof fn law_views_elementwise<'a>(pairs: Seq<(String, String)>, str_pairs: Seq<(&'a str, &'a str)>, s: Option<String>)
    ensures
        pairs_view(pairs).len() == pairs.len(),
        forall|i: int| 0 <= i < pairs.len() ==> #[trigger] pairs_view(pairs)[i] == (pairs[i].0@, pairs[i].1@),
        str_pairs_view(str_pairs).len() == str_pairs.len(),
        forall|i: int| 0 <= i < str_pairs.len()
            ==> #[trigger] str_pairs_view(str_pairs)[i] == (str_pairs[i].0@, str_pairs[i].1@),
        opt_string_view(s) is Some == s is Some,
        s is Some ==> opt_string_view(s)->0 == s->0@,
{
}

/// A request with a JSON body declares it as JSON first, whatever the
/// client's token; the only header after it is the client's
/// `Authorization`, holding exactly the token.
pub proof fn law_json_content_type(token: Option<Seq<char>>)
    ensures
        json_headers(token)[0] == ("Content-Type"@, "application/json"@),
        json_headers(token).drop_first() == auth_headers(token),
        auth_headers(token) == match token {
            Some(t) => seq![("Authorization"@, t)],
            None => Seq::<(Seq<char>, Seq<char>)>::empty(),
        },
{
    assert(json_headers(token).drop_first() =~= auth_headers(token));
}

/// A client without a token sends no `Authorization` header with a POST,
/// PATCH or DELETE, and an empty one with a GET.
pub proof fn law_no_token_no_authorization()
    ensures
        get_auth_value(None) == Seq::<char>::empty(),
        auth_headers(None) == Seq::<(Seq<char>, Seq<char>)>::empty(),
        forall|i: int| 0 <= i < json_headers(None).len() ==> #[trigger] json_headers(None)[i].0 != "Authorization"@,
{
    reveal_strlit("Content-Type");
    reveal_strlit("Authorization");
    assert(json_headers(None) =~= seq![("Content-Type"@, "application/json"@)]);
    assert("Content-Type"@[0] != "Authorization"@[0]);
}

/// Builds the requests that the client sends.
pub struct Httpc;

impl Httpc {
    /// Adds the client's token as the `Authorization` header, where the client
    /// has one; the request is otherwise unchanged.
    fn attach_auth_info<T>(partial_request: HttpRequest, client: &Client<T>) -> (request: HttpRequest)
        ensures
            request@ == (HttpRequestView {
                headers: partial_request@.headers + auth_headers(client.token_view()),
                ..partial_request@
            }),
    {
        let mut request = partial_request;
        match &client.auth_token {
            Some(token) => {
                let ghost before = request.headers@;
                proof { reveal_strlit("Authorization"); }
                request.headers.push((String::from_str("Authorization"), token.clone()));
                assert(pairs_view(request.headers@) =~= pairs_view(before) + auth_headers(client.token_view()));
            },
            None => {
                assert(pairs_view(request.headers@) =~= pairs_view(request.headers@) + auth_headers(client.token_view()));
            },
        }
        request
    }

    /// A GET request to `url`. It always carries an `Authorization` header,
    /// with the client's token or the empty string, and the given query pairs
    /// in order (none when `query_params` is `None`).
    pub fn get<T>(client: &Client<T>, url: &str, query_params: Option<Vec<(&str, &str)>>) -> (request: HttpRequest)
        ensures
            request@.method == HttpMethod::Get,
            request@.url == url@,
            request@.headers == seq![("Authorization"@, get_auth_value(client.token_view()))],
            request@.query == (match query_params {
                Some(q) => str_pairs_view(q@),
                None => Seq::empty(),
            }),
            request@.body is None,
    {
        let auth_value = match &client.auth_token {
            Some(token) => token.clone(),
            None => String::new(),
        };
        let mut headers: Vec<(String, String)> = Vec::new();
        proof { reveal_strlit("Authorization"); }
        headers.push((String::from_str("Authorization"), auth_value));
        assert(pairs_view(headers@) =~= seq![("Authorization"@, get_auth_value(client.token_view()))]);
        let mut query: Vec<(String, String)> = Vec::new();
        match query_params {
            Some(params) => {
                let n: usize = params.len();
                let mut i: usize = 0;
                while i < n
                    invariant
                        n == params@.len(),
                        i <= n,
                        query@.len() == i,
                        pairs_view(query@) =~= str_pairs_view(params@.take(i as int)),
                    decreases n - i,
                {
                    let (name, value) = params[i];
                    let ghost before = query@;
                    query.push((String::from_str(name), String::from_str(value)));
                    assert(params@.take(i as int + 1) =~= params@.take(i as int).push(params@[i as int]));
                    assert(pairs_view(query@) =~= pairs_view(before).push((name@, value@)));
                    assert(str_pairs_view(params@.take(i as int + 1))
                        =~= str_pairs_view(params@.take(i as int)).push((name@, value@)));
                    i = i + 1;
                }
                assert(params@.take(n as int) =~= params@);
            },
            None => {},
        }
        HttpRequest { method: HttpMethod::Get, url: String::from_str(url), headers, query, body: None }
    }

    /// A POST request to `url` with a JSON body: `Content-Type:
    /// application/json`, then the client's `Authorization` header if it has a
    /// token.
    pub fn post<T>(client: &Client<T>, url: &str, body_content: String) -> (request: HttpRequest)
        ensures
            request@ == (HttpRequestView {
                method: HttpMethod::Post,
                url: url@,
                headers: json_headers(client.token_view()),
                query: Seq::empty(),
                body: Some(body_content@),
            }),
    {
        let partial = Self::json_request(HttpMethod::Post, url, body_content);
        Self::attach_auth_info(partial, client)
    }

    /// A DELETE request to `url`, without body, with the client's
    /// `Authorization` header if it has a token.
    pub fn delete<T>(client: &Client<T>, url: &str) -> (request: HttpRequest)
        ensures
            request@ == (HttpRequestView {
                method: HttpMethod::Delete,
                url: url@,
                headers: auth_headers(client.token_view()),
                query: Seq::empty(),
                body: None,
            }),
    {
        let partial = HttpRequest {
            method: HttpMethod::Delete,
            url: String::from_str(url),
            headers: Vec::new(),
            query: Vec::new(),
            body: None,
        };
        assert(pairs_view(partial.headers@) =~= Seq::empty());
        assert(pairs_view(partial.query@) =~= Seq::empty());
        let request = Self::attach_auth_info(partial, client);
        assert(request@.headers =~= auth_headers(client.token_view()));
        request
    }

    /// A PATCH request to `url` with a JSON body, with the same headers as
    /// `post`.
    pub fn patch<T>(client: &Client<T>, url: &str, body_content: String) -> (request: HttpRequest)
        ensures
            request@ == (HttpRequestView {
                method: HttpMethod::Patch,
                url: url@,
                headers: json_headers(client.token_view()),
                query: Seq::empty(),
                body: Some(body_content@),
            }),
    {
        let partial = Self::json_request(HttpMethod::Patch, url, body_content);
        Self::attach_auth_info(partial, client)
    }

    /// A request with a JSON body and only the `Content-Type` header.
    fn json_request(method: HttpMethod, url: &str, body_content: String) -> (request: HttpRequest)
        ensures
            request@ == (HttpRequestView {
                method,
                url: url@,
                headers: seq![("Content-Type"@, "application/json"@)],
                query: Seq::empty(),
                body: Some(body_content@),
            }),
    {
        let mut headers: Vec<(String, String)> = Vec::new();
        headers.push((String::from_str("Content-Type"), String::from_str("application/json")));
        let request = HttpRequest {
            method,
            url: String::from_str(url),
            headers,
            query: Vec::new(),
            body: Some(body_content),
        };
        assert(pairs_view(request.headers@) =~= seq![("Content-Type"@, "application/json"@)]);
        assert(pairs_view(request.query@) =~= Seq::empty());
        request
    }
}

} // verus!
