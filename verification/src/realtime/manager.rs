//! Connecting to the realtime API and announcing the topics to follow.
use super::change::Record;
use crate::client::{Auth, Client};
use crate::httpc::{self, HttpRequest, HttpRequestView, HttpMethod};
use crate::json::{self, push_json_string};
use vstd::prelude::*;

verus! {

/// Gives access to the realtime API for a signed-in client.
#[derive(Debug, Clone, Copy)]
pub struct RealtimeManager<'a> {
    pub client: &'a Client<Auth>,
}

/// A connection to the realtime API, under the id that the server gave it.
#[derive(Debug, Clone)]
pub struct ConnectedRealtimeManager<'a> {
    pub client: &'a Client<Auth>,
    pub client_id: String,
}

/// The fields that every record of the server has.
#[derive(Debug, Clone)]
pub struct RecordBase {
    pub collection_id: String,
    pub collection_name: String,
    pub created: String,
    pub id: String,
    pub updated: String,
}

impl Record for RecordBase {
    /// A record is identified by its id.
    open spec fn record_key(&self) -> Seq<char> {
        self.id@
    }

    fn key(&self) -> (key: &str) {
        self.id.as_str()
    }
}

/// The items of a JSON array of strings, separated by commas.
pub open spec fn json_string_items(items: Seq<Seq<char>>) -> Seq<char>
    decreases items.len(),
{
    if items.len() == 0 {
        Seq::empty()
    } else if items.len() == 1 {
        json::json_quote(items[0])
    } else {
        json_string_items(items.drop_last()) + ","@ + json::json_quote(items.last())
    }
}

/// The topics of a subscription, each by its characters.
pub open spec fn topics_view<'t>(topics: Seq<&'t str>) -> Seq<Seq<char>> {
    topics.map_values(|t: &'t str| t@)
}

/// The JSON body that announces the topics of a connection:
/// `{"clientId":<id>,"subscriptions":[<topic>,..]}`.
pub open spec fn subscriptions_body(client_id: Seq<char>, topics: Seq<Seq<char>>) -> Seq<char> {
    "{\"clientId\":"@ + json::json_quote(client_id) + ",\"subscriptions\":["@ + json_string_items(topics) + "]}"@
}

/// The topics are taken one for one, in order.
pub proof fn law_topics_view_elementwise<'t>(topics: Seq<&'t str>)
    ensures
        topics_view(topics).len() == topics.len(),
        forall|i: int| 0 <= i < topics.len() ==> #[trigger] topics_view(topics)[i] == topics[i]@,
{
}

/// The items of a JSON array of strings are the string literals separated by
/// commas.
proof fn lemma_string_items_separated(items: Seq<Seq<char>>)
    ensures
        json_string_items(items) == json::comma_separated(json::json_quotes(items)),
    decreases items.len(),
{
    if items.len() == 0 {
        assert(json::json_quotes(items) =~= Seq::<Seq<char>>::empty());
    } else if items.len() == 1 {
        assert(json::json_quotes(items) =~= seq![json::json_quote(items[0])]);
    } else {
        lemma_string_items_separated(items.drop_last());
        assert(json::json_quotes(items).drop_last() =~= json::json_quotes(items.drop_last()));
        assert(json::json_quotes(items).last() == json::json_quote(items.last()));
        assert(","@ =~= seq![',']) by {
            reveal_strlit(",");
        }
    }
}

/// The subscription body is the JSON object whose `clientId` member is the
/// connection's id and whose `subscriptions` member is the array of all the
/// topics as strings, in the order given.
pub proof fn law_subscriptions_body_fields(client_id: Seq<char>, topics: Seq<Seq<char>>)
    ensures
        subscriptions_body(client_id, topics) == json::json_object(seq![
            ("clientId"@, json::json_quote(client_id)),
            ("subscriptions"@, json::json_array(json::json_quotes(topics))),
        ]),
{
    let f0 = ("clientId"@, json::json_quote(client_id));
    let f1 = ("subscriptions"@, json::json_array(json::json_quotes(topics)));
    json::lemma_json_object_2(f0, f1);
    lemma_string_items_separated(topics);
    assert(seq!['{'] + json::json_member(f0) == "{\"clientId\":"@ + json::json_quote(client_id)) by {
        reveal_strlit("clientId");
        reveal_strlit("{\"clientId\":");
        assert("clientId"@ =~= seq!['c', 'l', 'i', 'e', 'n', 't', 'I', 'd']);
        json::lemma_plain_member(f0.0, f0.1);
        assert(seq!['{'] + json::json_member(f0) =~= "{\"clientId\":"@ + json::json_quote(client_id));
    }
    assert(seq![','] + json::json_member(f1) + seq!['}']
        == ",\"subscriptions\":["@ + json_string_items(topics) + "]}"@) by {
        reveal_strlit("subscriptions");
        reveal_strlit(",\"subscriptions\":[");
        reveal_strlit("]}");
        assert("subscriptions"@ =~= seq!['s', 'u', 'b', 's', 'c', 'r', 'i', 'p', 't', 'i', 'o', 'n', 's']);
        json::lemma_plain_member(f1.0, f1.1);
        assert(seq![','] + json::json_member(f1) + seq!['}']
            =~= ",\"subscriptions\":["@ + json_string_items(topics) + "]}"@);
    }
    let a = seq!['{'] + json::json_member(f0);
    let b = seq![','] + json::json_member(f1) + seq!['}'];
    assert(json::json_object(seq![f0, f1]) =~= a + b);
}

impl<'a> RealtimeManager<'a> {
    /// The request that opens the event stream: a GET of
    /// `<base_url>/api/realtime` with no header, query or body.
    pub fn connect(&self) -> (request: HttpRequest)
        ensures
            request@ == (HttpRequestView {
                method: HttpMethod::Get,
                url: self.client.base_url@ + "/api/realtime"@,
                headers: Seq::empty(),
                query: Seq::empty(),
                body: None,
            }),
    {
        let mut url = self.client.base_url.clone();
        url.append("/api/realtime");
        let request = HttpRequest {
            method: HttpMethod::Get,
            url,
            headers: Vec::new(),
            query: Vec::new(),
            body: None,
        };
        assert(httpc::pairs_view(request.headers@) =~= Seq::empty());
        assert(httpc::pairs_view(request.query@) =~= Seq::empty());
        request
    }

    /// The connection, once the server's first event has given it the id
    /// `client_id`.
    pub fn connected(&self, client_id: String) -> (connection: ConnectedRealtimeManager<'a>)
        ensures
            connection.client == self.client,
            connection.client_id == client_id,
    {
        ConnectedRealtimeManager { client: self.client, client_id }
    }
}

impl<'a> ConnectedRealtimeManager<'a> {
    /// The request that subscribes the connection to `topics`: a POST of the
    /// connection's id and the topics to `<base_url>/api/realtime`, with a
    /// JSON content type and no `Authorization` header.
    pub fn announce_topics(&self, topics: &[&str]) -> (request: HttpRequest)
        ensures
            request@ == (HttpRequestView {
                method: HttpMethod::Post,
                url: self.client.base_url@ + "/api/realtime"@,
                headers: seq![("Content-Type"@, "application/json"@)],
                query: Seq::empty(),
                body: Some(subscriptions_body(self.client_id@, topics_view(topics@))),
            }),
    {
        let mut url = self.client.base_url.clone();
        url.append("/api/realtime");
        let mut body = String::from_str("{\"clientId\":");
        push_json_string(&mut body, self.client_id.as_str());
        body.append(",\"subscriptions\":[");
        let ghost prefix = body@;
        let n: usize = topics.len();
        let mut i: usize = 0;
        while i < n
            invariant
                n == topics@.len(),
                i <= n,
                body@ == prefix + json_string_items(topics_view(topics@.take(i as int))),
            decreases n - i,
        {
            assert(topics_view(topics@.take(i as int + 1)).drop_last() =~= topics_view(topics@.take(i as int)));
            assert(topics_view(topics@.take(i as int + 1)).last() == topics@[i as int]@);
            if i > 0 {
                body.append(",");
            } else {
                assert(topics_view(topics@.take(1)) =~= seq![topics@[0]@]);
            }
            push_json_string(&mut body, topics[i]);
            i = i + 1;
        }
        assert(topics@.take(n as int) =~= topics@);
        body.append("]}");
        let mut headers: Vec<(String, String)> = Vec::new();
        headers.push((String::from_str("Content-Type"), String::from_str("application/json")));
        let request = HttpRequest { method: HttpMethod::Post, url, headers, query: Vec::new(), body: Some(body) };
        assert(httpc::pairs_view(request.headers@) =~= seq![("Content-Type"@, "application/json"@)]);
        assert(httpc::pairs_view(request.query@) =~= Seq::empty());
        request
    }
}

} // verus!
