use vstd::prelude::*;

use std::sync::Arc;

use reqwest::Client as HttpClient;

use crate::bot::{GetBots, GetBotsView};

verus! {

/// The HTTP client that carries the requests.
#[verifier::external_type_specification]
#[verifier::external_body]
pub struct ExHttpClient(HttpClient);

/// Relies on reqwest::Client::new: a client with default settings. It panics
/// only when the machine offers no TLS backend or resolver configuration.
#[verifier::external_body]
fn new_http_client() -> HttpClient {
    HttpClient::new()
}

/// The value of the authorization header for `token`.
pub open spec fn bearer(token: Seq<char>) -> Seq<char> {
    seq!['B', 'e', 'a', 'r', 'e', 'r', ' '] + token
}

/// The state that a client shares with its autoposter: the HTTP client and the
/// authorization header value.
pub struct InnerClient {
    http: HttpClient,
    token: String,
}

impl InnerClient {
    /// A client that authenticates with `token`.
    pub fn new(token: String) -> (r: InnerClient)
        ensures
            r.authorization()@ == bearer(token@),
    {
        let mut header = String::from_str("Bearer ");
        proof {
            reveal_strlit("Bearer ");
            assert("Bearer "@ =~= seq!['B', 'e', 'a', 'r', 'e', 'r', ' ']);
        }
        header.append(token.as_str());
        InnerClient { http: new_http_client(), token: header }
    }

    /// The value sent in the authorization header.
    pub closed spec fn authorization(&self) -> String {
        self.token
    }

    /// The value sent in the authorization header.
    pub fn token(&self) -> (r: &String)
        ensures
            r@ == self.authorization()@,
    {
        &self.token
    }

    /// The HTTP client that sends the requests.
    pub fn http(&self) -> &HttpClient {
        &self.http
    }
}

/// A client of the bot-statistics service.
pub struct Client {
    inner: Arc<InnerClient>,
}

impl Client {
    /// A client that authenticates with `token`.
    pub fn new(token: String) -> (r: Client)
        ensures
            r.inner().authorization()@ == bearer(token@),
    {
        Client { inner: Arc::new(InnerClient::new(token)) }
    }

    /// The shared state of this client.
    pub closed spec fn inner(&self) -> InnerClient {
        *self.inner
    }

    /// The shared state, for a request or for an autoposter.
    pub fn inner_client(&self) -> (r: &InnerClient)
        ensures
            *r == self.inner(),
    {
        &self.inner
    }

    /// A query over the listed bots, to be refined with the builder's methods.
    pub fn get_bots(&self) -> (r: GetBots<'_>)
        ensures
            r@ == (GetBotsView { query: seq!['?'], search: Seq::empty(), sort: None }),
            r.client() == self,
    {
        GetBots::new(self)
    }
}

/// Anything that can hand the autoposter a client.
pub trait AsClient {
    /// The client state that the autoposter posts with.
    fn as_client(&self) -> Arc<InnerClient>;
}

impl AsClient for Client {
    fn as_client(&self) -> Arc<InnerClient> {
        self.inner.clone()
    }
}

impl AsClient for str {
    fn as_client(&self) -> Arc<InnerClient> {
        Arc::new(InnerClient::new(self.to_owned()))
    }
}

} // verus!
