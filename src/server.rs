//! The relay's control surface: its HTTP client, its address and the
//! current upstream URL.
use vstd::prelude::*;
use vstd::string::StringExecFns;
use crate::cell::StreamCell;
use crate::decimal::{decimal, push_decimal};
use crate::http::LIVE_PATH;

verus! {

/// The loopback address the relay listens on.
pub const LOOPBACK_HOST: &'static str = "127.0.0.1";

/// The port the relay listens on.
pub const PROXY_PORT: u16 = 7433;

/// The User-Agent sent upstream.
pub const RELAY_USER_AGENT: &'static str = "Mozilla/5.0 (Windows NT 10.0; Win64; x64) AppleWebKit/537.36";

/// The `Referer` and `Origin` sent upstream.
pub const UPSTREAM_ORIGIN: &'static str = "https://www.example.com";

#[verifier::external_type_specification]
#[verifier::external_body]
pub struct ExClient(reqwest::Client);

#[verifier::external_type_specification]
#[verifier::external_body]
pub struct ExReqwestError(reqwest::Error);

/// Why a relay could not be set up.
#[derive(Clone, Copy, PartialEq, Eq, Debug, Structural)]
pub enum SetupError {
    /// The HTTP client could not be built (its TLS backend failed).
    ClientBuild,
}

/// Relies on reqwest's `ClientBuilder`: `user_agent`, then
/// `danger_accept_invalid_certs(true)`, then `build`, which reports a
/// failure as an error rather than panicking.
#[verifier::external_body]
fn build_relay_client(user_agent: &str) -> (r: Result<reqwest::Client, reqwest::Error>) {
    reqwest::Client::builder().user_agent(user_agent).danger_accept_invalid_certs(true).build()
}

/// `host:port`.
pub open spec fn listen_address_text(port: u16) -> Seq<char> {
    LOOPBACK_HOST@ + ":"@ + decimal(port as nat)
}

/// The URL a media player is given: `http://host:port/live.flv`.
pub open spec fn proxy_url_text(port: u16) -> Seq<char> {
    "http://"@ + listen_address_text(port) + LIVE_PATH@
}

/// The request headers sent upstream, in order. `Accept-Encoding: identity`
/// keeps the body uncompressed so that it can be relayed byte for byte.
pub open spec fn upstream_header_list() -> Seq<(&'static str, &'static str)> {
    seq![
        ("Referer", UPSTREAM_ORIGIN),
        ("Origin", UPSTREAM_ORIGIN),
        ("Accept", "*/*"),
        ("Accept-Encoding", "identity"),
    ]
}

/// The request headers sent upstream.
pub fn upstream_headers() -> (r: Vec<(&'static str, &'static str)>)
    ensures
        r@ == upstream_header_list(),
{
    let r = vec![
        ("Referer", UPSTREAM_ORIGIN),
        ("Origin", UPSTREAM_ORIGIN),
        ("Accept", "*/*"),
        ("Accept-Encoding", "identity"),
    ];
    assert(r@ =~= upstream_header_list());
    r
}

/// The relay: an HTTP client for the upstream, the port it serves on, and
/// the upstream URL that new sessions read.
pub struct ProxyServer {
    client: reqwest::Client,
    port: u16,
    current_stream: StreamCell,
}

impl ProxyServer {
    pub closed spec fn spec_port(&self) -> u16 {
        self.port
    }

    pub closed spec fn spec_stream(&self) -> Option<Seq<char>> {
        self.current_stream@
    }

    /// A relay on the fixed port, with no stream set, whose client accepts
    /// invalid certificates and sends a browser User-Agent.
    pub fn new() -> (r: Result<ProxyServer, SetupError>)
        ensures
            r is Ok ==> r->Ok_0.spec_port() == PROXY_PORT && r->Ok_0.spec_stream() is None,
    {
        match build_relay_client(RELAY_USER_AGENT) {
            Ok(client) => Ok(ProxyServer { client, port: PROXY_PORT, current_stream: StreamCell::new() }),
            Err(_) => Err(SetupError::ClientBuild),
        }
    }

    /// Sets the upstream URL for sessions that start from now on.
    pub fn set_stream(&mut self, url: String)
        ensures
            final(self).spec_stream() == Some(url@),
            final(self).spec_port() == old(self).spec_port(),
    {
        self.current_stream.set_stream(url);
    }

    /// The current upstream URL cell, for a session to read.
    pub fn stream(&self) -> (r: &StreamCell)
        ensures
            r@ == self.spec_stream(),
    {
        &self.current_stream
    }

    /// The client that sessions use to reach the upstream.
    pub fn client(&self) -> &reqwest::Client {
        &self.client
    }

    pub fn port(&self) -> (r: u16)
        ensures
            r == self.spec_port(),
    {
        self.port
    }

    /// The address to bind: `127.0.0.1:<port>`.
    pub fn listen_address(&self) -> (r: String)
        ensures
            r@ == listen_address_text(self.spec_port()),
    {
        let mut s = String::from_str(LOOPBACK_HOST);
        s.append(":");
        push_decimal(&mut s, self.port as u64);
        s
    }

    /// The URL to hand to a media player: `http://127.0.0.1:<port>/live.flv`.
    pub fn get_proxy_url(&self) -> (r: String)
        ensures
            r@ == proxy_url_text(self.spec_port()),
    {
        let mut s = String::from_str("http://");
        let addr = self.listen_address();
        s.append(addr.as_str());
        s.append(LIVE_PATH);
        assert(s@ =~= proxy_url_text(self.spec_port()));
        s
    }
}

} // verus!
