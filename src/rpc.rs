//! The backend side: request identifiers, the endpoint, the backend's method
//! names, and the JSON-RPC 2.0 request text sent for each call.
use vstd::prelude::*;
use vstd::string::*;
use vstd::arithmetic::div_mod::lemma_fundamental_div_mod;
use crate::text::{decimal, joined, push_decimal, push_joined, views};

verus! {

/// The number of distinct request identifiers.
pub const ID_SPACE: u128 = 0x1_0000_0000_0000_0000;

/// The identifier handed out `k` calls after the one handed out at `start`.
pub open spec fn id_after(start: u64, k: nat) -> u64 {
    ((start as nat + k) % (ID_SPACE as nat)) as u64
}

/// Hands out request identifiers, one per backend call, counting up and
/// wrapping around after the largest `u64`.
pub struct IdCounter {
    pub next: u64,
}

impl IdCounter {
    pub fn new() -> (r: IdCounter)
        ensures
            r.next == 0,
    {
        IdCounter { next: 0 }
    }

    /// Returns the next identifier and advances the counter by one.
    pub fn next_id(&mut self) -> (r: u64)
        ensures
            r == old(self).next,
            final(self).next == id_after(old(self).next, 1),
    {
        let r = self.next;
        self.next = self.next.wrapping_add(1);
        r
    }
}

/// Identifiers handed out by one counter never repeat within a full turn of
/// the counter: the `i`-th and `j`-th calls after any state get different
/// identifiers, so each reply can be matched to the call that asked for it.
pub proof fn lemma_ids_distinct(start: u64, i: nat, j: nat)
    requires
        i < j,
        j < ID_SPACE as nat,
    ensures
        id_after(start, i) != id_after(start, j),
{
    let m = ID_SPACE as int;
    let a = start as int + i;
    let b = start as int + j;
    assert(0 < b - a < m);
    lemma_fundamental_div_mod(a, m);
    lemma_fundamental_div_mod(b, m);
    if a % m == b % m {
        assert(b - a == m * (b / m - a / m)) by (nonlinear_arith)
            requires a == m * (a / m) + a % m, b == m * (b / m) + b % m, a % m == b % m;
        assert(false) by (nonlinear_arith)
            requires b - a == m * (b / m - a / m), 0 < b - a < m;
    }
}

/// Where the backend listens.
pub struct Endpoint {
    pub host: String,
    pub port: u16,
}

/// The URL of an endpoint, as `http://host:port`.
pub open spec fn url_of(host: Seq<char>, port: u16) -> Seq<char> {
    "http://"@ + host + ":"@ + decimal(port as nat)
}

impl Endpoint {
    /// The backend on this machine, at its default port.
    pub fn local() -> (r: Endpoint)
        ensures
            r.host@ == "127.0.0.1"@,
            r.port == 8080,
    {
        Endpoint { host: String::from_str("127.0.0.1"), port: 8080 }
    }

    pub fn url(&self) -> (r: String)
        ensures
            r@ == url_of(self.host@, self.port),
    {
        let mut r = String::from_str("http://");
        r.append(self.host.as_str());
        r.append(":");
        push_decimal(&mut r, self.port as u64);
        r
    }
}

/// The backend methods this bridge calls.
#[derive(Clone, Copy, PartialEq, Eq, Debug)]
pub enum BackendMethod {
    GetBlockchainInfo,
    SendRawTransaction,
    GetTxOut,
    GetBlockHash,
    GetBlock,
}

impl BackendMethod {
    pub open spec fn spec_name(self) -> Seq<char> {
        match self {
            BackendMethod::GetBlockchainInfo => "getblockchaininfo"@,
            BackendMethod::SendRawTransaction => "sendrawtransaction"@,
            BackendMethod::GetTxOut => "gettxout"@,
            BackendMethod::GetBlockHash => "getblockhash"@,
            BackendMethod::GetBlock => "getblock"@,
        }
    }

    /// The method's name in the backend's JSON-RPC interface.
    pub fn name(&self) -> (r: &'static str)
        ensures
            r@ == self.spec_name(),
    {
        match self {
            BackendMethod::GetBlockchainInfo => "getblockchaininfo",
            BackendMethod::SendRawTransaction => "sendrawtransaction",
            BackendMethod::GetTxOut => "gettxout",
            BackendMethod::GetBlockHash => "getblockhash",
            BackendMethod::GetBlock => "getblock",
        }
    }
}

/// One backend call: a method and its parameters, each already written as
/// JSON text, passed by position.
pub struct BackendCall {
    pub method: BackendMethod,
    pub params: Vec<String>,
}

/// The JSON-RPC 2.0 request body for a call with the given identifier.
pub open spec fn request_text(id: u64, method: Seq<char>, params: Seq<Seq<char>>) -> Seq<char> {
    "{\"jsonrpc\":\"2.0\", \"id\":"@ + decimal(id as nat) + ", \"method\":\""@ + method
        + "\", \"params\": ["@ + joined(params) + "]}"@
}

/// A request ready to be posted: its identifier, where it goes, and its body.
pub struct FramedRequest {
    pub id: u64,
    pub url: String,
    pub body: String,
}

/// Frames backend calls. The one piece of state it keeps across calls is the
/// identifier counter; share one client between concurrent calls and take
/// each request from it under a lock.
pub struct BackendClient {
    pub endpoint: Endpoint,
    pub ids: IdCounter,
}

impl BackendClient {
    pub fn new(endpoint: Endpoint) -> (r: BackendClient)
        ensures
            r.endpoint == endpoint,
            r.ids.next == 0,
    {
        BackendClient { endpoint, ids: IdCounter::new() }
    }

    /// Frames `call` under a fresh identifier, advancing the counter by one.
    pub fn frame(&mut self, call: &BackendCall) -> (r: FramedRequest)
        ensures
            r.id == old(self).ids.next,
            r.url@ == url_of(old(self).endpoint.host@, old(self).endpoint.port),
            r.body@ == request_text(r.id, call.method.spec_name(), views(call.params@)),
            final(self).ids.next == id_after(old(self).ids.next, 1),
            final(self).endpoint == old(self).endpoint,
    {
        let id = self.ids.next_id();
        let mut body = String::from_str("{\"jsonrpc\":\"2.0\", \"id\":");
        push_decimal(&mut body, id);
        body.append(", \"method\":\"");
        body.append(call.method.name());
        body.append("\", \"params\": [");
        push_joined(&mut body, &call.params);
        body.append("]}");
        FramedRequest { id, url: self.endpoint.url(), body }
    }
}

/// A decoded backend reply: protocol version, the backend's error as JSON
/// text if it reported one, the typed result if there was one, and the
/// identifier it answers.
pub struct Envelope<R> {
    pub jsonrpc: String,
    pub error: Option<String>,
    pub result: Option<R>,
    pub id: u64,
}

} // verus!
