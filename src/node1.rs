//! The Node1 relay channel: JSON-RPC over HTTP, base64 transactions, the
//! credential in an `api-key` header.
use vstd::prelude::*;
use vstd::string::*;
use crate::dispatch::{ChannelConfig, SignedTransaction, SwqosType, dispatch_body};
use crate::error::TradeError;
use crate::tip::{names_view, random_below, select_tip_account, tip_choice};
use crate::wire::{
    AuthScheme, AuthView, HttpRequest, HttpRequestView, build_request, endpoint_well_formed,
    is_endpoint, request_view, status_body, status_body_for,
};
use crate::codec::json_string_literal;

verus! {

/// The header that carries a Node1 credential.
pub const NODE1_AUTH_HEADER: &'static str = "api-key";

/// The Node1 channel.
#[derive(Clone, Debug)]
pub struct Node1Client {
    /// Where transactions are posted.
    pub endpoint: String,
    /// The credential sent in the `api-key` header.
    pub auth_token: String,
    /// The RPC endpoint that signature statuses are queried at.
    pub rpc_url: String,
    /// The accounts a tip may be sent to.
    pub tip_accounts: Vec<String>,
    /// The tip account used when there is no candidate.
    pub default_tip_account: String,
}

/// The Node1 request that posts `body`.
pub open spec fn node1_request(endpoint: Seq<char>, auth_token: Seq<char>, body: Seq<char>) -> HttpRequestView {
    request_view(endpoint, AuthView::Header { name: NODE1_AUTH_HEADER@ }, auth_token, body)
}

/// What submitting a transaction of `bytes` to Node1 gives: a configuration
/// error when the endpoint is not an HTTP URL, a build error when the
/// transaction is too long to be written, and the request otherwise.
pub open spec fn node1_send(endpoint: Seq<char>, auth_token: Seq<char>, bytes: Seq<u8>) -> Result<HttpRequestView, TradeError> {
    if !endpoint_well_formed(endpoint) {
        Err(TradeError::Config)
    } else if bytes.len() > usize::MAX / 2 {
        Err(TradeError::Build)
    } else {
        Ok(node1_request(endpoint, auth_token, dispatch_body(bytes)))
    }
}

/// What submitting each transaction of a batch gives, one result per
/// transaction, in order.
pub open spec fn node1_batch(endpoint: Seq<char>, auth_token: Seq<char>, txs: Seq<Seq<u8>>) -> Seq<Result<HttpRequestView, TradeError>> {
    txs.map_values(|b: Seq<u8>| node1_send(endpoint, auth_token, b))
}

pub open spec fn request_result_view(r: Result<HttpRequest, TradeError>) -> Result<HttpRequestView, TradeError> {
    match r {
        Ok(q) => Ok(q@),
        Err(e) => Err(e),
    }
}

pub open spec fn request_results_view(rs: Seq<Result<HttpRequest, TradeError>>) -> Seq<Result<HttpRequestView, TradeError>> {
    rs.map_values(|r: Result<HttpRequest, TradeError>| request_result_view(r))
}

pub open spec fn bytes_of(txs: Seq<SignedTransaction>) -> Seq<Seq<u8>> {
    txs.map_values(|t: SignedTransaction| t.bytes@)
}

/// The batch of `a` followed by `b` gives the results of `a` followed by
/// those of `b`: one transaction's failure neither stops nor changes the others.
pub proof fn lemma_batch_concat(endpoint: Seq<char>, auth_token: Seq<char>, a: Seq<Seq<u8>>, b: Seq<Seq<u8>>)
    ensures
        node1_batch(endpoint, auth_token, a + b) == node1_batch(endpoint, auth_token, a) + node1_batch(endpoint, auth_token, b),
{
    assert(node1_batch(endpoint, auth_token, a + b) =~= node1_batch(endpoint, auth_token, a) + node1_batch(endpoint, auth_token, b));
}

/// A batch of one transaction gives what submitting it alone gives, and an
/// empty batch gives no result.
pub proof fn lemma_batch_single(endpoint: Seq<char>, auth_token: Seq<char>, bytes: Seq<u8>)
    ensures
        node1_batch(endpoint, auth_token, seq![bytes]) == seq![node1_send(endpoint, auth_token, bytes)],
        node1_batch(endpoint, auth_token, Seq::empty()) == Seq::<Result<HttpRequestView, TradeError>>::empty(),
{
    assert(node1_batch(endpoint, auth_token, seq![bytes]) =~= seq![node1_send(endpoint, auth_token, bytes)]);
    assert(node1_batch(endpoint, auth_token, Seq::empty()) =~= Seq::<Result<HttpRequestView, TradeError>>::empty());
}

impl Node1Client {
    /// A client of the Node1 endpoint `endpoint`, with no tip account yet.
    pub fn new(rpc_url: String, endpoint: String, auth_token: String) -> (r: Node1Client)
        ensures
            r.rpc_url@ == rpc_url@,
            r.endpoint@ == endpoint@,
            r.auth_token@ == auth_token@,
            r.tip_accounts@.len() == 0,
            r.default_tip_account@.len() == 0,
    {
        Node1Client {
            endpoint,
            auth_token,
            rpc_url,
            tip_accounts: Vec::new(),
            default_tip_account: String::new(),
        }
    }

    /// The same client with the tip accounts `candidates`, and `default` for
    /// when there is none.
    pub fn with_tip_accounts(self, candidates: Vec<String>, default: String) -> (r: Node1Client)
        ensures
            r.rpc_url == self.rpc_url,
            r.endpoint == self.endpoint,
            r.auth_token == self.auth_token,
            r.tip_accounts == candidates,
            r.default_tip_account == default,
    {
        Node1Client { tip_accounts: candidates, default_tip_account: default, ..self }
    }

    pub fn get_swqos_type(&self) -> (r: SwqosType)
        ensures
            r == SwqosType::Node1,
    {
        SwqosType::Node1
    }

    /// The tip account for the draw `draw`: the candidate at `draw` modulo
    /// their number, or the default account when there is no candidate; a
    /// configuration error when there is neither.
    pub fn tip_account_at(&self, draw: usize) -> (r: Result<String, TradeError>)
        ensures
            self.tip_accounts@.len() == 0 && self.default_tip_account@.len() == 0 <==> r is Err,
            r is Err ==> r matches Err(TradeError::Config),
            r matches Ok(a) ==> a@ == tip_choice(
                names_view(self.tip_accounts@),
                self.default_tip_account@,
                draw as nat,
            ),
            draw < self.tip_accounts@.len() ==> (r matches Ok(a) && a@ == self.tip_accounts@[draw as int]@),
            self.tip_accounts@.len() == 0 && self.default_tip_account@.len() > 0 ==> (r matches Ok(
                a,
            ) && a@ == self.default_tip_account@),
    {
        if self.tip_accounts.len() == 0 && self.default_tip_account.as_str().unicode_len() == 0 {
            return Err(TradeError::Config);
        }
        let a = select_tip_account(&self.tip_accounts, &self.default_tip_account, draw);
        proof {
            if draw < self.tip_accounts@.len() {
                vstd::arithmetic::div_mod::lemma_small_mod(draw as nat, self.tip_accounts@.len());
            }
        }
        Ok(a)
    }

    /// A tip account drawn uniformly among the candidates, or the default
    /// one when there is no candidate; a configuration error when there is
    /// neither.
    pub fn get_tip_account(&self) -> (r: Result<String, TradeError>)
        ensures
            self.tip_accounts@.len() == 0 && self.default_tip_account@.len() == 0 <==> r is Err,
            r is Err ==> r matches Err(TradeError::Config),
            self.tip_accounts@.len() == 0 && self.default_tip_account@.len() > 0 ==> (r matches Ok(
                a,
            ) && a@ == self.default_tip_account@),
            self.tip_accounts@.len() > 0 ==> (r matches Ok(a) && exists|i: int|
                0 <= i < self.tip_accounts@.len() && a@ == #[trigger] self.tip_accounts@[i]@),
    {
        let draw = if self.tip_accounts.len() == 0 {
            0
        } else {
            random_below(self.tip_accounts.len())
        };
        self.tip_account_at(draw)
    }

    /// This channel as an entry of a dispatch.
    pub fn channel_config(&self) -> (r: ChannelConfig)
        ensures
            r.kind == SwqosType::Node1,
            r.endpoint == self.endpoint,
            r.credential == self.auth_token,
            r.auth@ == (AuthView::Header { name: NODE1_AUTH_HEADER@ }),
    {
        ChannelConfig {
            kind: SwqosType::Node1,
            endpoint: self.endpoint.clone(),
            credential: self.auth_token.clone(),
            auth: AuthScheme::Header { name: String::from_str(NODE1_AUTH_HEADER) },
        }
    }

    /// The request that submits `tx` to Node1: its base64 bytes in a
    /// `sendTransaction` call, preflight skipped, the credential in the
    /// `api-key` header. The endpoint is checked before anything is written.
    pub fn send_request(&self, tx: &SignedTransaction) -> (r: Result<HttpRequest, TradeError>)
        ensures
            request_result_view(r) == node1_send(self.endpoint@, self.auth_token@, tx.bytes@),
    {
        if !is_endpoint(self.endpoint.as_str()) {
            return Err(TradeError::Config);
        }
        match tx.send_body() {
            Ok(body) => {
                let auth = AuthScheme::Header { name: String::from_str(NODE1_AUTH_HEADER) };
                Ok(build_request(&self.endpoint, &auth, &self.auth_token, body))
            },
            Err(_) => Err(TradeError::Build),
        }
    }

    /// The requests that submit `txs`, one result per transaction, in order;
    /// a transaction that cannot be written does not keep the others from
    /// their requests.
    pub fn send_requests(&self, txs: &Vec<SignedTransaction>) -> (r: Vec<Result<HttpRequest, TradeError>>)
        ensures
            r@.len() == txs@.len(),
            forall|i: int| 0 <= i < r@.len() ==> request_result_view(#[trigger] r@[i]) == node1_send(
                self.endpoint@,
                self.auth_token@,
                txs@[i].bytes@,
            ),
            request_results_view(r@) == node1_batch(self.endpoint@, self.auth_token@, bytes_of(txs@)),
    {
        let mut out: Vec<Result<HttpRequest, TradeError>> = Vec::new();
        let mut i: usize = 0;
        while i < txs.len()
            invariant
                i <= txs@.len(),
                out@.len() == i,
                forall|k: int| 0 <= k < i ==> request_result_view(#[trigger] out@[k]) == node1_send(
                    self.endpoint@,
                    self.auth_token@,
                    txs@[k].bytes@,
                ),
            decreases txs@.len() - i,
        {
            let req = self.send_request(&txs[i]);
            out.push(req);
            i = i + 1;
        }
        assert(request_results_view(out@) =~= node1_batch(self.endpoint@, self.auth_token@, bytes_of(txs@)));
        out
    }

    /// The request that asks the RPC endpoint for the status of `signature`;
    /// a configuration error when the RPC endpoint is not an HTTP URL.
    pub fn status_request(&self, signature: &str) -> (r: Result<HttpRequest, TradeError>)
        ensures
            endpoint_well_formed(self.rpc_url@) <==> r is Ok,
            r matches Ok(req) ==> req@ == request_view(
                self.rpc_url@,
                AuthView::NoAuth,
                Seq::empty(),
                status_body(json_string_literal(signature@)),
            ),
            r is Err ==> r matches Err(TradeError::Config),
    {
        if !is_endpoint(self.rpc_url.as_str()) {
            return Err(TradeError::Config);
        }
        let body = status_body_for(signature);
        Ok(build_request(&self.rpc_url, &AuthScheme::NoAuth, &String::new(), body))
    }
}

} // verus!
