//! The wire contract of a channel: JSON-RPC request bodies, HTTP requests
//! with the provider's way of carrying its credential, and the reading of
//! replies.
use vstd::prelude::*;
use vstd::string::*;
use crate::codec::{
    json_has_member, json_is_null_at, json_is_valid, json_member_present, json_null_at, json_parses, json_quote,
    json_str_at, json_str_at_pointer, json_string_literal, json_text_at, json_text_at_pointer,
    json_u64_at, json_u64_at_pointer,
};
use crate::confirm::{Commitment, Observation, ObservationView};

verus! {

/// Text of a `sendTransaction` body up to the encoded transaction.
pub const SEND_BODY_HEAD: &'static str = "{\"id\":1,\"jsonrpc\":\"2.0\",\"method\":\"sendTransaction\",\"params\":[";

/// Text of a `sendTransaction` body after the encoded transaction: base64
/// encoding, preflight simulation skipped.
pub const SEND_BODY_TAIL: &'static str = ",{\"encoding\":\"base64\",\"skipPreflight\":true}]}";

/// Text of a `getSignatureStatuses` body up to the signature.
pub const STATUS_BODY_HEAD: &'static str = "{\"id\":1,\"jsonrpc\":\"2.0\",\"method\":\"getSignatureStatuses\",\"params\":[[";

/// Text of a `getSignatureStatuses` body after the signature.
pub const STATUS_BODY_TAIL: &'static str = "],{\"searchTransactionHistory\":false}]}";

pub const CONTENT_TYPE_HEADER: &'static str = "Content-Type";

pub const JSON_CONTENT_TYPE: &'static str = "application/json";

pub const AUTHORIZATION_HEADER: &'static str = "Authorization";

pub const BEARER_PREFIX: &'static str = "Bearer ";

/// The `sendTransaction` body for an encoded transaction already written as
/// a JSON string literal.
pub open spec fn send_body(quoted: Seq<char>) -> Seq<char> {
    SEND_BODY_HEAD@ + quoted + SEND_BODY_TAIL@
}

/// The `getSignatureStatuses` body for a signature already written as a
/// JSON string literal.
pub open spec fn status_body(quoted: Seq<char>) -> Seq<char> {
    STATUS_BODY_HEAD@ + quoted + STATUS_BODY_TAIL@
}

/// Errors met while writing a request.
#[derive(Clone, Copy, Debug, PartialEq, Eq, Structural)]
pub enum WireError {
    /// The transaction is too long for its text form to be addressed.
    TooLarge,
}

/// The `sendTransaction` body for an encoded transaction.
pub fn send_body_for(content: &str) -> (r: String)
    ensures
        r@ == send_body(json_string_literal(content@)),
{
    match json_quote(content) {
        Ok(quoted) => compose_send_body(&quoted),
        Err(_) => vstd::pervasive::unreached(),
    }
}

/// The `sendTransaction` body around an encoded transaction written as a
/// JSON string literal.
pub fn compose_send_body(quoted: &str) -> (r: String)
    ensures
        r@ == send_body(quoted@),
{
    let mut body = String::from_str(SEND_BODY_HEAD);
    body.append(quoted);
    body.append(SEND_BODY_TAIL);
    body
}

/// The `getSignatureStatuses` body for a signature.
pub fn status_body_for(signature: &str) -> (r: String)
    ensures
        r@ == status_body(json_string_literal(signature@)),
{
    match json_quote(signature) {
        Ok(quoted) => compose_status_body(&quoted),
        Err(_) => vstd::pervasive::unreached(),
    }
}

/// The `getSignatureStatuses` body around a signature written as a JSON
/// string literal.
pub fn compose_status_body(quoted: &str) -> (r: String)
    ensures
        r@ == status_body(quoted@),
{
    let mut body = String::from_str(STATUS_BODY_HEAD);
    body.append(quoted);
    body.append(STATUS_BODY_TAIL);
    body
}

/// How a provider receives its credential.
#[derive(Clone, Debug)]
pub enum AuthScheme {
    /// In a request header of the given name.
    Header { name: String },
    /// In a query parameter of the given name, appended to the endpoint.
    UrlParam { name: String },
    /// As a bearer token in the `Authorization` header.
    Bearer,
    /// Not at all: the endpoint is open.
    NoAuth,
}

pub enum AuthView {
    Header { name: Seq<char> },
    UrlParam { name: Seq<char> },
    Bearer,
    NoAuth,
}

impl View for AuthScheme {
    type V = AuthView;

    open spec fn view(&self) -> AuthView {
        match self {
            AuthScheme::Header { name } => AuthView::Header { name: name@ },
            AuthScheme::UrlParam { name } => AuthView::UrlParam { name: name@ },
            AuthScheme::Bearer => AuthView::Bearer,
            AuthScheme::NoAuth => AuthView::NoAuth,
        }
    }
}

/// An HTTP POST to perform.
#[derive(Debug)]
pub struct HttpRequest {
    pub url: String,
    pub headers: Vec<(String, String)>,
    pub body: String,
}

pub struct HttpRequestView {
    pub url: Seq<char>,
    pub headers: Seq<(Seq<char>, Seq<char>)>,
    pub body: Seq<char>,
}

impl View for HttpRequest {
    type V = HttpRequestView;

    open spec fn view(&self) -> HttpRequestView {
        HttpRequestView {
            url: self.url@,
            headers: self.headers@.map_values(|h: (String, String)| (h.0@, h.1@)),
            body: self.body@,
        }
    }
}

/// Whether a text holds a given character.
pub open spec fn holds_char(text: Seq<char>, c: char) -> bool {
    exists|i: int| 0 <= i < text.len() && text[i] == c
}

/// The endpoint with the query parameter `name=value` appended, after `&`
/// when the endpoint already has a query and after `?` otherwise.
pub open spec fn with_query_param(endpoint: Seq<char>, name: Seq<char>, value: Seq<char>) -> Seq<char> {
    endpoint + (if holds_char(endpoint, '?') {
        seq!['&']
    } else {
        seq!['?']
    }) + name + seq!['='] + value
}

/// The request that posts `body` to `endpoint` with `credential` carried as
/// `auth` says.
pub open spec fn request_view(
    endpoint: Seq<char>,
    auth: AuthView,
    credential: Seq<char>,
    body: Seq<char>,
) -> HttpRequestView {
    let json = (CONTENT_TYPE_HEADER@, JSON_CONTENT_TYPE@);
    match auth {
        AuthView::Header { name } => HttpRequestView {
            url: endpoint,
            headers: seq![json, (name, credential)],
            body,
        },
        AuthView::UrlParam { name } => HttpRequestView {
            url: with_query_param(endpoint, name, credential),
            headers: seq![json],
            body,
        },
        AuthView::Bearer => HttpRequestView {
            url: endpoint,
            headers: seq![json, (AUTHORIZATION_HEADER@, BEARER_PREFIX@ + credential)],
            body,
        },
        AuthView::NoAuth => HttpRequestView { url: endpoint, headers: seq![json], body },
    }
}

/// Scheme of a plain HTTP endpoint.
pub const HTTP_SCHEME: &'static str = "http://";

/// Scheme of a TLS endpoint.
pub const HTTPS_SCHEME: &'static str = "https://";

/// Whether a text starts with a given prefix.
pub open spec fn starts_with(text: Seq<char>, prefix: Seq<char>) -> bool {
    prefix.len() <= text.len() && text.subrange(0, prefix.len() as int) == prefix
}

/// Whether an endpoint can be posted to: an `http://` or `https://` URL
/// with a host part after the scheme.
pub open spec fn endpoint_well_formed(endpoint: Seq<char>) -> bool {
    (starts_with(endpoint, HTTP_SCHEME@) && endpoint.len() > HTTP_SCHEME@.len())
        || (starts_with(endpoint, HTTPS_SCHEME@) && endpoint.len() > HTTPS_SCHEME@.len())
}

/// Whether `text` starts with `prefix`.
pub fn has_prefix(text: &str, prefix: &str) -> (r: bool)
    ensures
        r == starts_with(text@, prefix@),
{
    let n = text.unicode_len();
    let m = prefix.unicode_len();
    if m > n {
        return false;
    }
    let mut i: usize = 0;
    while i < m
        invariant
            n == text@.len(),
            m == prefix@.len(),
            m <= n,
            i <= m,
            forall|j: int| 0 <= j < i ==> text@[j] == prefix@[j],
        decreases m - i,
    {
        if text.get_char(i) != prefix.get_char(i) {
            assert(text@.subrange(0, m as int)[i as int] != prefix@[i as int]);
            return false;
        }
        i = i + 1;
    }
    assert(text@.subrange(0, m as int) =~= prefix@);
    true
}

/// Whether `endpoint` is an `http://` or `https://` URL with a host part.
pub fn is_endpoint(endpoint: &str) -> (r: bool)
    ensures
        r == endpoint_well_formed(endpoint@),
{
    let n = endpoint.unicode_len();
    (has_prefix(endpoint, HTTP_SCHEME) && n > HTTP_SCHEME.unicode_len())
        || (has_prefix(endpoint, HTTPS_SCHEME) && n > HTTPS_SCHEME.unicode_len())
}

/// Whether `text` holds the character `c`.
pub fn contains_char(text: &str, c: char) -> (r: bool)
    ensures
        r == holds_char(text@, c),
{
    let n = text.unicode_len();
    let mut i: usize = 0;
    while i < n
        invariant
            n == text@.len(),
            i <= n,
            forall|j: int| 0 <= j < i ==> text@[j] != c,
        decreases n - i,
    {
        if text.get_char(i) == c {
            return true;
        }
        i = i + 1;
    }
    false
}

/// The request that posts `body` to `endpoint`, with `credential` carried as
/// `auth` says.
pub fn build_request(endpoint: &String, auth: &AuthScheme, credential: &String, body: String) -> (r: HttpRequest)
    ensures
        r@ == request_view(endpoint@, auth@, credential@, body@),
{
    let json = (String::from_str(CONTENT_TYPE_HEADER), String::from_str(JSON_CONTENT_TYPE));
    let r = match auth {
        AuthScheme::Header { name } => HttpRequest {
            url: endpoint.clone(),
            headers: vec![json, (name.clone(), credential.clone())],
            body,
        },
        AuthScheme::UrlParam { name } => {
            let mut url = endpoint.clone();
            if contains_char(endpoint.as_str(), '?') {
                url.append("&");
            } else {
                url.append("?");
            }
            url.append(name.as_str());
            url.append("=");
            url.append(credential.as_str());
            HttpRequest { url, headers: vec![json], body }
        },
        AuthScheme::Bearer => {
            let mut token = String::from_str(BEARER_PREFIX);
            token.append(credential.as_str());
            HttpRequest {
                url: endpoint.clone(),
                headers: vec![json, (String::from_str(AUTHORIZATION_HEADER), token)],
                body,
            }
        },
        AuthScheme::NoAuth => HttpRequest { url: endpoint.clone(), headers: vec![json], body },
    };
    proof {
        reveal_strlit("&");
        reveal_strlit("?");
        reveal_strlit("=");
        assert(r@.headers =~= request_view(endpoint@, auth@, credential@, body@).headers);
        assert(r@.url =~= request_view(endpoint@, auth@, credential@, body@).url);
    }
    r
}

/// What a channel made of one submission.
#[derive(Clone, Copy, Debug, PartialEq, Eq, Structural)]
pub enum Delivery {
    /// The provider answered with a result.
    Accepted,
    /// The provider answered with an error.
    Rejected,
    /// The reply was not JSON, or held neither a result nor an error.
    Unrecognized,
    /// No reply came: the connection or the HTTP exchange failed.
    NetworkError,
}

/// The delivery that a reply stands for: accepted when it carries a
/// `result` member, rejected when it carries an `error` member instead, and
/// unrecognized when it is not JSON or carries neither.
pub open spec fn delivery_of(parsed: bool, has_result: bool, has_error: bool) -> Delivery {
    if !parsed {
        Delivery::Unrecognized
    } else if has_result {
        Delivery::Accepted
    } else if has_error {
        Delivery::Rejected
    } else {
        Delivery::Unrecognized
    }
}

/// The delivery for a reply read as `parsed`, `has_result`, `has_error`
/// (see `delivery_of`).
pub fn delivery_from_reply(parsed: bool, has_result: bool, has_error: bool) -> (r: Delivery)
    ensures
        r == delivery_of(parsed, has_result, has_error),
{
    if !parsed {
        Delivery::Unrecognized
    } else if has_result {
        Delivery::Accepted
    } else if has_error {
        Delivery::Rejected
    } else {
        Delivery::Unrecognized
    }
}

/// The member of a reply that carries an accepted submission.
pub const RESULT_MEMBER: &'static str = "result";

/// The member of a reply that carries a provider's refusal.
pub const ERROR_MEMBER: &'static str = "error";

/// The delivery that a provider's reply text stands for.
pub open spec fn reply_delivery(text: Seq<char>) -> Delivery {
    delivery_of(
        json_parses(text),
        json_member_present(text, RESULT_MEMBER@),
        json_member_present(text, ERROR_MEMBER@),
    )
}

/// The delivery that a provider's reply text stands for: accepted when it
/// is a JSON object with a `result` member, rejected when it has an `error`
/// member instead, unrecognized otherwise.
pub fn classify_reply(text: &str) -> (r: Delivery)
    ensures
        r == reply_delivery(text@),
        !json_parses(text@) ==> r == Delivery::Unrecognized,
{
    let parsed = json_is_valid(text);
    let has_result = json_has_member(text, RESULT_MEMBER);
    let has_error = json_has_member(text, ERROR_MEMBER);
    delivery_from_reply(parsed, has_result, has_error)
}

/// The lowest and highest HTTP status of a successful exchange.
pub const HTTP_OK_FIRST: u16 = 200;

pub const HTTP_OK_LAST: u16 = 299;

/// The delivery that an HTTP reply stands for: a status outside the
/// success range is a refusal, whatever the body; otherwise the body decides.
pub open spec fn response_delivery(status: u16, text: Seq<char>) -> Delivery {
    if status < HTTP_OK_FIRST || status > HTTP_OK_LAST {
        Delivery::Rejected
    } else {
        reply_delivery(text)
    }
}

/// The delivery that an HTTP reply with `status` and body `text` stands for.
pub fn classify_response(status: u16, text: &str) -> (r: Delivery)
    ensures
        r == response_delivery(status, text@),
{
    if status < HTTP_OK_FIRST || status > HTTP_OK_LAST {
        Delivery::Rejected
    } else {
        classify_reply(text)
    }
}

/// The commitment level that a status reply names.
pub open spec fn commitment_named(name: Seq<char>) -> Option<Commitment> {
    if name == "processed"@ {
        Some(Commitment::Processed)
    } else if name == "confirmed"@ {
        Some(Commitment::Confirmed)
    } else if name == "finalized"@ {
        Some(Commitment::Finalized)
    } else {
        None
    }
}

/// The commitment level named by `name`, if it names one.
pub fn commitment_from_name(name: &String) -> (r: Option<Commitment>)
    ensures
        r == commitment_named(name@),
{
    if *name == String::from_str("processed") {
        Some(Commitment::Processed)
    } else if *name == String::from_str("confirmed") {
        Some(Commitment::Confirmed)
    } else if *name == String::from_str("finalized") {
        Some(Commitment::Finalized)
    } else {
        None
    }
}

/// The observation that a status entry stands for: `found` is false for a
/// null entry (the signature is unknown); a found entry needs its slot and
/// its commitment level, and `error` is the text of its error member when
/// that is not null. `None` when the entry lacks a field.
pub open spec fn observation_of_entry(
    found: bool,
    slot: Option<u64>,
    level: Option<Commitment>,
    error: Option<Seq<char>>,
) -> Option<ObservationView> {
    if !found {
        Some(None)
    } else {
        match (slot, level) {
            (Some(s), Some(c)) => Some(Some((s, c, error))),
            _ => None,
        }
    }
}

pub open spec fn text_option_view(t: Option<String>) -> Option<Seq<char>> {
    match t {
        Some(s) => Some(s@),
        None => None,
    }
}

pub open spec fn observation_option_view(o: Option<Observation>) -> Option<ObservationView> {
    match o {
        Some(x) => Some(x@),
        None => None,
    }
}

/// The observation for a status entry read as `found`, `slot`, `level`,
/// `error` (see `observation_of_entry`).
pub fn observation_from_entry(
    found: bool,
    slot: Option<u64>,
    level: Option<Commitment>,
    error: Option<String>,
) -> (r: Option<Observation>)
    ensures
        observation_option_view(r) == observation_of_entry(found, slot, level, text_option_view(error)),
{
    if !found {
        Some(Observation::NotFound)
    } else {
        match (slot, level) {
            (Some(s), Some(c)) => Some(Observation::Landed { slot: s, commitment: c, error }),
            _ => None,
        }
    }
}

/// JSON pointer to the status entry of the one signature queried.
pub const STATUS_ENTRY: &'static str = "/result/value/0";

/// JSON pointer to the slot of that entry.
pub const STATUS_SLOT: &'static str = "/result/value/0/slot";

/// JSON pointer to the commitment level of that entry.
pub const STATUS_LEVEL: &'static str = "/result/value/0/confirmationStatus";

/// JSON pointer to the error of that entry.
pub const STATUS_ERR: &'static str = "/result/value/0/err";

/// The commitment level named by an optional text.
pub open spec fn commitment_named_opt(name: Option<Seq<char>>) -> Option<Commitment> {
    match name {
        Some(n) => commitment_named(n),
        None => None,
    }
}

/// The observation that a `getSignatureStatuses` reply reports for the one
/// signature queried: `None` when the reply has no status entry; else the
/// entry read by `observation_of_entry`, where a null entry means not found
/// and a null or absent error means none.
pub open spec fn reply_observation(text: Seq<char>) -> Option<ObservationView> {
    if json_text_at(text, STATUS_ENTRY@) is None {
        None
    } else {
        observation_of_entry(
            !json_null_at(text, STATUS_ENTRY@),
            json_u64_at(text, STATUS_SLOT@),
            commitment_named_opt(json_str_at(text, STATUS_LEVEL@)),
            if json_null_at(text, STATUS_ERR@) {
                None
            } else {
                json_text_at(text, STATUS_ERR@)
            },
        )
    }
}

/// The observation that a `getSignatureStatuses` reply for one signature
/// reports, or `None` when the reply is not of that shape.
pub fn observation_from_reply(text: &str) -> (r: Option<Observation>)
    ensures
        observation_option_view(r) == reply_observation(text@),
        !json_parses(text@) ==> r is None,
{
    if json_text_at_pointer(text, STATUS_ENTRY).is_none() {
        return None;
    }
    let found = !json_is_null_at(text, STATUS_ENTRY);
    let slot = json_u64_at_pointer(text, STATUS_SLOT);
    let level = match json_str_at_pointer(text, STATUS_LEVEL) {
        Some(name) => commitment_from_name(&name),
        None => None,
    };
    let error = if json_is_null_at(text, STATUS_ERR) {
        None
    } else {
        json_text_at_pointer(text, STATUS_ERR)
    };
    observation_from_entry(found, slot, level, error)
}

} // verus!
