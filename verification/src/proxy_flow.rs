//! The reverse-proxy path: a host-side proxy wraps an incoming request
//! into a `ProxyRequest`; the client relay turns it into a request to the
//! local service and wraps the answer into a `ProxyResponse`; the host-side
//! proxy turns that into its reply.
use vstd::prelude::*;
use vstd::string::*;
use crate::codec::{base64_decoding, base64_encoding, decode_body, encode_body};
use crate::messages::{ProxyRequest, ProxyResponse};
use crate::text::{eq_ascii_ci, eq_ignore_ascii_case};
use crate::urls::{local_service_url, localhost_url};

verus! {

// ---------------------------------------------------------------------------
// Headers
// ---------------------------------------------------------------------------

/// Header pairs as character sequences.
pub open spec fn pairs_view(v: Seq<(String, String)>) -> Seq<(Seq<char>, Seq<char>)> {
    v.map_values(|p: (String, String)| (p.0@, p.1@))
}

/// Whether `name` equals one of `names` when ASCII case is ignored.
pub open spec fn named_any(name: Seq<char>, names: Seq<Seq<char>>) -> bool {
    exists|i: int| 0 <= i < names.len() && eq_ascii_ci(name, #[trigger] names[i])
}

/// The pairs whose name is none of `names` (ASCII case ignored), order kept.
pub open spec fn headers_without(h: Seq<(Seq<char>, Seq<char>)>, names: Seq<Seq<char>>) -> Seq<
    (Seq<char>, Seq<char>),
>
    decreases h.len(),
{
    if h.len() == 0 {
        Seq::empty()
    } else {
        let r = headers_without(h.drop_last(), names);
        if named_any(h.last().0, names) {
            r
        } else {
            r.push(h.last())
        }
    }
}

fn named_any_exec(name: &str, names: &Vec<&str>) -> (r: bool)
    ensures
        r == named_any(name@, names@.map_values(|n: &str| n@)),
{
    let ghost ns = names@.map_values(|n: &str| n@);
    let mut i: usize = 0;
    while i < names.len()
        invariant
            i <= names@.len(),
            ns == names@.map_values(|n: &str| n@),
            forall|k: int| 0 <= k < i ==> !eq_ascii_ci(name@, #[trigger] ns[k]),
        decreases names.len() - i,
    {
        if eq_ignore_ascii_case(name, names[i]) {
            assert(eq_ascii_ci(name@, ns[i as int]));
            return true;
        }
        i = i + 1;
    }
    false
}

fn copy_pair(p: &(String, String)) -> (r: (String, String))
    ensures
        r.0@ == p.0@,
        r.1@ == p.1@,
{
    (p.0.clone(), p.1.clone())
}

/// The header pairs without those named in `names`.
pub fn filter_headers(h: &Vec<(String, String)>, names: &Vec<&str>) -> (r: Vec<(String, String)>)
    ensures
        pairs_view(r@) == headers_without(pairs_view(h@), names@.map_values(|n: &str| n@)),
{
    let ghost ns = names@.map_values(|n: &str| n@);
    let ghost hv = pairs_view(h@);
    let mut r: Vec<(String, String)> = Vec::new();
    let mut i: usize = 0;
    assert(hv.take(0) =~= Seq::<(Seq<char>, Seq<char>)>::empty());
    while i < h.len()
        invariant
            i <= h@.len(),
            hv == pairs_view(h@),
            ns == names@.map_values(|n: &str| n@),
            pairs_view(r@) == headers_without(hv.take(i as int), ns),
        decreases h.len() - i,
    {
        assert(hv.take(i + 1).drop_last() =~= hv.take(i as int));
        assert(hv.take(i + 1).last() == (h@[i as int].0@, h@[i as int].1@));
        if !named_any_exec(h[i].0.as_str(), names) {
            let ghost before = pairs_view(r@);
            let p = copy_pair(&h[i]);
            r.push(p);
            assert(pairs_view(r@) =~= before.push((h@[i as int].0@, h@[i as int].1@)));
        }
        i = i + 1;
    }
    assert(hv.take(h@.len() as int) =~= hv);
    r
}

// ---------------------------------------------------------------------------
// HTTP methods
// ---------------------------------------------------------------------------

/// A character allowed in an HTTP method name (an RFC 7230 `tchar`).
pub open spec fn is_token_char(c: char) -> bool {
    ||| ('a' <= c && c <= 'z')
    ||| ('A' <= c && c <= 'Z')
    ||| ('0' <= c && c <= '9')
    ||| c == '!' || c == '#' || c == '$' || c == '%' || c == '&' || c == '\''
    ||| c == '*' || c == '+' || c == '-' || c == '.' || c == '^' || c == '_'
    ||| c == '`' || c == '|' || c == '~'
}

/// A valid HTTP method name: one or more token characters.
pub open spec fn is_method_token(s: Seq<char>) -> bool {
    s.len() > 0 && forall|i: int| 0 <= i < s.len() ==> is_token_char(#[trigger] s[i])
}

/// `reqwest::Method::from_bytes(name.as_bytes())` (the `http` crate's
/// `Method`), asked only whether it succeeds. Claims: it succeeds exactly
/// for a non-empty name made of token characters.
#[verifier::external_body]
fn method_is_valid(name: &str) -> (r: bool)
    ensures
        r == is_method_token(name@),
{
    reqwest::Method::from_bytes(name.as_bytes()).is_ok()
}

// ---------------------------------------------------------------------------
// Client relay
// ---------------------------------------------------------------------------

/// Why the relay refuses a proxied request (answered with 400).
#[derive(Debug, Clone, Copy, PartialEq, Eq, Structural)]
pub enum RelayError {
    /// The body is not valid base64.
    InvalidBody,
    /// The method is not a valid HTTP method.
    InvalidMethod,
}

/// The request the relay makes to the local service (its method by name,
/// a valid HTTP method).
#[derive(Debug, Clone, PartialEq, Eq)]
pub struct RelayPlan {
    pub url: String,
    pub method: String,
    pub headers: Vec<(String, String)>,
    pub body: Vec<u8>,
}

/// The header the relay never passes on (the local service gets its own).
pub open spec fn relay_dropped_headers() -> Seq<Seq<char>> {
    seq!["host"@]
}

/// The bytes a proxied request carries, when its body text is valid.
pub open spec fn request_body_bytes(req: ProxyRequest) -> Option<Seq<u8>> {
    base64_decoding(req.body@)
}

/// What the relay makes of a proxied request: an error (first the body,
/// then the method is checked), or the URL, body and headers of the request
/// to the local service.
pub open spec fn relay_target(req: ProxyRequest) -> Result<
    (Seq<char>, Seq<u8>, Seq<(Seq<char>, Seq<char>)>),
    RelayError,
> {
    match request_body_bytes(req) {
        None => Err(RelayError::InvalidBody),
        Some(b) => if !is_method_token(req.method@) {
            Err(RelayError::InvalidMethod)
        } else {
            Ok(
                (
                    localhost_url(req.port, req.path_and_query@),
                    b,
                    headers_without(pairs_view(req.headers@), relay_dropped_headers()),
                ),
            )
        },
    }
}

/// Turns a proxied request into the request to `http://localhost:<port>`.
pub fn plan_relay(req: &ProxyRequest) -> (r: Result<RelayPlan, RelayError>)
    ensures
        match relay_target(*req) {
            Err(e) => r matches Err(e2) && e2 == e,
            Ok((url, body, headers)) => r matches Ok(plan) && plan.url@ == url && plan.method@
                == req.method@ && plan.body@ == body && pairs_view(plan.headers@) == headers,
        },
{
    let url = local_service_url(req.port, req.path_and_query.as_str());
    let body = match decode_body(req.body.as_str()) {
        Ok(b) => b,
        Err(_) => return Err(RelayError::InvalidBody),
    };
    if !method_is_valid(req.method.as_str()) {
        return Err(RelayError::InvalidMethod);
    }
    let method = req.method.clone();
    let mut names: Vec<&str> = Vec::new();
    names.push("host");
    assert(names@.map_values(|n: &str| n@) =~= relay_dropped_headers());
    let headers = filter_headers(&req.headers, &names);
    Ok(RelayPlan { url, method, headers, body })
}

/// The relay's answer: the local service's status and headers, and its
/// body as base64.
pub fn relay_response(status: u16, headers: Vec<(String, String)>, body: &[u8]) -> (r: ProxyResponse)
    requires
        body@.len() <= usize::MAX / 2,
    ensures
        r.status == status,
        r.headers == headers,
        r.body@ == base64_encoding(body@),
        base64_decoding(r.body@) == Some(body@),
{
    let text = encode_body(body);
    ProxyResponse { status, headers, body: text }
}

// ---------------------------------------------------------------------------
// Host-side proxy
// ---------------------------------------------------------------------------

/// The request a host-side proxy on `port` sends to the relay: the method,
/// the path and query (`/` when there is none), the headers, and the body as
/// base64.
pub fn proxy_request_for(
    port: u16,
    method: &str,
    path_and_query: Option<&str>,
    headers: Vec<(String, String)>,
    body: &[u8],
) -> (r: ProxyRequest)
    requires
        body@.len() <= usize::MAX / 2,
    ensures
        r.port == port,
        r.method@ == method@,
        r.path_and_query@ == match path_and_query {
            Some(p) => p@,
            None => "/"@,
        },
        r.headers == headers,
        r.body@ == base64_encoding(body@),
        request_body_bytes(r) == Some(body@),
{
    let pq = match path_and_query {
        Some(p) => String::from_str(p),
        None => String::from_str("/"),
    };
    ProxyRequest {
        port,
        method: String::from_str(method),
        path_and_query: pq,
        headers,
        body: encode_body(body),
    }
}

/// What a host-side proxy got back from the relay.
#[derive(Debug, Clone)]
pub enum RelayReply {
    /// The relay could not be reached.
    Unreachable,
    /// The relay answered with an error status or an unreadable body.
    Failed,
    /// The relay answered with a `ProxyResponse`.
    Answered(ProxyResponse),
}

/// How a host-side proxy answers its caller.
#[derive(Debug, Clone, PartialEq, Eq)]
pub enum ProxyOutcome {
    /// The local service's answer, passed on.
    Respond { status: u16, headers: Vec<(String, String)>, body: Vec<u8> },
    /// 502: the relay answered with an error (or a body that is not base64).
    RelayFailed,
    /// 502: the relay could not be reached.
    RelayUnreachable,
}

/// The headers a host-side proxy does not pass back: it sets the length
/// and framing of its own answer.
pub open spec fn reply_dropped_headers() -> Seq<Seq<char>> {
    seq!["content-length"@, "transfer-encoding"@]
}

/// What a host-side proxy answers for the relay's response `resp`: its
/// status, its headers but the framing ones, and its body bytes; `None`
/// where the body is not valid base64.
pub open spec fn answer_of(resp: ProxyResponse) -> Option<(u16, Seq<(Seq<char>, Seq<char>)>, Seq<u8>)> {
    match base64_decoding(resp.body@) {
        Some(b) => Some((resp.status, headers_without(pairs_view(resp.headers@), reply_dropped_headers()), b)),
        None => None,
    }
}

/// Turns the relay's reply into the host-side proxy's answer.
pub fn proxy_outcome(reply: RelayReply) -> (r: ProxyOutcome)
    ensures
        match reply {
            RelayReply::Unreachable => r is RelayUnreachable,
            RelayReply::Failed => r is RelayFailed,
            RelayReply::Answered(resp) => match answer_of(resp) {
                None => r is RelayFailed,
                Some((s, h, b)) => r matches ProxyOutcome::Respond { status, headers, body }
                    && status == s && pairs_view(headers@) == h && body@ == b,
            },
        },
{
    match reply {
        RelayReply::Unreachable => ProxyOutcome::RelayUnreachable,
        RelayReply::Failed => ProxyOutcome::RelayFailed,
        RelayReply::Answered(resp) => {
            match decode_body(resp.body.as_str()) {
                Err(_) => ProxyOutcome::RelayFailed,
                Ok(body) => {
                    let mut names: Vec<&str> = Vec::new();
                    names.push("content-length");
                    names.push("transfer-encoding");
                    assert(names@.map_values(|n: &str| n@) =~= reply_dropped_headers());
                    let headers = filter_headers(&resp.headers, &names);
                    ProxyOutcome::Respond { status: resp.status, headers, body }
                },
            }
        },
    }
}

/// What a host-side proxy sends on, the relay forwards unchanged: the body
/// bytes, the port, and the path and query.
pub proof fn lemma_relay_forwards_body(req: ProxyRequest, body: Seq<u8>)
    requires
        request_body_bytes(req) == Some(body),
        is_method_token(req.method@),
    ensures
        relay_target(req) matches Ok((url, b, headers)) && b == body && url == localhost_url(
            req.port,
            req.path_and_query@,
        ),
{
}

/// What the relay answers, a host-side proxy passes back unchanged: a
/// response whose body text decodes to `body` (as the relay's answers do)
/// is answered with its status and those bytes.
pub proof fn lemma_reply_body_passed_back(resp: ProxyResponse, body: Seq<u8>)
    requires
        base64_decoding(resp.body@) == Some(body),
    ensures
        answer_of(resp) matches Some((s, _, b)) && s == resp.status && b == body,
{
}

/// The pairs of `h` whose name is not `Host` (ASCII case ignored).
pub open spec fn not_host(p: (Seq<char>, Seq<char>)) -> bool {
    !eq_ascii_ci(p.0, "host"@)
}

proof fn lemma_without_host(h: Seq<(Seq<char>, Seq<char>)>)
    ensures
        headers_without(h, relay_dropped_headers()) == h.filter(|p: (Seq<char>, Seq<char>)| not_host(p)),
    decreases h.len(),
{
    reveal(Seq::filter);
    if h.len() > 0 {
        lemma_without_host(h.drop_last());
        let names = relay_dropped_headers();
        assert(names[0] == "host"@);
        assert(named_any(h.last().0, names) <==> eq_ascii_ci(h.last().0, "host"@)) by {
            if named_any(h.last().0, names) {
                let k = choose|k: int| 0 <= k < names.len() && eq_ascii_ci(h.last().0, #[trigger] names[k]);
                assert(k == 0);
            }
        }
    }
}

/// The relay passes every request header on to the local service, in
/// order and unchanged, except `Host` (in any ASCII case), which it drops.
pub proof fn lemma_relay_keeps_every_header_but_host(req: ProxyRequest)
    ensures
        relay_target(req) matches Ok((_, _, headers)) ==> headers == pairs_view(req.headers@).filter(
            |p: (Seq<char>, Seq<char>)| not_host(p),
        ),
{
    lemma_without_host(pairs_view(req.headers@));
}

} // verus!
