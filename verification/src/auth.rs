//! The shared-passphrase check on daemon requests: a request is accepted
//! when no passphrase is configured, or when its `Authorization` header is
//! exactly `Bearer <passphrase>`, byte for byte (UTF-8).
use vstd::prelude::*;
use vstd::string::*;
use crate::config::opt_view;
use vstd::utf8::{encode_utf8, encode_utf8_decode_utf8};

verus! {

/// The `Authorization` value carrying passphrase `p`.
pub open spec fn bearer(p: Seq<char>) -> Seq<char> {
    "Bearer "@ + p
}

/// Whether a request with the header value `header`, as bytes (`None` when
/// absent), is accepted under `passphrase` (`None` when authentication is
/// off): the bytes are the UTF-8 encoding of `Bearer <passphrase>`.
pub open spec fn authorized(passphrase: Option<Seq<char>>, header: Option<Seq<u8>>) -> bool {
    match passphrase {
        None => true,
        Some(p) => header == Some(encode_utf8(bearer(p))),
    }
}

/// `Bearer <phrase>`.
pub fn bearer_value(phrase: &str) -> (r: String)
    ensures
        r@ == bearer(phrase@),
{
    let mut r = String::from_str("Bearer ");
    r.append(phrase);
    r
}

/// The `Authorization` value a sender attaches: present exactly when a
/// passphrase is configured.
pub fn authorization_header(passphrase: &Option<String>) -> (r: Option<String>)
    ensures
        opt_view(r) == match opt_view(*passphrase) {
            Some(p) => Some(bearer(p)),
            None => None,
        },
{
    match passphrase {
        Some(p) => Some(bearer_value(p.as_str())),
        None => None,
    }
}

fn bytes_equal(a: &[u8], b: &[u8]) -> (r: bool)
    ensures
        r == (a@ == b@),
{
    if a.len() != b.len() {
        return false;
    }
    let mut i: usize = 0;
    while i < a.len()
        invariant
            a@.len() == b@.len(),
            i <= a@.len(),
            forall|k: int| 0 <= k < i ==> a@[k] == b@[k],
        decreases a.len() - i,
    {
        if a[i] != b[i] {
            return false;
        }
        i = i + 1;
    }
    assert(a@ =~= b@);
    true
}

/// The daemons' check of an incoming request's `Authorization` header
/// (its bytes, `None` when absent).
pub fn is_authorized(passphrase: &Option<String>, header: Option<&[u8]>) -> (r: bool)
    ensures
        r == authorized(
            opt_view(*passphrase),
            match header {
                Some(h) => Some(h@),
                None => None,
            },
        ),
{
    match passphrase {
        None => true,
        Some(p) => match header {
            None => false,
            Some(h) => {
                let expected = bearer_value(p.as_str());
                bytes_equal(h, expected.as_str().as_bytes())
            },
        },
    }
}

/// A request signed with the configured passphrase is accepted by a daemon
/// configured with the same passphrase.
pub proof fn lemma_own_header_accepted(passphrase: Option<Seq<char>>)
    ensures
        authorized(
            passphrase,
            match passphrase {
                Some(p) => Some(encode_utf8(bearer(p))),
                None => None,
            },
        ),
{
}

/// A request signed with another passphrase, or not signed at all, is
/// refused by a daemon that has a passphrase.
pub proof fn lemma_other_header_refused(configured: Seq<char>, used: Option<Seq<char>>)
    requires
        used != Some(configured),
    ensures
        !authorized(
            Some(configured),
            match used {
                Some(p) => Some(encode_utf8(bearer(p))),
                None => None,
            },
        ),
{
    if let Some(p) = used {
        encode_utf8_decode_utf8(bearer(p));
        encode_utf8_decode_utf8(bearer(configured));
        if bearer(p) == bearer(configured) {
            let k = "Bearer "@.len() as int;
            assert(bearer(p).skip(k) =~= p);
            assert(bearer(configured).skip(k) =~= configured);
        }
    }
}

} // verus!
