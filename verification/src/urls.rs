//! Addresses the daemons talk to, and the test that tells a URL argument
//! from a command.
use vstd::prelude::*;
use vstd::string::*;
use crate::text::{decimal, push_decimal, str_eq};

verus! {

/// `p` is a prefix of `s`.
pub open spec fn starts_with(s: Seq<char>, p: Seq<char>) -> bool {
    p.len() <= s.len() && s.take(p.len() as int) == p
}

/// `p` occurs in `s` at position `i`.
pub open spec fn occurs_at(s: Seq<char>, p: Seq<char>, i: int) -> bool {
    0 <= i && i + p.len() <= s.len() && s.subrange(i, i + p.len()) == p
}

/// `p` occurs somewhere in `s`.
pub open spec fn contains(s: Seq<char>, p: Seq<char>) -> bool {
    exists|i: int| occurs_at(s, p, i)
}

fn occurs_at_exec(s: &str, n: usize, p: &str, m: usize, i: usize) -> (r: bool)
    requires
        n == s@.len(),
        m == p@.len(),
        i + m <= n,
    ensures
        r == occurs_at(s@, p@, i as int),
{
    let piece = s.substring_char(i, i + m);
    str_eq(piece, p)
}

pub fn starts_with_str(s: &str, p: &str) -> (r: bool)
    ensures
        r == starts_with(s@, p@),
{
    let n = s.unicode_len();
    let m = p.unicode_len();
    if m > n {
        return false;
    }
    let r = occurs_at_exec(s, n, p, m, 0);
    assert(s@.subrange(0, m as int) =~= s@.take(m as int));
    r
}

/// `p` is a suffix of `s`.
pub open spec fn ends_with(s: Seq<char>, p: Seq<char>) -> bool {
    p.len() <= s.len() && s.skip(s.len() - p.len()) == p
}

pub fn ends_with_str(s: &str, p: &str) -> (r: bool)
    ensures
        r == ends_with(s@, p@),
{
    let n = s.unicode_len();
    let m = p.unicode_len();
    if m > n {
        return false;
    }
    let r = occurs_at_exec(s, n, p, m, n - m);
    assert(s@.subrange(n - m, n as int) =~= s@.skip(n - m));
    r
}

pub fn contains_str(s: &str, p: &str) -> (r: bool)
    ensures
        r == contains(s@, p@),
{
    let n = s.unicode_len();
    let m = p.unicode_len();
    if m > n {
        return false;
    }
    if m == 0 {
        assert(s@.subrange(0, 0) =~= p@);
        assert(occurs_at(s@, p@, 0));
        return true;
    }
    let last = n - m;
    let mut i: usize = 0;
    while i <= last
        invariant
            n == s@.len(),
            m == p@.len(),
            m <= n,
            last == n - m,
            m >= 1,
            i <= last + 1,
            forall|k: int| 0 <= k < i ==> !occurs_at(s@, p@, k),
        decreases last + 1 - i,
    {
        if occurs_at_exec(s, n, p, m, i) {
            return true;
        }
        i = i + 1;
    }
    assert forall|k: int| !occurs_at(s@, p@, k) by {
        if 0 <= k < i {
        }
    }
    false
}

/// A command-line argument that is forwarded as a URL rather than read as a
/// command: it starts with `http://` or `https://`, or contains `://`.
pub open spec fn url_like(s: Seq<char>) -> bool {
    starts_with(s, "http://"@) || starts_with(s, "https://"@) || contains(s, "://"@)
}

pub fn looks_like_url(s: &str) -> (r: bool)
    ensures
        r == url_like(s@),
{
    starts_with_str(s, "http://") || starts_with_str(s, "https://") || contains_str(s, "://")
}

/// Text placed between `x` and `y` occurs in the whole right after `x`.
pub proof fn lemma_occurs_between(x: Seq<char>, p: Seq<char>, y: Seq<char>)
    ensures
        occurs_at(x + p + y, p, x.len() as int),
        contains(x + p + y, p),
{
    assert((x + p + y).subrange(x.len() as int, (x.len() + p.len()) as int) =~= p);
}

/// An argument is taken for a URL exactly when it contains `://`.
pub proof fn lemma_url_like_iff_scheme_separator(s: Seq<char>)
    ensures
        url_like(s) <==> contains(s, "://"@),
{
    reveal_strlit("http://");
    reveal_strlit("https://");
    reveal_strlit("://");
    if starts_with(s, "http://"@) {
        let t = s.take(7);
        assert(t[4] == ':' && t[5] == '/' && t[6] == '/');
        assert(s.subrange(4, 7) =~= "://"@);
        assert(occurs_at(s, "://"@, 4));
    }
    if starts_with(s, "https://"@) {
        let t = s.take(8);
        assert(t[5] == ':' && t[6] == '/' && t[7] == '/');
        assert(s.subrange(5, 8) =~= "://"@);
        assert(occurs_at(s, "://"@, 5));
    }
}

/// `base` followed by `suffix`.
pub fn concat_str(base: &str, suffix: &str) -> (r: String)
    ensures
        r@ == base@ + suffix@,
{
    let mut r = String::from_str(base);
    r.append(suffix);
    r
}

/// The host daemon's endpoint for opening a URL.
pub fn open_endpoint(base_url: &str) -> (r: String)
    ensures
        r@ == base_url@ + "/open"@,
{
    concat_str(base_url, "/open")
}

/// The host daemon's endpoint for ports updates.
pub fn ports_endpoint(base_url: &str) -> (r: String)
    ensures
        r@ == base_url@ + "/ports"@,
{
    concat_str(base_url, "/ports")
}

/// The client relay's endpoint for proxied requests.
pub fn proxy_endpoint(relay_url: &str) -> (r: String)
    ensures
        r@ == relay_url@ + "/proxy"@,
{
    concat_str(relay_url, "/proxy")
}

/// `<host>:<port>`, the address a daemon binds.
pub fn listen_address(host: &str, port: u16) -> (r: String)
    ensures
        r@ == host@ + seq![':'] + decimal(port as nat),
{
    let mut r = String::from_str(host);
    crate::text::push_char(&mut r, ':');
    push_decimal(&mut r, port as u32);
    r
}

/// `http://localhost:<port>` followed by `rest`.
pub open spec fn localhost_url(port: u16, rest: Seq<char>) -> Seq<char> {
    "http://localhost:"@ + decimal(port as nat) + rest
}

fn localhost_url_exec(port: u16, rest: &str) -> (r: String)
    ensures
        r@ == localhost_url(port, rest@),
{
    let mut r = String::from_str("http://localhost:");
    push_decimal(&mut r, port as u32);
    r.append(rest);
    r
}

/// Where a URL argument is handed to the local daemon:
/// `http://localhost:<port>/open`.
pub fn local_daemon_open_url(port: u16) -> (r: String)
    ensures
        r@ == localhost_url(port, "/open"@),
{
    localhost_url_exec(port, "/open")
}

/// The local service a proxied request is meant for:
/// `http://localhost:<port><path_and_query>`.
pub fn local_service_url(port: u16, path_and_query: &str) -> (r: String)
    ensures
        r@ == localhost_url(port, path_and_query@),
{
    localhost_url_exec(port, path_and_query)
}

/// The loopback address a host-side proxy binds: `127.0.0.1:<port>`.
pub fn proxy_bind_address(port: u16) -> (r: String)
    ensures
        r@ == "127.0.0.1:"@ + decimal(port as nat),
{
    let mut r = String::from_str("127.0.0.1:");
    push_decimal(&mut r, port as u32);
    r
}

} // verus!
