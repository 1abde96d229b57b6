//! Daemon configuration: the `LISTEN` address, the URLs of the peers, the
//! shared passphrase and the URL schemes, built from the values of the
//! environment variables (which the caller reads).
use vstd::prelude::*;
use vstd::string::*;
use crate::text::{
    decimal, eq_ascii_ci, eq_ignore_ascii_case, is_ascii_digit, lemma_decimal_digits,
    lemma_parse_decimal, parse_unsigned, parse_unsigned_spec, split_on, split_seq, str_eq,
    strip_trailing, trim, trim_end_char, trimmed, views,
};

verus! {

/// The value of each configuration variable, `None` where it is unset.
#[derive(Debug, Clone, Default)]
pub struct EnvVars {
    /// `LISTEN`: `<host>:<port>` the daemon binds.
    pub listen: Option<String>,
    /// `PASSPHRASE`: shared secret; empty means no authentication.
    pub passphrase: Option<String>,
    /// `HOST_URL`: where the client reaches the host daemon.
    pub host_url: Option<String>,
    /// `RELAY_URL`: where the host reaches the client relay.
    pub relay_url: Option<String>,
    /// `SCHEME`: comma-separated extra URL schemes to handle.
    pub scheme: Option<String>,
    /// `HTTP`: `false` (any case, surrounding whitespace ignored) turns off http/https handling.
    pub http: Option<String>,
}

/// The character sequence of an optional string.
pub open spec fn opt_view(o: Option<String>) -> Option<Seq<char>> {
    match o {
        Some(s) => Some(s@),
        None => None,
    }
}

/// Position of the last `c` in `s[..j]`, or -1.
pub open spec fn last_index(s: Seq<char>, c: char, j: int) -> int
    decreases j,
{
    if j <= 0 {
        -1
    } else if s[j - 1] == c {
        j - 1
    } else {
        last_index(s, c, j - 1)
    }
}

/// The port used when `LISTEN` has none or an unreadable one.
pub open spec fn fallback_port() -> int {
    8080
}

/// `LISTEN` split at its last `:` into host and port
/// (`rsplit_once(':')`, the port read as a `u16`, 8080 where that fails;
/// without a `:` the whole text is the host).
pub open spec fn listen_parts(s: Seq<char>) -> (Seq<char>, int) {
    let k = last_index(s, ':', s.len() as int);
    if k < 0 {
        (s, fallback_port())
    } else {
        (
            s.take(k),
            match parse_unsigned_spec(s.skip(k + 1), 65535) {
                Some(v) => v,
                None => fallback_port(),
            },
        )
    }
}

/// Splits a `<host>:<port>` listen address.
pub fn parse_listen(listen: &str) -> (r: (String, u16))
    ensures
        (r.0@, r.1 as int) == listen_parts(listen@),
{
    let n = listen.unicode_len();
    let mut j: usize = n;
    while j > 0 && listen.get_char(j - 1) != ':'
        invariant
            n == listen@.len(),
            j <= n,
            last_index(listen@, ':', j as int) == last_index(listen@, ':', n as int),
        decreases j,
    {
        j = j - 1;
    }
    if j == 0 {
        assert(last_index(listen@, ':', 0) == -1);
        (String::from_str(listen), 8080)
    } else {
        assert(listen@[j - 1] == ':');
        assert(last_index(listen@, ':', j as int) == j - 1);
        let host = String::from_str(listen.substring_char(0, j - 1));
        let port_text = listen.substring_char(j, n);
        assert(port_text@ =~= listen@.skip(j as int));
        assert(host@ =~= listen@.take(j - 1));
        let parsed = parse_unsigned(port_text, 65535);
        let port = match parsed {
            Some(v) => v as u16,
            None => 8080,
        };
        proof {
            match parse_unsigned_spec(listen@.skip(j as int), 65535) {
                Some(sv) => {
                    assert(sv <= 65535);
                    assert(port == sv);
                },
                None => {
                    assert(port == 8080);
                },
            }
        }
        (host, port)
    }
}

/// No `c` occurs in `s[m..j]`, so the last `c` before `j` is the last before `m`.
pub proof fn lemma_last_index_skip(s: Seq<char>, c: char, m: int, j: int)
    requires
        0 <= m <= j <= s.len(),
        forall|k: int| m <= k < j ==> s[k] != c,
    ensures
        last_index(s, c, j) == last_index(s, c, m),
    decreases j - m,
{
    if j > m {
        lemma_last_index_skip(s, c, m, j - 1);
    }
}

/// Formatting a host and port as `<host>:<port>` and splitting it again
/// gives back the same host and port.
pub proof fn lemma_listen_roundtrip(host: Seq<char>, port: u16)
    ensures
        listen_parts(host + seq![':'] + decimal(port as nat)) == (host, port as int),
{
    let d = decimal(port as nat);
    let s = host + seq![':'] + d;
    lemma_decimal_digits(port as nat);
    assert forall|k: int| host.len() as int + 1 <= k < s.len() implies s[k] != ':' by {
        assert(s[k] == d[k - host.len() - 1]);
        assert(is_ascii_digit(d[k - host.len() - 1]));
    }
    lemma_last_index_skip(s, ':', host.len() as int + 1, s.len() as int);
    assert(last_index(s, ':', host.len() as int + 1) == host.len());
    assert(s.take(host.len() as int) =~= host);
    assert(s.skip(host.len() as int + 1) =~= d);
    lemma_parse_decimal(port as nat, 65535);
}

/// The passphrase in force: unset and empty both mean none.
pub open spec fn passphrase_of(v: Option<Seq<char>>) -> Option<Seq<char>> {
    match v {
        Some(p) => if p.len() > 0 { Some(p) } else { None },
        None => None,
    }
}

fn passphrase_from(v: &Option<String>) -> (r: Option<String>)
    ensures
        opt_view(r) == passphrase_of(opt_view(*v)),
{
    match v {
        Some(p) => if p.as_str().unicode_len() > 0 {
            Some(p.clone())
        } else {
            None
        },
        None => None,
    }
}

/// The value of a variable, or `default` where it is unset.
pub open spec fn or_default(v: Option<Seq<char>>, default: Seq<char>) -> Seq<char> {
    match v {
        Some(s) => s,
        None => default,
    }
}

fn value_or(v: &Option<String>, default: &str) -> (r: String)
    ensures
        r@ == or_default(opt_view(*v), default@),
{
    match v {
        Some(s) => s.clone(),
        None => String::from_str(default),
    }
}

/// Configuration of the host daemon.
#[derive(Debug, Clone)]
pub struct HostConfig {
    pub listen: String,
    pub bind_host: String,
    pub port: u16,
    pub passphrase: Option<String>,
}

/// The host's default `LISTEN`.
pub open spec fn host_default_listen() -> Seq<char> {
    "0.0.0.0:4000"@
}

impl HostConfig {
    /// Builds the host configuration from the values of `LISTEN` and
    /// `PASSPHRASE` (default listen address `0.0.0.0:4000`).
    pub fn load(env: &EnvVars) -> (r: HostConfig)
        ensures
            r.listen@ == or_default(opt_view(env.listen), host_default_listen()),
            (r.bind_host@, r.port as int) == listen_parts(r.listen@),
            opt_view(r.passphrase) == passphrase_of(opt_view(env.passphrase)),
    {
        let listen = value_or(&env.listen, "0.0.0.0:4000");
        let (bind_host, port) = parse_listen(listen.as_str());
        let passphrase = passphrase_from(&env.passphrase);
        HostConfig { listen, bind_host, port, passphrase }
    }
}

/// The schemes listed in `SCHEME`: the comma-separated pieces, each trimmed,
/// empty ones dropped.
pub open spec fn scheme_list(s: Seq<char>) -> Seq<Seq<char>> {
    trimmed_nonempty(split_seq(s, ','))
}

/// Each piece trimmed, the empty ones left out, order kept.
pub open spec fn trimmed_nonempty(pieces: Seq<Seq<char>>) -> Seq<Seq<char>>
    decreases pieces.len(),
{
    if pieces.len() == 0 {
        Seq::empty()
    } else {
        let r = trimmed_nonempty(pieces.drop_last());
        let t = trimmed(pieces.last());
        if t.len() > 0 {
            r.push(t)
        } else {
            r
        }
    }
}

fn parse_schemes(v: &Option<String>) -> (r: Vec<String>)
    ensures
        views(r@) == scheme_list(or_default(opt_view(*v), Seq::empty())),
{
    let text = value_or(v, "");
    proof {
        reveal_strlit("");
    }
    let pieces = split_on(text.as_str(), ',');
    let mut out: Vec<String> = Vec::new();
    let mut i: usize = 0;
    let ghost ps = views(pieces@);
    assert(ps.take(0) =~= Seq::<Seq<char>>::empty());
    while i < pieces.len()
        invariant
            ps == views(pieces@),
            ps == split_seq(text@, ','),
            i <= pieces.len(),
            views(out@) == trimmed_nonempty(ps.take(i as int)),
        decreases pieces.len() - i,
    {
        let t = trim(pieces[i].as_str());
        assert(ps.take(i + 1).drop_last() =~= ps.take(i as int));
        assert(ps.take(i + 1).last() == pieces@[i as int]@);
        if t.as_str().unicode_len() > 0 {
            let ghost before = views(out@);
            out.push(t);
            assert(views(out@) =~= before.push(t@));
        }
        i = i + 1;
    }
    assert(ps.take(pieces.len() as int) =~= ps);
    out
}

/// Whether `HTTP` keeps http/https handling on: unset, or anything other
/// than `false` once trimmed and compared without ASCII case.
pub open spec fn http_enabled(v: Option<Seq<char>>) -> bool {
    match v {
        Some(s) => !eq_ascii_ci(trimmed(s), "false"@),
        None => true,
    }
}

fn http_flag(v: &Option<String>) -> (r: bool)
    ensures
        r == http_enabled(opt_view(*v)),
{
    match v {
        Some(s) => {
            let t = trim(s.as_str());
            !eq_ignore_ascii_case(t.as_str(), "false")
        },
        None => true,
    }
}

/// Configuration of the client daemon.
#[derive(Debug, Clone)]
pub struct ClientConfig {
    pub listen: String,
    pub client_host: String,
    pub client_port: u16,
    pub host_url: String,
    pub relay_url: String,
    pub passphrase: Option<String>,
    /// Extra URL schemes to register as OS handlers (e.g. `["vcc", "unityhub"]`).
    pub schemes: Vec<String>,
    /// Whether to register http/https as URL handlers.
    pub register_http: bool,
}

/// The client's default `LISTEN`.
pub open spec fn client_default_listen() -> Seq<char> {
    "0.0.0.0:3000"@
}

/// The client's default `HOST_URL`.
pub open spec fn default_host_url() -> Seq<char> {
    "http://localhost:4000"@
}

/// The client's default `RELAY_URL`.
pub open spec fn default_relay_url() -> Seq<char> {
    "http://localhost:3000"@
}

/// A configured URL without its trailing slashes, or the default.
pub open spec fn url_setting(v: Option<Seq<char>>, default: Seq<char>) -> Seq<char> {
    match v {
        Some(u) => strip_trailing(u, '/'),
        None => default,
    }
}

fn url_from(v: &Option<String>, default: &str) -> (r: String)
    ensures
        r@ == url_setting(opt_view(*v), default@),
{
    match v {
        Some(u) => trim_end_char(u.as_str(), '/'),
        None => String::from_str(default),
    }
}

impl ClientConfig {
    /// Builds the client configuration from the values of `LISTEN`,
    /// `HOST_URL`, `RELAY_URL`, `PASSPHRASE`, `SCHEME` and `HTTP`.
    pub fn load(env: &EnvVars) -> (r: ClientConfig)
        ensures
            r.listen@ == or_default(opt_view(env.listen), client_default_listen()),
            (r.client_host@, r.client_port as int) == listen_parts(r.listen@),
            r.host_url@ == url_setting(opt_view(env.host_url), default_host_url()),
            r.relay_url@ == url_setting(opt_view(env.relay_url), default_relay_url()),
            opt_view(r.passphrase) == passphrase_of(opt_view(env.passphrase)),
            views(r.schemes@) == scheme_list(or_default(opt_view(env.scheme), Seq::empty())),
            r.register_http == http_enabled(opt_view(env.http)),
    {
        let listen = value_or(&env.listen, "0.0.0.0:3000");
        let (client_host, client_port) = parse_listen(listen.as_str());
        let host_url = url_from(&env.host_url, "http://localhost:4000");
        let relay_url = url_from(&env.relay_url, "http://localhost:3000");
        let passphrase = passphrase_from(&env.passphrase);
        let schemes = parse_schemes(&env.scheme);
        let register_http = http_flag(&env.http);
        ClientConfig {
            listen,
            client_host,
            client_port,
            host_url,
            relay_url,
            passphrase,
            schemes,
            register_http,
        }
    }
}

/// The port the daemon of `app_type` listens on: the client's for
/// `"client"`, the host's for anything else.
pub open spec fn daemon_port_of(app_type: Seq<char>, env: EnvVars) -> int {
    if app_type == "client"@ {
        listen_parts(or_default(opt_view(env.listen), client_default_listen())).1
    } else {
        listen_parts(or_default(opt_view(env.listen), host_default_listen())).1
    }
}

/// Returns the port that the daemon listens on for the given app type.
pub fn get_daemon_port(app_type: &str, env: &EnvVars) -> (r: u16)
    ensures
        r as int == daemon_port_of(app_type@, *env),
{
    if str_eq(app_type, "client") {
        ClientConfig::load(env).client_port
    } else {
        HostConfig::load(env).port
    }
}

} // verus!
