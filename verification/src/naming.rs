//! The names under which an application (`client`, `host`, or their
//! `sender` / `receiver` spellings) is installed: its executable, its app
//! bundle, its launch agent, its systemd unit and its registry entries.
use vstd::prelude::*;
use vstd::string::*;
use crate::paths::is_plain_segment;
use crate::text::str_eq;
use crate::urls::concat_str;

verus! {

/// The application that intercepts URLs and registers itself as a browser.
pub open spec fn intercepts_urls(app: Seq<char>) -> bool {
    app == "client"@ || app == "sender"@
}

pub fn is_url_interceptor(app_type: &str) -> (r: bool)
    ensures
        r == intercepts_urls(app_type@),
{
    str_eq(app_type, "client") || str_eq(app_type, "sender")
}

/// The file name of the executable of `app`.
pub open spec fn binary_name_spec(app: Seq<char>) -> Seq<char> {
    if app == "client"@ {
        "open-remote-url-client"@
    } else if app == "host"@ {
        "open-remote-url-host"@
    } else if app == "sender"@ {
        "open-remote-url-sender"@
    } else {
        "open-remote-url-receiver"@
    }
}

pub fn binary_name(app_type: &str) -> (r: &'static str)
    ensures
        r@ == binary_name_spec(app_type@),
{
    if str_eq(app_type, "client") {
        "open-remote-url-client"
    } else if str_eq(app_type, "host") {
        "open-remote-url-host"
    } else if str_eq(app_type, "sender") {
        "open-remote-url-sender"
    } else {
        "open-remote-url-receiver"
    }
}

/// The name of the macOS app bundle of `app` (without `.app`).
pub open spec fn app_name_spec(app: Seq<char>) -> Seq<char> {
    if app == "client"@ {
        "OpenRemoteURLClient"@
    } else if app == "host"@ {
        "OpenRemoteURLHost"@
    } else if app == "sender"@ {
        "OpenRemoteURLSender"@
    } else {
        "OpenRemoteURLReceiver"@
    }
}

pub fn app_name(app_type: &str) -> (r: &'static str)
    ensures
        r@ == app_name_spec(app_type@),
{
    if str_eq(app_type, "client") {
        "OpenRemoteURLClient"
    } else if str_eq(app_type, "host") {
        "OpenRemoteURLHost"
    } else if str_eq(app_type, "sender") {
        "OpenRemoteURLSender"
    } else {
        "OpenRemoteURLReceiver"
    }
}

/// The value name under `HKCU\...\Run` that starts the daemon of `app` at logon.
pub open spec fn registry_run_key_spec(app: Seq<char>) -> Seq<char> {
    if app == "client"@ {
        "OpenRemoteURLClientDaemon"@
    } else if app == "host"@ {
        "OpenRemoteURLHostDaemon"@
    } else if app == "sender"@ {
        "OpenRemoteURLSenderDaemon"@
    } else {
        "OpenRemoteURLReceiverDaemon"@
    }
}

pub fn registry_run_key(app_type: &str) -> (r: &'static str)
    ensures
        r@ == registry_run_key_spec(app_type@),
{
    if str_eq(app_type, "client") {
        "OpenRemoteURLClientDaemon"
    } else if str_eq(app_type, "host") {
        "OpenRemoteURLHostDaemon"
    } else if str_eq(app_type, "sender") {
        "OpenRemoteURLSenderDaemon"
    } else {
        "OpenRemoteURLReceiverDaemon"
    }
}

/// The launch agent label (and bundle identifier) of `app`.
pub open spec fn plist_label_spec(app: Seq<char>) -> Seq<char> {
    "quest.nae.open-remote-url."@ + app
}

pub fn plist_label(app_type: &str) -> (r: String)
    ensures
        r@ == plist_label_spec(app_type@),
{
    concat_str("quest.nae.open-remote-url.", app_type)
}

/// The systemd user unit of `app`.
pub open spec fn service_name_spec(app: Seq<char>) -> Seq<char> {
    "open-remote-url-"@ + app + ".service"@
}

pub fn service_name(app_type: &str) -> (r: String)
    ensures
        r@ == service_name_spec(app_type@),
{
    let s = concat_str("open-remote-url-", app_type);
    concat_str(s.as_str(), ".service")
}

/// The desktop entry that `uninstall` removes for `app`.
pub open spec fn desktop_file_spec(app: Seq<char>) -> Seq<char> {
    "open-remote-url-"@ + app + ".desktop"@
}

pub fn desktop_file_name(app_type: &str) -> (r: String)
    ensures
        r@ == desktop_file_spec(app_type@),
{
    let s = concat_str("open-remote-url-", app_type);
    concat_str(s.as_str(), ".desktop")
}

/// The desktop entry through which the client handles URLs.
pub open spec fn client_desktop_file() -> Seq<char> {
    "open-remote-url-client.desktop"@
}

// ---------------------------------------------------------------------------
// These names are single path segments.
// ---------------------------------------------------------------------------

pub proof fn lemma_plain_concat(a: Seq<char>, b: Seq<char>)
    requires
        is_plain_segment(a),
        is_plain_segment(b),
    ensures
        is_plain_segment(a + b),
{
    assert forall|i: int| 0 <= i < (a + b).len() implies #[trigger] (a + b)[i] != '/' && (a
        + b)[i] != '\\' && (a + b)[i] != ':' by {
        if i < a.len() {
            assert((a + b)[i] == a[i]);
        } else {
            assert((a + b)[i] == b[i - a.len()]);
        }
    }
}

pub proof fn lemma_names_plain(app: Seq<char>)
    requires
        is_plain_segment(app),
    ensures
        is_plain_segment(binary_name_spec(app)),
        is_plain_segment(app_name_spec(app)),
        is_plain_segment(plist_label_spec(app)),
        is_plain_segment(service_name_spec(app)),
        is_plain_segment(desktop_file_spec(app)),
        is_plain_segment(client_desktop_file()),
{
    reveal_strlit("open-remote-url-client");
    reveal_strlit("open-remote-url-host");
    reveal_strlit("open-remote-url-sender");
    reveal_strlit("open-remote-url-receiver");
    reveal_strlit("OpenRemoteURLClient");
    reveal_strlit("OpenRemoteURLHost");
    reveal_strlit("OpenRemoteURLSender");
    reveal_strlit("OpenRemoteURLReceiver");
    reveal_strlit("quest.nae.open-remote-url.");
    reveal_strlit("open-remote-url-");
    reveal_strlit(".service");
    reveal_strlit(".desktop");
    reveal_strlit("open-remote-url-client.desktop");
    lemma_plain_concat("quest.nae.open-remote-url."@, app);
    lemma_plain_concat("open-remote-url-"@, app);
    lemma_plain_concat("open-remote-url-"@ + app, ".service"@);
    lemma_plain_concat("open-remote-url-"@ + app, ".desktop"@);
}

} // verus!
