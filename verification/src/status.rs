//! Whether an application is installed and running, where its executable
//! and configuration are, and the status text printed for it.
use vstd::prelude::*;
use vstd::string::*;
use crate::config::{ClientConfig, HostConfig};
use crate::locations::{installed_exe_path, installed_exe_spec, launchagent_plist_in, launchagent_plist_path};
use crate::naming::{
    lemma_names_plain, registry_run_key, registry_run_key_spec, service_name,
    service_name_spec,
};
use crate::paths::{
    config_dir_spec, get_config_path, is_plain_segment, join_path, joined, or_empty, DirVars,
    Platform,
};
use crate::scheme_handler::{join_seq, join_strings};
use crate::service::{run_key, systemd_user_dir, systemd_user_in};
use crate::templates::append_str;
use crate::text::{owned, strip_trailing, trim_end_char, views};

verus! {

/// How to tell whether an application is installed.
#[derive(Debug, Clone, PartialEq, Eq)]
pub enum InstallProbe {
    /// Installed where `program` with `args` exits successfully.
    RunSucceeds { program: String, args: Vec<String> },
    /// Installed where `path` exists.
    FileExists { path: String },
    /// Never installed (no installation exists on this platform).
    Never,
}

pub enum ProbeView {
    RunSucceeds(Seq<char>, Seq<Seq<char>>),
    FileExists(Seq<char>),
    Never,
}

impl View for InstallProbe {
    type V = ProbeView;

    open spec fn view(&self) -> ProbeView {
        match self {
            InstallProbe::RunSucceeds { program, args } => ProbeView::RunSucceeds(program@, views(args@)),
            InstallProbe::FileExists { path } => ProbeView::FileExists(path@),
            InstallProbe::Never => ProbeView::Never,
        }
    }
}

/// An application counts as installed where its logon entry exists
/// (Windows), its launch agent exists (macOS), or its systemd unit exists
/// (Linux); an unset `HOME` counts as empty.
pub open spec fn probe_spec(p: Platform, v: DirVars, app: Seq<char>) -> ProbeView {
    match p {
        Platform::Windows => ProbeView::RunSucceeds(
            "reg"@,
            seq!["query"@, run_key(), "/v"@, registry_run_key_spec(app)],
        ),
        Platform::MacOs => ProbeView::FileExists(launchagent_plist_in(or_empty(v.home), app)),
        Platform::Linux => ProbeView::FileExists(
            joined(p, systemd_user_in(or_empty(v.home)), service_name_spec(app)),
        ),
        Platform::Other => ProbeView::Never,
    }
}

/// How to tell whether `app_type` is installed on `p`.
pub fn installation_probe(app_type: &str, p: Platform, v: &DirVars) -> (r: InstallProbe)
    requires
        is_plain_segment(app_type@),
    ensures
        r@ == probe_spec(p, *v, app_type@),
{
    proof {
        lemma_names_plain(app_type@);
    }
    let home = match &v.home {
        Some(h) => h.clone(),
        None => String::new(),
    };
    match p {
        Platform::Windows => {
            let args = vec![
                owned("query"),
                owned("HKCU\\Software\\Microsoft\\Windows\\CurrentVersion\\Run"),
                owned("/v"),
                owned(registry_run_key(app_type)),
            ];
            assert(views(args@) =~= seq!["query"@, run_key(), "/v"@, registry_run_key_spec(app_type@)]);
            InstallProbe::RunSucceeds { program: owned("reg"), args }
        },
        Platform::MacOs => {
            let path = match launchagent_plist_path(app_type, &Some(home)) {
                Some(x) => x,
                None => String::new(),
            };
            InstallProbe::FileExists { path }
        },
        Platform::Linux => {
            let dir = systemd_user_dir(home.as_str());
            let path = join_path(p, dir.as_str(), service_name(app_type).as_str());
            InstallProbe::FileExists { path }
        },
        Platform::Other => InstallProbe::Never,
    }
}

/// Installation and running state of an application, with the paths of its
/// executable and of its configuration file.
#[derive(Debug, Clone, PartialEq, Eq)]
pub struct StatusReport {
    pub is_installed: bool,
    pub is_running: bool,
    pub exe_path: String,
    pub config_path: String,
}

/// The status of `app_type` on `p`, given whether its installation probe
/// succeeded, whether its daemon port accepts connections, and where its
/// `inactive.env` template was found: the executable is where installation
/// puts it; the configuration is the installed one where installed, else
/// the template.
pub fn check_status(
    app_type: &str,
    p: Platform,
    v: &DirVars,
    is_installed: bool,
    is_running: bool,
    inactive_env: &str,
) -> (r: StatusReport)
    requires
        is_plain_segment(app_type@),
    ensures
        r.is_installed == is_installed,
        r.is_running == is_running,
        r.exe_path@ == installed_exe_spec(p, *v, app_type@),
        r.config_path@ == if is_installed {
            joined(p, config_dir_spec(p, *v, app_type@), ".env"@)
        } else {
            inactive_env@
        },
{
    let exe_path = installed_exe_path(app_type, p, v);
    let config_path = if is_installed {
        get_config_path(app_type, p, v)
    } else {
        owned(inactive_env)
    };
    StatusReport { is_installed, is_running, exe_path, config_path }
}

// ---------------------------------------------------------------------------
// Status text
// ---------------------------------------------------------------------------

pub open spec fn yes_no(b: bool) -> Seq<char> {
    if b {
        "Yes"@
    } else {
        "No"@
    }
}

fn yes_no_text(b: bool) -> (r: &'static str)
    ensures
        r@ == yes_no(b),
{
    if b {
        "Yes"
    } else {
        "No"
    }
}

/// The authentication line: on where a passphrase is set.
pub open spec fn auth_text(enabled: bool) -> Seq<char> {
    if enabled {
        "Enabled"@
    } else {
        "DISABLED  *** Set PASSPHRASE if exposing to the internet ***"@
    }
}

fn auth_status(enabled: bool) -> (r: &'static str)
    ensures
        r@ == auth_text(enabled),
{
    if enabled {
        "Enabled"
    } else {
        "DISABLED  *** Set PASSPHRASE if exposing to the internet ***"
    }
}

/// The executable's line shows its path once installed; the
/// configuration file's line is always shown.
pub open spec fn path_lines(s: StatusReport) -> Seq<char> {
    "\n- Executable: "@ + exe_display(s) + "\n- Config:     "@ + s.config_path@
}

/// The executable's path once installed, else a note.
pub open spec fn exe_display(s: StatusReport) -> Seq<char> {
    if s.is_installed {
        s.exe_path@
    } else {
        "(Will be set upon installation)"@
    }
}

fn push_path_lines(out: &mut String, s: &StatusReport)
    ensures
        final(out)@ == old(out)@ + path_lines(*s),
{
    append_str(out, "\n- Executable: ");
    if s.is_installed {
        append_str(out, s.exe_path.as_str());
    } else {
        append_str(out, "(Will be set upon installation)");
    }
    append_str(out, "\n- Config:     ");
    append_str(out, s.config_path.as_str());
}

/// The extra URL schemes, separated by `, `, or `(none)`.
pub open spec fn schemes_text(schemes: Seq<Seq<char>>) -> Seq<char> {
    if schemes.len() == 0 {
        "(none)"@
    } else {
        join_seq(schemes, ", "@)
    }
}

pub fn schemes_display(schemes: &Vec<String>) -> (r: String)
    ensures
        r@ == schemes_text(views(schemes@)),
{
    if schemes.len() == 0 {
        owned("(none)")
    } else {
        join_strings(schemes, ", ")
    }
}

/// Whether http and https are registered.
pub open spec fn http_text(register_http: bool) -> Seq<char> {
    if register_http {
        "Registered"@
    } else {
        "Not registered"@
    }
}

pub fn http_display(register_http: bool) -> (r: &'static str)
    ensures
        r@ == http_text(register_http),
{
    if register_http {
        "Registered"
    } else {
        "Not registered"
    }
}

/// The client's lines on the URL schemes it handles.
pub open spec fn scheme_lines(c: ClientConfig) -> Seq<char> {
    "\n- Custom Schemes: "@ + schemes_text(views(c.schemes@)) + "\n- HTTP/HTTPS:     "@ + http_text(
        c.register_http,
    )
}

/// How to install and uninstall, for `app` (`client` or `host`) on `p`.
pub open spec fn usage_text(p: Platform, app: Seq<char>, app_bundle: Seq<char>) -> Seq<char> {
    match p {
        Platform::Windows => "\n\n[Usage]\n- To install / start "@ + app
            + ":\n  Double-click the executable to open GUI Control Panel\n\n- To uninstall / clean registrations:\n  Open GUI Control Panel and click Uninstall"@,
        Platform::MacOs => "\n\n[Usage]\n- To install / start "@ + app + ":\n  Double-click the "@
            + app_bundle
            + ".app bundle to open GUI Control Panel\n\n- To uninstall / clean registrations:\n  Open GUI Control Panel and click Uninstall"@,
        _ => "\n\n[Usage]\n- To install / start "@ + app
            + ":\n  Double-click the executable to open GUI Control Panel (GUI Desktop)\n  Or run ./install.sh in the release folder (CLI/Headless)\n\n- To uninstall / clean registrations:\n  Open GUI Control Panel and click Uninstall (GUI)\n  Or run ./uninstall.sh in the release folder (CLI/Headless)"@,
    }
}

fn push_usage(out: &mut String, p: Platform, app: &str, app_bundle: &str)
    ensures
        final(out)@ == old(out)@ + usage_text(p, app@, app_bundle@),
{
    match p {
        Platform::Windows => {
            append_str(out, "\n\n[Usage]\n- To install / start ");
            append_str(out, app);
            append_str(
                out,
                ":\n  Double-click the executable to open GUI Control Panel\n\n- To uninstall / clean registrations:\n  Open GUI Control Panel and click Uninstall",
            );
        },
        Platform::MacOs => {
            append_str(out, "\n\n[Usage]\n- To install / start ");
            append_str(out, app);
            append_str(out, ":\n  Double-click the ");
            append_str(out, app_bundle);
            append_str(
                out,
                ".app bundle to open GUI Control Panel\n\n- To uninstall / clean registrations:\n  Open GUI Control Panel and click Uninstall",
            );
        },
        _ => {
            append_str(out, "\n\n[Usage]\n- To install / start ");
            append_str(out, app);
            append_str(
                out,
                ":\n  Double-click the executable to open GUI Control Panel (GUI Desktop)\n  Or run ./install.sh in the release folder (CLI/Headless)\n\n- To uninstall / clean registrations:\n  Open GUI Control Panel and click Uninstall (GUI)\n  Or run ./uninstall.sh in the release folder (CLI/Headless)",
            );
        },
    }
}

/// The client's status text.
pub open spec fn client_status_text(p: Platform, s: StatusReport, c: ClientConfig) -> Seq<char> {
    "Open Remote URL - Client Status\n\n[Status]\n- Installed:  "@ + yes_no(s.is_installed)
        + "\n- Running:    "@ + yes_no(s.is_running)
        + "\n- Listen:     http://"@ + c.listen@
        + "/\n- RELAY:      "@ + strip_trailing(c.relay_url@, '/')
        + "/\n- HOST:       "@ + strip_trailing(c.host_url@, '/')
        + "/\n- Auth:       "@ + auth_text(c.passphrase is Some)
        + path_lines(s)
        + scheme_lines(c)
        + usage_text(p, "client"@, "OpenRemoteURLClient"@)
}

/// The status text that the client prints.
pub fn client_status(p: Platform, s: &StatusReport, c: &ClientConfig) -> (r: String)
    ensures
        r@ == client_status_text(p, *s, *c),
{
    let mut out = owned("Open Remote URL - Client Status\n\n[Status]\n- Installed:  ");
    append_str(&mut out, yes_no_text(s.is_installed));
    append_str(&mut out, "\n- Running:    ");
    append_str(&mut out, yes_no_text(s.is_running));
    append_str(&mut out, "\n- Listen:     http://");
    append_str(&mut out, c.listen.as_str());
    append_str(&mut out, "/\n- RELAY:      ");
    append_str(&mut out, trim_end_char(c.relay_url.as_str(), '/').as_str());
    append_str(&mut out, "/\n- HOST:       ");
    append_str(&mut out, trim_end_char(c.host_url.as_str(), '/').as_str());
    append_str(&mut out, "/\n- Auth:       ");
    append_str(&mut out, auth_status(c.passphrase.is_some()));
    push_path_lines(&mut out, s);
    append_str(&mut out, "\n- Custom Schemes: ");
    append_str(&mut out, schemes_display(&c.schemes).as_str());
    append_str(&mut out, "\n- HTTP/HTTPS:     ");
    append_str(&mut out, http_display(c.register_http));
    push_usage(&mut out, p, "client", "OpenRemoteURLClient");
    out
}

/// The host's status text.
pub open spec fn host_status_text(p: Platform, s: StatusReport, c: HostConfig) -> Seq<char> {
    "Open Remote URL - Host Status\n\n[Status]\n- Installed:  "@ + yes_no(s.is_installed)
        + "\n- Running:    "@ + yes_no(s.is_running)
        + "\n- Listen:     http://"@ + c.listen@
        + "/\n- Auth:       "@ + auth_text(c.passphrase is Some)
        + path_lines(s)
        + usage_text(p, "host"@, "OpenRemoteURLHost"@)
}

/// The status text that the host prints.
pub fn host_status(p: Platform, s: &StatusReport, c: &HostConfig) -> (r: String)
    ensures
        r@ == host_status_text(p, *s, *c),
{
    let mut out = owned("Open Remote URL - Host Status\n\n[Status]\n- Installed:  ");
    append_str(&mut out, yes_no_text(s.is_installed));
    append_str(&mut out, "\n- Running:    ");
    append_str(&mut out, yes_no_text(s.is_running));
    append_str(&mut out, "\n- Listen:     http://");
    append_str(&mut out, c.listen.as_str());
    append_str(&mut out, "/\n- Auth:       ");
    append_str(&mut out, auth_status(c.passphrase.is_some()));
    push_path_lines(&mut out, s);
    push_usage(&mut out, p, "host", "OpenRemoteURLHost");
    out
}

} // verus!
