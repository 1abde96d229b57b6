//! Installing an application: copying the executable into place, writing
//! its configuration, and making the system start its daemon (a logon
//! registry entry, a launch agent, a systemd unit); the client also
//! registers itself as a web browser. Removal is the reverse.
use vstd::prelude::*;
use vstd::string::*;
use crate::config::opt_view;
use crate::locations::{
    app_bundle_of, bundle_dir_name, exe_in, exe_path_in, get_parent_app_dir, install_dir_in,
    install_dir_under, lemma_install_segments_plain, launchagent_plist_in, parent_path, path_eq, path_parent, same_path, template_in,
};
use crate::naming::{
    app_name, app_name_spec, binary_name, binary_name_spec, desktop_file_name, desktop_file_spec,
    intercepts_urls, is_url_interceptor, lemma_names_plain, plist_label, plist_label_spec,
    registry_run_key, registry_run_key_spec, service_name, service_name_spec,
};
use crate::paths::{
    config_dir_spec, get_config_dir, is_plain_segment, join_path, joined, DirVars, Platform,
};
use crate::service::{
    applications_dir, applications_in, classes_key, lsregister, registered_apps_key,
    start_menu_key, systemctl, systemd_user_dir, systemd_user_in,
};
use crate::steps::{
    append_steps, guarded, must, must_step, plain_step, push_step, run_step, step, steps_view,
    Action, ActionView, Cond, CondView, SetupError, Step, StepView,
};
use crate::templates::{
    bundle_plist, bundle_plist_text, desktop_entry, desktop_entry_text, launch_agent_plist,
    launch_agent_text, systemd_unit, systemd_unit_text,
};
use crate::text::{owned, str_eq, views};
use crate::urls::concat_str;

verus! {

/// What the plans need to know of the machine they are for.
#[derive(Debug, Clone)]
pub struct Machine {
    pub platform: Platform,
    pub vars: DirVars,
    /// The path of the running executable; `None` where it cannot be had.
    pub current_exe: Option<String>,
    /// The working directory; `None` where it cannot be had.
    pub cwd: Option<String>,
    /// The id of the running process.
    pub pid: u32,
}

fn guarded_step(a: Action, conds: Vec<Cond>, required: bool) -> (r: Step)
    ensures
        r@ == (StepView { action: a@, when: crate::steps::conds_view(conds@), required }),
{
    Step { action: a, when: conds, required }
}

fn conds1(a: Cond) -> (r: Vec<Cond>)
    ensures
        crate::steps::conds_view(r@) == seq![a@],
{
    let ghost va = a@;
    let r = vec![a];
    assert(crate::steps::conds_view(r@) =~= seq![va]);
    r
}

fn conds2(a: Cond, b: Cond) -> (r: Vec<Cond>)
    ensures
        crate::steps::conds_view(r@) == seq![a@, b@],
{
    let ghost va = a@;
    let ghost vb = b@;
    let r = vec![a, b];
    assert(crate::steps::conds_view(r@) =~= seq![va, vb]);
    r
}

fn conds3(a: Cond, b: Cond, c: Cond) -> (r: Vec<Cond>)
    ensures
        crate::steps::conds_view(r@) == seq![a@, b@, c@],
{
    let ghost va = a@;
    let ghost vb = b@;
    let ghost vc = c@;
    let r = vec![a, b, c];
    assert(crate::steps::conds_view(r@) =~= seq![va, vb, vc]);
    r
}

fn exists_cond(path: &str) -> (r: Cond)
    ensures
        r@ == CondView::Exists(path@),
{
    Cond::Exists(owned(path))
}

fn missing_cond(path: &str) -> (r: Cond)
    ensures
        r@ == CondView::Missing(path@),
{
    Cond::Missing(owned(path))
}

// ---------------------------------------------------------------------------
// The configuration file
// ---------------------------------------------------------------------------

/// The `.env` written where no `inactive.env` template is found: the
/// documented default settings.
pub open spec fn default_env(app: Seq<char>) -> Seq<char> {
    if app == "client"@ {
        "LISTEN=0.0.0.0:3000\nHOST_URL=http://localhost:4000\nRELAY_URL=http://localhost:3000\nPASSPHRASE=\n"@
    } else {
        "LISTEN=0.0.0.0:4000\nPASSPHRASE=\n"@
    }
}

/// The directory of the running executable.
pub open spec fn exe_dir_of(m: Machine) -> Option<Seq<char>> {
    match m.current_exe {
        Some(e) => parent_path(e@),
        None => None,
    }
}

/// Putting the configuration in place at `target`: the template
/// `inactive.env` of the working directory `cwd` is copied there, or else
/// the one next to the executable; where neither exists and `target` does
/// not yet either, `contents` is written.
pub open spec fn env_source_steps(
    p: Platform,
    target: Seq<char>,
    cwd: Seq<char>,
    exe_dir: Option<Seq<char>>,
    contents: Seq<char>,
) -> Seq<StepView> {
    let a = template_in(p, cwd);
    match exe_dir {
        Some(d) => {
            let b = template_in(p, d);
            seq![
                guarded(must(ActionView::CopyFile(a, target)), seq![CondView::Exists(a)]),
                guarded(
                    must(ActionView::CopyFile(b, target)),
                    seq![CondView::Missing(a), CondView::Exists(b)],
                ),
                guarded(
                    must(ActionView::WriteFile(target, contents)),
                    seq![CondView::Missing(a), CondView::Missing(b), CondView::Missing(target)],
                ),
            ]
        },
        None => seq![
            guarded(must(ActionView::CopyFile(a, target)), seq![CondView::Exists(a)]),
            guarded(
                must(ActionView::WriteFile(target, contents)),
                seq![CondView::Missing(a), CondView::Missing(target)],
            ),
        ],
    }
}

/// Copying the configuration of `app` into its configuration directory.
pub open spec fn copy_env_spec(app: Seq<char>, m: Machine) -> (Seq<StepView>, Result<(), SetupError>) {
    let p = m.platform;
    let dir = config_dir_spec(p, m.vars, app);
    let first = seq![must(ActionView::CreateDirAll(dir))];
    match m.cwd {
        None => (first, Err(SetupError::NoWorkingDir)),
        Some(c) => (
            first + env_source_steps(p, joined(p, dir, ".env"@), c@, exe_dir_of(m), default_env(app)),
            Ok(()),
        ),
    }
}

fn default_env_text(app_type: &str) -> (r: &'static str)
    ensures
        r@ == default_env(app_type@),
{
    if str_eq(app_type, "client") {
        "LISTEN=0.0.0.0:3000\nHOST_URL=http://localhost:4000\nRELAY_URL=http://localhost:3000\nPASSPHRASE=\n"
    } else {
        "LISTEN=0.0.0.0:4000\nPASSPHRASE=\n"
    }
}

fn exe_dir(m: &Machine) -> (r: Option<String>)
    ensures
        opt_view(r) == exe_dir_of(*m),
{
    match &m.current_exe {
        Some(e) => path_parent(e.as_str()),
        None => None,
    }
}

fn env_source(p: Platform, target: &str, cwd: &str, exe_dir: &Option<String>, contents: &str) -> (r: Vec<Step>)
    ensures
        steps_view(r@) == env_source_steps(p, target@, cwd@, opt_view(*exe_dir), contents@),
{
    proof {
        reveal_strlit("inactive.env");
    }
    let a = join_path(p, cwd, "inactive.env");
    let mut out: Vec<Step> = Vec::new();
    let copy_a = Action::CopyFile { from: a.clone(), to: owned(target) };
    push_step(&mut out, guarded_step(copy_a, conds1(exists_cond(a.as_str())), true));
    match exe_dir {
        Some(d) => {
            let b = join_path(p, d.as_str(), "inactive.env");
            let copy_b = Action::CopyFile { from: b.clone(), to: owned(target) };
            let c2 = conds2(missing_cond(a.as_str()), exists_cond(b.as_str()));
            push_step(&mut out, guarded_step(copy_b, c2, true));
            let write = Action::WriteFile { path: owned(target), contents: owned(contents) };
            let c3 = conds3(missing_cond(a.as_str()), missing_cond(b.as_str()), missing_cond(target));
            push_step(&mut out, guarded_step(write, c3, true));
        },
        None => {
            let write = Action::WriteFile { path: owned(target), contents: owned(contents) };
            let c2 = conds2(missing_cond(a.as_str()), missing_cond(target));
            push_step(&mut out, guarded_step(write, c2, true));
        },
    }
    assert(steps_view(out@) =~= env_source_steps(p, target@, cwd@, opt_view(*exe_dir), contents@));
    out
}

/// Puts the configuration of `app_type` in place (the `.env` in its
/// configuration directory).
pub fn copy_env_file(app_type: &str, m: &Machine) -> (r: (Vec<Step>, Result<(), SetupError>))
    requires
        is_plain_segment(app_type@),
    ensures
        (steps_view(r.0@), r.1) == copy_env_spec(app_type@, *m),
{
    let p = m.platform;
    let dir = get_config_dir(app_type, p, &m.vars);
    let mut out: Vec<Step> = Vec::new();
    push_step(&mut out, must_step(Action::CreateDirAll { path: dir.clone() }));
    let ghost first = steps_view(out@);
    assert(first =~= seq![must(ActionView::CreateDirAll(dir@))]);
    match &m.cwd {
        None => (out, Err(SetupError::NoWorkingDir)),
        Some(c) => {
            proof {
                reveal_strlit(".env");
            }
            let target = join_path(p, dir.as_str(), ".env");
            let d = exe_dir(m);
            let more = env_source(p, target.as_str(), c.as_str(), &d, default_env_text(app_type));
            append_steps(&mut out, more);
            (out, Ok(()))
        },
    }
}

// ---------------------------------------------------------------------------
// The helper scripts (Linux)
// ---------------------------------------------------------------------------

/// Copying the helper script `file` into `target_dir` and making it
/// executable: from the executable's directory, else from the working
/// directory, else from `scripts/<kind>/` under it.
pub open spec fn script_copy_steps(
    p: Platform,
    target_dir: Seq<char>,
    exe_dir: Seq<char>,
    cwd: Seq<char>,
    file: Seq<char>,
    kind: Seq<char>,
) -> Seq<StepView> {
    let a = joined(p, exe_dir, file);
    let b = joined(p, cwd, file);
    let c = joined(p, joined(p, joined(p, cwd, "scripts"@), kind), file);
    let dest = joined(p, target_dir, file);
    let ca = seq![CondView::Exists(a)];
    let cb = seq![CondView::Missing(a), CondView::Exists(b)];
    let cc = seq![CondView::Missing(a), CondView::Missing(b), CondView::Exists(c)];
    seq![
        guarded(step(ActionView::CopyFile(a, dest)), ca),
        guarded(step(ActionView::MakeExecutable(dest)), ca),
        guarded(step(ActionView::CopyFile(b, dest)), cb),
        guarded(step(ActionView::MakeExecutable(dest)), cb),
        guarded(step(ActionView::CopyFile(c, dest)), cc),
        guarded(step(ActionView::MakeExecutable(dest)), cc),
    ]
}

/// The directory the helper scripts are first looked for in: that of the
/// executable, or `.`.
pub open spec fn script_source_dir(exe: Seq<char>) -> Seq<char> {
    match parent_path(exe) {
        Some(d) => d,
        None => "."@,
    }
}

/// Copying `uninstall.sh` and `config.sh` into `target_dir` (Linux only;
/// nothing where the executable or the working directory cannot be had).
pub open spec fn script_steps(target_dir: Seq<char>, m: Machine) -> Seq<StepView> {
    let p = m.platform;
    if p == Platform::Linux {
        match (m.current_exe, m.cwd) {
            (Some(e), Some(c)) => {
                let d = script_source_dir(e@);
                script_copy_steps(p, target_dir, d, c@, "uninstall.sh"@, "uninstall"@)
                    + script_copy_steps(p, target_dir, d, c@, "config.sh"@, "config"@)
            },
            _ => Seq::empty(),
        }
    } else {
        Seq::empty()
    }
}

fn script_copy(p: Platform, target_dir: &str, exe_dir: &str, cwd: &str, file: &str, kind: &str) -> (r: Vec<Step>)
    requires
        file@ == "uninstall.sh"@ || file@ == "config.sh"@,
        kind@ == "uninstall"@ || kind@ == "config"@,
    ensures
        steps_view(r@) == script_copy_steps(p, target_dir@, exe_dir@, cwd@, file@, kind@),
{
    proof {
        reveal_strlit("uninstall.sh");
        reveal_strlit("config.sh");
        reveal_strlit("uninstall");
        reveal_strlit("config");
        reveal_strlit("scripts");
    }
    let a = join_path(p, exe_dir, file);
    let b = join_path(p, cwd, file);
    let s1 = join_path(p, cwd, "scripts");
    let s2 = join_path(p, s1.as_str(), kind);
    let c = join_path(p, s2.as_str(), file);
    let dest = join_path(p, target_dir, file);
    let mut out: Vec<Step> = Vec::new();
    let ca1 = conds1(exists_cond(a.as_str()));
    let ca2 = conds1(exists_cond(a.as_str()));
    push_step(&mut out, guarded_step(Action::CopyFile { from: a.clone(), to: dest.clone() }, ca1, false));
    push_step(&mut out, guarded_step(Action::MakeExecutable { path: dest.clone() }, ca2, false));
    let cb1 = conds2(missing_cond(a.as_str()), exists_cond(b.as_str()));
    let cb2 = conds2(missing_cond(a.as_str()), exists_cond(b.as_str()));
    push_step(&mut out, guarded_step(Action::CopyFile { from: b.clone(), to: dest.clone() }, cb1, false));
    push_step(&mut out, guarded_step(Action::MakeExecutable { path: dest.clone() }, cb2, false));
    let cc1 = conds3(missing_cond(a.as_str()), missing_cond(b.as_str()), exists_cond(c.as_str()));
    let cc2 = conds3(missing_cond(a.as_str()), missing_cond(b.as_str()), exists_cond(c.as_str()));
    push_step(&mut out, guarded_step(Action::CopyFile { from: c.clone(), to: dest.clone() }, cc1, false));
    push_step(&mut out, guarded_step(Action::MakeExecutable { path: dest.clone() }, cc2, false));
    assert(steps_view(out@) =~= script_copy_steps(p, target_dir@, exe_dir@, cwd@, file@, kind@));
    out
}

/// Copies the helper scripts into `target_dir`.
pub fn copy_script_files(target_dir: &str, m: &Machine) -> (r: Vec<Step>)
    ensures
        steps_view(r@) == script_steps(target_dir@, *m),
{
    if m.platform != Platform::Linux {
        return Vec::new();
    }
    match (&m.current_exe, &m.cwd) {
        (Some(e), Some(c)) => {
            let d = match path_parent(e.as_str()) {
                Some(d) => d,
                None => owned("."),
            };
            let mut out = script_copy(m.platform, target_dir, d.as_str(), c.as_str(), "uninstall.sh", "uninstall");
            let more = script_copy(m.platform, target_dir, d.as_str(), c.as_str(), "config.sh", "config");
            append_steps(&mut out, more);
            out
        },
        _ => Vec::new(),
    }
}

// ---------------------------------------------------------------------------
// Windows
// ---------------------------------------------------------------------------

/// `reg add <key> /t REG_SZ /d <data> /f`, with `/v <name>` where the value
/// is a named one; its failure to start ends the plan.
pub open spec fn reg_value(key: Seq<char>, name: Option<Seq<char>>, data: Seq<char>) -> StepView {
    let base = seq!["add"@, key, "/t"@, "REG_SZ"@, "/d"@, data, "/f"@];
    match name {
        Some(n) => must(ActionView::Run("reg"@, base + seq!["/v"@, n])),
        None => must(ActionView::Run("reg"@, base)),
    }
}

/// `"<exe>" --daemon` under the logon key; an unsuccessful `reg` ends the plan.
pub open spec fn startup_step(app: Seq<char>, exe: Seq<char>) -> StepView {
    must(
        ActionView::RunChecked(
            "reg"@,
            seq![
                "add"@,
                crate::service::run_key(),
                "/v"@,
                registry_run_key_spec(app),
                "/t"@,
                "REG_SZ"@,
                "/d"@,
                "\""@ + exe + "\" --daemon"@,
                "/f"@,
            ],
            "Failed to register startup in Windows registry"@,
        ),
    )
}

/// The registry values that make `exe` a web browser under the name of `app`.
pub open spec fn browser_values(app: Seq<char>, exe: Seq<char>) -> Seq<StepView> {
    let prog = app_name_spec(app);
    let smi = start_menu_key(app);
    let caps = smi + "\\Capabilities"@;
    let assoc = caps + "\\URLAssociations"@;
    seq![
        reg_value(smi, None, "\""@ + exe + "\""@),
        reg_value(caps, Some("ApplicationName"@), "Open Remote URL Client"@),
        reg_value(caps, Some("ApplicationDescription"@), "Redirect URLs to remote Host"@),
        reg_value(assoc, Some("http"@), prog),
        reg_value(assoc, Some("https"@), prog),
        reg_value(classes_key(prog), None, "Open Remote URL Client HTML Document"@),
        reg_value(classes_key(prog) + "\\shell\\open\\command"@, None, "\""@ + exe + "\" \"%1\""@),
        reg_value(
            registered_apps_key(),
            Some(prog),
            "Software\\Clients\\StartMenuInternet\\"@ + prog + "\\Capabilities"@,
        ),
    ]
}

fn reg_value_step(key: &str, name: Option<&str>, data: &str) -> (r: Step)
    ensures
        r@ == reg_value(key@, match name {
            Some(n) => Some(n@),
            None => None,
        }, data@),
{
    let mut args = vec![
        owned("add"),
        owned(key),
        owned("/t"),
        owned("REG_SZ"),
        owned("/d"),
        owned(data),
        owned("/f"),
    ];
    let ghost base = seq!["add"@, key@, "/t"@, "REG_SZ"@, "/d"@, data@, "/f"@];
    assert(views(args@) =~= base);
    match name {
        Some(n) => {
            crate::steps::push_arg(&mut args, "/v");
            crate::steps::push_arg(&mut args, n);
            assert(views(args@) =~= base + seq!["/v"@, n@]);
        },
        None => {},
    }
    must_step(Action::Run { program: owned("reg"), args })
}

fn quoted(s: &str) -> (r: String)
    ensures
        r@ == "\""@ + s@ + "\""@,
{
    let a = concat_str("\"", s);
    concat_str(a.as_str(), "\"")
}

fn startup(app_type: &str, exe: &str) -> (r: Step)
    ensures
        r@ == startup_step(app_type@, exe@),
{
    let a = concat_str("\"", exe);
    let cmd = concat_str(a.as_str(), "\" --daemon");
    let args = vec![
        owned("add"),
        owned("HKCU\\Software\\Microsoft\\Windows\\CurrentVersion\\Run"),
        owned("/v"),
        owned(registry_run_key(app_type)),
        owned("/t"),
        owned("REG_SZ"),
        owned("/d"),
        cmd,
        owned("/f"),
    ];
    assert(views(args@) =~= seq![
        "add"@,
        crate::service::run_key(),
        "/v"@,
        registry_run_key_spec(app_type@),
        "/t"@,
        "REG_SZ"@,
        "/d"@,
        "\""@ + exe@ + "\" --daemon"@,
        "/f"@,
    ]);
    must_step(
        Action::RunChecked {
            program: owned("reg"),
            args,
            error: owned("Failed to register startup in Windows registry"),
        },
    )
}

/// Registers `exe` as a web browser on Windows.
pub fn setup_windows_browser(app_type: &str, exe: &str) -> (r: Vec<Step>)
    ensures
        steps_view(r@) == browser_values(app_type@, exe@),
{
    let prog = app_name(app_type);
    let smi = concat_str("HKCU\\Software\\Clients\\StartMenuInternet\\", prog);
    let caps = concat_str(smi.as_str(), "\\Capabilities");
    let assoc = concat_str(caps.as_str(), "\\URLAssociations");
    let classes = concat_str("HKCU\\Software\\Classes\\", prog);
    let command_key = concat_str(classes.as_str(), "\\shell\\open\\command");
    let q = quoted(exe);
    let with_arg = concat_str(q.as_str(), " \"%1\"");
    let caps_path = concat_str("Software\\Clients\\StartMenuInternet\\", prog);
    let caps_path = concat_str(caps_path.as_str(), "\\Capabilities");
    let mut out: Vec<Step> = Vec::new();
    push_step(&mut out, reg_value_step(smi.as_str(), None, q.as_str()));
    push_step(&mut out, reg_value_step(caps.as_str(), Some("ApplicationName"), "Open Remote URL Client"));
    push_step(
        &mut out,
        reg_value_step(caps.as_str(), Some("ApplicationDescription"), "Redirect URLs to remote Host"),
    );
    push_step(&mut out, reg_value_step(assoc.as_str(), Some("http"), prog));
    push_step(&mut out, reg_value_step(assoc.as_str(), Some("https"), prog));
    push_step(&mut out, reg_value_step(classes.as_str(), None, "Open Remote URL Client HTML Document"));
    push_step(&mut out, reg_value_step(command_key.as_str(), None, with_arg.as_str()));
    push_step(
        &mut out,
        reg_value_step("HKCU\\Software\\RegisteredApplications", Some(prog), caps_path.as_str()),
    );
    assert(q@ + " \"%1\""@ =~= "\""@ + exe@ + "\" \"%1\""@) by {
        reveal_strlit("\"");
        reveal_strlit(" \"%1\"");
        reveal_strlit("\" \"%1\"");
    }
    assert(steps_view(out@) =~= browser_values(app_type@, exe@));
    out
}

// ---------------------------------------------------------------------------
// macOS
// ---------------------------------------------------------------------------

/// Putting the app bundle of `app` in place under `apps_dir`: a copy of the
/// bundle that `exe` runs from, replacing an older one; or, for a bare
/// executable, a bundle built around a copy of it with a minimal
/// `Info.plist`. The executable is made executable, and the client's
/// `Info.plist` declares it a web browser.
pub open spec fn bundle_spec(app: Seq<char>, apps_dir: Seq<char>, exe: Seq<char>) -> Seq<StepView> {
    let p = Platform::MacOs;
    let app_dir = joined(p, apps_dir, bundle_dir_name(app));
    let target = exe_in(p, app_dir, app);
    let contents = joined(p, app_dir, "Contents"@);
    let info = joined(p, contents, "Info.plist"@);
    let id = plist_label_spec(app);
    let name = app_name_spec(app);
    let bin = binary_name_spec(app);
    let placed = match app_bundle_of(exe) {
        Some(src) => seq![
            guarded(must(ActionView::RemoveDirAll(contents)), seq![CondView::Exists(contents)]),
            must(ActionView::CopyDirAll(src, app_dir)),
        ],
        None => {
            let copied = if same_path(exe, target) {
                Seq::empty()
            } else {
                seq![must(ActionView::CopyFile(exe, target))]
            };
            seq![must(ActionView::CreateDirAll(joined(p, contents, "MacOS"@)))] + copied + seq![
                must(ActionView::WriteFile(info, bundle_plist(id, name, bin, false))),
            ]
        },
    };
    let browser = if intercepts_urls(app) {
        seq![must(ActionView::WriteFile(info, bundle_plist(id, name, bin, true)))]
    } else {
        Seq::empty()
    };
    placed + seq![guarded(must(ActionView::MakeExecutable(target)), seq![CondView::Exists(target)])]
        + browser
}

/// Builds the app bundle of `app_type` under `apps_dir` from the running
/// executable `exe`.
pub fn setup_macos_app_bundle(app_type: &str, apps_dir: &str, exe: &str) -> (r: Vec<Step>)
    requires
        is_plain_segment(app_type@),
    ensures
        steps_view(r@) == bundle_spec(app_type@, apps_dir@, exe@),
{
    proof {
        lemma_install_segments_plain(app_type@);
        reveal_strlit("Contents");
        reveal_strlit("Info.plist");
        reveal_strlit("MacOS");
    }
    let p = Platform::MacOs;
    let bundle = concat_str(app_name(app_type), ".app");
    let app_dir = join_path(p, apps_dir, bundle.as_str());
    let target = exe_path_in(p, app_dir.as_str(), app_type);
    let contents = join_path(p, app_dir.as_str(), "Contents");
    let info = join_path(p, contents.as_str(), "Info.plist");
    let id = plist_label(app_type);
    let name = app_name(app_type);
    let bin = binary_name(app_type);
    let mut out: Vec<Step> = Vec::new();
    match get_parent_app_dir(exe) {
        Some(src) => {
            let c = conds1(exists_cond(contents.as_str()));
            push_step(&mut out, guarded_step(Action::RemoveDirAll { path: contents.clone() }, c, true));
            push_step(&mut out, must_step(Action::CopyDirAll { from: src, to: app_dir.clone() }));
        },
        None => {
            let macos = join_path(p, contents.as_str(), "MacOS");
            push_step(&mut out, must_step(Action::CreateDirAll { path: macos }));
            if !path_eq(exe, target.as_str()) {
                push_step(&mut out, must_step(Action::CopyFile { from: owned(exe), to: target.clone() }));
            }
            let text = bundle_plist_text(id.as_str(), name, bin, false);
            push_step(&mut out, must_step(Action::WriteFile { path: info.clone(), contents: text }));
        },
    }
    let c = conds1(exists_cond(target.as_str()));
    push_step(&mut out, guarded_step(Action::MakeExecutable { path: target.clone() }, c, true));
    if is_url_interceptor(app_type) {
        let text = bundle_plist_text(id.as_str(), name, bin, true);
        push_step(&mut out, must_step(Action::WriteFile { path: info.clone(), contents: text }));
    }
    assert(steps_view(out@) =~= bundle_spec(app_type@, apps_dir@, exe@));
    out
}

/// Writing and loading the launch agent that runs `exe --daemon` of `app`
/// in `work_dir`, under the home directory `home`.
pub open spec fn launch_agent_spec(app: Seq<char>, exe: Seq<char>, work_dir: Seq<char>, home: Seq<char>) -> Seq<StepView> {
    let p = Platform::MacOs;
    let dir = joined(p, joined(p, home, "Library"@), "LaunchAgents"@);
    let label = plist_label_spec(app);
    let path = launchagent_plist_in(home, app);
    seq![
        must(ActionView::CreateDirAll(dir)),
        must(ActionView::WriteFile(path, launch_agent_plist(label, exe, work_dir))),
        step(ActionView::Run("launchctl"@, seq!["unload"@, path])),
        step(ActionView::Run("launchctl"@, seq!["load"@, path])),
        step(ActionView::Run("launchctl"@, seq!["start"@, label])),
    ]
}

pub fn setup_macos_launchagent(app_type: &str, exe: &str, work_dir: &str, home: &str) -> (r: Vec<Step>)
    requires
        is_plain_segment(app_type@),
    ensures
        steps_view(r@) == launch_agent_spec(app_type@, exe@, work_dir@, home@),
{
    proof {
        reveal_strlit("Library");
        reveal_strlit("LaunchAgents");
        reveal_strlit(".plist");
        lemma_names_plain(app_type@);
        crate::naming::lemma_plain_concat(plist_label_spec(app_type@), ".plist"@);
    }
    let p = Platform::MacOs;
    let d1 = join_path(p, home, "Library");
    let dir = join_path(p, d1.as_str(), "LaunchAgents");
    let label = plist_label(app_type);
    let file = concat_str(label.as_str(), ".plist");
    let path = join_path(p, dir.as_str(), file.as_str());
    let mut out: Vec<Step> = Vec::new();
    push_step(&mut out, must_step(Action::CreateDirAll { path: dir }));
    let text = launch_agent_text(label.as_str(), exe, work_dir);
    push_step(&mut out, must_step(Action::WriteFile { path: path.clone(), contents: text }));
    let a1 = vec![owned("unload"), path.clone()];
    assert(views(a1@) =~= seq!["unload"@, path@]);
    push_step(&mut out, run_step("launchctl", a1));
    let a2 = vec![owned("load"), path.clone()];
    assert(views(a2@) =~= seq!["load"@, path@]);
    push_step(&mut out, run_step("launchctl", a2));
    let a3 = vec![owned("start"), label.clone()];
    assert(views(a3@) =~= seq!["start"@, label@]);
    push_step(&mut out, run_step("launchctl", a3));
    assert(steps_view(out@) =~= launch_agent_spec(app_type@, exe@, work_dir@, home@));
    out
}

// ---------------------------------------------------------------------------
// Linux
// ---------------------------------------------------------------------------

/// Writing, enabling and (re)starting the systemd user unit that runs
/// `exe --daemon` of `app` in `work_dir`.
pub open spec fn systemd_spec(app: Seq<char>, exe: Seq<char>, work_dir: Seq<char>, home: Seq<char>) -> Seq<StepView> {
    let dir = systemd_user_in(home);
    let svc = service_name_spec(app);
    seq![
        must(ActionView::CreateDirAll(dir)),
        must(ActionView::WriteFile(joined(Platform::Linux, dir, svc), systemd_unit(app, exe, work_dir))),
        systemctl(seq!["--user"@, "daemon-reload"@]),
        systemctl(seq!["--user"@, "enable"@, svc]),
        systemctl(seq!["--user"@, "restart"@, svc]),
    ]
}

pub fn setup_linux_systemd(app_type: &str, exe: &str, work_dir: &str, home: &str) -> (r: Vec<Step>)
    requires
        is_plain_segment(app_type@),
    ensures
        steps_view(r@) == systemd_spec(app_type@, exe@, work_dir@, home@),
{
    proof {
        lemma_names_plain(app_type@);
    }
    let dir = systemd_user_dir(home);
    let svc = service_name(app_type);
    let path = join_path(Platform::Linux, dir.as_str(), svc.as_str());
    let mut out: Vec<Step> = Vec::new();
    push_step(&mut out, must_step(Action::CreateDirAll { path: dir.clone() }));
    let text = systemd_unit_text(app_type, exe, work_dir);
    push_step(&mut out, must_step(Action::WriteFile { path, contents: text }));
    let a1 = vec![owned("--user"), owned("daemon-reload")];
    assert(views(a1@) =~= seq!["--user"@, "daemon-reload"@]);
    push_step(&mut out, run_step("systemctl", a1));
    let a2 = vec![owned("--user"), owned("enable"), svc.clone()];
    assert(views(a2@) =~= seq!["--user"@, "enable"@, svc@]);
    push_step(&mut out, run_step("systemctl", a2));
    let a3 = vec![owned("--user"), owned("restart"), svc.clone()];
    assert(views(a3@) =~= seq!["--user"@, "restart"@, svc@]);
    push_step(&mut out, run_step("systemctl", a3));
    assert(steps_view(out@) =~= systemd_spec(app_type@, exe@, work_dir@, home@));
    out
}

/// Writing the desktop entry that makes `exe` the handler of http and https
/// URLs, and making it the default for both.
pub open spec fn linux_browser_spec(app: Seq<char>, exe: Seq<char>, home: Seq<char>) -> Seq<StepView> {
    let apps = applications_in(home);
    let file = desktop_file_spec(app);
    seq![
        must(ActionView::CreateDirAll(apps)),
        must(
            ActionView::WriteFile(
                joined(Platform::Linux, apps, file),
                desktop_entry(exe, "x-scheme-handler/http;x-scheme-handler/https;"@),
            ),
        ),
        step(ActionView::Run("update-desktop-database"@, seq![apps])),
        step(ActionView::Run("xdg-mime"@, seq!["default"@, file, "x-scheme-handler/http"@])),
        step(ActionView::Run("xdg-mime"@, seq!["default"@, file, "x-scheme-handler/https"@])),
    ]
}

pub fn setup_linux_browser(app_type: &str, exe: &str, home: &str) -> (r: Vec<Step>)
    requires
        is_plain_segment(app_type@),
    ensures
        steps_view(r@) == linux_browser_spec(app_type@, exe@, home@),
{
    proof {
        lemma_names_plain(app_type@);
    }
    let apps = applications_dir(home);
    let file = desktop_file_name(app_type);
    let path = join_path(Platform::Linux, apps.as_str(), file.as_str());
    let mut out: Vec<Step> = Vec::new();
    push_step(&mut out, must_step(Action::CreateDirAll { path: apps.clone() }));
    let text = desktop_entry_text(exe, "x-scheme-handler/http;x-scheme-handler/https;");
    push_step(&mut out, must_step(Action::WriteFile { path, contents: text }));
    let a1 = vec![apps.clone()];
    assert(views(a1@) =~= seq![apps@]);
    push_step(&mut out, run_step("update-desktop-database", a1));
    let a2 = vec![owned("default"), file.clone(), owned("x-scheme-handler/http")];
    assert(views(a2@) =~= seq!["default"@, file@, "x-scheme-handler/http"@]);
    push_step(&mut out, run_step("xdg-mime", a2));
    let a3 = vec![owned("default"), file.clone(), owned("x-scheme-handler/https")];
    assert(views(a3@) =~= seq!["default"@, file@, "x-scheme-handler/https"@]);
    push_step(&mut out, run_step("xdg-mime", a3));
    assert(steps_view(out@) =~= linux_browser_spec(app_type@, exe@, home@));
    out
}

// ---------------------------------------------------------------------------
// Installing
// ---------------------------------------------------------------------------

/// Copying the running executable `exe` to `target`, unless it is that file.
pub open spec fn copy_exe(exe: Seq<char>, target: Seq<char>) -> Seq<StepView> {
    if same_path(exe, target) {
        Seq::empty()
    } else {
        seq![must(ActionView::CopyFile(exe, target))]
    }
}

fn copy_exe_steps(exe: &str, target: &str) -> (r: Vec<Step>)
    ensures
        steps_view(r@) == copy_exe(exe@, target@),
{
    let mut out: Vec<Step> = Vec::new();
    if !path_eq(exe, target) {
        push_step(&mut out, must_step(Action::CopyFile { from: owned(exe), to: owned(target) }));
    }
    assert(steps_view(out@) =~= copy_exe(exe@, target@));
    out
}

pub open spec fn windows_browser_piece(app: Seq<char>, exe: Seq<char>) -> Seq<StepView> {
    if intercepts_urls(app) {
        browser_values(app, exe)
    } else {
        Seq::empty()
    }
}

pub open spec fn linux_browser_piece(app: Seq<char>, exe: Seq<char>, home: Seq<char>) -> Seq<StepView> {
    if intercepts_urls(app) {
        linux_browser_spec(app, exe, home)
    } else {
        Seq::empty()
    }
}

/// Installing on Windows, after `stop`: the executable is copied to
/// `%LOCALAPPDATA%\Programs\open-remote-url\<app>`, the configuration put
/// in place, the logon entry written (and the client registered as a
/// browser), and the daemon started.
pub open spec fn windows_install_spec(app: Seq<char>, m: Machine, stop: Seq<StepView>, exe: Seq<char>) -> (
    Seq<StepView>,
    Result<(), SetupError>,
) {
    let p = Platform::Windows;
    let env = copy_env_spec(app, m);
    match m.vars.local_appdata {
        None => (stop, Err(SetupError::MissingLocalAppData)),
        Some(l) => {
            let dir = install_dir_under(p, l@, app);
            let target = exe_in(p, dir, app);
            let head = stop.push(must(ActionView::CreateDirAll(dir))) + env.0;
            match env.1 {
                Err(err) => (head, Err(err)),
                Ok(_) => (
                    ((head + copy_exe(exe, target)).push(startup_step(app, target))
                        + windows_browser_piece(app, target)).push(
                        must(ActionView::Spawn(target, seq!["--daemon"@])),
                    ),
                    Ok(()),
                ),
            }
        },
    }
}

/// Installing on macOS, after `stop`: the app bundle is built in
/// `~/Applications` (an earlier bundle's `Contents` replaced, so that the
/// configuration kept in the bundle stays), the configuration put in
/// place in it, the bundle registered with Launch Services, and the
/// launch agent written and loaded.
pub open spec fn macos_install_spec(app: Seq<char>, m: Machine, stop: Seq<StepView>, exe: Seq<char>) -> (
    Seq<StepView>,
    Result<(), SetupError>,
) {
    let p = Platform::MacOs;
    let env = copy_env_spec(app, m);
    match m.vars.home {
        None => (stop, Err(SetupError::MissingHome)),
        Some(hs) => {
            let h = hs@;
            let apps = joined(p, h, "Applications"@);
            let app_dir = install_dir_under(p, h, app);
            let head = stop.push(must(ActionView::CreateDirAll(apps))) + bundle_spec(app, apps, exe) + env.0;
            match env.1 {
                Err(err) => (head, Err(err)),
                Ok(_) => (
                    head.push(step(ActionView::Run(lsregister(), seq!["-f"@, app_dir]))) + launch_agent_spec(
                        app,
                        exe_in(p, app_dir, app),
                        app_dir,
                        h,
                    ),
                    Ok(()),
                ),
            }
        },
    }
}

/// Installing on Linux, after `stop`: the executable is copied to
/// `~/.local/bin/open-remote-url/<app>`, the configuration put in place,
/// the systemd unit written and started (and the client registered as a
/// browser), and the helper scripts copied.
pub open spec fn linux_install_spec(app: Seq<char>, m: Machine, stop: Seq<StepView>, exe: Seq<char>) -> (
    Seq<StepView>,
    Result<(), SetupError>,
) {
    let p = Platform::Linux;
    let env = copy_env_spec(app, m);
    match m.vars.home {
        None => (stop, Err(SetupError::MissingHome)),
        Some(hs) => {
            let h = hs@;
            let dir = install_dir_under(p, h, app);
            let target = exe_in(p, dir, app);
            let head = stop.push(must(ActionView::CreateDirAll(dir))) + env.0;
            match env.1 {
                Err(err) => (head, Err(err)),
                Ok(_) => (
                    head + copy_exe(exe, target) + systemd_spec(app, target, dir, h)
                        + linux_browser_piece(app, target, h) + script_steps(dir, m),
                    Ok(()),
                ),
            }
        },
    }
}

/// What installing `app` on the machine `m` does, as steps and outcome:
/// first the daemon is stopped and unregistered as `stop_and_unregister`
/// does (its outcome is passed over), then the platform's installation.
pub open spec fn install_spec(app: Seq<char>, m: Machine) -> (Seq<StepView>, Result<(), SetupError>) {
    let stop = crate::service::stop_spec(m.platform, app, opt_view(m.vars.home), m.pid).0;
    match m.current_exe {
        None => (stop, Err(SetupError::NoExecutablePath)),
        Some(e) => match m.platform {
            Platform::Windows => windows_install_spec(app, m, stop, e@),
            Platform::MacOs => macos_install_spec(app, m, stop, e@),
            Platform::Linux => linux_install_spec(app, m, stop, e@),
            Platform::Other => (stop, Ok(())),
        },
    }
}

fn install_on_windows(app_type: &str, m: &Machine, steps: Vec<Step>, exe: &str) -> (r: crate::steps::Plan)
    requires
        is_plain_segment(app_type@),
        m.platform == Platform::Windows,
    ensures
        crate::steps::plan_view(r) == windows_install_spec(app_type@, *m, steps_view(steps@), exe@),
{
    let p = Platform::Windows;
    let mut steps = steps;
    let l = match &m.vars.local_appdata {
        Some(l) => l,
        None => {
            return crate::steps::Plan { steps, outcome: Err(SetupError::MissingLocalAppData) };
        },
    };
    let dir = install_dir_in(p, l.as_str(), app_type);
    let target = exe_path_in(p, dir.as_str(), app_type);
    push_step(&mut steps, must_step(Action::CreateDirAll { path: dir.clone() }));
    let (env_steps, env_outcome) = copy_env_file(app_type, m);
    append_steps(&mut steps, env_steps);
    if env_outcome.is_err() {
        return crate::steps::Plan { steps, outcome: env_outcome };
    }
    append_steps(&mut steps, copy_exe_steps(exe, target.as_str()));
    push_step(&mut steps, startup(app_type, target.as_str()));
    let browser = if is_url_interceptor(app_type) {
        setup_windows_browser(app_type, target.as_str())
    } else {
        Vec::new()
    };
    assert(steps_view(browser@) =~= windows_browser_piece(app_type@, target@));
    append_steps(&mut steps, browser);
    let args = vec![owned("--daemon")];
    assert(views(args@) =~= seq!["--daemon"@]);
    push_step(&mut steps, must_step(Action::Spawn { program: target.clone(), args }));
    crate::steps::Plan { steps, outcome: Ok(()) }
}

fn install_on_macos(app_type: &str, m: &Machine, steps: Vec<Step>, exe: &str) -> (r: crate::steps::Plan)
    requires
        is_plain_segment(app_type@),
        m.platform == Platform::MacOs,
    ensures
        crate::steps::plan_view(r) == macos_install_spec(app_type@, *m, steps_view(steps@), exe@),
{
    proof {
        reveal_strlit("Applications");
    }
    let p = Platform::MacOs;
    let mut steps = steps;
    let h = match &m.vars.home {
        Some(h) => h,
        None => {
            return crate::steps::Plan { steps, outcome: Err(SetupError::MissingHome) };
        },
    };
    let apps = join_path(p, h.as_str(), "Applications");
    let app_dir = install_dir_in(p, h.as_str(), app_type);
    push_step(&mut steps, must_step(Action::CreateDirAll { path: apps.clone() }));
    append_steps(&mut steps, setup_macos_app_bundle(app_type, apps.as_str(), exe));
    let (env_steps, env_outcome) = copy_env_file(app_type, m);
    append_steps(&mut steps, env_steps);
    if env_outcome.is_err() {
        return crate::steps::Plan { steps, outcome: env_outcome };
    }
    let a = vec![owned("-f"), app_dir.clone()];
    assert(views(a@) =~= seq!["-f"@, app_dir@]);
    let register = Action::Run {
        program: owned(
            "/System/Library/Frameworks/CoreServices.framework/Versions/A/Frameworks/LaunchServices.framework/Versions/A/Support/lsregister",
        ),
        args: a,
    };
    push_step(&mut steps, plain_step(register, false));
    let target = exe_path_in(p, app_dir.as_str(), app_type);
    append_steps(
        &mut steps,
        setup_macos_launchagent(app_type, target.as_str(), app_dir.as_str(), h.as_str()),
    );
    crate::steps::Plan { steps, outcome: Ok(()) }
}

fn install_on_linux(app_type: &str, m: &Machine, steps: Vec<Step>, exe: &str) -> (r: crate::steps::Plan)
    requires
        is_plain_segment(app_type@),
        m.platform == Platform::Linux,
    ensures
        crate::steps::plan_view(r) == linux_install_spec(app_type@, *m, steps_view(steps@), exe@),
{
    let p = Platform::Linux;
    let mut steps = steps;
    let h = match &m.vars.home {
        Some(h) => h,
        None => {
            return crate::steps::Plan { steps, outcome: Err(SetupError::MissingHome) };
        },
    };
    let dir = install_dir_in(p, h.as_str(), app_type);
    let target = exe_path_in(p, dir.as_str(), app_type);
    push_step(&mut steps, must_step(Action::CreateDirAll { path: dir.clone() }));
    let (env_steps, env_outcome) = copy_env_file(app_type, m);
    append_steps(&mut steps, env_steps);
    if env_outcome.is_err() {
        return crate::steps::Plan { steps, outcome: env_outcome };
    }
    append_steps(&mut steps, copy_exe_steps(exe, target.as_str()));
    append_steps(&mut steps, setup_linux_systemd(app_type, target.as_str(), dir.as_str(), h.as_str()));
    let browser = if is_url_interceptor(app_type) {
        setup_linux_browser(app_type, target.as_str(), h.as_str())
    } else {
        Vec::new()
    };
    assert(steps_view(browser@) =~= linux_browser_piece(app_type@, target@, h@));
    append_steps(&mut steps, browser);
    append_steps(&mut steps, copy_script_files(dir.as_str(), m));
    crate::steps::Plan { steps, outcome: Ok(()) }
}

/// Installs `app_type` on the machine `m`: the steps to carry out and the
/// outcome to report.
pub fn install(app_type: &str, m: &Machine) -> (r: crate::steps::Plan)
    requires
        is_plain_segment(app_type@),
    ensures
        crate::steps::plan_view(r) == install_spec(app_type@, *m),
{
    let stop = crate::service::stop_and_unregister(app_type, m.platform, &m.vars.home, m.pid);
    let steps = stop.steps;
    let exe = match &m.current_exe {
        Some(e) => e,
        None => {
            return crate::steps::Plan { steps, outcome: Err(SetupError::NoExecutablePath) };
        },
    };
    match m.platform {
        Platform::Windows => install_on_windows(app_type, m, steps, exe.as_str()),
        Platform::MacOs => install_on_macos(app_type, m, steps, exe.as_str()),
        Platform::Linux => install_on_linux(app_type, m, steps, exe.as_str()),
        Platform::Other => crate::steps::Plan { steps, outcome: Ok(()) },
    }
}

} // verus!
