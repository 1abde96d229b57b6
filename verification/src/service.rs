//! Stopping the daemon of an application and removing what starts it: the
//! launch agent, the systemd unit, the registry entries, and the browser
//! registration of the client.
use vstd::prelude::*;
use vstd::string::*;
use crate::locations::{install_dir_in, install_dir_under, launchagent_plist_in, launchagent_plist_path};
use crate::naming::{
    app_name, app_name_spec, binary_name, binary_name_spec, desktop_file_name, desktop_file_spec,
    intercepts_urls, is_url_interceptor, lemma_names_plain, registry_run_key,
    registry_run_key_spec, service_name, service_name_spec,
};
use crate::paths::{is_plain_segment, join_path, joined, Platform};
use crate::steps::{
    plain_step, push_step, run_step, step, step_if_exists, steps_view, guarded, Action, ActionView,
    CondView, Plan, SetupError, Step, StepView,
};
use crate::text::{
    decimal, owned, parse_unsigned, parse_unsigned_spec, split_on, split_seq, to_decimal, trim,
    trimmed, views,
};
use crate::urls::concat_str;

verus! {

// ---------------------------------------------------------------------------
// Ending other running daemons
// ---------------------------------------------------------------------------

/// The process ids listed one per line in `lines` (surrounding whitespace
/// ignored, unreadable lines skipped), in order, without `own`.
pub open spec fn pids_of_lines(lines: Seq<Seq<char>>, own: u32) -> Seq<int>
    decreases lines.len(),
{
    if lines.len() == 0 {
        Seq::empty()
    } else {
        let rest = pids_of_lines(lines.drop_last(), own);
        match parse_unsigned_spec(trimmed(lines.last()), u32::MAX as int) {
            Some(v) => if v != own {
                rest.push(v)
            } else {
                rest
            },
            None => rest,
        }
    }
}

/// `kill -9 <pid>`
pub open spec fn kill_step(pid: int) -> StepView {
    step(ActionView::Run("kill"@, seq!["-9"@, decimal(pid as nat)]))
}

/// The steps that end the processes listed by `pgrep` in `output`, but for
/// the process `own`.
pub open spec fn kill_steps_spec(output: Seq<char>, own: u32) -> Seq<StepView> {
    pids_of_lines(split_seq(output, '\n'), own).map_values(|pid: int| kill_step(pid))
}

pub proof fn lemma_own_pid_spared(lines: Seq<Seq<char>>, own: u32)
    ensures
        !pids_of_lines(lines, own).contains(own as int),
    decreases lines.len(),
{
    if lines.len() > 0 {
        lemma_own_pid_spared(lines.drop_last(), own);
        let rest = pids_of_lines(lines.drop_last(), own);
        let s = pids_of_lines(lines, own);
        assert forall|i: int| 0 <= i < s.len() implies s[i] != own by {
            if i < rest.len() {
                assert(s[i] == rest[i]);
                if rest[i] == own {
                    assert(rest.contains(own as int));
                }
            }
        }
    }
}

/// Ends, one `kill -9` each, the processes whose ids `pgrep` printed in
/// `pgrep_output`, but for the current process `current_pid`.
pub fn kill_commands(pgrep_output: &str, current_pid: u32) -> (r: Vec<Step>)
    ensures
        steps_view(r@) == kill_steps_spec(pgrep_output@, current_pid),
        !pids_of_lines(split_seq(pgrep_output@, '\n'), current_pid).contains(current_pid as int),
{
    proof {
        lemma_own_pid_spared(split_seq(pgrep_output@, '\n'), current_pid);
    }
    let lines = split_on(pgrep_output, '\n');
    let ghost ls = views(lines@);
    let mut out: Vec<Step> = Vec::new();
    let mut i: usize = 0;
    while i < lines.len()
        invariant
            i <= lines.len(),
            ls == views(lines@),
            steps_view(out@) == pids_of_lines(ls.take(i as int), current_pid).map_values(
                |pid: int| kill_step(pid),
            ),
        decreases lines.len() - i,
    {
        let ghost before = pids_of_lines(ls.take(i as int), current_pid);
        assert(ls.take(i + 1).drop_last() =~= ls.take(i as int));
        assert(ls.take(i + 1).last() == lines@[i as int]@);
        let t = trim(lines[i].as_str());
        match parse_unsigned(t.as_str(), 4294967295u32) {
            Some(pid) => {
                if pid != current_pid {
                    let args = vec![owned("-9"), to_decimal(pid)];
                    assert(views(args@) =~= seq!["-9"@, decimal(pid as nat)]);
                    push_step(&mut out, run_step("kill", args));
                    assert(pids_of_lines(ls.take(i + 1), current_pid) == before.push(pid as int));
                    assert(steps_view(out@) =~= pids_of_lines(ls.take(i + 1), current_pid).map_values(
                        |p: int| kill_step(p),
                    ));
                } else {
                    assert(pids_of_lines(ls.take(i + 1), current_pid) == before);
                }
            },
            None => {
                assert(pids_of_lines(ls.take(i + 1), current_pid) == before);
            },
        }
        i = i + 1;
    }
    assert(ls.take(lines.len() as int) =~= ls);
    out
}

/// `taskkill /F /FI "PID ne <pid>" /IM <binary>.exe`
pub open spec fn taskkill_step(app: Seq<char>, pid: u32) -> StepView {
    step(
        ActionView::Run(
            "taskkill"@,
            seq!["/F"@, "/FI"@, "PID ne "@ + decimal(pid as nat), "/IM"@, binary_name_spec(app) + ".exe"@],
        ),
    )
}

/// Ending every other running daemon of `app`: `taskkill` on Windows, a
/// sweep by executable name on macOS and Linux.
pub open spec fn kill_others_spec(p: Platform, app: Seq<char>, pid: u32) -> Seq<StepView> {
    match p {
        Platform::Windows => seq![taskkill_step(app, pid)],
        Platform::MacOs | Platform::Linux => seq![step(ActionView::KillOthers(binary_name_spec(app)))],
        Platform::Other => Seq::empty(),
    }
}

/// Kill any running instance of this app's daemon binary, other than the
/// current process `current_pid`.
pub fn kill_other_daemon_processes(app_type: &str, p: Platform, current_pid: u32) -> (r: Vec<Step>)
    ensures
        steps_view(r@) == kill_others_spec(p, app_type@, current_pid),
{
    let mut out: Vec<Step> = Vec::new();
    match p {
        Platform::Windows => {
            let filter = concat_str("PID ne ", to_decimal(current_pid).as_str());
            let image = concat_str(binary_name(app_type), ".exe");
            let args = vec![owned("/F"), owned("/FI"), filter, owned("/IM"), image];
            assert(views(args@) =~= seq![
                "/F"@,
                "/FI"@,
                "PID ne "@ + decimal(current_pid as nat),
                "/IM"@,
                binary_name_spec(app_type@) + ".exe"@,
            ]);
            push_step(&mut out, run_step("taskkill", args));
        },
        Platform::MacOs | Platform::Linux => {
            let a = Action::KillOthers { binary: owned(binary_name(app_type)) };
            push_step(&mut out, plain_step(a, false));
        },
        Platform::Other => {},
    }
    assert(steps_view(out@) =~= kill_others_spec(p, app_type@, current_pid));
    out
}

// ---------------------------------------------------------------------------
// Unregistering
// ---------------------------------------------------------------------------

/// The registry key whose values start programs at logon.
pub open spec fn run_key() -> Seq<char> {
    "HKCU\\Software\\Microsoft\\Windows\\CurrentVersion\\Run"@
}

/// `reg` with `args`.
pub open spec fn reg(args: Seq<Seq<char>>) -> StepView {
    step(ActionView::Run("reg"@, args))
}

/// `systemctl` with `args`.
pub open spec fn systemctl(args: Seq<Seq<char>>) -> StepView {
    step(ActionView::Run("systemctl"@, args))
}

/// The tool that (de)registers app bundles with Launch Services.
pub open spec fn lsregister() -> Seq<char> {
    "/System/Library/Frameworks/CoreServices.framework/Versions/A/Frameworks/LaunchServices.framework/Versions/A/Support/lsregister"@
}

pub open spec fn start_menu_key(app: Seq<char>) -> Seq<char> {
    "HKCU\\Software\\Clients\\StartMenuInternet\\"@ + app_name_spec(app)
}

pub open spec fn classes_key(name: Seq<char>) -> Seq<char> {
    "HKCU\\Software\\Classes\\"@ + name
}

pub open spec fn registered_apps_key() -> Seq<char> {
    "HKCU\\Software\\RegisteredApplications"@
}

/// Removing the browser registration of `app` (Windows).
pub open spec fn browser_cleanup(app: Seq<char>) -> Seq<StepView> {
    seq![
        reg(seq!["delete"@, start_menu_key(app), "/f"@]),
        reg(seq!["delete"@, classes_key(app_name_spec(app)), "/f"@]),
        reg(seq!["delete"@, registered_apps_key(), "/v"@, app_name_spec(app), "/f"@]),
    ]
}

/// `~/.local/share/applications`
pub open spec fn applications_in(home: Seq<char>) -> Seq<char> {
    let p = Platform::Linux;
    joined(p, joined(p, joined(p, home, ".local"@), "share"@), "applications"@)
}

/// `~/.config/systemd/user`
pub open spec fn systemd_user_in(home: Seq<char>) -> Seq<char> {
    let p = Platform::Linux;
    joined(p, joined(p, joined(p, home, ".config"@), "systemd"@), "user"@)
}

/// Removing the file `path` where it exists, passing over a failure.
pub open spec fn remove_if_exists(path: Seq<char>) -> StepView {
    guarded(step(ActionView::RemoveFile(path)), seq![CondView::Exists(path)])
}

/// What stopping and unregistering `app` does, as steps and outcome:
/// every other running daemon of it is ended; then, on Windows, its logon
/// entry is deleted (and the client's browser registration);
/// on macOS its launch agent is unloaded and removed and its installed
/// bundle unregistered from Launch Services; on Linux its systemd unit is
/// stopped, disabled and removed, and its desktop entry removed.
/// `HOME` is needed on macOS and Linux.
pub open spec fn stop_spec(p: Platform, app: Seq<char>, home: Option<Seq<char>>, pid: u32) -> (
    Seq<StepView>,
    Result<(), SetupError>,
) {
    let kill = kill_others_spec(p, app, pid);
    match p {
        Platform::Windows => {
            let base = kill.push(reg(seq!["delete"@, run_key(), "/v"@, registry_run_key_spec(app), "/f"@]));
            if intercepts_urls(app) {
                (base + browser_cleanup(app), Ok(()))
            } else {
                (base, Ok(()))
            }
        },
        Platform::MacOs => match home {
            None => (kill, Err(SetupError::MissingHome)),
            Some(h) => {
                let plist = launchagent_plist_in(h, app);
                let bundle = install_dir_under(Platform::MacOs, h, app);
                (
                    kill + seq![
                        step(ActionView::Run("launchctl"@, seq!["unload"@, plist])),
                        remove_if_exists(plist),
                        guarded(
                            step(ActionView::Run(lsregister(), seq!["-u"@, bundle])),
                            seq![CondView::Exists(bundle)],
                        ),
                    ],
                    Ok(()),
                )
            },
        },
        Platform::Linux => {
            let svc = service_name_spec(app);
            let first = kill + seq![
                systemctl(seq!["--user"@, "stop"@, svc]),
                systemctl(seq!["--user"@, "disable"@, svc]),
            ];
            match home {
                None => (first, Err(SetupError::MissingHome)),
                Some(h) => {
                    let apps = applications_in(h);
                    (
                        first + seq![
                            remove_if_exists(joined(Platform::Linux, systemd_user_in(h), svc)),
                            systemctl(seq!["--user"@, "daemon-reload"@]),
                            remove_if_exists(joined(Platform::Linux, apps, desktop_file_spec(app))),
                            step(ActionView::Run("update-desktop-database"@, seq![apps])),
                        ],
                        Ok(()),
                    )
                },
            }
        },
        Platform::Other => (kill, Ok(())),
    }
}

pub fn applications_dir(home: &str) -> (r: String)
    ensures
        r@ == applications_in(home@),
{
    proof {
        reveal_strlit(".local");
        reveal_strlit("share");
        reveal_strlit("applications");
    }
    let p = Platform::Linux;
    let d1 = join_path(p, home, ".local");
    let d2 = join_path(p, d1.as_str(), "share");
    join_path(p, d2.as_str(), "applications")
}

pub fn systemd_user_dir(home: &str) -> (r: String)
    ensures
        r@ == systemd_user_in(home@),
{
    proof {
        reveal_strlit(".config");
        reveal_strlit("systemd");
        reveal_strlit("user");
    }
    let p = Platform::Linux;
    let d1 = join_path(p, home, ".config");
    let d2 = join_path(p, d1.as_str(), "systemd");
    join_path(p, d2.as_str(), "user")
}

fn remove_step(path: &str) -> (r: Step)
    ensures
        r@ == remove_if_exists(path@),
{
    step_if_exists(Action::RemoveFile { path: owned(path) }, path, false)
}

fn reg_step(args: Vec<String>) -> (r: Step)
    ensures
        r@ == reg(views(args@)),
{
    run_step("reg", args)
}

fn systemctl_step(args: Vec<String>) -> (r: Step)
    ensures
        r@ == systemctl(views(args@)),
{
    run_step("systemctl", args)
}

fn browser_cleanup_steps(app_type: &str, out: &mut Vec<Step>)
    ensures
        steps_view(final(out)@) == steps_view(old(out)@) + browser_cleanup(app_type@),
{
    let name = app_name(app_type);
    let a1 = vec![
        owned("delete"),
        concat_str("HKCU\\Software\\Clients\\StartMenuInternet\\", name),
        owned("/f"),
    ];
    assert(views(a1@) =~= seq!["delete"@, start_menu_key(app_type@), "/f"@]);
    push_step(out, reg_step(a1));
    let a2 = vec![owned("delete"), concat_str("HKCU\\Software\\Classes\\", name), owned("/f")];
    assert(views(a2@) =~= seq!["delete"@, classes_key(app_name_spec(app_type@)), "/f"@]);
    push_step(out, reg_step(a2));
    let a3 = vec![
        owned("delete"),
        owned("HKCU\\Software\\RegisteredApplications"),
        owned("/v"),
        owned(name),
        owned("/f"),
    ];
    assert(views(a3@) =~= seq![
        "delete"@,
        registered_apps_key(),
        "/v"@,
        app_name_spec(app_type@),
        "/f"@,
    ]);
    push_step(out, reg_step(a3));
    assert(steps_view(out@) =~= steps_view(old(out)@) + browser_cleanup(app_type@));
}

/// Stops the daemon of `app_type` and removes what starts it on `p`, given
/// `HOME` and the id of the current process.
pub fn stop_and_unregister(app_type: &str, p: Platform, home: &Option<String>, current_pid: u32) -> (r: Plan)
    requires
        is_plain_segment(app_type@),
    ensures
        (steps_view(r.steps@), r.outcome) == stop_spec(
            p,
            app_type@,
            crate::config::opt_view(*home),
            current_pid,
        ),
{
    proof {
        lemma_names_plain(app_type@);
    }
    let mut steps = kill_other_daemon_processes(app_type, p, current_pid);
    let ghost kill = steps_view(steps@);
    match p {
        Platform::Windows => {
            let args = vec![
                owned("delete"),
                owned("HKCU\\Software\\Microsoft\\Windows\\CurrentVersion\\Run"),
                owned("/v"),
                owned(registry_run_key(app_type)),
                owned("/f"),
            ];
            assert(views(args@) =~= seq![
                "delete"@,
                run_key(),
                "/v"@,
                registry_run_key_spec(app_type@),
                "/f"@,
            ]);
            push_step(&mut steps, reg_step(args));
            if is_url_interceptor(app_type) {
                browser_cleanup_steps(app_type, &mut steps);
            }
            Plan { steps, outcome: Ok(()) }
        },
        Platform::MacOs => {
            let plist = match launchagent_plist_path(app_type, home) {
                Some(x) => x,
                None => {
                    return Plan { steps, outcome: Err(SetupError::MissingHome) };
                },
            };
            let h = match home {
                Some(h) => h,
                None => {
                    return Plan { steps, outcome: Err(SetupError::MissingHome) };
                },
            };
            let bundle = install_dir_in(Platform::MacOs, h.as_str(), app_type);
            let a1 = vec![owned("unload"), plist.clone()];
            assert(views(a1@) =~= seq!["unload"@, plist@]);
            push_step(&mut steps, run_step("launchctl", a1));
            push_step(&mut steps, remove_step(plist.as_str()));
            let a2 = vec![owned("-u"), bundle.clone()];
            assert(views(a2@) =~= seq!["-u"@, bundle@]);
            let unregister = Action::Run {
                program: owned(
                    "/System/Library/Frameworks/CoreServices.framework/Versions/A/Frameworks/LaunchServices.framework/Versions/A/Support/lsregister",
                ),
                args: a2,
            };
            push_step(&mut steps, step_if_exists(unregister, bundle.as_str(), false));
            let ghost hv = h@;
            assert(steps_view(steps@) =~= stop_spec(p, app_type@, Some(hv), current_pid).0);
            Plan { steps, outcome: Ok(()) }
        },
        Platform::Linux => {
            let svc = service_name(app_type);
            let a1 = vec![owned("--user"), owned("stop"), svc.clone()];
            assert(views(a1@) =~= seq!["--user"@, "stop"@, svc@]);
            push_step(&mut steps, systemctl_step(a1));
            let a2 = vec![owned("--user"), owned("disable"), svc.clone()];
            assert(views(a2@) =~= seq!["--user"@, "disable"@, svc@]);
            push_step(&mut steps, systemctl_step(a2));
            let h = match home {
                Some(h) => h,
                None => {
                    assert(steps_view(steps@) =~= stop_spec(p, app_type@, None, current_pid).0);
                    return Plan { steps, outcome: Err(SetupError::MissingHome) };
                },
            };
            let unit_dir = systemd_user_dir(h.as_str());
            let unit = join_path(Platform::Linux, unit_dir.as_str(), svc.as_str());
            push_step(&mut steps, remove_step(unit.as_str()));
            let a3 = vec![owned("--user"), owned("daemon-reload")];
            assert(views(a3@) =~= seq!["--user"@, "daemon-reload"@]);
            push_step(&mut steps, systemctl_step(a3));
            let apps = applications_dir(h.as_str());
            let desktop = join_path(Platform::Linux, apps.as_str(), desktop_file_name(app_type).as_str());
            push_step(&mut steps, remove_step(desktop.as_str()));
            let a4 = vec![apps.clone()];
            assert(views(a4@) =~= seq![apps@]);
            push_step(&mut steps, run_step("update-desktop-database", a4));
            let ghost hv = h@;
            assert(steps_view(steps@) =~= stop_spec(p, app_type@, Some(hv), current_pid).0);
            Plan { steps, outcome: Ok(()) }
        },
        Platform::Other => Plan { steps, outcome: Ok(()) },
    }
}

} // verus!
