//! What installation and uninstallation do to each other: installing first
//! stops and unregisters what an earlier installation left, and
//! uninstalling removes every file that installing writes.
use vstd::prelude::*;
use crate::config::opt_view;
use crate::install::{
    browser_values, bundle_spec, copy_env_spec, copy_exe, install_spec, launch_agent_spec,
    linux_browser_piece, linux_install_spec, macos_install_spec, script_copy_steps,
    script_steps, systemd_spec, windows_browser_piece, windows_install_spec, Machine,
};
use crate::locations::{bundle_dir_name, exe_in, install_dir_under, launchagent_plist_in};
use crate::naming::{app_name_spec, binary_name_spec, intercepts_urls, desktop_file_spec, registry_run_key_spec, service_name_spec};
use crate::paths::{config_dir_spec, joined, separator, Platform};
use crate::removal::{remove_binary_spec, remove_config_spec, remove_scripts_spec, uninstall_spec};
use crate::service::{
    applications_in, browser_cleanup, classes_key, kill_others_spec, registered_apps_key, start_menu_key,
    stop_spec, systemd_user_in,
};
use crate::steps::{
    ActionView,
    lemma_removes_left, lemma_removes_right, removal_covers, removes, written_path, writes, StepView,
};

verus! {

/// Every path that a step of `s` writes is in `allowed`.
pub open spec fn writes_within(s: Seq<StepView>, allowed: Set<Seq<char>>) -> bool {
    forall|i: int|
        0 <= i < s.len() ==> match written_path(#[trigger] s[i].action) {
            Some(p) => allowed.contains(p),
            None => true,
        }
}

proof fn lemma_within_concat(a: Seq<StepView>, b: Seq<StepView>, x: Set<Seq<char>>, y: Set<Seq<char>>)
    requires
        writes_within(a, x),
        writes_within(b, y),
    ensures
        writes_within(a + b, x.union(y)),
{
    assert forall|i: int| 0 <= i < (a + b).len() implies match written_path(#[trigger] (a + b)[i].action) {
        Some(p) => x.union(y).contains(p),
        None => true,
    } by {
        if i < a.len() {
            assert((a + b)[i] == a[i]);
        } else {
            assert((a + b)[i] == b[i - a.len()]);
        }
    }
}

proof fn lemma_within_push(a: Seq<StepView>, s: StepView, x: Set<Seq<char>>)
    requires
        writes_within(a, x),
        written_path(s.action) is None,
    ensures
        writes_within(a.push(s), x),
{
    assert forall|i: int| 0 <= i < a.push(s).len() implies match written_path(#[trigger] a.push(s)[i].action) {
        Some(p) => x.contains(p),
        None => true,
    } by {
        if i < a.len() {
            assert(a.push(s)[i] == a[i]);
        }
    }
}

proof fn lemma_within_writes(s: Seq<StepView>, x: Set<Seq<char>>, path: Seq<char>)
    requires
        writes_within(s, x),
        writes(s, path),
    ensures
        x.contains(path),
{
    let i = choose|i: int| 0 <= i < s.len() && written_path(#[trigger] s[i].action) == Some(path);
    assert(match written_path(s[i].action) {
        Some(p) => x.contains(p),
        None => true,
    });
}

proof fn lemma_within_grow(s: Seq<StepView>, x: Set<Seq<char>>, y: Set<Seq<char>>)
    requires
        writes_within(s, x),
        x.subset_of(y),
    ensures
        writes_within(s, y),
{
    assert forall|i: int| 0 <= i < s.len() implies match written_path(#[trigger] s[i].action) {
        Some(p) => y.contains(p),
        None => true,
    } by {
        assert(match written_path(s[i].action) {
            Some(p) => x.contains(p),
            None => true,
        });
    }
}

// ---------------------------------------------------------------------------
// What each part of a plan writes
// ---------------------------------------------------------------------------

proof fn lemma_stop_writes_nothing(p: Platform, app: Seq<char>, home: Option<Seq<char>>, pid: u32)
    ensures
        writes_within(stop_spec(p, app, home, pid).0, Set::empty()),
{
    let kill = kill_others_spec(p, app, pid);
    assert(writes_within(kill, Set::empty()));
    let s = stop_spec(p, app, home, pid).0;
    assert forall|i: int| 0 <= i < s.len() implies match written_path(#[trigger] s[i].action) {
        Some(q) => Set::<Seq<char>>::empty().contains(q),
        None => true,
    } by {
        if i < kill.len() {
            assert(s[i] == kill[i]);
        }
    }
}

proof fn lemma_env_writes(app: Seq<char>, m: Machine)
    ensures
        writes_within(
            copy_env_spec(app, m).0,
            set![joined(m.platform, config_dir_spec(m.platform, m.vars, app), ".env"@)],
        ),
{
}

proof fn lemma_copy_exe_writes(exe: Seq<char>, target: Seq<char>)
    ensures
        writes_within(copy_exe(exe, target), set![target]),
{
}

proof fn lemma_systemd_writes(app: Seq<char>, exe: Seq<char>, dir: Seq<char>, home: Seq<char>)
    ensures
        writes_within(
            systemd_spec(app, exe, dir, home),
            set![joined(Platform::Linux, systemd_user_in(home), service_name_spec(app))],
        ),
{
}

proof fn lemma_linux_browser_writes(app: Seq<char>, exe: Seq<char>, home: Seq<char>)
    ensures
        writes_within(
            linux_browser_piece(app, exe, home),
            set![joined(Platform::Linux, applications_in(home), desktop_file_spec(app))],
        ),
{
}

proof fn lemma_scripts_writes(dir: Seq<char>, m: Machine)
    requires
        m.platform == Platform::Linux,
    ensures
        writes_within(
            script_steps(dir, m),
            set![joined(Platform::Linux, dir, "uninstall.sh"@), joined(Platform::Linux, dir, "config.sh"@)],
        ),
{
    let s = script_steps(dir, m);
    let allowed = set![joined(Platform::Linux, dir, "uninstall.sh"@), joined(Platform::Linux, dir, "config.sh"@)];
    match (m.current_exe, m.cwd) {
        (Some(e), Some(c)) => {
            let d = crate::install::script_source_dir(e@);
            let a = script_copy_steps(Platform::Linux, dir, d, c@, "uninstall.sh"@, "uninstall"@);
            let b = script_copy_steps(Platform::Linux, dir, d, c@, "config.sh"@, "config"@);
            assert(writes_within(a, set![joined(Platform::Linux, dir, "uninstall.sh"@)]));
            assert(writes_within(b, set![joined(Platform::Linux, dir, "config.sh"@)]));
            lemma_within_concat(
                a,
                b,
                set![joined(Platform::Linux, dir, "uninstall.sh"@)],
                set![joined(Platform::Linux, dir, "config.sh"@)],
            );
            assert(set![joined(Platform::Linux, dir, "uninstall.sh"@)].union(
                set![joined(Platform::Linux, dir, "config.sh"@)],
            ) =~= allowed);
        },
        _ => {},
    }
}

// ---------------------------------------------------------------------------
// Installing starts by undoing an earlier installation
// ---------------------------------------------------------------------------

proof fn lemma_prefix_concat(a: Seq<StepView>, b: Seq<StepView>, c: Seq<StepView>)
    requires
        a.is_prefix_of(b),
    ensures
        a.is_prefix_of(b + c),
{
    assert forall|i: int| 0 <= i < a.len() implies (b + c)[i] == a[i] by {
        assert((b + c)[i] == b[i]);
    }
    assert((b + c).take(a.len() as int) =~= a);
}

proof fn lemma_prefix_push(a: Seq<StepView>, b: Seq<StepView>, x: StepView)
    requires
        a.is_prefix_of(b),
    ensures
        a.is_prefix_of(b.push(x)),
{
    assert(b.push(x).take(a.len() as int) =~= a);
}

proof fn lemma_prefix_self(a: Seq<StepView>)
    ensures
        a.is_prefix_of(a),
{
    assert(a.take(a.len() as int) =~= a);
}

proof fn lemma_windows_install_prefix(app: Seq<char>, m: Machine, stop: Seq<StepView>, exe: Seq<char>)
    ensures
        stop.is_prefix_of(windows_install_spec(app, m, stop, exe).0),
{
    lemma_prefix_self(stop);
    match m.vars.local_appdata {
        None => {},
        Some(l) => {
            let p = Platform::Windows;
            let dir = install_dir_under(p, l@, app);
            let target = exe_in(p, dir, app);
            let env = copy_env_spec(app, m);
            let c = crate::steps::must(crate::steps::ActionView::CreateDirAll(dir));
            lemma_prefix_push(stop, stop, c);
            let head = stop.push(c) + env.0;
            lemma_prefix_concat(stop, stop.push(c), env.0);
            if env.1 is Ok {
                let h1 = head + copy_exe(exe, target);
                lemma_prefix_concat(stop, head, copy_exe(exe, target));
                let h2 = h1.push(crate::install::startup_step(app, target));
                lemma_prefix_push(stop, h1, crate::install::startup_step(app, target));
                let h3 = h2 + windows_browser_piece(app, target);
                lemma_prefix_concat(stop, h2, windows_browser_piece(app, target));
                lemma_prefix_push(
                    stop,
                    h3,
                    crate::steps::must(crate::steps::ActionView::Spawn(target, seq!["--daemon"@])),
                );
            }
        },
    }
}

proof fn lemma_macos_install_prefix(app: Seq<char>, m: Machine, stop: Seq<StepView>, exe: Seq<char>)
    ensures
        stop.is_prefix_of(macos_install_spec(app, m, stop, exe).0),
{
    lemma_prefix_self(stop);
    match m.vars.home {
        None => {},
        Some(hs) => {
            let p = Platform::MacOs;
            let h = hs@;
            let env = copy_env_spec(app, m);
            let apps = joined(p, h, "Applications"@);
            let app_dir = install_dir_under(p, h, app);
            let c = crate::steps::must(crate::steps::ActionView::CreateDirAll(apps));
            lemma_prefix_push(stop, stop, c);
            let b = bundle_spec(app, apps, exe);
            lemma_prefix_concat(stop, stop.push(c), b);
            lemma_prefix_concat(stop, stop.push(c) + b, env.0);
            let head = stop.push(c) + b + env.0;
            if env.1 is Ok {
                let r = crate::steps::step(
                    crate::steps::ActionView::Run(crate::service::lsregister(), seq!["-f"@, app_dir]),
                );
                lemma_prefix_push(stop, head, r);
                lemma_prefix_concat(stop, head.push(r), launch_agent_spec(app, exe_in(p, app_dir, app), app_dir, h));
            }
        },
    }
}

proof fn lemma_linux_install_prefix(app: Seq<char>, m: Machine, stop: Seq<StepView>, exe: Seq<char>)
    ensures
        stop.is_prefix_of(linux_install_spec(app, m, stop, exe).0),
{
    lemma_prefix_self(stop);
    match m.vars.home {
        None => {},
        Some(hs) => {
            let p = Platform::Linux;
            let h = hs@;
            let dir = install_dir_under(p, h, app);
            let target = exe_in(p, dir, app);
            let env = copy_env_spec(app, m);
            let c = crate::steps::must(crate::steps::ActionView::CreateDirAll(dir));
            lemma_prefix_push(stop, stop, c);
            let head = stop.push(c) + env.0;
            lemma_prefix_concat(stop, stop.push(c), env.0);
            if env.1 is Ok {
                let h1 = head + copy_exe(exe, target);
                lemma_prefix_concat(stop, head, copy_exe(exe, target));
                let h2 = h1 + systemd_spec(app, target, dir, h);
                lemma_prefix_concat(stop, h1, systemd_spec(app, target, dir, h));
                let h3 = h2 + linux_browser_piece(app, target, h);
                lemma_prefix_concat(stop, h2, linux_browser_piece(app, target, h));
                lemma_prefix_concat(stop, h3, script_steps(dir, m));
            }
        },
    }
}

/// Installing `app` first stops its running daemons and removes what
/// starts them, exactly as `stop_and_unregister` does: the steps of that
/// plan come first in the installation plan.
pub proof fn lemma_install_stops_first(app: Seq<char>, m: Machine)
    ensures
        stop_spec(m.platform, app, opt_view(m.vars.home), m.pid).0.is_prefix_of(install_spec(app, m).0),
{
    let stop = stop_spec(m.platform, app, opt_view(m.vars.home), m.pid).0;
    lemma_prefix_self(stop);
    match m.current_exe {
        None => {},
        Some(e) => match m.platform {
            Platform::Windows => lemma_windows_install_prefix(app, m, stop, e@),
            Platform::MacOs => lemma_macos_install_prefix(app, m, stop, e@),
            Platform::Linux => lemma_linux_install_prefix(app, m, stop, e@),
            Platform::Other => {},
        },
    }
}

/// Uninstalling `app` first stops its running daemons and removes what
/// starts them, exactly as `stop_and_unregister` does.
pub proof fn lemma_uninstall_stops_first(app: Seq<char>, m: Machine)
    ensures
        stop_spec(m.platform, app, opt_view(m.vars.home), m.pid).0.is_prefix_of(uninstall_spec(app, m).0),
{
    let p = m.platform;
    let stop = stop_spec(p, app, opt_view(m.vars.home), m.pid).0;
    let config = remove_config_spec(app, m);
    lemma_prefix_self(stop);
    match p {
        Platform::Windows => match m.vars.local_appdata {
            None => {},
            Some(l) => {
                lemma_prefix_concat(stop, stop, remove_binary_spec(p, app, l@));
                lemma_prefix_concat(stop, stop + remove_binary_spec(p, app, l@), config);
            },
        },
        Platform::MacOs => match m.vars.home {
            None => {},
            Some(h) => {
                let bundle = install_dir_under(p, h@, app);
                let rm = seq![
                    crate::steps::guarded(
                        crate::steps::step(crate::steps::ActionView::RemoveDirAll(bundle)),
                        seq![crate::steps::CondView::Exists(bundle)],
                    ),
                ];
                lemma_prefix_concat(stop, stop, remove_scripts_spec(p, bundle));
                lemma_prefix_concat(stop, stop + remove_scripts_spec(p, bundle), rm);
                lemma_prefix_concat(stop, stop + remove_scripts_spec(p, bundle) + rm, config);
            },
        },
        Platform::Linux => match m.vars.home {
            None => {},
            Some(h) => {
                lemma_prefix_concat(stop, stop, remove_binary_spec(p, app, h@));
                lemma_prefix_concat(stop, stop + remove_binary_spec(p, app, h@), config);
            },
        },
        Platform::Other => {
            lemma_prefix_concat(stop, stop, config);
        },
    }
}

// ---------------------------------------------------------------------------
// Uninstalling removes what installing writes
// ---------------------------------------------------------------------------

proof fn lemma_removes_at(sep: char, s: Seq<StepView>, i: int, path: Seq<char>)
    requires
        0 <= i < s.len(),
        removal_covers(sep, s[i].action, path),
    ensures
        removes(sep, s, path),
{
}

/// The files that installing on Linux writes.
pub open spec fn linux_installed_files(app: Seq<char>, m: Machine, h: Seq<char>) -> Set<Seq<char>> {
    let p = Platform::Linux;
    let dir = install_dir_under(p, h, app);
    set![
        joined(p, config_dir_spec(p, m.vars, app), ".env"@),
        exe_in(p, dir, app),
        joined(p, systemd_user_in(h), service_name_spec(app)),
        joined(p, applications_in(h), desktop_file_spec(app)),
        joined(p, dir, "uninstall.sh"@),
        joined(p, dir, "config.sh"@),
    ]
}

proof fn lemma_linux_install_writes(app: Seq<char>, m: Machine, stop: Seq<StepView>, exe: Seq<char>, h: Seq<char>)
    requires
        m.platform == Platform::Linux,
        m.vars.home matches Some(hs) && hs@ == h,
        writes_within(stop, Set::empty()),
    ensures
        writes_within(linux_install_spec(app, m, stop, exe).0, linux_installed_files(app, m, h)),
{
    let p = Platform::Linux;
    let all = linux_installed_files(app, m, h);
    let dir = install_dir_under(p, h, app);
    let target = exe_in(p, dir, app);
    let env = copy_env_spec(app, m);
    let env_path = joined(p, config_dir_spec(p, m.vars, app), ".env"@);
    let c = crate::steps::must(crate::steps::ActionView::CreateDirAll(dir));
    lemma_within_push(stop, c, Set::empty());
    lemma_env_writes(app, m);
    lemma_within_concat(stop.push(c), env.0, Set::empty(), set![env_path]);
    let head = stop.push(c) + env.0;
    let s0 = Set::<Seq<char>>::empty().union(set![env_path]);
    lemma_within_grow(head, s0, all);
    if env.1 is Ok {
        lemma_copy_exe_writes(exe, target);
        lemma_within_grow(copy_exe(exe, target), set![target], all);
        lemma_within_concat(head, copy_exe(exe, target), all, all);
        let h1 = head + copy_exe(exe, target);
        assert(all.union(all) =~= all);
        lemma_systemd_writes(app, target, dir, h);
        lemma_within_grow(
            systemd_spec(app, target, dir, h),
            set![joined(p, systemd_user_in(h), service_name_spec(app))],
            all,
        );
        lemma_within_concat(h1, systemd_spec(app, target, dir, h), all, all);
        let h2 = h1 + systemd_spec(app, target, dir, h);
        lemma_linux_browser_writes(app, target, h);
        lemma_within_grow(
            linux_browser_piece(app, target, h),
            set![joined(p, applications_in(h), desktop_file_spec(app))],
            all,
        );
        lemma_within_concat(h2, linux_browser_piece(app, target, h), all, all);
        let h3 = h2 + linux_browser_piece(app, target, h);
        lemma_scripts_writes(dir, m);
        lemma_within_grow(
            script_steps(dir, m),
            set![joined(p, dir, "uninstall.sh"@), joined(p, dir, "config.sh"@)],
            all,
        );
        lemma_within_concat(h3, script_steps(dir, m), all, all);
    }
}

proof fn lemma_linux_uninstall_removes(app: Seq<char>, m: Machine, h: Seq<char>, path: Seq<char>)
    requires
        m.platform == Platform::Linux,
        m.vars.home matches Some(hs) && hs@ == h,
        linux_installed_files(app, m, h).contains(path),
    ensures
        removes('/', uninstall_spec(app, m).0, path),
{
    let p = Platform::Linux;
    let dir = install_dir_under(p, h, app);
    let stop = stop_spec(p, app, opt_view(m.vars.home), m.pid).0;
    let bin = remove_binary_spec(p, app, h);
    let config = remove_config_spec(app, m);
    assert(uninstall_spec(app, m).0 == stop + bin + config);
    let kill = kill_others_spec(p, app, m.pid);
    if path == joined(p, config_dir_spec(p, m.vars, app), ".env"@) {
        lemma_removes_at('/', config, 0, path);
        lemma_removes_right('/', stop + bin, config, path);
    } else if path == exe_in(p, dir, app) {
        lemma_removes_at('/', bin, 2, path);
        lemma_removes_right('/', stop, bin, path);
        lemma_removes_left('/', stop + bin, config, path);
    } else if path == joined(p, systemd_user_in(h), service_name_spec(app)) {
        lemma_removes_at('/', stop, kill.len() + 2int, path);
        lemma_removes_left('/', stop, bin, path);
        lemma_removes_left('/', stop + bin, config, path);
    } else if path == joined(p, applications_in(h), desktop_file_spec(app)) {
        lemma_removes_at('/', stop, kill.len() + 4int, path);
        lemma_removes_left('/', stop, bin, path);
        lemma_removes_left('/', stop + bin, config, path);
    } else if path == joined(p, dir, "uninstall.sh"@) {
        lemma_removes_at('/', bin, 0, path);
        lemma_removes_right('/', stop, bin, path);
        lemma_removes_left('/', stop + bin, config, path);
    } else {
        assert(path == joined(p, dir, "config.sh"@));
        lemma_removes_at('/', bin, 1, path);
        lemma_removes_right('/', stop, bin, path);
        lemma_removes_left('/', stop + bin, config, path);
    }
}

/// The files that installing on Windows writes.
pub open spec fn windows_installed_files(app: Seq<char>, m: Machine, l: Seq<char>) -> Set<Seq<char>> {
    let p = Platform::Windows;
    set![
        joined(p, config_dir_spec(p, m.vars, app), ".env"@),
        exe_in(p, install_dir_under(p, l, app), app),
    ]
}

proof fn lemma_windows_install_writes(app: Seq<char>, m: Machine, stop: Seq<StepView>, exe: Seq<char>, l: Seq<char>)
    requires
        m.platform == Platform::Windows,
        m.vars.local_appdata matches Some(ls) && ls@ == l,
        writes_within(stop, Set::empty()),
    ensures
        writes_within(windows_install_spec(app, m, stop, exe).0, windows_installed_files(app, m, l)),
{
    let p = Platform::Windows;
    let all = windows_installed_files(app, m, l);
    let dir = install_dir_under(p, l, app);
    let target = exe_in(p, dir, app);
    let env = copy_env_spec(app, m);
    let env_path = joined(p, config_dir_spec(p, m.vars, app), ".env"@);
    let c = crate::steps::must(crate::steps::ActionView::CreateDirAll(dir));
    lemma_within_push(stop, c, Set::empty());
    lemma_env_writes(app, m);
    lemma_within_concat(stop.push(c), env.0, Set::empty(), set![env_path]);
    let head = stop.push(c) + env.0;
    lemma_within_grow(head, Set::<Seq<char>>::empty().union(set![env_path]), all);
    if env.1 is Ok {
        lemma_copy_exe_writes(exe, target);
        lemma_within_grow(copy_exe(exe, target), set![target], all);
        lemma_within_concat(head, copy_exe(exe, target), all, all);
        assert(all.union(all) =~= all);
        let h1 = head + copy_exe(exe, target);
        let st = crate::install::startup_step(app, target);
        lemma_within_push(h1, st, all);
        let br = windows_browser_piece(app, target);
        assert(writes_within(br, Set::empty()));
        lemma_within_grow(br, Set::empty(), all);
        lemma_within_concat(h1.push(st), br, all, all);
        let sp = crate::steps::must(crate::steps::ActionView::Spawn(target, seq!["--daemon"@]));
        lemma_within_push(h1.push(st) + br, sp, all);
    }
}

proof fn lemma_windows_uninstall_removes(app: Seq<char>, m: Machine, l: Seq<char>, path: Seq<char>)
    requires
        m.platform == Platform::Windows,
        m.vars.local_appdata matches Some(ls) && ls@ == l,
        windows_installed_files(app, m, l).contains(path),
    ensures
        removes('\\', uninstall_spec(app, m).0, path),
{
    let p = Platform::Windows;
    let stop = stop_spec(p, app, opt_view(m.vars.home), m.pid).0;
    let bin = remove_binary_spec(p, app, l);
    let config = remove_config_spec(app, m);
    assert(uninstall_spec(app, m).0 == stop + bin + config);
    let env_path = joined(p, config_dir_spec(p, m.vars, app), ".env"@);
    assert(config[0] == crate::service::remove_if_exists(env_path));
    if path == env_path {
        lemma_removes_at('\\', config, 0, path);
        lemma_removes_right('\\', stop + bin, config, path);
    } else {
        lemma_removes_at('\\', bin, 2, path);
        lemma_removes_right('\\', stop, bin, path);
        lemma_removes_left('\\', stop + bin, config, path);
    }
}

proof fn lemma_starts_with_trans(x: Seq<char>, y: Seq<char>, z: Seq<char>)
    requires
        crate::urls::starts_with(y, x),
        crate::urls::starts_with(z, y),
    ensures
        crate::urls::starts_with(z, x),
{
    assert(z.take(x.len() as int) =~= y.take(x.len() as int));
}

/// A joined path starts with its base, and with the base and a separator
/// where one is inserted.
proof fn lemma_joined_extends(p: Platform, base: Seq<char>, part: Seq<char>)
    ensures
        crate::urls::starts_with(joined(p, base, part), base),
        crate::paths::needs_separator(p, base) ==> crate::urls::starts_with(
            joined(p, base, part),
            base.push(separator(p)),
        ),
{
    let j = joined(p, base, part);
    assert(j.take(base.len() as int) =~= base);
    if crate::paths::needs_separator(p, base) {
        assert(j.take(base.len() + 1int) =~= base.push(separator(p)));
    }
}

/// The files and directories that installing on macOS writes.
pub open spec fn macos_installed_files(app: Seq<char>, m: Machine, h: Seq<char>) -> Set<Seq<char>> {
    let p = Platform::MacOs;
    let app_dir = install_dir_under(p, h, app);
    set![
        joined(p, config_dir_spec(p, m.vars, app), ".env"@),
        app_dir,
        exe_in(p, app_dir, app),
        joined(p, joined(p, app_dir, "Contents"@), "Info.plist"@),
        launchagent_plist_in(h, app),
    ]
}

proof fn lemma_macos_install_writes(app: Seq<char>, m: Machine, stop: Seq<StepView>, exe: Seq<char>, h: Seq<char>)
    requires
        m.platform == Platform::MacOs,
        m.vars.home matches Some(hs) && hs@ == h,
        writes_within(stop, Set::empty()),
    ensures
        writes_within(macos_install_spec(app, m, stop, exe).0, macos_installed_files(app, m, h)),
{
    let p = Platform::MacOs;
    let all = macos_installed_files(app, m, h);
    let env = copy_env_spec(app, m);
    let env_path = joined(p, config_dir_spec(p, m.vars, app), ".env"@);
    let apps = joined(p, h, "Applications"@);
    let app_dir = install_dir_under(p, h, app);
    let target = exe_in(p, app_dir, app);
    let info = joined(p, joined(p, app_dir, "Contents"@), "Info.plist"@);
    lemma_within_grow(stop, Set::empty(), all);
    let c = crate::steps::must(crate::steps::ActionView::CreateDirAll(apps));
    lemma_within_push(stop, c, all);
    let b = bundle_spec(app, apps, exe);
    assert(writes_within(b, set![app_dir, target, info]));
    lemma_within_grow(b, set![app_dir, target, info], all);
    lemma_within_concat(stop.push(c), b, all, all);
    assert(all.union(all) =~= all);
    lemma_env_writes(app, m);
    lemma_within_grow(env.0, set![env_path], all);
    lemma_within_concat(stop.push(c) + b, env.0, all, all);
    let head = stop.push(c) + b + env.0;
    if env.1 is Ok {
        let r = crate::steps::step(
            crate::steps::ActionView::Run(crate::service::lsregister(), seq!["-f"@, app_dir]),
        );
        lemma_within_push(head, r, all);
        let la = launch_agent_spec(app, target, app_dir, h);
        assert(writes_within(la, set![launchagent_plist_in(h, app)]));
        lemma_within_grow(la, set![launchagent_plist_in(h, app)], all);
        lemma_within_concat(head.push(r), la, all, all);
    }
}

proof fn lemma_macos_uninstall_removes(app: Seq<char>, m: Machine, h: Seq<char>, path: Seq<char>)
    requires
        m.platform == Platform::MacOs,
        m.vars.home matches Some(hs) && hs@ == h,
        macos_installed_files(app, m, h).contains(path),
    ensures
        removes('/', uninstall_spec(app, m).0, path),
{
    let p = Platform::MacOs;
    let app_dir = install_dir_under(p, h, app);
    let stop = stop_spec(p, app, opt_view(m.vars.home), m.pid).0;
    let scripts = remove_scripts_spec(p, app_dir);
    let rm = seq![
        crate::steps::guarded(
            crate::steps::step(crate::steps::ActionView::RemoveDirAll(app_dir)),
            seq![crate::steps::CondView::Exists(app_dir)],
        ),
    ];
    let config = remove_config_spec(app, m);
    assert(uninstall_spec(app, m).0 == stop + scripts + rm + config);
    let kill = kill_others_spec(p, app, m.pid);
    if path == joined(p, config_dir_spec(p, m.vars, app), ".env"@) {
        lemma_removes_at('/', config, 0, path);
        lemma_removes_right('/', stop + scripts + rm, config, path);
    } else if path == launchagent_plist_in(h, app) {
        lemma_removes_at('/', stop, kill.len() + 1int, path);
        lemma_removes_left('/', stop, scripts, path);
        lemma_removes_left('/', stop + scripts, rm, path);
        lemma_removes_left('/', stop + scripts + rm, config, path);
    } else {
        let apps = joined(p, h, "Applications"@);
        let name = bundle_dir_name(app);
        reveal_strlit(".app");
        assert(name.len() > 0 && name.last() == 'p');
        assert(app_dir == joined(p, apps, name));
        assert(app_dir.last() == 'p') by {
            if crate::paths::needs_separator(p, apps) {
                assert((apps.push('/') + name).last() == name.last());
            } else {
                assert((apps + name).last() == name.last());
            }
        }
        assert(crate::paths::needs_separator(p, app_dir));
        let contents = joined(p, app_dir, "Contents"@);
        lemma_joined_extends(p, app_dir, "Contents"@);
        if path == app_dir {
        } else if path == exe_in(p, app_dir, app) {
            let macos = joined(p, contents, "MacOS"@);
            lemma_joined_extends(p, contents, "MacOS"@);
            lemma_joined_extends(p, macos, binary_name_spec(app));
            lemma_starts_with_trans(app_dir.push('/'), contents, macos);
            lemma_starts_with_trans(app_dir.push('/'), macos, path);
        } else {
            assert(path == joined(p, contents, "Info.plist"@));
            lemma_joined_extends(p, contents, "Info.plist"@);
            lemma_starts_with_trans(app_dir.push('/'), contents, path);
        }
        assert(removal_covers('/', rm[0].action, path));
        lemma_removes_at('/', rm, 0, path);
        lemma_removes_right('/', stop + scripts, rm, path);
        lemma_removes_left('/', stop + scripts + rm, config, path);
    }
}

/// Uninstalling `app` removes every file and directory that installing it
/// writes (the executable or app bundle, the configuration file, the helper
/// scripts, the launch agent, the systemd unit and the desktop entry), on a
/// machine where installing goes through.
pub proof fn lemma_uninstall_removes_installed_files(app: Seq<char>, m: Machine, path: Seq<char>)
    requires
        install_spec(app, m).1 is Ok,
        writes(install_spec(app, m).0, path),
    ensures
        removes(separator(m.platform), uninstall_spec(app, m).0, path),
{
    let stop = stop_spec(m.platform, app, opt_view(m.vars.home), m.pid).0;
    lemma_stop_writes_nothing(m.platform, app, opt_view(m.vars.home), m.pid);
    let e = m.current_exe.unwrap();
    match m.platform {
        Platform::Windows => {
            let l = m.vars.local_appdata.unwrap()@;
            lemma_windows_install_writes(app, m, stop, e@, l);
            lemma_within_writes(install_spec(app, m).0, windows_installed_files(app, m, l), path);
            lemma_windows_uninstall_removes(app, m, l, path);
        },
        Platform::MacOs => {
            let h = m.vars.home.unwrap()@;
            lemma_macos_install_writes(app, m, stop, e@, h);
            lemma_within_writes(install_spec(app, m).0, macos_installed_files(app, m, h), path);
            lemma_macos_uninstall_removes(app, m, h, path);
        },
        Platform::Linux => {
            let h = m.vars.home.unwrap()@;
            lemma_linux_install_writes(app, m, stop, e@, h);
            lemma_within_writes(install_spec(app, m).0, linux_installed_files(app, m, h), path);
            lemma_linux_uninstall_removes(app, m, h, path);
        },
        Platform::Other => {
            lemma_within_writes(install_spec(app, m).0, Set::empty(), path);
        },
    }
}

// ---------------------------------------------------------------------------
// Uninstalling removes the registry entries that installing adds (Windows)
// ---------------------------------------------------------------------------

/// The arguments of a `reg` command that `a` runs.
pub open spec fn reg_args(a: ActionView) -> Option<Seq<Seq<char>>> {
    match a {
        ActionView::Run(program, args) => if program == "reg"@ {
            Some(args)
        } else {
            None
        },
        ActionView::RunChecked(program, args, _) => if program == "reg"@ {
            Some(args)
        } else {
            None
        },
        _ => None,
    }
}

/// `reg add <key> ... [/v <name>] ...`: the value `name` of `key` (`None`:
/// the key's default value) is set.
pub open spec fn sets_value(args: Seq<Seq<char>>, key: Seq<char>, name: Option<Seq<char>>) -> bool {
    &&& args.len() >= 2
    &&& args[0] == "add"@
    &&& args[1] == key
    &&& match name {
        Some(n) => exists|j: int| 2 <= j && j + 1 < args.len() && #[trigger] args[j] == "/v"@ && args[j + 1] == n,
        None => forall|j: int| 2 <= j < args.len() ==> #[trigger] args[j] != "/v"@,
    }
}

/// `reg delete <k> /f` where `k` is `key` or a key above it, or
/// `reg delete <key> /v <name> /f`: the value is deleted.
pub open spec fn deletes_value(args: Seq<Seq<char>>, key: Seq<char>, name: Option<Seq<char>>) -> bool {
    ||| (args.len() == 3 && args[0] == "delete"@ && args[2] == "/f"@ && (key == args[1]
        || crate::urls::starts_with(key, args[1] + "\\"@)))
    ||| (args.len() == 5 && args[0] == "delete"@ && args[1] == key && args[2] == "/v"@ && name == Some(
        args[3],
    ) && args[4] == "/f"@)
}

pub open spec fn step_sets(a: ActionView, key: Seq<char>, name: Option<Seq<char>>) -> bool {
    match reg_args(a) {
        Some(args) => sets_value(args, key, name),
        None => false,
    }
}

pub open spec fn step_deletes(a: ActionView, key: Seq<char>, name: Option<Seq<char>>) -> bool {
    match reg_args(a) {
        Some(args) => deletes_value(args, key, name),
        None => false,
    }
}

/// Some step of `steps` sets the value `name` of the registry key `key`.
pub open spec fn plan_sets(steps: Seq<StepView>, key: Seq<char>, name: Option<Seq<char>>) -> bool {
    exists|i: int| 0 <= i < steps.len() && step_sets(#[trigger] steps[i].action, key, name)
}

/// Some step of `steps` deletes the value `name` of the registry key `key`.
pub open spec fn plan_deletes(steps: Seq<StepView>, key: Seq<char>, name: Option<Seq<char>>) -> bool {
    exists|i: int| 0 <= i < steps.len() && step_deletes(#[trigger] steps[i].action, key, name)
}

/// The registry values (key and value name) that `s` sets are all in `allowed`.
pub open spec fn sets_within(s: Seq<StepView>, allowed: Set<(Seq<char>, Option<Seq<char>>)>) -> bool {
    forall|i: int, key: Seq<char>, name: Option<Seq<char>>|
        0 <= i < s.len() && #[trigger] step_sets(s[i].action, key, name) ==> allowed.contains((key, name))
}

proof fn lemma_sets_within_concat(
    a: Seq<StepView>,
    b: Seq<StepView>,
    x: Set<(Seq<char>, Option<Seq<char>>)>,
    y: Set<(Seq<char>, Option<Seq<char>>)>,
)
    requires
        sets_within(a, x),
        sets_within(b, y),
    ensures
        sets_within(a + b, x.union(y)),
{
    assert forall|i: int, key: Seq<char>, name: Option<Seq<char>>|
        0 <= i < (a + b).len() && #[trigger] step_sets((a + b)[i].action, key, name) implies x.union(y).contains(
        (key, name),
    ) by {
        if i < a.len() {
            assert((a + b)[i] == a[i]);
        } else {
            assert((a + b)[i] == b[i - a.len()]);
        }
    }
}

proof fn lemma_sets_within_push(a: Seq<StepView>, s: StepView, x: Set<(Seq<char>, Option<Seq<char>>)>)
    requires
        sets_within(a, x),
        forall|key: Seq<char>, name: Option<Seq<char>>| !#[trigger] step_sets(s.action, key, name),
    ensures
        sets_within(a.push(s), x),
{
    assert forall|i: int, key: Seq<char>, name: Option<Seq<char>>|
        0 <= i < a.push(s).len() && #[trigger] step_sets(a.push(s)[i].action, key, name) implies x.contains(
        (key, name),
    ) by {
        if i < a.len() {
            assert(a.push(s)[i] == a[i]);
        }
    }
}

proof fn lemma_sets_within_grow(
    s: Seq<StepView>,
    x: Set<(Seq<char>, Option<Seq<char>>)>,
    y: Set<(Seq<char>, Option<Seq<char>>)>,
)
    requires
        sets_within(s, x),
        x.subset_of(y),
    ensures
        sets_within(s, y),
{
}

/// The arguments of `reg add` are flags or values that are not `/v`.
proof fn lemma_flag_literals()
    ensures
        "/t"@ != "/v"@,
        "REG_SZ"@ != "/v"@,
        "/d"@ != "/v"@,
        "/f"@ != "/v"@,
        "add"@ != "delete"@,
        "taskkill"@ != "reg"@,
        "/v"@.len() == 2,
        "/v"@[0] == '/',
{
    reveal_strlit("/t");
    reveal_strlit("/v");
    reveal_strlit("REG_SZ");
    reveal_strlit("/d");
    reveal_strlit("/f");
    reveal_strlit("add");
    reveal_strlit("delete");
    reveal_strlit("taskkill");
    reveal_strlit("reg");
    assert("/t"@[1] != "/v"@[1]);
    assert("/d"@[1] != "/v"@[1]);
    assert("/f"@[1] != "/v"@[1]);
    assert("add"@.len() != "delete"@.len());
    assert("taskkill"@.len() != "reg"@.len());
    assert("REG_SZ"@.len() != "/v"@.len());
}

/// A `reg add` of `reg_value(key, name, data)` sets that value and no other.
proof fn lemma_reg_value_sets(key: Seq<char>, name: Option<Seq<char>>, data: Seq<char>, k: Seq<char>, n: Option<Seq<char>>)
    requires
        data != "/v"@,
        step_sets(crate::install::reg_value(key, name, data).action, k, n),
    ensures
        k == key && n == name,
{
    lemma_flag_literals();
    let base = seq!["add"@, key, "/t"@, "REG_SZ"@, "/d"@, data, "/f"@];
    let args = match name {
        Some(nn) => base + seq!["/v"@, nn],
        None => base,
    };
    assert(reg_args(crate::install::reg_value(key, name, data).action) == Some(args));
    assert(args[2] == "/t"@ && args[3] == "REG_SZ"@ && args[4] == "/d"@ && args[5] == data && args[6] == "/f"@);
    match n {
        Some(x) => {
            let j = choose|j: int| 2 <= j && j + 1 < args.len() && #[trigger] args[j] == "/v"@ && args[j + 1] == x;
            assert(j == 7);
        },
        None => {
            if name is Some {
                assert(args[7] == "/v"@);
            }
        },
    }
}

/// The logon entry sets the value named after `app` under the logon key,
/// and no other.
proof fn lemma_startup_sets(app: Seq<char>, exe: Seq<char>, k: Seq<char>, n: Option<Seq<char>>)
    requires
        step_sets(crate::install::startup_step(app, exe).action, k, n),
    ensures
        k == crate::service::run_key() && n == Some(registry_run_key_spec(app)),
{
    lemma_flag_literals();
    let rk = registry_run_key_spec(app);
    let cmd = "\""@ + exe + "\" --daemon"@;
    let args = seq![
        "add"@,
        crate::service::run_key(),
        "/v"@,
        rk,
        "/t"@,
        "REG_SZ"@,
        "/d"@,
        cmd,
        "/f"@,
    ];
    reveal_strlit("\"");
    reveal_strlit("OpenRemoteURLClientDaemon");
    reveal_strlit("OpenRemoteURLHostDaemon");
    reveal_strlit("OpenRemoteURLSenderDaemon");
    reveal_strlit("OpenRemoteURLReceiverDaemon");
    assert(cmd[0] == '"');
    assert(cmd != "/v"@);
    assert(rk.len() > 2);
    assert(rk != "/v"@);
    assert(reg_args(crate::install::startup_step(app, exe).action) == Some(args));
    match n {
        Some(x) => {
            let j = choose|j: int| 2 <= j && j + 1 < args.len() && #[trigger] args[j] == "/v"@ && args[j + 1] == x;
            assert(j == 2);
        },
        None => {
            assert(args[2] == "/v"@);
        },
    }
}

proof fn lemma_not_flag(x: Seq<char>)
    requires
        x.len() != 2 || x[0] != '/',
    ensures
        x != "/v"@,
{
    lemma_flag_literals();
}

proof fn lemma_first_of_concat(a: Seq<char>, b: Seq<char>)
    requires
        a.len() > 0,
    ensures
        (a + b)[0] == a[0],
        (a + b).len() > 0,
{
}

/// The registry values that make the client a web browser.
pub open spec fn browser_entries_set(app: Seq<char>) -> Set<(Seq<char>, Option<Seq<char>>)> {
    let prog = app_name_spec(app);
    let smi = start_menu_key(app);
    let caps = smi + "\\Capabilities"@;
    let assoc = caps + "\\URLAssociations"@;
    set![
        (smi, None),
        (caps, Some("ApplicationName"@)),
        (caps, Some("ApplicationDescription"@)),
        (assoc, Some("http"@)),
        (assoc, Some("https"@)),
        (classes_key(prog), None),
        (classes_key(prog) + "\\shell\\open\\command"@, None),
        (registered_apps_key(), Some(prog)),
    ]
}

/// The registry values that installing `app` on Windows sets: its logon
/// entry, and for the client its browser registration.
pub open spec fn windows_registry_entries(app: Seq<char>) -> Set<(Seq<char>, Option<Seq<char>>)> {
    let logon = set![(crate::service::run_key(), Some(registry_run_key_spec(app)))];
    if intercepts_urls(app) {
        logon.union(browser_entries_set(app))
    } else {
        logon
    }
}

proof fn lemma_app_name_long(app: Seq<char>)
    ensures
        app_name_spec(app).len() > 2,
{
    reveal_strlit("OpenRemoteURLClient");
    reveal_strlit("OpenRemoteURLHost");
    reveal_strlit("OpenRemoteURLSender");
    reveal_strlit("OpenRemoteURLReceiver");
}

proof fn lemma_browser_sets(app: Seq<char>, exe: Seq<char>)
    ensures
        sets_within(browser_values(app, exe), browser_entries_set(app)),
{
    let prog = app_name_spec(app);
    let smi = start_menu_key(app);
    let caps = smi + "\\Capabilities"@;
    let assoc = caps + "\\URLAssociations"@;
    let command = classes_key(prog) + "\\shell\\open\\command"@;
    let bv = browser_values(app, exe);
    let allowed = browser_entries_set(app);
    reveal_strlit("\"");
    reveal_strlit("Open Remote URL Client");
    reveal_strlit("Redirect URLs to remote Host");
    reveal_strlit("Open Remote URL Client HTML Document");
    reveal_strlit("Software\\Clients\\StartMenuInternet\\");
    lemma_app_name_long(app);
    let d0 = "\""@ + exe + "\""@;
    let d6 = "\""@ + exe + "\" \"%1\""@;
    let d7 = "Software\\Clients\\StartMenuInternet\\"@ + prog + "\\Capabilities"@;
    lemma_first_of_concat("\""@, exe);
    lemma_first_of_concat("\""@ + exe, "\""@);
    lemma_not_flag(d0);
    lemma_first_of_concat("\""@ + exe, "\" \"%1\""@);
    lemma_not_flag(d6);
    lemma_first_of_concat("Software\\Clients\\StartMenuInternet\\"@, prog);
    lemma_first_of_concat("Software\\Clients\\StartMenuInternet\\"@ + prog, "\\Capabilities"@);
    lemma_not_flag(d7);
    lemma_not_flag("Open Remote URL Client"@);
    lemma_not_flag("Redirect URLs to remote Host"@);
    lemma_not_flag("Open Remote URL Client HTML Document"@);
    lemma_not_flag(prog);
    assert forall|i: int, key: Seq<char>, name: Option<Seq<char>>|
        0 <= i < bv.len() && #[trigger] step_sets(bv[i].action, key, name) implies allowed.contains((key, name)) by {
        if i == 0 {
            lemma_reg_value_sets(smi, None, d0, key, name);
        } else if i == 1 {
            lemma_reg_value_sets(caps, Some("ApplicationName"@), "Open Remote URL Client"@, key, name);
        } else if i == 2 {
            lemma_reg_value_sets(caps, Some("ApplicationDescription"@), "Redirect URLs to remote Host"@, key, name);
        } else if i == 3 {
            lemma_reg_value_sets(assoc, Some("http"@), prog, key, name);
        } else if i == 4 {
            lemma_reg_value_sets(assoc, Some("https"@), prog, key, name);
        } else if i == 5 {
            lemma_reg_value_sets(classes_key(prog), None, "Open Remote URL Client HTML Document"@, key, name);
        } else if i == 6 {
            lemma_reg_value_sets(command, None, d6, key, name);
        } else {
            lemma_reg_value_sets(registered_apps_key(), Some(prog), d7, key, name);
        }
    }
}

proof fn lemma_stop_sets_nothing(app: Seq<char>, home: Option<Seq<char>>, pid: u32)
    ensures
        sets_within(stop_spec(Platform::Windows, app, home, pid).0, Set::empty()),
{
    lemma_flag_literals();
    let s = stop_spec(Platform::Windows, app, home, pid).0;
    assert forall|i: int, key: Seq<char>, name: Option<Seq<char>>|
        0 <= i < s.len() && #[trigger] step_sets(s[i].action, key, name) implies Set::<
        (Seq<char>, Option<Seq<char>>),
    >::empty().contains((key, name)) by {
        if i == 0 {
        } else if i == 1 {
            assert(reg_args(s[1].action) matches Some(a) && a[0] == "delete"@);
        } else {
            let c = browser_cleanup(app);
            assert(s[i] == c[i - 2]);
            assert(reg_args(c[i - 2].action) matches Some(a) && a[0] == "delete"@);
        }
    }
}

proof fn lemma_windows_install_sets(app: Seq<char>, m: Machine, exe: Seq<char>)
    requires
        m.platform == Platform::Windows,
        m.vars.local_appdata is Some,
    ensures
        sets_within(
            windows_install_spec(app, m, stop_spec(Platform::Windows, app, opt_view(m.vars.home), m.pid).0, exe).0,
            windows_registry_entries(app),
        ),
{
    let p = Platform::Windows;
    let stop = stop_spec(p, app, opt_view(m.vars.home), m.pid).0;
    let all = windows_registry_entries(app);
    let l = m.vars.local_appdata.unwrap()@;
    let dir = install_dir_under(p, l, app);
    let target = exe_in(p, dir, app);
    let env = copy_env_spec(app, m);
    lemma_stop_sets_nothing(app, opt_view(m.vars.home), m.pid);
    lemma_sets_within_grow(stop, Set::empty(), all);
    let c = crate::steps::must(ActionView::CreateDirAll(dir));
    lemma_sets_within_push(stop, c, all);
    assert(sets_within(env.0, Set::empty()));
    lemma_sets_within_grow(env.0, Set::empty(), all);
    lemma_sets_within_concat(stop.push(c), env.0, all, all);
    assert(all.union(all) =~= all);
    let head = stop.push(c) + env.0;
    if env.1 is Ok {
        assert(sets_within(copy_exe(exe, target), Set::empty()));
        lemma_sets_within_grow(copy_exe(exe, target), Set::empty(), all);
        lemma_sets_within_concat(head, copy_exe(exe, target), all, all);
        let h1 = head + copy_exe(exe, target);
        let st = crate::install::startup_step(app, target);
        assert forall|i: int, key: Seq<char>, name: Option<Seq<char>>|
            0 <= i < h1.push(st).len() && #[trigger] step_sets(h1.push(st)[i].action, key, name) implies all.contains(
            (key, name),
        ) by {
            if i < h1.len() {
                assert(h1.push(st)[i] == h1[i]);
            } else {
                lemma_startup_sets(app, target, key, name);
            }
        }
        let br = windows_browser_piece(app, target);
        if intercepts_urls(app) {
            lemma_browser_sets(app, target);
            lemma_sets_within_grow(br, browser_entries_set(app), all);
        } else {
            assert(sets_within(br, Set::empty()));
            lemma_sets_within_grow(br, Set::empty(), all);
        }
        lemma_sets_within_concat(h1.push(st), br, all, all);
        let sp = crate::steps::must(ActionView::Spawn(target, seq!["--daemon"@]));
        lemma_sets_within_push(h1.push(st) + br, sp, all);
    }
}

proof fn lemma_starts_after_backslash(base: Seq<char>, rest: Seq<char>)
    requires
        rest.len() > 0,
        rest[0] == '\\',
    ensures
        crate::urls::starts_with(base + rest, base + "\\"@),
{
    reveal_strlit("\\");
    assert((base + rest).take(base.len() + 1int) =~= base + "\\"@);
}

proof fn lemma_windows_stop_deletes(app: Seq<char>, m: Machine, key: Seq<char>, name: Option<Seq<char>>)
    requires
        windows_registry_entries(app).contains((key, name)),
    ensures
        plan_deletes(stop_spec(Platform::Windows, app, opt_view(m.vars.home), m.pid).0, key, name),
{
    lemma_flag_literals();
    let s = stop_spec(Platform::Windows, app, opt_view(m.vars.home), m.pid).0;
    let kill = kill_others_spec(Platform::Windows, app, m.pid);
    assert(kill.len() == 1);
    if key == crate::service::run_key() && name == Some(registry_run_key_spec(app)) {
        assert(step_deletes(s[1].action, key, name));
    } else {
        assert(intercepts_urls(app));
        assert(browser_entries_set(app).contains((key, name)));
        let prog = app_name_spec(app);
        let smi = start_menu_key(app);
        let caps = smi + "\\Capabilities"@;
        let assoc = caps + "\\URLAssociations"@;
        reveal_strlit("\\Capabilities");
        reveal_strlit("\\URLAssociations");
        reveal_strlit("\\shell\\open\\command");
        if key == smi {
            assert(step_deletes(s[2].action, key, name));
        } else if key == caps {
            lemma_starts_after_backslash(smi, "\\Capabilities"@);
            assert(step_deletes(s[2].action, key, name));
        } else if key == assoc {
            assert(assoc == smi + ("\\Capabilities"@ + "\\URLAssociations"@));
            lemma_starts_after_backslash(smi, "\\Capabilities"@ + "\\URLAssociations"@);
            assert(step_deletes(s[2].action, key, name));
        } else if key == classes_key(prog) {
            assert(step_deletes(s[3].action, key, name));
        } else if key == classes_key(prog) + "\\shell\\open\\command"@ {
            lemma_starts_after_backslash(classes_key(prog), "\\shell\\open\\command"@);
            assert(step_deletes(s[3].action, key, name));
        } else {
            assert(key == registered_apps_key() && name == Some(prog));
            assert(step_deletes(s[4].action, key, name));
        }
    }
}

/// Uninstalling `app` on Windows deletes every registry value that
/// installing it sets: the logon entry that starts the daemon, and the
/// client's browser registration (its keys, or the values themselves).
pub proof fn lemma_uninstall_removes_registry_entries(app: Seq<char>, m: Machine, key: Seq<char>, name: Option<Seq<char>>)
    requires
        m.platform == Platform::Windows,
        install_spec(app, m).1 is Ok,
        plan_sets(install_spec(app, m).0, key, name),
    ensures
        plan_deletes(uninstall_spec(app, m).0, key, name),
{
    let stop = stop_spec(Platform::Windows, app, opt_view(m.vars.home), m.pid).0;
    let e = m.current_exe.unwrap();
    lemma_windows_install_sets(app, m, e@);
    let s = install_spec(app, m).0;
    let i = choose|i: int| 0 <= i < s.len() && step_sets(#[trigger] s[i].action, key, name);
    assert(windows_registry_entries(app).contains((key, name)));
    lemma_windows_stop_deletes(app, m, key, name);
    let u = uninstall_spec(app, m).0;
    let j = choose|j: int| 0 <= j < stop.len() && step_deletes(#[trigger] stop[j].action, key, name);
    assert(u[j] == stop[j]);
}

// ---------------------------------------------------------------------------
// The daemon that installation starts
// ---------------------------------------------------------------------------

/// `a` writes, at `path`, a launch agent whose program arguments are
/// `exe` and `--daemon`, nothing else.
pub open spec fn writes_daemon_agent(a: ActionView, path: Seq<char>, exe: Seq<char>) -> bool {
    match a {
        ActionView::WriteFile(q, text) => q == path && crate::urls::contains(
            text,
            "<key>ProgramArguments</key>\n    <array>\n        <string>"@ + exe
                + "</string>\n        <string>--daemon</string>\n    </array>"@,
        ),
        _ => false,
    }
}

/// Installing on macOS writes the launch agent that starts the installed
/// executable at login with the single argument `--daemon`.
pub proof fn lemma_macos_launch_agent_starts_daemon(app: Seq<char>, m: Machine)
    requires
        m.platform == Platform::MacOs,
        install_spec(app, m).1 is Ok,
    ensures
        m.vars.home matches Some(h) && exists|i: int|
            0 <= i < install_spec(app, m).0.len() && writes_daemon_agent(
                #[trigger] install_spec(app, m).0[i].action,
                launchagent_plist_in(h@, app),
                exe_in(Platform::MacOs, install_dir_under(Platform::MacOs, h@, app), app),
            ),
{
    let p = Platform::MacOs;
    let stop = stop_spec(p, app, opt_view(m.vars.home), m.pid).0;
    let e = m.current_exe.unwrap();
    let h = m.vars.home.unwrap()@;
    let env = copy_env_spec(app, m);
    let apps = joined(p, h, "Applications"@);
    let app_dir = install_dir_under(p, h, app);
    let target = exe_in(p, app_dir, app);
    let head = stop.push(crate::steps::must(ActionView::CreateDirAll(apps))) + bundle_spec(app, apps, e@) + env.0;
    let r = crate::steps::step(ActionView::Run(crate::service::lsregister(), seq!["-f"@, app_dir]));
    let la = launch_agent_spec(app, target, app_dir, h);
    let all = head.push(r) + la;
    assert(install_spec(app, m).0 == all);
    let i: int = head.len() + 2int;
    assert(all[i] == la[1]);
    let text = crate::templates::launch_agent_plist(crate::naming::plist_label_spec(app), target, app_dir);
    crate::templates::lemma_launch_agent_runs_daemon(crate::naming::plist_label_spec(app), target, app_dir);
    assert(all[i].action == ActionView::WriteFile(launchagent_plist_in(h, app), text));
}

} // verus!
