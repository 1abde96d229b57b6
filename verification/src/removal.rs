//! Uninstalling an application: stopping and unregistering its daemon,
//! then removing its executable (or app bundle), its helper scripts and its
//! configuration, and the directories they leave empty.
use vstd::prelude::*;
use vstd::string::*;
use crate::config::opt_view;
use crate::install::Machine;
use crate::locations::{exe_in, exe_path_in, install_dir_in, install_dir_under};
use crate::naming::lemma_names_plain;
use crate::paths::{
    config_dir_spec, config_root, config_root_spec, get_config_dir, is_plain_segment, join_path,
    joined, Platform,
};
use crate::service::{remove_if_exists, stop_and_unregister, stop_spec};
use crate::steps::{
    append_steps, guarded, plain_step, push_step, step, step_if_exists, steps_view, Action,
    ActionView, CondView, Plan, SetupError, Step, StepView,
};
use crate::text::owned;

verus! {

/// The helper scripts shipped for `p`.
pub open spec fn script_names(p: Platform) -> (Seq<char>, Seq<char>) {
    match p {
        Platform::Windows => ("uninstall.bat"@, "config.bat"@),
        Platform::MacOs => ("uninstall.command"@, "config.command"@),
        _ => ("uninstall.sh"@, "config.sh"@),
    }
}

/// Removing the helper scripts from `dir`.
pub open spec fn remove_scripts_spec(p: Platform, dir: Seq<char>) -> Seq<StepView> {
    seq![
        remove_if_exists(joined(p, dir, script_names(p).0)),
        remove_if_exists(joined(p, dir, script_names(p).1)),
    ]
}

pub open spec fn remove_dir_if_empty(dir: Seq<char>) -> StepView {
    step(ActionView::RemoveDirIfEmpty(dir))
}

fn remove_file_step(path: &str) -> (r: Step)
    ensures
        r@ == remove_if_exists(path@),
{
    step_if_exists(Action::RemoveFile { path: owned(path) }, path, false)
}

fn remove_dir_step(path: &str) -> (r: Step)
    ensures
        r@ == remove_dir_if_empty(path@),
{
    plain_step(Action::RemoveDirIfEmpty { path: owned(path) }, false)
}

/// Removes the helper scripts from `target_dir`.
pub fn remove_script_files(p: Platform, target_dir: &str) -> (r: Vec<Step>)
    ensures
        steps_view(r@) == remove_scripts_spec(p, target_dir@),
{
    proof {
        reveal_strlit("uninstall.bat");
        reveal_strlit("config.bat");
        reveal_strlit("uninstall.command");
        reveal_strlit("config.command");
        reveal_strlit("uninstall.sh");
        reveal_strlit("config.sh");
    }
    let (a, b) = match p {
        Platform::Windows => ("uninstall.bat", "config.bat"),
        Platform::MacOs => ("uninstall.command", "config.command"),
        _ => ("uninstall.sh", "config.sh"),
    };
    let mut out: Vec<Step> = Vec::new();
    push_step(&mut out, remove_file_step(join_path(p, target_dir, a).as_str()));
    push_step(&mut out, remove_file_step(join_path(p, target_dir, b).as_str()));
    assert(steps_view(out@) =~= remove_scripts_spec(p, target_dir@));
    out
}

/// Removing the configuration of `app` and the directories it leaves empty
/// (on macOS the configuration lies in the app bundle, and the
/// `~/Applications` above it is left alone).
pub open spec fn remove_config_spec(app: Seq<char>, m: Machine) -> Seq<StepView> {
    let p = m.platform;
    let dir = config_dir_spec(p, m.vars, app);
    let own = seq![remove_if_exists(joined(p, dir, ".env"@)), remove_dir_if_empty(dir)];
    if p == Platform::MacOs {
        own
    } else {
        own.push(remove_dir_if_empty(config_root_spec(p, m.vars)))
    }
}

fn remove_config(app_type: &str, m: &Machine) -> (r: Vec<Step>)
    requires
        is_plain_segment(app_type@),
    ensures
        steps_view(r@) == remove_config_spec(app_type@, *m),
{
    proof {
        reveal_strlit(".env");
    }
    let p = m.platform;
    let dir = get_config_dir(app_type, p, &m.vars);
    let mut out: Vec<Step> = Vec::new();
    push_step(&mut out, remove_file_step(join_path(p, dir.as_str(), ".env").as_str()));
    push_step(&mut out, remove_dir_step(dir.as_str()));
    if p != Platform::MacOs {
        push_step(&mut out, remove_dir_step(config_root(p, &m.vars).as_str()));
    }
    assert(steps_view(out@) =~= remove_config_spec(app_type@, *m));
    out
}

/// The directory that holds the installation directories on `p`, under `base`.
pub open spec fn install_parent_under(p: Platform, base: Seq<char>) -> Seq<char> {
    match p {
        Platform::Windows => joined(p, joined(p, base, "Programs"@), "open-remote-url"@),
        _ => joined(p, joined(p, joined(p, base, ".local"@), "bin"@), "open-remote-url"@),
    }
}

/// Removing the executable of `app` installed under `base` (Windows and
/// Linux), with its scripts and the directories left empty.
pub open spec fn remove_binary_spec(p: Platform, app: Seq<char>, base: Seq<char>) -> Seq<StepView> {
    let dir = install_dir_under(p, base, app);
    remove_scripts_spec(p, dir) + seq![
        remove_if_exists(exe_in(p, dir, app)),
        remove_dir_if_empty(dir),
        remove_dir_if_empty(install_parent_under(p, base)),
    ]
}

fn remove_binary(p: Platform, app_type: &str, base: &str) -> (r: Vec<Step>)
    requires
        is_plain_segment(app_type@),
        p == Platform::Windows || p == Platform::Linux,
    ensures
        steps_view(r@) == remove_binary_spec(p, app_type@, base@),
{
    proof {
        reveal_strlit("Programs");
        reveal_strlit("open-remote-url");
        reveal_strlit(".local");
        reveal_strlit("bin");
    }
    let dir = install_dir_in(p, base, app_type);
    let parent = if p == Platform::Windows {
        let d1 = join_path(p, base, "Programs");
        join_path(p, d1.as_str(), "open-remote-url")
    } else {
        let d1 = join_path(p, base, ".local");
        let d2 = join_path(p, d1.as_str(), "bin");
        join_path(p, d2.as_str(), "open-remote-url")
    };
    let mut out = remove_script_files(p, dir.as_str());
    let ghost scripts = steps_view(out@);
    push_step(&mut out, remove_file_step(exe_path_in(p, dir.as_str(), app_type).as_str()));
    push_step(&mut out, remove_dir_step(dir.as_str()));
    push_step(&mut out, remove_dir_step(parent.as_str()));
    assert(steps_view(out@) =~= remove_binary_spec(p, app_type@, base@));
    out
}

/// What uninstalling `app` from the machine `m` does, as steps and outcome:
/// the daemon is stopped and unregistered as `stop_and_unregister` does
/// (its outcome passed over); the installed executable (on macOS the whole
/// app bundle) and helper scripts are removed, with the installation
/// directories they leave empty; then the configuration file, with the
/// configuration directories it leaves empty.
pub open spec fn uninstall_spec(app: Seq<char>, m: Machine) -> (Seq<StepView>, Result<(), SetupError>) {
    let p = m.platform;
    let stop = stop_spec(p, app, opt_view(m.vars.home), m.pid).0;
    let config = remove_config_spec(app, m);
    match p {
        Platform::Windows => match m.vars.local_appdata {
            None => (stop, Err(SetupError::MissingLocalAppData)),
            Some(l) => (stop + remove_binary_spec(p, app, l@) + config, Ok(())),
        },
        Platform::MacOs => match m.vars.home {
            None => (stop, Err(SetupError::MissingHome)),
            Some(h) => {
                let bundle = install_dir_under(p, h@, app);
                (
                    stop + remove_scripts_spec(p, bundle) + seq![
                        guarded(step(ActionView::RemoveDirAll(bundle)), seq![CondView::Exists(bundle)]),
                    ] + config,
                    Ok(()),
                )
            },
        },
        Platform::Linux => match m.vars.home {
            None => (stop, Err(SetupError::MissingHome)),
            Some(h) => (stop + remove_binary_spec(p, app, h@) + config, Ok(())),
        },
        Platform::Other => (stop + config, Ok(())),
    }
}

/// Uninstalls `app_type` from the machine `m`: the steps to carry out and
/// the outcome to report.
pub fn uninstall(app_type: &str, m: &Machine) -> (r: Plan)
    requires
        is_plain_segment(app_type@),
    ensures
        crate::steps::plan_view(r) == uninstall_spec(app_type@, *m),
{
    let p = m.platform;
    let stop = stop_and_unregister(app_type, p, &m.vars.home, m.pid);
    let mut steps = stop.steps;
    match p {
        Platform::Windows => {
            let l = match &m.vars.local_appdata {
                Some(l) => l,
                None => {
                    return Plan { steps, outcome: Err(SetupError::MissingLocalAppData) };
                },
            };
            append_steps(&mut steps, remove_binary(p, app_type, l.as_str()));
        },
        Platform::MacOs => {
            let h = match &m.vars.home {
                Some(h) => h,
                None => {
                    return Plan { steps, outcome: Err(SetupError::MissingHome) };
                },
            };
            let bundle = install_dir_in(p, h.as_str(), app_type);
            append_steps(&mut steps, remove_script_files(p, bundle.as_str()));
            let mut last: Vec<Step> = Vec::new();
            push_step(
                &mut last,
                step_if_exists(Action::RemoveDirAll { path: bundle.clone() }, bundle.as_str(), false),
            );
            assert(steps_view(last@) =~= seq![
                guarded(step(ActionView::RemoveDirAll(bundle@)), seq![CondView::Exists(bundle@)]),
            ]);
            append_steps(&mut steps, last);
        },
        Platform::Linux => {
            let h = match &m.vars.home {
                Some(h) => h,
                None => {
                    return Plan { steps, outcome: Err(SetupError::MissingHome) };
                },
            };
            append_steps(&mut steps, remove_binary(p, app_type, h.as_str()));
        },
        Platform::Other => {},
    }
    append_steps(&mut steps, remove_config(app_type, m));
    Plan { steps, outcome: Ok(()) }
}

} // verus!
