//! Showing the settings folder in the desktop's file manager.
use vstd::prelude::*;
use vstd::string::*;
use crate::locations::{extension_part, is_named, parent_path, path_extension, path_parent};
use crate::paths::{config_dir_spec, get_config_path, is_plain_segment, join_path, joined, DirVars, Platform};
use crate::steps::{must, must_step, push_step, steps_view, Action, ActionView, Cond, CondView, Step, StepView};
use crate::text::{owned, views};

verus! {

/// The steps that show the folder `path`: Explorer on Windows; Finder on
/// macOS, which for an app bundle reveals the `.env` inside it (the bundle
/// itself where it holds none); `xdg-open` on Linux where a display is
/// available. A step that fails to start ends the plan.
pub open spec fn open_dir_spec(p: Platform, path: Seq<char>, has_display: bool) -> Seq<StepView> {
    match p {
        Platform::Windows => seq![must(ActionView::Spawn("explorer"@, seq![path]))],
        Platform::MacOs => if extension_part(path) == Some("app"@) {
            let env = joined(p, path, ".env"@);
            seq![
                StepView {
                    action: ActionView::Spawn("open"@, seq!["-R"@, env]),
                    when: seq![CondView::Exists(env)],
                    required: true,
                },
                StepView {
                    action: ActionView::Spawn("open"@, seq!["-R"@, path]),
                    when: seq![CondView::Missing(env)],
                    required: true,
                },
            ]
        } else {
            seq![must(ActionView::Spawn("open"@, seq![path]))]
        },
        Platform::Linux => if has_display {
            seq![must(ActionView::Spawn("xdg-open"@, seq![path]))]
        } else {
            Seq::empty()
        },
        Platform::Other => Seq::empty(),
    }
}

fn spawn_with(program: &str, a: &str, b: &str) -> (r: Action)
    ensures
        r@ == ActionView::Spawn(program@, seq![a@, b@]),
{
    let args = vec![owned(a), owned(b)];
    assert(views(args@) =~= seq![a@, b@]);
    Action::Spawn { program: owned(program), args }
}

fn spawn_on(program: &str, path: &str) -> (r: Action)
    ensures
        r@ == ActionView::Spawn(program@, seq![path@]),
{
    let args = vec![owned(path)];
    assert(views(args@) =~= seq![path@]);
    Action::Spawn { program: owned(program), args }
}

/// The step carrying out `a` where `c` holds; its failure ends the plan.
fn required_when(a: Action, c: Cond) -> (r: Step)
    ensures
        r@ == (StepView { action: a@, when: seq![c@], required: true }),
{
    let ghost cv = c@;
    let r = Step { action: a, when: vec![c], required: true };
    assert(crate::steps::conds_view(r.when@) =~= seq![cv]);
    r
}

/// The steps that show the folder `path` in the file manager of `p`.
pub fn open_dir_in_file_manager(path: &str, p: Platform, has_display: bool) -> (r: Vec<Step>)
    ensures
        steps_view(r@) == open_dir_spec(p, path@, has_display),
{
    let mut steps: Vec<Step> = Vec::new();
    match p {
        Platform::Windows => {
            push_step(&mut steps, must_step(spawn_on("explorer", path)));
        },
        Platform::MacOs => {
            if is_named(&path_extension(path), "app") {
                proof {
                    reveal_strlit(".env");
                }
                let env = join_path(p, path, ".env");
                push_step(&mut steps, required_when(spawn_with("open", "-R", env.as_str()), Cond::Exists(env.clone())));
                push_step(&mut steps, required_when(spawn_with("open", "-R", path), Cond::Missing(env)));
            } else {
                push_step(&mut steps, must_step(spawn_on("open", path)));
            }
        },
        Platform::Linux => {
            if has_display {
                push_step(&mut steps, must_step(spawn_on("xdg-open", path)));
            }
        },
        Platform::Other => {},
    }
    assert(steps_view(steps@) =~= open_dir_spec(p, path@, has_display));
    steps
}

/// What `--config` does for `app`: it prints the path of the configuration
/// file, creates the folder that holds it and shows that folder.
pub open spec fn show_config_spec(app: Seq<char>, p: Platform, v: DirVars, has_display: bool) -> (Seq<char>, Seq<StepView>) {
    let file = joined(p, config_dir_spec(p, v, app), ".env"@);
    match parent_path(file) {
        Some(d) => (file, seq![must(ActionView::CreateDirAll(d))] + open_dir_spec(p, d, has_display)),
        None => (file, Seq::empty()),
    }
}

/// The configuration file's path, to print, and the steps that create and
/// show its folder.
pub fn show_config(app_type: &str, p: Platform, v: &DirVars, has_display: bool) -> (r: (String, Vec<Step>))
    requires
        is_plain_segment(app_type@),
    ensures
        (r.0@, steps_view(r.1@)) == show_config_spec(app_type@, p, *v, has_display),
{
    let file = get_config_path(app_type, p, v);
    let mut steps: Vec<Step> = Vec::new();
    match path_parent(file.as_str()) {
        Some(d) => {
            push_step(&mut steps, must_step(Action::CreateDirAll { path: d.clone() }));
            let more = open_dir_in_file_manager(d.as_str(), p, has_display);
            crate::steps::append_steps(&mut steps, more);
        },
        None => {},
    }
    assert(steps_view(steps@) =~= show_config_spec(app_type@, p, *v, has_display).1);
    (file, steps)
}

} // verus!
