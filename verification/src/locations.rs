//! Where an application is installed, where its launch agent and app
//! bundle lie, and where the `inactive.env` template next to a downloaded
//! copy is looked for.
use vstd::prelude::*;
use vstd::string::*;
use crate::config::opt_view;
use crate::naming::{
    app_name, app_name_spec, binary_name, binary_name_spec, lemma_names_plain, lemma_plain_concat,
    plist_label, plist_label_spec,
};
use crate::paths::{is_plain_segment, join_path, joined, or_empty, DirVars, Platform};
use crate::text::{str_eq, views};
use crate::urls::{concat_str, contains, contains_str};

verus! {

// ---------------------------------------------------------------------------
// Path components, as `std::path::Path` sees them
// ---------------------------------------------------------------------------

/// What `Path::parent` gives for the path `p`, as text.
pub uninterp spec fn parent_path(p: Seq<char>) -> Option<Seq<char>>;

/// What `Path::file_name` gives for the path `p`, as text.
pub uninterp spec fn file_name_part(p: Seq<char>) -> Option<Seq<char>>;

/// What `Path::extension` gives for the path `p`, as text.
pub uninterp spec fn extension_part(p: Seq<char>) -> Option<Seq<char>>;

/// `Path::new(p).parent()` (std). Claims only that the result is the
/// named one for `p`; what a parent is, is left to std.
#[verifier::external_body]
pub(crate) fn path_parent(p: &str) -> (r: Option<String>)
    ensures
        opt_view(r) == parent_path(p@),
{
    match std::path::Path::new(p).parent() {
        Some(q) => Some(q.to_string_lossy().into_owned()),
        None => None,
    }
}

/// `Path::new(p).file_name()` (std). Claims only that the result is the
/// named one for `p`.
#[verifier::external_body]
fn path_file_name(p: &str) -> (r: Option<String>)
    ensures
        opt_view(r) == file_name_part(p@),
{
    match std::path::Path::new(p).file_name() {
        Some(n) => Some(n.to_string_lossy().into_owned()),
        None => None,
    }
}

/// `Path::new(p).extension()` (std). Claims only that the result is the
/// named one for `p`.
#[verifier::external_body]
pub(crate) fn path_extension(p: &str) -> (r: Option<String>)
    ensures
        opt_view(r) == extension_part(p@),
{
    match std::path::Path::new(p).extension() {
        Some(n) => Some(n.to_string_lossy().into_owned()),
        None => None,
    }
}

/// Whether `Path::new(a) == Path::new(b)`: the two paths have the same
/// components.
pub uninterp spec fn same_path(a: Seq<char>, b: Seq<char>) -> bool;

/// `Path::new(a) == Path::new(b)` (std). Claims only that the result is the
/// named one for `a` and `b`.
#[verifier::external_body]
pub(crate) fn path_eq(a: &str, b: &str) -> (r: bool)
    ensures
        r == same_path(a@, b@),
{
    std::path::Path::new(a) == std::path::Path::new(b)
}

pub(crate) fn is_named(part: &Option<String>, name: &str) -> (r: bool)
    ensures
        r == (opt_view(*part) == Some(name@)),
{
    match part {
        Some(s) => str_eq(s.as_str(), name),
        None => false,
    }
}

// ---------------------------------------------------------------------------
// App bundles
// ---------------------------------------------------------------------------

/// The `.app` bundle whose `Contents/MacOS` holds the executable `exe`.
pub open spec fn app_bundle_of(exe: Seq<char>) -> Option<Seq<char>> {
    match parent_path(exe) {
        None => None,
        Some(macos) => if file_name_part(macos) == Some("MacOS"@) {
            match parent_path(macos) {
                None => None,
                Some(contents) => if file_name_part(contents) == Some("Contents"@) {
                    match parent_path(contents) {
                        None => None,
                        Some(app) => if extension_part(app) == Some("app"@) {
                            Some(app)
                        } else {
                            None
                        },
                    }
                } else {
                    None
                },
            }
        } else {
            None
        },
    }
}

/// The app bundle that contains the executable `exe_path`, if it runs from one.
pub fn get_parent_app_dir(exe_path: &str) -> (r: Option<String>)
    ensures
        opt_view(r) == app_bundle_of(exe_path@),
{
    let macos = match path_parent(exe_path) {
        Some(m) => m,
        None => return None,
    };
    if !is_named(&path_file_name(macos.as_str()), "MacOS") {
        return None;
    }
    let contents = match path_parent(macos.as_str()) {
        Some(c) => c,
        None => return None,
    };
    if !is_named(&path_file_name(contents.as_str()), "Contents") {
        return None;
    }
    let app = match path_parent(contents.as_str()) {
        Some(a) => a,
        None => return None,
    };
    if is_named(&path_extension(app.as_str()), "app") {
        Some(app)
    } else {
        None
    }
}

/// For an executable directory inside an app bundle (its text contains
/// `.app/Contents/MacOS`), the bundle: the directory two levels up.
pub open spec fn bundle_root_of(dir: Seq<char>) -> Option<Seq<char>> {
    if contains(dir, ".app/Contents/MacOS"@) {
        match parent_path(dir) {
            Some(contents) => parent_path(contents),
            None => None,
        }
    } else {
        None
    }
}

pub fn bundle_root(exe_dir: &str) -> (r: Option<String>)
    ensures
        opt_view(r) == bundle_root_of(exe_dir@),
{
    if !contains_str(exe_dir, ".app/Contents/MacOS") {
        return None;
    }
    match path_parent(exe_dir) {
        Some(contents) => path_parent(contents.as_str()),
        None => None,
    }
}

// ---------------------------------------------------------------------------
// Installation
// ---------------------------------------------------------------------------

/// `<app name>.app`
pub open spec fn bundle_dir_name(app: Seq<char>) -> Seq<char> {
    app_name_spec(app) + ".app"@
}

/// The installation directory of `app` under `base` (`%LOCALAPPDATA%` on
/// Windows, the home directory on macOS and Linux):
/// `Programs\open-remote-url\<app>`, `Applications/<AppName>.app`,
/// `.local/bin/open-remote-url/<app>`; `./<app>` elsewhere.
pub open spec fn install_dir_under(p: Platform, base: Seq<char>, app: Seq<char>) -> Seq<char> {
    match p {
        Platform::Windows => joined(
            p,
            joined(p, joined(p, base, "Programs"@), "open-remote-url"@),
            app,
        ),
        Platform::MacOs => joined(p, joined(p, base, "Applications"@), bundle_dir_name(app)),
        Platform::Linux => joined(
            p,
            joined(p, joined(p, joined(p, base, ".local"@), "bin"@), "open-remote-url"@),
            app,
        ),
        Platform::Other => joined(p, "."@, app),
    }
}

/// The directory whose variable locates the installation on `p`, unset
/// counting as empty.
pub open spec fn install_base(p: Platform, v: DirVars) -> Seq<char> {
    match p {
        Platform::Windows => or_empty(v.local_appdata),
        _ => or_empty(v.home),
    }
}

pub open spec fn install_dir_spec(p: Platform, v: DirVars, app: Seq<char>) -> Seq<char> {
    install_dir_under(p, install_base(p, v), app)
}

/// The executable of `app` inside its installation directory `dir`.
pub open spec fn exe_in(p: Platform, dir: Seq<char>, app: Seq<char>) -> Seq<char> {
    match p {
        Platform::Windows => joined(p, dir, binary_name_spec(app) + ".exe"@),
        Platform::MacOs => joined(p, joined(p, joined(p, dir, "Contents"@), "MacOS"@), binary_name_spec(app)),
        _ => joined(p, dir, binary_name_spec(app)),
    }
}

pub open spec fn installed_exe_spec(p: Platform, v: DirVars, app: Seq<char>) -> Seq<char> {
    exe_in(p, install_dir_spec(p, v, app), app)
}

pub proof fn lemma_install_segments_plain(app: Seq<char>)
    requires
        is_plain_segment(app),
    ensures
        is_plain_segment(bundle_dir_name(app)),
        is_plain_segment(binary_name_spec(app) + ".exe"@),
{
    lemma_names_plain(app);
    reveal_strlit(".app");
    reveal_strlit(".exe");
    lemma_plain_concat(app_name_spec(app), ".app"@);
    lemma_plain_concat(binary_name_spec(app), ".exe"@);
}

/// The installation directory of `app_type` under `base`.
pub fn install_dir_in(p: Platform, base: &str, app_type: &str) -> (r: String)
    requires
        is_plain_segment(app_type@),
    ensures
        r@ == install_dir_under(p, base@, app_type@),
{
    proof {
        lemma_install_segments_plain(app_type@);
        reveal_strlit("Programs");
        reveal_strlit("open-remote-url");
        reveal_strlit("Applications");
        reveal_strlit(".local");
        reveal_strlit("bin");
    }
    match p {
        Platform::Windows => {
            let d1 = join_path(p, base, "Programs");
            let d2 = join_path(p, d1.as_str(), "open-remote-url");
            join_path(p, d2.as_str(), app_type)
        },
        Platform::MacOs => {
            let d1 = join_path(p, base, "Applications");
            let bundle = concat_str(app_name(app_type), ".app");
            join_path(p, d1.as_str(), bundle.as_str())
        },
        Platform::Linux => {
            let d1 = join_path(p, base, ".local");
            let d2 = join_path(p, d1.as_str(), "bin");
            let d3 = join_path(p, d2.as_str(), "open-remote-url");
            join_path(p, d3.as_str(), app_type)
        },
        Platform::Other => {
            proof {
                reveal_strlit(".");
            }
            join_path(p, ".", app_type)
        },
    }
}

/// Returns the directory where the app is installed on this platform.
pub fn install_dir(app_type: &str, p: Platform, v: &DirVars) -> (r: String)
    requires
        is_plain_segment(app_type@),
    ensures
        r@ == install_dir_spec(p, *v, app_type@),
{
    let var = match p {
        Platform::Windows => &v.local_appdata,
        _ => &v.home,
    };
    let base = match var {
        Some(s) => s.clone(),
        None => String::new(),
    };
    install_dir_in(p, base.as_str(), app_type)
}

/// The executable of `app_type` inside its installation directory `dir`.
pub fn exe_path_in(p: Platform, dir: &str, app_type: &str) -> (r: String)
    requires
        is_plain_segment(app_type@),
    ensures
        r@ == exe_in(p, dir@, app_type@),
{
    proof {
        lemma_install_segments_plain(app_type@);
        lemma_names_plain(app_type@);
        reveal_strlit("Contents");
        reveal_strlit("MacOS");
    }
    match p {
        Platform::Windows => {
            let exe = concat_str(binary_name(app_type), ".exe");
            join_path(p, dir, exe.as_str())
        },
        Platform::MacOs => {
            let d1 = join_path(p, dir, "Contents");
            let d2 = join_path(p, d1.as_str(), "MacOS");
            join_path(p, d2.as_str(), binary_name(app_type))
        },
        _ => join_path(p, dir, binary_name(app_type)),
    }
}

/// Returns the full path to the installed executable.
pub fn installed_exe_path(app_type: &str, p: Platform, v: &DirVars) -> (r: String)
    requires
        is_plain_segment(app_type@),
    ensures
        r@ == installed_exe_spec(p, *v, app_type@),
{
    let dir = install_dir(app_type, p, v);
    exe_path_in(p, dir.as_str(), app_type)
}

/// `~/Library/LaunchAgents/<label>.plist` for the home directory `home`.
pub open spec fn launchagent_plist_in(home: Seq<char>, app: Seq<char>) -> Seq<char> {
    let p = Platform::MacOs;
    joined(p, joined(p, joined(p, home, "Library"@), "LaunchAgents"@), plist_label_spec(app) + ".plist"@)
}

/// Path to this app's per-user launch agent; `None` where `HOME` is unset.
pub fn launchagent_plist_path(app_type: &str, home: &Option<String>) -> (r: Option<String>)
    requires
        is_plain_segment(app_type@),
    ensures
        opt_view(r) == match *home {
            Some(h) => Some(launchagent_plist_in(h@, app_type@)),
            None => None::<Seq<char>>,
        },
{
    match home {
        Some(h) => {
            proof {
                lemma_names_plain(app_type@);
                reveal_strlit("Library");
                reveal_strlit("LaunchAgents");
                reveal_strlit(".plist");
                lemma_plain_concat(plist_label_spec(app_type@), ".plist"@);
            }
            let p = Platform::MacOs;
            let d1 = join_path(p, h.as_str(), "Library");
            let d2 = join_path(p, d1.as_str(), "LaunchAgents");
            let label = plist_label(app_type);
            let file = concat_str(label.as_str(), ".plist");
            Some(join_path(p, d2.as_str(), file.as_str()))
        },
        None => None,
    }
}

/// Path to this app's installed bundle (`~/Applications/<AppName>.app`);
/// `None` where `HOME` is unset.
pub fn installed_app_bundle_path(app_type: &str, home: &Option<String>) -> (r: Option<String>)
    requires
        is_plain_segment(app_type@),
    ensures
        opt_view(r) == match *home {
            Some(h) => Some(install_dir_under(Platform::MacOs, h@, app_type@)),
            None => None::<Seq<char>>,
        },
{
    match home {
        Some(h) => Some(install_dir_in(Platform::MacOs, h.as_str(), app_type)),
        None => None,
    }
}

// ---------------------------------------------------------------------------
// The `inactive.env` template
// ---------------------------------------------------------------------------

/// Where to look for `inactive.env`: the first of `candidates` that exists,
/// else `fallback`.
#[derive(Debug, Clone, PartialEq, Eq)]
pub struct InactiveEnvSearch {
    pub candidates: Vec<String>,
    pub fallback: String,
}

/// The executable runs from a build directory of the source tree.
pub open spec fn in_build_dir(d: Seq<char>) -> bool {
    ||| contains(d, "target/release"@)
    ||| contains(d, "target/debug"@)
    ||| contains(d, "target/x86_64"@)
    ||| contains(d, "target/aarch64"@)
}

pub open spec fn template_in(p: Platform, dir: Seq<char>) -> Seq<char> {
    joined(p, dir, "inactive.env"@)
}

pub open spec fn app_template_in(p: Platform, dir: Seq<char>, app: Seq<char>) -> Seq<char> {
    joined(p, joined(p, dir, app), "inactive.env"@)
}

/// The directory that holds the app bundle running from `exe_dir`, given
/// where that bundle really lies, `real_root` (before macOS App
/// Translocation moved it).
pub open spec fn bundle_parent(exe_dir: Seq<char>, real_root: Option<Seq<char>>) -> Option<Seq<char>> {
    if bundle_root_of(exe_dir) is Some {
        match real_root {
            Some(r) => parent_path(r),
            None => None,
        }
    } else {
        None
    }
}

/// The search order for `inactive.env`, as candidates and fallback:
/// `<exe dir>/<app>/inactive.env` first; for an executable inside an app
/// bundle, then `<bundle's dir>/<app>/inactive.env` and
/// `<bundle's dir>/inactive.env`, falling back to the first of these two;
/// otherwise `<exe dir>/inactive.env` (not from a build directory),
/// `<cwd>/<app>/inactive.env` and `<cwd>/inactive.env`, falling back to the last.
pub open spec fn inactive_env_search(
    p: Platform,
    app: Seq<char>,
    exe_dir: Option<Seq<char>>,
    real_root: Option<Seq<char>>,
    cwd: Seq<char>,
) -> (Seq<Seq<char>>, Seq<char>) {
    let cwd_app = app_template_in(p, cwd, app);
    let cwd_plain = template_in(p, cwd);
    match exe_dir {
        None => (seq![cwd_app, cwd_plain], cwd_plain),
        Some(d) => {
            let own = app_template_in(p, d, app);
            match bundle_parent(d, real_root) {
                Some(ap) => (
                    seq![own, app_template_in(p, ap, app), template_in(p, ap)],
                    app_template_in(p, ap, app),
                ),
                None => if in_build_dir(d) {
                    (seq![own, cwd_app, cwd_plain], cwd_plain)
                } else {
                    (seq![own, template_in(p, d), cwd_app, cwd_plain], cwd_plain)
                },
            }
        },
    }
}

fn template_path(p: Platform, dir: &str) -> (r: String)
    ensures
        r@ == template_in(p, dir@),
{
    proof {
        reveal_strlit("inactive.env");
    }
    join_path(p, dir, "inactive.env")
}

fn app_template_path(p: Platform, dir: &str, app_type: &str) -> (r: String)
    requires
        is_plain_segment(app_type@),
    ensures
        r@ == app_template_in(p, dir@, app_type@),
{
    let d = join_path(p, dir, app_type);
    template_path(p, d.as_str())
}

/// Where the `inactive.env` template of `app_type` is looked for, given the
/// directory of the running executable (`None` where it cannot be had), the
/// real location of the app bundle it runs from (the caller resolves
/// `bundle_root(exe_dir)` past macOS App Translocation; `None` where it is
/// not in a bundle) and the working directory.
pub fn find_inactive_env_path(
    app_type: &str,
    p: Platform,
    exe_dir: &Option<String>,
    real_root: &Option<String>,
    cwd: &str,
) -> (r: InactiveEnvSearch)
    requires
        is_plain_segment(app_type@),
    ensures
        (r.candidates@.map_values(|s: String| s@), r.fallback@) == inactive_env_search(
            p,
            app_type@,
            opt_view(*exe_dir),
            opt_view(*real_root),
            cwd@,
        ),
{
    let cwd_app = app_template_path(p, cwd, app_type);
    let cwd_plain = template_path(p, cwd);
    let mut candidates: Vec<String> = Vec::new();
    match exe_dir {
        None => {
            let fallback = cwd_plain.clone();
            candidates.push(cwd_app);
            candidates.push(cwd_plain);
            let r = InactiveEnvSearch { candidates, fallback };
            assert(r.candidates@.map_values(|s: String| s@) =~= inactive_env_search(
                p,
                app_type@,
                opt_view(*exe_dir),
                opt_view(*real_root),
                cwd@,
            ).0);
            r
        },
        Some(d) => {
            let own = app_template_path(p, d.as_str(), app_type);
            candidates.push(own);
            let in_bundle = bundle_root(d.as_str()).is_some();
            let near = if in_bundle {
                match real_root {
                    Some(root) => path_parent(root.as_str()),
                    None => None,
                }
            } else {
                None
            };
            match near {
                Some(ap) => {
                    let near_app = app_template_path(p, ap.as_str(), app_type);
                    let fallback = near_app.clone();
                    candidates.push(near_app);
                    candidates.push(template_path(p, ap.as_str()));
                    let r = InactiveEnvSearch { candidates, fallback };
                    assert(r.candidates@.map_values(|s: String| s@) =~= inactive_env_search(
                        p,
                        app_type@,
                        opt_view(*exe_dir),
                        opt_view(*real_root),
                        cwd@,
                    ).0);
                    r
                },
                None => {
                    let building = contains_str(d.as_str(), "target/release")
                        || contains_str(d.as_str(), "target/debug")
                        || contains_str(d.as_str(), "target/x86_64")
                        || contains_str(d.as_str(), "target/aarch64");
                    if !building {
                        candidates.push(template_path(p, d.as_str()));
                    }
                    let fallback = cwd_plain.clone();
                    candidates.push(cwd_app);
                    candidates.push(cwd_plain);
                    let r = InactiveEnvSearch { candidates, fallback };
                    assert(r.candidates@.map_values(|s: String| s@) =~= inactive_env_search(
                        p,
                        app_type@,
                        opt_view(*exe_dir),
                        opt_view(*real_root),
                        cwd@,
                    ).0);
                    r
                },
            }
        },
    }
}

// ---------------------------------------------------------------------------
// Which settings file is read
// ---------------------------------------------------------------------------

/// `dir` and the directories above it, nearest first, as far as
/// `Path::parent` leads (each step to a shorter path).
pub open spec fn dirs_up(dir: Seq<char>) -> Seq<Seq<char>>
    decreases dir.len(),
{
    match parent_path(dir) {
        Some(q) => if q.len() < dir.len() {
            seq![dir] + dirs_up(q)
        } else {
            seq![dir]
        },
        None => seq![dir],
    }
}

/// The `.env` of each of `dirs`.
pub open spec fn env_in_each(p: Platform, dirs: Seq<Seq<char>>) -> Seq<Seq<char>> {
    dirs.map_values(|d: Seq<char>| joined(p, d, ".env"@))
}

/// The settings files, most preferred first: the installed one in the
/// configuration directory of `app`; the `.env` of the working directory
/// `cwd` or of the directories above it (development and command-line
/// use); and the `inactive.env` template `template` shipped with the
/// program.
pub open spec fn env_files_spec(p: Platform, v: DirVars, app: Seq<char>, cwd: Seq<char>, template: Seq<char>) -> Seq<Seq<char>> {
    seq![joined(p, crate::paths::config_dir_spec(p, v, app), ".env"@)] + env_in_each(p, dirs_up(cwd))
        + seq![template]
}

/// The installed configuration file is preferred to every other settings
/// file; the working directory's `.env` comes next, and the `inactive.env`
/// template last.
pub proof fn lemma_settings_priority(p: Platform, v: DirVars, app: Seq<char>, cwd: Seq<char>, template: Seq<char>)
    ensures
        env_files_spec(p, v, app, cwd, template).len() >= 3,
        env_files_spec(p, v, app, cwd, template)[0] == joined(p, crate::paths::config_dir_spec(p, v, app), ".env"@),
        env_files_spec(p, v, app, cwd, template)[1] == joined(p, cwd, ".env"@),
        env_files_spec(p, v, app, cwd, template).last() == template,
{
    let ups = dirs_up(cwd);
    assert(ups.len() >= 1 && ups[0] == cwd);
    assert(env_in_each(p, ups)[0] == joined(p, cwd, ".env"@));
}

/// The files whose first existing one is read for the settings of
/// `app_type`, its values taking precedence over the environment.
pub fn env_files(app_type: &str, p: Platform, v: &DirVars, cwd: &str, template: &str) -> (r: Vec<String>)
    requires
        is_plain_segment(app_type@),
    ensures
        views(r@) == env_files_spec(p, *v, app_type@, cwd@, template@),
{
    proof {
        reveal_strlit(".env");
    }
    let mut r: Vec<String> = Vec::new();
    r.push(crate::paths::get_config_path(app_type, p, v));
    let ghost head = views(r@);
    let mut dir = String::from_str(cwd);
    let ghost mut done: Seq<Seq<char>> = Seq::empty();
    assert(views(r@) =~= head + env_in_each(p, done));
    loop
        invariant_except_break
            views(r@) == head + env_in_each(p, done),
            done + dirs_up(dir@) == dirs_up(cwd@),
        invariant
            is_plain_segment(".env"@),
            head == seq![joined(p, crate::paths::config_dir_spec(p, *v, app_type@), ".env"@)],
        ensures
            views(r@) == head + env_in_each(p, dirs_up(cwd@)),
        decreases dir@.len(),
    {
        let here = join_path(p, dir.as_str(), ".env");
        let ghost prev = views(r@);
        let ghost hv = here@;
        r.push(here);
        assert(views(r@) =~= prev.push(hv));
        let ghost d = dir@;
        proof {
            assert(env_in_each(p, done.push(d)) =~= env_in_each(p, done).push(joined(p, d, ".env"@)));
            done = done.push(d);
        }
        assert(views(r@) =~= head + env_in_each(p, done));
        match path_parent(dir.as_str()) {
            Some(q) => {
                if q.unicode_len() < dir.unicode_len() {
                    assert(dirs_up(d) == seq![d] + dirs_up(q@));
                    assert(done + dirs_up(q@) =~= (done.drop_last() + seq![d]) + dirs_up(q@));
                    dir = q;
                } else {
                    assert(dirs_up(d) == seq![d]);
                    assert(done =~= dirs_up(cwd@));
                    break;
                }
            },
            None => {
                assert(dirs_up(d) == seq![d]);
                assert(done =~= dirs_up(cwd@));
                break;
            },
        }
    }
    r.push(String::from_str(template));
    assert(views(r@) =~= env_files_spec(p, *v, app_type@, cwd@, template@));
    r
}

} // verus!
