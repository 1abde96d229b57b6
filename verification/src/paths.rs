//! File-system locations of the configuration, as text: joining path
//! segments the way `PathBuf::join` does for a plain relative segment.
use vstd::prelude::*;
use vstd::string::*;
use crate::text::{owned, push_char};

verus! {

/// The operating system whose path rules and locations apply.
#[derive(Clone, Copy, PartialEq, Eq, Structural, Debug)]
pub enum Platform {
    Windows,
    MacOs,
    Linux,
    Other,
}

/// Whether `c` separates path components on `p` (`/`, and `\` on Windows).
pub open spec fn is_separator(p: Platform, c: char) -> bool {
    c == '/' || (p == Platform::Windows && c == '\\')
}

/// The separator that joining inserts on `p`.
pub open spec fn separator(p: Platform) -> char {
    if p == Platform::Windows {
        '\\'
    } else {
        '/'
    }
}

pub open spec fn is_ascii_alpha(c: char) -> bool {
    ('a' <= c && c <= 'z') || ('A' <= c && c <= 'Z')
}

/// A Windows path that is only a drive prefix such as `C:`.
pub open spec fn is_bare_drive(p: Platform, s: Seq<char>) -> bool {
    p == Platform::Windows && s.len() == 2 && s[1] == ':' && is_ascii_alpha(s[0])
}

/// A single relative path segment: no separators and no drive colon.
pub open spec fn is_plain_segment(s: Seq<char>) -> bool {
    forall|i: int| 0 <= i < s.len() ==> #[trigger] s[i] != '/' && s[i] != '\\' && s[i] != ':'
}

/// Whether joining onto `base` inserts a separator: `base` is not empty,
/// does not already end with one, and is not a bare drive.
pub open spec fn needs_separator(p: Platform, base: Seq<char>) -> bool {
    base.len() > 0 && !is_separator(p, base.last()) && !is_bare_drive(p, base)
}

/// `base` joined with the plain segment `part`.
pub open spec fn joined(p: Platform, base: Seq<char>, part: Seq<char>) -> Seq<char> {
    if needs_separator(p, base) {
        base.push(separator(p)) + part
    } else {
        base + part
    }
}

fn is_sep(p: Platform, c: char) -> (r: bool)
    ensures
        r == is_separator(p, c),
{
    c == '/' || (p == Platform::Windows && c == '\\')
}

/// `PathBuf::from(base).join(part)` for a plain relative segment.
pub fn join_path(p: Platform, base: &str, part: &str) -> (r: String)
    requires
        is_plain_segment(part@),
    ensures
        r@ == joined(p, base@, part@),
{
    let n = base.unicode_len();
    let mut out = owned(base);
    let need = if n == 0 {
        false
    } else {
        let last = base.get_char(n - 1);
        let bare_drive = p == Platform::Windows && n == 2 && base.get_char(1) == ':'
            && ({
            let c = base.get_char(0);
            ('a' <= c && c <= 'z') || ('A' <= c && c <= 'Z')
        });
        !is_sep(p, last) && !bare_drive
    };
    if need {
        let sep = if p == Platform::Windows {
            '\\'
        } else {
            '/'
        };
        push_char(&mut out, sep);
    }
    out.append(part);
    out
}

/// The values of the environment variables that locate the configuration
/// and the installation (`None` where unset).
#[derive(Debug, Clone, Default)]
pub struct DirVars {
    pub appdata: Option<String>,
    pub local_appdata: Option<String>,
    pub userprofile: Option<String>,
    pub home: Option<String>,
    pub xdg_config_home: Option<String>,
}

pub open spec fn or_empty(v: Option<String>) -> Seq<char> {
    match v {
        Some(s) => s@,
        None => Seq::empty(),
    }
}

/// The directory under which each application keeps its configuration
/// directory: `%APPDATA%\open-remote-url` (or
/// `%USERPROFILE%\AppData\Roaming\open-remote-url`), `~/Applications`
/// (where the app bundles are installed), `$XDG_CONFIG_HOME/open-remote-url`
/// (or `~/.config/open-remote-url`), and `.` elsewhere.
pub open spec fn config_root_spec(p: Platform, v: DirVars) -> Seq<char> {
    match p {
        Platform::Windows => match v.appdata {
            Some(a) => joined(p, a@, "open-remote-url"@),
            None => joined(
                p,
                joined(p, joined(p, or_empty(v.userprofile), "AppData"@), "Roaming"@),
                "open-remote-url"@,
            ),
        },
        Platform::MacOs => joined(p, or_empty(v.home), "Applications"@),
        Platform::Linux => match v.xdg_config_home {
            Some(x) => joined(p, x@, "open-remote-url"@),
            None => joined(p, joined(p, or_empty(v.home), ".config"@), "open-remote-url"@),
        },
        Platform::Other => "."@,
    }
}

/// Where the configuration directory of `app` lies on `p`: a directory
/// named after `app` under the configuration root, except on macOS, where
/// the configuration lives in the installed app bundle
/// (`~/Applications/<AppName>.app`).
pub open spec fn config_dir_spec(p: Platform, v: DirVars, app: Seq<char>) -> Seq<char> {
    match p {
        Platform::MacOs => crate::locations::install_dir_under(p, or_empty(v.home), app),
        _ => joined(p, config_root_spec(p, v), app),
    }
}

fn var_or_empty(v: &Option<String>) -> (r: String)
    ensures
        r@ == or_empty(*v),
{
    match v {
        Some(s) => s.clone(),
        None => String::new(),
    }
}

/// The directory under which each application keeps its configuration.
pub fn config_root(p: Platform, v: &DirVars) -> (r: String)
    ensures
        r@ == config_root_spec(p, *v),
{
    proof {
        reveal_strlit("open-remote-url");
        reveal_strlit("AppData");
        reveal_strlit("Roaming");
        reveal_strlit("Applications");
        reveal_strlit(".config");
    }
    match p {
        Platform::Windows => match &v.appdata {
            Some(a) => join_path(p, a.as_str(), "open-remote-url"),
            None => {
                let base = var_or_empty(&v.userprofile);
                let d1 = join_path(p, base.as_str(), "AppData");
                let d2 = join_path(p, d1.as_str(), "Roaming");
                join_path(p, d2.as_str(), "open-remote-url")
            },
        },
        Platform::MacOs => {
            let base = var_or_empty(&v.home);
            join_path(p, base.as_str(), "Applications")
        },
        Platform::Linux => match &v.xdg_config_home {
            Some(x) => join_path(p, x.as_str(), "open-remote-url"),
            None => {
                let base = var_or_empty(&v.home);
                let d1 = join_path(p, base.as_str(), ".config");
                join_path(p, d1.as_str(), "open-remote-url")
            },
        },
        Platform::Other => String::from_str("."),
    }
}

/// Returns the directory holding the configuration of `app_type` (an unset
/// `USERPROFILE` or `HOME` counts as empty).
pub fn get_config_dir(app_type: &str, p: Platform, v: &DirVars) -> (r: String)
    requires
        is_plain_segment(app_type@),
    ensures
        r@ == config_dir_spec(p, *v, app_type@),
{
    match p {
        Platform::MacOs => {
            let base = var_or_empty(&v.home);
            crate::locations::install_dir_in(p, base.as_str(), app_type)
        },
        _ => {
            let root = config_root(p, v);
            join_path(p, root.as_str(), app_type)
        },
    }
}

/// The configuration file of `app_type`: `.env` in its configuration directory.
pub fn get_config_path(app_type: &str, p: Platform, v: &DirVars) -> (r: String)
    requires
        is_plain_segment(app_type@),
    ensures
        r@ == joined(p, config_dir_spec(p, *v, app_type@), ".env"@),
{
    let dir = get_config_dir(app_type, p, v);
    proof {
        reveal_strlit(".env");
    }
    join_path(p, dir.as_str(), ".env")
}

} // verus!
