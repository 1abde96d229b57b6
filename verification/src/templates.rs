//! The files that installation writes: the app bundle's `Info.plist`, the
//! launch agent, the systemd unit and the desktop entry.
use vstd::prelude::*;
use vstd::string::*;
use crate::text::owned;

verus! {

/// `s` followed by `t`, in place.
pub fn append_str(s: &mut String, t: &str)
    ensures
        final(s)@ == old(s)@ + t@,
{
    s.append(t);
}

// ---------------------------------------------------------------------------
// Info.plist
// ---------------------------------------------------------------------------

pub open spec fn plist_open() -> Seq<char> {
    "<?xml version=\"1.0\" encoding=\"UTF-8\"?>\n<!DOCTYPE plist PUBLIC \"-//Apple//DTD PLIST 1.0//EN\" \"http://www.apple.com/DTDs/PropertyList-1.0.dtd\">\n<plist version=\"1.0\">\n<dict>\n    <key>CFBundleIdentifier</key>\n    <string>"@
}

pub open spec fn plist_after_id() -> Seq<char> {
    "</string>\n    <key>CFBundleName</key>\n    <string>"@
}

pub open spec fn plist_after_name() -> Seq<char> {
    "</string>\n    <key>CFBundlePackageType</key>\n    <string>APPL</string>\n    <key>CFBundleSignature</key>\n    <string>????</string>\n    <key>CFBundleExecutable</key>\n    <string>"@
}

pub open spec fn plist_after_exe() -> Seq<char> {
    "</string>\n    <key>LSUIElement</key>\n    <true/>\n"@
}

/// Launch Services starts a fresh process on each open of the bundle.
pub open spec fn plist_multiple_instances() -> Seq<char> {
    "    <key>LSMultipleInstancesProhibited</key>\n    <false/>\n"@
}

pub open spec fn plist_close() -> Seq<char> {
    "</dict>\n</plist>\n"@
}

/// The keys every generated `Info.plist` starts with: the bundle
/// identifier `id`, the bundle name `name`, the executable `exe`, and that
/// the app shows no Dock icon.
pub open spec fn plist_head(id: Seq<char>, name: Seq<char>, exe: Seq<char>) -> Seq<char> {
    plist_open() + id + plist_after_id() + name + plist_after_name() + exe + plist_after_exe()
}

pub fn plist_head_text(id: &str, name: &str, exe: &str) -> (r: String)
    ensures
        r@ == plist_head(id@, name@, exe@),
{
    let mut s = owned(
        "<?xml version=\"1.0\" encoding=\"UTF-8\"?>\n<!DOCTYPE plist PUBLIC \"-//Apple//DTD PLIST 1.0//EN\" \"http://www.apple.com/DTDs/PropertyList-1.0.dtd\">\n<plist version=\"1.0\">\n<dict>\n    <key>CFBundleIdentifier</key>\n    <string>",
    );
    append_str(&mut s, id);
    append_str(&mut s, "</string>\n    <key>CFBundleName</key>\n    <string>");
    append_str(&mut s, name);
    append_str(
        &mut s,
        "</string>\n    <key>CFBundlePackageType</key>\n    <string>APPL</string>\n    <key>CFBundleSignature</key>\n    <string>????</string>\n    <key>CFBundleExecutable</key>\n    <string>",
    );
    append_str(&mut s, exe);
    append_str(&mut s, "</string>\n    <key>LSUIElement</key>\n    <true/>\n");
    s
}

/// The URL schemes and document types that make the bundle a web browser.
pub open spec fn plist_browser_types() -> Seq<char> {
    "    <key>CFBundleURLTypes</key>\n    <array>\n        <dict>\n            <key>CFBundleURLName</key>\n            <string>Web site URL</string>\n            <key>CFBundleURLSchemes</key>\n            <array>\n                <string>http</string>\n                <string>https</string>\n            </array>\n        </dict>\n    </array>\n    <key>CFBundleDocumentTypes</key>\n    <array>\n        <dict>\n            <key>CFBundleTypeName</key>\n            <string>HTML Document</string>\n            <key>CFBundleTypeRole</key>\n            <string>Viewer</string>\n            <key>LSItemContentTypes</key>\n            <array>\n                <string>public.html</string>\n                <string>public.xhtml</string>\n            </array>\n        </dict>\n    </array>\n"@
}

/// The `Info.plist` that installation writes for a bundle built around a
/// bare executable; `browser` adds the http/https URL schemes and HTML
/// document types.
pub open spec fn bundle_plist(id: Seq<char>, name: Seq<char>, exe: Seq<char>, browser: bool) -> Seq<char> {
    if browser {
        plist_head(id, name, exe) + plist_multiple_instances() + plist_browser_types() + plist_close()
    } else {
        plist_head(id, name, exe) + plist_multiple_instances() + plist_close()
    }
}

pub fn bundle_plist_text(id: &str, name: &str, exe: &str, browser: bool) -> (r: String)
    ensures
        r@ == bundle_plist(id@, name@, exe@, browser),
{
    let mut s = plist_head_text(id, name, exe);
    append_str(&mut s, "    <key>LSMultipleInstancesProhibited</key>\n    <false/>\n");
    if browser {
        append_str(
            &mut s,
            "    <key>CFBundleURLTypes</key>\n    <array>\n        <dict>\n            <key>CFBundleURLName</key>\n            <string>Web site URL</string>\n            <key>CFBundleURLSchemes</key>\n            <array>\n                <string>http</string>\n                <string>https</string>\n            </array>\n        </dict>\n    </array>\n    <key>CFBundleDocumentTypes</key>\n    <array>\n        <dict>\n            <key>CFBundleTypeName</key>\n            <string>HTML Document</string>\n            <key>CFBundleTypeRole</key>\n            <string>Viewer</string>\n            <key>LSItemContentTypes</key>\n            <array>\n                <string>public.html</string>\n                <string>public.xhtml</string>\n            </array>\n        </dict>\n    </array>\n",
        );
    }
    append_str(&mut s, "</dict>\n</plist>\n");
    s
}

// ---------------------------------------------------------------------------
// Launch agent
// ---------------------------------------------------------------------------

/// The launch agent `label` that keeps `exe --daemon` running, started in `dir`.
pub open spec fn launch_agent_plist(label: Seq<char>, exe: Seq<char>, dir: Seq<char>) -> Seq<char> {
    "<?xml version=\"1.0\" encoding=\"UTF-8\"?>\n<!DOCTYPE plist PUBLIC \"-//Apple//DTD PLIST 1.0//EN\" \"http://www.apple.com/DTDs/PropertyList-1.0.dtd\">\n<plist version=\"1.0\">\n<dict>\n    <key>Label</key>\n    <string>"@
        + label
        + "</string>\n    <key>ProgramArguments</key>\n    <array>\n        <string>"@
        + exe
        + "</string>\n        <string>--daemon</string>\n    </array>\n    <key>WorkingDirectory</key>\n    <string>"@
        + dir
        + "</string>\n    <key>RunAtLoad</key>\n    <true/>\n    <key>KeepAlive</key>\n    <true/>\n</dict>\n</plist>\n"@
}

/// The launch agent runs the given executable with exactly one argument,
/// `--daemon`: its `ProgramArguments` array lists `exe` and then
/// `--daemon`, and closes.
pub proof fn lemma_launch_agent_runs_daemon(label: Seq<char>, exe: Seq<char>, dir: Seq<char>)
    ensures
        crate::urls::contains(
            launch_agent_plist(label, exe, dir),
            "<key>ProgramArguments</key>\n    <array>\n        <string>"@ + exe
                + "</string>\n        <string>--daemon</string>\n    </array>"@,
        ),
        crate::urls::contains(
            launch_agent_plist(label, exe, dir),
            "<key>RunAtLoad</key>\n    <true/>\n    <key>KeepAlive</key>\n    <true/>"@,
        ),
{
    reveal_strlit("</string>\n    <key>ProgramArguments</key>\n    <array>\n        <string>");
    reveal_strlit("</string>\n    ");
    reveal_strlit("<key>ProgramArguments</key>\n    <array>\n        <string>");
    reveal_strlit(
        "</string>\n        <string>--daemon</string>\n    </array>\n    <key>WorkingDirectory</key>\n    <string>",
    );
    reveal_strlit("</string>\n        <string>--daemon</string>\n    </array>");
    reveal_strlit("\n    <key>WorkingDirectory</key>\n    <string>");
    let head = "<?xml version=\"1.0\" encoding=\"UTF-8\"?>\n<!DOCTYPE plist PUBLIC \"-//Apple//DTD PLIST 1.0//EN\" \"http://www.apple.com/DTDs/PropertyList-1.0.dtd\">\n<plist version=\"1.0\">\n<dict>\n    <key>Label</key>\n    <string>"@;
    let tail = "</string>\n    <key>RunAtLoad</key>\n    <true/>\n    <key>KeepAlive</key>\n    <true/>\n</dict>\n</plist>\n"@;
    let open = "<key>ProgramArguments</key>\n    <array>\n        <string>"@;
    let close = "</string>\n        <string>--daemon</string>\n    </array>"@;
    let after = "\n    <key>WorkingDirectory</key>\n    <string>"@;
    assert("</string>\n    <key>ProgramArguments</key>\n    <array>\n        <string>"@ =~= "</string>\n    "@ + open);
    assert("</string>\n        <string>--daemon</string>\n    </array>\n    <key>WorkingDirectory</key>\n    <string>"@
        =~= close + after);
    let x = head + label + "</string>\n    "@;
    let p = open + exe + close;
    let y = after + dir + tail;
    assert(launch_agent_plist(label, exe, dir) =~= x + p + y);
    crate::urls::lemma_occurs_between(x, p, y);
    reveal_strlit("</string>\n    <key>RunAtLoad</key>\n    <true/>\n    <key>KeepAlive</key>\n    <true/>\n</dict>\n</plist>\n");
    reveal_strlit("</string>\n    ");
    reveal_strlit("<key>RunAtLoad</key>\n    <true/>\n    <key>KeepAlive</key>\n    <true/>");
    reveal_strlit("\n</dict>\n</plist>\n");
    let run = "<key>RunAtLoad</key>\n    <true/>\n    <key>KeepAlive</key>\n    <true/>"@;
    let end = "\n</dict>\n</plist>\n"@;
    assert(tail =~= "</string>\n    "@ + run + end);
    let x3 = x + p + after + dir + "</string>\n    "@;
    assert(launch_agent_plist(label, exe, dir) =~= x3 + run + end);
    crate::urls::lemma_occurs_between(x3, run, end);
}

pub fn launch_agent_text(label: &str, exe: &str, dir: &str) -> (r: String)
    ensures
        r@ == launch_agent_plist(label@, exe@, dir@),
{
    let mut s = owned(
        "<?xml version=\"1.0\" encoding=\"UTF-8\"?>\n<!DOCTYPE plist PUBLIC \"-//Apple//DTD PLIST 1.0//EN\" \"http://www.apple.com/DTDs/PropertyList-1.0.dtd\">\n<plist version=\"1.0\">\n<dict>\n    <key>Label</key>\n    <string>",
    );
    append_str(&mut s, label);
    append_str(&mut s, "</string>\n    <key>ProgramArguments</key>\n    <array>\n        <string>");
    append_str(&mut s, exe);
    append_str(
        &mut s,
        "</string>\n        <string>--daemon</string>\n    </array>\n    <key>WorkingDirectory</key>\n    <string>",
    );
    append_str(&mut s, dir);
    append_str(
        &mut s,
        "</string>\n    <key>RunAtLoad</key>\n    <true/>\n    <key>KeepAlive</key>\n    <true/>\n</dict>\n</plist>\n",
    );
    s
}

// ---------------------------------------------------------------------------
// systemd unit and desktop entry
// ---------------------------------------------------------------------------

/// The systemd user unit that keeps `exe --daemon` of `app` running, started in `dir`.
pub open spec fn systemd_unit(app: Seq<char>, exe: Seq<char>, dir: Seq<char>) -> Seq<char> {
    "[Unit]\nDescription=Open Remote URL "@ + app + " Daemon\nAfter=network.target\n\n[Service]\nExecStart="@
        + exe
        + " --daemon\nWorkingDirectory="@
        + dir
        + "\nRestart=always\n\n[Install]\nWantedBy=default.target\n"@
}

/// The systemd unit starts the given executable with the single argument
/// `--daemon`, and restarts it whenever it stops.
pub proof fn lemma_systemd_unit_runs_daemon(app: Seq<char>, exe: Seq<char>, dir: Seq<char>)
    ensures
        crate::urls::contains(systemd_unit(app, exe, dir), "\nExecStart="@ + exe + " --daemon\n"@),
        crate::urls::contains(systemd_unit(app, exe, dir), "\nRestart=always\n"@),
{
    reveal_strlit(" Daemon\nAfter=network.target\n\n[Service]\nExecStart=");
    reveal_strlit(" Daemon\nAfter=network.target\n\n[Service]");
    reveal_strlit("\nExecStart=");
    reveal_strlit(" --daemon\nWorkingDirectory=");
    reveal_strlit(" --daemon\n");
    reveal_strlit("WorkingDirectory=");
    reveal_strlit("\nRestart=always\n\n[Install]\nWantedBy=default.target\n");
    reveal_strlit("\nRestart=always\n");
    reveal_strlit("\n[Install]\nWantedBy=default.target\n");
    let head = "[Unit]\nDescription=Open Remote URL "@ + app + " Daemon\nAfter=network.target\n\n[Service]"@;
    assert(" Daemon\nAfter=network.target\n\n[Service]\nExecStart="@ =~= " Daemon\nAfter=network.target\n\n[Service]"@
        + "\nExecStart="@);
    assert(" --daemon\nWorkingDirectory="@ =~= " --daemon\n"@ + "WorkingDirectory="@);
    assert("\nRestart=always\n\n[Install]\nWantedBy=default.target\n"@ =~= "\nRestart=always\n"@
        + "\n[Install]\nWantedBy=default.target\n"@);
    let p1 = "\nExecStart="@ + exe + " --daemon\n"@;
    let y1 = "WorkingDirectory="@ + dir + "\nRestart=always\n\n[Install]\nWantedBy=default.target\n"@;
    assert(systemd_unit(app, exe, dir) =~= head + p1 + y1);
    crate::urls::lemma_occurs_between(head, p1, y1);
    let x2 = head + "\nExecStart="@ + exe + " --daemon\nWorkingDirectory="@ + dir;
    let p2 = "\nRestart=always\n"@;
    let y2 = "\n[Install]\nWantedBy=default.target\n"@;
    assert(systemd_unit(app, exe, dir) =~= x2 + p2 + y2);
    crate::urls::lemma_occurs_between(x2, p2, y2);
}

pub fn systemd_unit_text(app_type: &str, exe: &str, dir: &str) -> (r: String)
    ensures
        r@ == systemd_unit(app_type@, exe@, dir@),
{
    let mut s = owned("[Unit]\nDescription=Open Remote URL ");
    append_str(&mut s, app_type);
    append_str(&mut s, " Daemon\nAfter=network.target\n\n[Service]\nExecStart=");
    append_str(&mut s, exe);
    append_str(&mut s, " --daemon\nWorkingDirectory=");
    append_str(&mut s, dir);
    append_str(&mut s, "\nRestart=always\n\n[Install]\nWantedBy=default.target\n");
    s
}

/// A hidden desktop entry that opens URLs of the MIME types `mime`
/// (`;`-separated, ending in `;`) with `exe`.
pub open spec fn desktop_entry(exe: Seq<char>, mime: Seq<char>) -> Seq<char> {
    "[Desktop Entry]\nType=Application\nName=Open Remote URL\nExec="@ + exe
        + " %u\nIcon=html\nTerminal=false\nNoDisplay=true\nMimeType="@
        + mime
        + "\n"@
}

pub fn desktop_entry_text(exe: &str, mime: &str) -> (r: String)
    ensures
        r@ == desktop_entry(exe@, mime@),
{
    let mut s = owned("[Desktop Entry]\nType=Application\nName=Open Remote URL\nExec=");
    append_str(&mut s, exe);
    append_str(&mut s, " %u\nIcon=html\nTerminal=false\nNoDisplay=true\nMimeType=");
    append_str(&mut s, mime);
    append_str(&mut s, "\n");
    s
}

} // verus!
