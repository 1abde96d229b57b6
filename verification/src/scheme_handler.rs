//! Registering the client as the handler of the URL schemes it is
//! configured for (`SCHEME`) and, unless `HTTP=false`, of http and https.
use vstd::prelude::*;
use vstd::string::*;
use crate::config::{opt_view, ClientConfig};
use crate::locations::{app_bundle_of, get_parent_app_dir};
use crate::paths::{join_path, joined, Platform};
use crate::service::{applications_dir, applications_in, classes_key, lsregister, reg};
use crate::steps::{
    must, must_step, plain_step, push_step, run_step, step, steps_view, Action, ActionView, Plan,
    SetupError, Step, StepView,
};
use crate::templates::{
    append_str, desktop_entry, desktop_entry_text, plist_close, plist_head, plist_head_text,
};
use crate::text::{owned, views};
use crate::urls::{concat_str, ends_with, ends_with_str};

verus! {

/// The schemes the client handles: the configured ones, then http and https
/// where enabled.
pub open spec fn handled_schemes(c: ClientConfig) -> Seq<Seq<char>> {
    if c.register_http {
        views(c.schemes@) + seq!["http"@, "https"@]
    } else {
        views(c.schemes@)
    }
}

pub fn schemes_to_handle(c: &ClientConfig) -> (r: Vec<String>)
    ensures
        views(r@) == handled_schemes(*c),
{
    let mut out: Vec<String> = Vec::new();
    let mut i: usize = 0;
    while i < c.schemes.len()
        invariant
            i <= c.schemes.len(),
            views(out@) == views(c.schemes@).take(i as int),
        decreases c.schemes.len() - i,
    {
        let item = c.schemes[i].clone();
        assert(item@ == views(c.schemes@)[i as int]);
        let ghost before = views(out@);
        out.push(item);
        assert(views(out@) =~= before.push(item@));
        assert(views(out@) =~= views(c.schemes@).take(i + 1));
        i = i + 1;
    }
    assert(views(c.schemes@).take(c.schemes.len() as int) =~= views(c.schemes@));
    if c.register_http {
        crate::steps::push_arg(&mut out, "http");
        crate::steps::push_arg(&mut out, "https");
        assert(views(out@) =~= views(c.schemes@) + seq!["http"@, "https"@]);
    }
    out
}

// ---------------------------------------------------------------------------
// Windows
// ---------------------------------------------------------------------------

/// The command the registry runs to open a URL: `"<exe>" "%1"`.
pub open spec fn open_command(exe: Seq<char>) -> Seq<char> {
    "\""@ + exe + "\" \"%1\""@
}

/// Declaring `scheme` a URL protocol opened by the command `cmd`.
pub open spec fn scheme_reg_steps(scheme: Seq<char>, cmd: Seq<char>) -> Seq<StepView> {
    let base = classes_key(scheme);
    seq![
        reg(seq!["add"@, base, "/t"@, "REG_SZ"@, "/d"@, "URL:"@ + scheme + " Protocol"@, "/f"@]),
        reg(seq!["add"@, base, "/v"@, "URL Protocol"@, "/t"@, "REG_SZ"@, "/d"@, ""@, "/f"@]),
        reg(seq!["add"@, base + "\\shell\\open\\command"@, "/t"@, "REG_SZ"@, "/d"@, cmd, "/f"@]),
    ]
}

fn scheme_reg(scheme: &str, cmd: &str) -> (r: Vec<Step>)
    ensures
        steps_view(r@) == scheme_reg_steps(scheme@, cmd@),
{
    let base = concat_str("HKCU\\Software\\Classes\\", scheme);
    let t = concat_str("URL:", scheme);
    let title = concat_str(t.as_str(), " Protocol");
    let a1 = vec![
        owned("add"),
        base.clone(),
        owned("/t"),
        owned("REG_SZ"),
        owned("/d"),
        title,
        owned("/f"),
    ];
    assert(views(a1@) =~= seq!["add"@, base@, "/t"@, "REG_SZ"@, "/d"@, "URL:"@ + scheme@ + " Protocol"@, "/f"@]);
    let a2 = vec![
        owned("add"),
        base.clone(),
        owned("/v"),
        owned("URL Protocol"),
        owned("/t"),
        owned("REG_SZ"),
        owned("/d"),
        owned(""),
        owned("/f"),
    ];
    assert(views(a2@) =~= seq!["add"@, base@, "/v"@, "URL Protocol"@, "/t"@, "REG_SZ"@, "/d"@, ""@, "/f"@]);
    let key = concat_str(base.as_str(), "\\shell\\open\\command");
    let a3 = vec![owned("add"), key, owned("/t"), owned("REG_SZ"), owned("/d"), owned(cmd), owned("/f")];
    assert(views(a3@) =~= seq!["add"@, base@ + "\\shell\\open\\command"@, "/t"@, "REG_SZ"@, "/d"@, cmd@, "/f"@]);
    let mut out: Vec<Step> = Vec::new();
    push_step(&mut out, run_step("reg", a1));
    push_step(&mut out, run_step("reg", a2));
    push_step(&mut out, run_step("reg", a3));
    assert(steps_view(out@) =~= scheme_reg_steps(scheme@, cmd@));
    out
}

/// The registry values (key, value name, data) that make the client a web
/// browser; an empty name is the key's default value.
pub open spec fn browser_entries() -> Seq<(Seq<char>, Seq<char>, Seq<char>)> {
    seq![
        ("HKCU\\Software\\Clients\\StartMenuInternet\\OpenRemoteURLClient"@, ""@, ""@),
        (
            "HKCU\\Software\\Clients\\StartMenuInternet\\OpenRemoteURLClient\\Capabilities"@,
            "ApplicationName"@,
            "Open Remote URL Client"@,
        ),
        (
            "HKCU\\Software\\Clients\\StartMenuInternet\\OpenRemoteURLClient\\Capabilities"@,
            "ApplicationDescription"@,
            "Redirect URLs to remote Host"@,
        ),
        (
            "HKCU\\Software\\Clients\\StartMenuInternet\\OpenRemoteURLClient\\Capabilities\\URLAssociations"@,
            "http"@,
            "OpenRemoteURLClient"@,
        ),
        (
            "HKCU\\Software\\Clients\\StartMenuInternet\\OpenRemoteURLClient\\Capabilities\\URLAssociations"@,
            "https"@,
            "OpenRemoteURLClient"@,
        ),
        ("HKCU\\Software\\Classes\\OpenRemoteURLClient"@, ""@, "Open Remote URL Client HTML Document"@),
        (
            "HKCU\\Software\\RegisteredApplications"@,
            "OpenRemoteURLClient"@,
            "Software\\Clients\\StartMenuInternet\\OpenRemoteURLClient\\Capabilities"@,
        ),
    ]
}

/// The data written for an entry: the quoted executable for the default
/// value of a key named after the client, else the entry's own data.
pub open spec fn entry_data(key: Seq<char>, name: Seq<char>, data: Seq<char>, exe: Seq<char>) -> Seq<char> {
    if ends_with(key, "OpenRemoteURLClient"@) && name.len() == 0 {
        "\""@ + exe + "\""@
    } else {
        data
    }
}

/// `reg add <key> /t REG_SZ /d <data> /f`, with `/v <name>` for a named value.
pub open spec fn reg_add(key: Seq<char>, name: Seq<char>, data: Seq<char>) -> StepView {
    let base = seq!["add"@, key, "/t"@, "REG_SZ"@, "/d"@, data, "/f"@];
    if name.len() == 0 {
        reg(base)
    } else {
        reg(base + seq!["/v"@, name])
    }
}

pub open spec fn entry_step(e: (Seq<char>, Seq<char>, Seq<char>), exe: Seq<char>) -> StepView {
    reg_add(e.0, e.1, entry_data(e.0, e.1, e.2, exe))
}

/// Registering the client, run as `exe`, as the handler of http and https.
pub open spec fn http_reg_steps(exe: Seq<char>) -> Seq<StepView> {
    browser_entries().map_values(|e: (Seq<char>, Seq<char>, Seq<char>)| entry_step(e, exe)).push(
        reg(
            seq![
                "add"@,
                "HKCU\\Software\\Classes\\OpenRemoteURLClient\\shell\\open\\command"@,
                "/t"@,
                "REG_SZ"@,
                "/d"@,
                open_command(exe),
                "/f"@,
            ],
        ),
    )
}

/// The arguments of a `reg` step, if it is one.
pub open spec fn reg_args_of(s: StepView) -> Option<Seq<Seq<char>>> {
    match s.action {
        ActionView::Run(program, args) => if program == "reg"@ {
            Some(args)
        } else {
            None
        },
        _ => None,
    }
}

/// The http/https registration makes the client's browser class open a
/// link by running the executable with the URL as its argument: it sets
/// the class's `shell\open\command` to `"<exe>" "%1"`, and every value it
/// writes there is that command.
pub proof fn lemma_browser_class_opens_with_url(exe: Seq<char>)
    ensures
        exists|i: int|
            0 <= i < http_reg_steps(exe).len() && #[trigger] http_reg_steps(exe)[i] == reg(
                seq![
                    "add"@,
                    "HKCU\\Software\\Classes\\OpenRemoteURLClient\\shell\\open\\command"@,
                    "/t"@,
                    "REG_SZ"@,
                    "/d"@,
                    "\""@ + exe + "\" \"%1\""@,
                    "/f"@,
                ],
            ),
        forall|i: int|
            0 <= i < http_reg_steps(exe).len() ==> match reg_args_of(#[trigger] http_reg_steps(exe)[i]) {
                Some(args) => args.len() > 5 && args[1]
                    == "HKCU\\Software\\Classes\\OpenRemoteURLClient\\shell\\open\\command"@ ==> args[5]
                    == "\""@ + exe + "\" \"%1\""@,
                None => true,
            },
{
    let cmd = "HKCU\\Software\\Classes\\OpenRemoteURLClient\\shell\\open\\command"@;
    reveal_strlit("HKCU\\Software\\Classes\\OpenRemoteURLClient\\shell\\open\\command");
    reveal_strlit("reg");
    reveal_strlit("HKCU\\Software\\Clients\\StartMenuInternet\\OpenRemoteURLClient");
    reveal_strlit("HKCU\\Software\\Clients\\StartMenuInternet\\OpenRemoteURLClient\\Capabilities");
    reveal_strlit("HKCU\\Software\\Clients\\StartMenuInternet\\OpenRemoteURLClient\\Capabilities\\URLAssociations");
    reveal_strlit("HKCU\\Software\\Classes\\OpenRemoteURLClient");
    reveal_strlit("HKCU\\Software\\RegisteredApplications");
    let steps = http_reg_steps(exe);
    let entries = browser_entries();
    assert(steps.len() == entries.len() + 1);
    assert(steps[entries.len() as int] == reg(
        seq!["add"@, cmd, "/t"@, "REG_SZ"@, "/d"@, "\""@ + exe + "\" \"%1\""@, "/f"@],
    ));
    assert forall|i: int| 0 <= i < entries.len() implies #[trigger] entries[i].0.len() != cmd.len() by {
        assert(cmd.len() == 60);
    }
    assert forall|i: int|
        0 <= i < steps.len() implies match reg_args_of(#[trigger] steps[i]) {
            Some(args) => args.len() > 5 && args[1] == cmd ==> args[5] == "\""@ + exe + "\" \"%1\""@,
            None => true,
        } by {
        if i < entries.len() {
            let e = entries[i];
            assert(steps[i] == entry_step(e, exe));
            assert(e.0.len() != cmd.len());
        }
    }
}

/// Removing the client's http and https registration.
pub open spec fn http_unreg_steps() -> Seq<StepView> {
    seq![
        reg(seq!["delete"@, "HKCU\\Software\\Classes\\OpenRemoteURLClient"@, "/f"@]),
        reg(seq!["delete"@, "HKCU\\Software\\Clients\\StartMenuInternet\\OpenRemoteURLClient"@, "/f"@]),
        reg(seq!["delete"@, "HKCU\\Software\\RegisteredApplications"@, "/v"@, "OpenRemoteURLClient"@, "/f"@]),
    ]
}

fn entry_reg(key: &str, name: &str, data: &str, exe: &str) -> (r: Step)
    ensures
        r@ == entry_step((key@, name@, data@), exe@),
{
    let value = if ends_with_str(key, "OpenRemoteURLClient") && name.unicode_len() == 0 {
        let q = concat_str("\"", exe);
        concat_str(q.as_str(), "\"")
    } else {
        owned(data)
    };
    let mut args = vec![
        owned("add"),
        owned(key),
        owned("/t"),
        owned("REG_SZ"),
        owned("/d"),
        value,
        owned("/f"),
    ];
    let ghost base = seq!["add"@, key@, "/t"@, "REG_SZ"@, "/d"@, value@, "/f"@];
    assert(views(args@) =~= base);
    if name.unicode_len() != 0 {
        crate::steps::push_arg(&mut args, "/v");
        crate::steps::push_arg(&mut args, name);
        assert(views(args@) =~= base + seq!["/v"@, name@]);
    }
    run_step("reg", args)
}

fn browser_table() -> (r: Vec<(&'static str, &'static str, &'static str)>)
    ensures
        r@.map_values(|e: (&str, &str, &str)| (e.0@, e.1@, e.2@)) == browser_entries(),
{
    let r = vec![
        ("HKCU\\Software\\Clients\\StartMenuInternet\\OpenRemoteURLClient", "", ""),
        (
            "HKCU\\Software\\Clients\\StartMenuInternet\\OpenRemoteURLClient\\Capabilities",
            "ApplicationName",
            "Open Remote URL Client",
        ),
        (
            "HKCU\\Software\\Clients\\StartMenuInternet\\OpenRemoteURLClient\\Capabilities",
            "ApplicationDescription",
            "Redirect URLs to remote Host",
        ),
        (
            "HKCU\\Software\\Clients\\StartMenuInternet\\OpenRemoteURLClient\\Capabilities\\URLAssociations",
            "http",
            "OpenRemoteURLClient",
        ),
        (
            "HKCU\\Software\\Clients\\StartMenuInternet\\OpenRemoteURLClient\\Capabilities\\URLAssociations",
            "https",
            "OpenRemoteURLClient",
        ),
        ("HKCU\\Software\\Classes\\OpenRemoteURLClient", "", "Open Remote URL Client HTML Document"),
        (
            "HKCU\\Software\\RegisteredApplications",
            "OpenRemoteURLClient",
            "Software\\Clients\\StartMenuInternet\\OpenRemoteURLClient\\Capabilities",
        ),
    ];
    assert(r@.map_values(|e: (&str, &str, &str)| (e.0@, e.1@, e.2@)) =~= browser_entries());
    r
}

/// Registers the client, run as `exe`, as the handler of http and https.
pub fn register_windows_http_https(exe: &str) -> (r: Vec<Step>)
    ensures
        steps_view(r@) == http_reg_steps(exe@),
{
    let table = browser_table();
    let ghost entries = browser_entries();
    let mut out: Vec<Step> = Vec::new();
    let mut i: usize = 0;
    while i < table.len()
        invariant
            i <= table.len(),
            table@.map_values(|e: (&str, &str, &str)| (e.0@, e.1@, e.2@)) == entries,
            entries == browser_entries(),
            steps_view(out@) == entries.take(i as int).map_values(
                |e: (Seq<char>, Seq<char>, Seq<char>)| entry_step(e, exe@),
            ),
        decreases table.len() - i,
    {
        let (key, name, data) = table[i];
        assert(entries[i as int] == (key@, name@, data@));
        push_step(&mut out, entry_reg(key, name, data, exe));
        assert(entries.take(i + 1) =~= entries.take(i as int).push(entries[i as int]));
        assert(steps_view(out@) =~= entries.take(i + 1).map_values(
            |e: (Seq<char>, Seq<char>, Seq<char>)| entry_step(e, exe@),
        ));
        i = i + 1;
    }
    assert(entries.take(table.len() as int) =~= entries);
    let q = concat_str("\"", exe);
    let cmd = concat_str(q.as_str(), "\" \"%1\"");
    let args = vec![
        owned("add"),
        owned("HKCU\\Software\\Classes\\OpenRemoteURLClient\\shell\\open\\command"),
        owned("/t"),
        owned("REG_SZ"),
        owned("/d"),
        cmd,
        owned("/f"),
    ];
    assert(views(args@) =~= seq![
        "add"@,
        "HKCU\\Software\\Classes\\OpenRemoteURLClient\\shell\\open\\command"@,
        "/t"@,
        "REG_SZ"@,
        "/d"@,
        open_command(exe@),
        "/f"@,
    ]);
    push_step(&mut out, run_step("reg", args));
    out
}

/// Removes the client's http and https registration.
pub fn unregister_windows_http_https() -> (r: Vec<Step>)
    ensures
        steps_view(r@) == http_unreg_steps(),
{
    let a1 = vec![owned("delete"), owned("HKCU\\Software\\Classes\\OpenRemoteURLClient"), owned("/f")];
    assert(views(a1@) =~= seq!["delete"@, "HKCU\\Software\\Classes\\OpenRemoteURLClient"@, "/f"@]);
    let a2 = vec![
        owned("delete"),
        owned("HKCU\\Software\\Clients\\StartMenuInternet\\OpenRemoteURLClient"),
        owned("/f"),
    ];
    assert(views(a2@) =~= seq![
        "delete"@,
        "HKCU\\Software\\Clients\\StartMenuInternet\\OpenRemoteURLClient"@,
        "/f"@,
    ]);
    let a3 = vec![
        owned("delete"),
        owned("HKCU\\Software\\RegisteredApplications"),
        owned("/v"),
        owned("OpenRemoteURLClient"),
        owned("/f"),
    ];
    assert(views(a3@) =~= seq![
        "delete"@,
        "HKCU\\Software\\RegisteredApplications"@,
        "/v"@,
        "OpenRemoteURLClient"@,
        "/f"@,
    ]);
    let mut out: Vec<Step> = Vec::new();
    push_step(&mut out, run_step("reg", a1));
    push_step(&mut out, run_step("reg", a2));
    push_step(&mut out, run_step("reg", a3));
    assert(steps_view(out@) =~= http_unreg_steps());
    out
}

/// Registering the client on Windows: each configured scheme, then http and
/// https (or their removal where `HTTP=false`).
pub open spec fn windows_schemes_spec(c: ClientConfig, exe: Seq<char>) -> Seq<StepView> {
    let per_scheme = flatten_steps(
        views(c.schemes@).map_values(|s: Seq<char>| scheme_reg_steps(s, open_command(exe))),
    );
    if c.register_http {
        per_scheme + http_reg_steps(exe)
    } else {
        per_scheme + http_unreg_steps()
    }
}

/// The lists of steps `s`, one after another.
pub open spec fn flatten_steps(s: Seq<Seq<StepView>>) -> Seq<StepView>
    decreases s.len(),
{
    if s.len() == 0 {
        Seq::empty()
    } else {
        flatten_steps(s.drop_last()) + s.last()
    }
}

fn register_windows(c: &ClientConfig, exe: &str) -> (r: Vec<Step>)
    ensures
        steps_view(r@) == windows_schemes_spec(*c, exe@),
{
    let q = concat_str("\"", exe);
    let cmd = concat_str(q.as_str(), "\" \"%1\"");
    let ghost per = views(c.schemes@).map_values(|s: Seq<char>| scheme_reg_steps(s, open_command(exe@)));
    let mut out: Vec<Step> = Vec::new();
    let mut i: usize = 0;
    while i < c.schemes.len()
        invariant
            i <= c.schemes.len(),
            cmd@ == open_command(exe@),
            per == views(c.schemes@).map_values(|s: Seq<char>| scheme_reg_steps(s, open_command(exe@))),
            steps_view(out@) == flatten_steps(per.take(i as int)),
        decreases c.schemes.len() - i,
    {
        let more = scheme_reg(c.schemes[i].as_str(), cmd.as_str());
        crate::steps::append_steps(&mut out, more);
        assert(per.take(i + 1).drop_last() =~= per.take(i as int));
        i = i + 1;
    }
    assert(per.take(c.schemes.len() as int) =~= per);
    if c.register_http {
        crate::steps::append_steps(&mut out, register_windows_http_https(exe));
    } else {
        crate::steps::append_steps(&mut out, unregister_windows_http_https());
    }
    out
}

// ---------------------------------------------------------------------------
// macOS
// ---------------------------------------------------------------------------

/// One `<string>` entry per scheme.
pub open spec fn scheme_entries(schemes: Seq<Seq<char>>) -> Seq<char>
    decreases schemes.len(),
{
    if schemes.len() == 0 {
        Seq::empty()
    } else {
        scheme_entries(schemes.drop_last()) + "                <string>"@ + schemes.last() + "</string>\n"@
    }
}

/// The URL types block of `Info.plist` declaring `schemes`; nothing where
/// there are none.
pub open spec fn url_types_block(schemes: Seq<Seq<char>>) -> Seq<char> {
    if schemes.len() == 0 {
        Seq::empty()
    } else {
        "    <key>CFBundleURLTypes</key>\n    <array>\n        <dict>\n            <key>CFBundleURLName</key>\n            <string>URL Schemes</string>\n            <key>CFBundleURLSchemes</key>\n            <array>\n"@
            + scheme_entries(schemes)
            + "            </array>\n        </dict>\n    </array>\n"@
    }
}

/// The client bundle's `Info.plist` declaring `schemes`.
pub open spec fn scheme_plist(schemes: Seq<Seq<char>>) -> Seq<char> {
    plist_head("quest.nae.open-remote-url.client"@, "OpenRemoteURLClient"@, "open-remote-url-client"@)
        + url_types_block(schemes) + plist_close()
}

pub fn scheme_plist_text(schemes: &Vec<String>) -> (r: String)
    ensures
        r@ == scheme_plist(views(schemes@)),
{
    let mut s = plist_head_text(
        "quest.nae.open-remote-url.client",
        "OpenRemoteURLClient",
        "open-remote-url-client",
    );
    let ghost head = s@;
    if schemes.len() > 0 {
        append_str(
            &mut s,
            "    <key>CFBundleURLTypes</key>\n    <array>\n        <dict>\n            <key>CFBundleURLName</key>\n            <string>URL Schemes</string>\n            <key>CFBundleURLSchemes</key>\n            <array>\n",
        );
        let ghost opened = s@;
        let ghost sv = views(schemes@);
        let mut i: usize = 0;
        while i < schemes.len()
            invariant
                i <= schemes.len(),
                sv == views(schemes@),
                s@ == opened + scheme_entries(sv.take(i as int)),
            decreases schemes.len() - i,
        {
            append_str(&mut s, "                <string>");
            append_str(&mut s, schemes[i].as_str());
            append_str(&mut s, "</string>\n");
            assert(sv.take(i + 1).drop_last() =~= sv.take(i as int));
            i = i + 1;
        }
        assert(sv.take(schemes.len() as int) =~= sv);
        append_str(&mut s, "            </array>\n        </dict>\n    </array>\n");
    } else {
        assert(s@ =~= head + url_types_block(views(schemes@)));
    }
    append_str(&mut s, "</dict>\n</plist>\n");
    s
}

/// Registering the client on macOS, from its bundle `bundle`: its
/// `Info.plist` rewritten to declare `schemes`, the bundle registered with
/// Launch Services, and the client made the default handler of each scheme.
pub open spec fn macos_schemes_spec(schemes: Seq<Seq<char>>, bundle: Seq<char>) -> Seq<StepView> {
    let p = Platform::MacOs;
    seq![
        must(
            ActionView::WriteFile(
                joined(p, joined(p, bundle, "Contents"@), "Info.plist"@),
                scheme_plist(schemes),
            ),
        ),
        step(ActionView::Run(lsregister(), seq!["-f"@, bundle])),
    ] + schemes.map_values(
        |s: Seq<char>|
            step(ActionView::SetDefaultUrlHandler(s, "quest.nae.open-remote-url.client"@)),
    )
}

fn register_macos(schemes: &Vec<String>, bundle: &str) -> (r: Vec<Step>)
    ensures
        steps_view(r@) == macos_schemes_spec(views(schemes@), bundle@),
{
    proof {
        reveal_strlit("Contents");
        reveal_strlit("Info.plist");
    }
    let p = Platform::MacOs;
    let contents = join_path(p, bundle, "Contents");
    let info = join_path(p, contents.as_str(), "Info.plist");
    let mut out: Vec<Step> = Vec::new();
    push_step(&mut out, must_step(Action::WriteFile { path: info, contents: scheme_plist_text(schemes) }));
    let args = vec![owned("-f"), owned(bundle)];
    assert(views(args@) =~= seq!["-f"@, bundle@]);
    let register = Action::Run {
        program: owned(
            "/System/Library/Frameworks/CoreServices.framework/Versions/A/Frameworks/LaunchServices.framework/Versions/A/Support/lsregister",
        ),
        args,
    };
    push_step(&mut out, plain_step(register, false));
    let ghost head = steps_view(out@);
    let ghost sv = views(schemes@);
    let mut i: usize = 0;
    while i < schemes.len()
        invariant
            i <= schemes.len(),
            sv == views(schemes@),
            steps_view(out@) == head + sv.take(i as int).map_values(
                |s: Seq<char>|
                    step(ActionView::SetDefaultUrlHandler(s, "quest.nae.open-remote-url.client"@)),
            ),
        decreases schemes.len() - i,
    {
        let a = Action::SetDefaultUrlHandler {
            scheme: schemes[i].clone(),
            bundle_id: owned("quest.nae.open-remote-url.client"),
        };
        push_step(&mut out, plain_step(a, false));
        assert(sv.take(i + 1) =~= sv.take(i as int).push(sv[i as int]));
        assert(steps_view(out@) =~= head + sv.take(i + 1).map_values(
            |s: Seq<char>|
                step(ActionView::SetDefaultUrlHandler(s, "quest.nae.open-remote-url.client"@)),
        ));
        i = i + 1;
    }
    assert(sv.take(schemes.len() as int) =~= sv);
    assert(steps_view(out@) =~= macos_schemes_spec(sv, bundle@));
    out
}

// ---------------------------------------------------------------------------
// Linux
// ---------------------------------------------------------------------------

/// The items of `items` separated by `sep` (`join`).
pub open spec fn join_seq(items: Seq<Seq<char>>, sep: Seq<char>) -> Seq<char>
    decreases items.len(),
{
    if items.len() == 0 {
        Seq::empty()
    } else if items.len() == 1 {
        items[0]
    } else {
        join_seq(items.drop_last(), sep) + sep + items.last()
    }
}

pub fn join_strings(items: &Vec<String>, sep: &str) -> (r: String)
    ensures
        r@ == join_seq(views(items@), sep@),
{
    let ghost iv = views(items@);
    let mut out = String::new();
    let mut i: usize = 0;
    while i < items.len()
        invariant
            i <= items.len(),
            iv == views(items@),
            out@ == join_seq(iv.take(i as int), sep@),
        decreases items.len() - i,
    {
        if i > 0 {
            append_str(&mut out, sep);
        }
        append_str(&mut out, items[i].as_str());
        assert(iv.take(i + 1).drop_last() =~= iv.take(i as int));
        proof {
            if i == 0 {
                assert(iv.take(0) =~= Seq::<Seq<char>>::empty());
                assert(out@ =~= iv[0]);
            }
        }
        i = i + 1;
    }
    assert(iv.take(items.len() as int) =~= iv);
    out
}

/// The MIME type of URLs of `scheme`.
pub open spec fn scheme_mime(scheme: Seq<char>) -> Seq<char> {
    "x-scheme-handler/"@ + scheme
}

/// Registering the client, run as `exe`, on Linux under the home directory
/// `home`: a desktop entry for the MIME types of `schemes`, made the
/// default for each of them.
pub open spec fn linux_schemes_spec(schemes: Seq<Seq<char>>, exe: Seq<char>, home: Seq<char>) -> Seq<StepView> {
    let apps = applications_in(home);
    let mimes = schemes.map_values(|s: Seq<char>| scheme_mime(s));
    seq![
        step(ActionView::CreateDirAll(apps)),
        must(
            ActionView::WriteFile(
                joined(Platform::Linux, apps, "open-remote-url-client.desktop"@),
                desktop_entry(exe, join_seq(mimes, ";"@) + ";"@),
            ),
        ),
        step(ActionView::Run("update-desktop-database"@, seq![apps])),
    ] + mimes.map_values(
        |m: Seq<char>|
            step(ActionView::Run("xdg-mime"@, seq!["default"@, "open-remote-url-client.desktop"@, m])),
    )
}

fn register_linux(schemes: &Vec<String>, exe: &str, home: &str) -> (r: Vec<Step>)
    ensures
        steps_view(r@) == linux_schemes_spec(views(schemes@), exe@, home@),
{
    proof {
        reveal_strlit("open-remote-url-client.desktop");
    }
    let ghost sv = views(schemes@);
    let ghost mv = sv.map_values(|s: Seq<char>| scheme_mime(s));
    let mut mimes: Vec<String> = Vec::new();
    let mut i: usize = 0;
    while i < schemes.len()
        invariant
            i <= schemes.len(),
            sv == views(schemes@),
            mv == sv.map_values(|s: Seq<char>| scheme_mime(s)),
            views(mimes@) == mv.take(i as int),
        decreases schemes.len() - i,
    {
        let m = concat_str("x-scheme-handler/", schemes[i].as_str());
        assert(m@ == mv[i as int]);
        let ghost before = views(mimes@);
        mimes.push(m);
        assert(views(mimes@) =~= before.push(mv[i as int]));
        assert(views(mimes@) =~= mv.take(i + 1));
        i = i + 1;
    }
    assert(mv.take(schemes.len() as int) =~= mv);
    let apps = applications_dir(home);
    let path = join_path(Platform::Linux, apps.as_str(), "open-remote-url-client.desktop");
    let line = join_strings(&mimes, ";");
    let mime_field = concat_str(line.as_str(), ";");
    let mut out: Vec<Step> = Vec::new();
    push_step(&mut out, plain_step(Action::CreateDirAll { path: apps.clone() }, false));
    let text = desktop_entry_text(exe, mime_field.as_str());
    push_step(&mut out, must_step(Action::WriteFile { path, contents: text }));
    let a = vec![apps.clone()];
    assert(views(a@) =~= seq![apps@]);
    push_step(&mut out, run_step("update-desktop-database", a));
    let ghost head = steps_view(out@);
    let mut j: usize = 0;
    while j < mimes.len()
        invariant
            j <= mimes.len(),
            views(mimes@) == mv,
            steps_view(out@) == head + mv.take(j as int).map_values(
                |m: Seq<char>|
                    step(
                        ActionView::Run(
                            "xdg-mime"@,
                            seq!["default"@, "open-remote-url-client.desktop"@, m],
                        ),
                    ),
            ),
        decreases mimes.len() - j,
    {
        let args = vec![owned("default"), owned("open-remote-url-client.desktop"), mimes[j].clone()];
        assert(views(args@) =~= seq!["default"@, "open-remote-url-client.desktop"@, mv[j as int]]);
        push_step(&mut out, run_step("xdg-mime", args));
        assert(mv.take(j + 1) =~= mv.take(j as int).push(mv[j as int]));
        assert(steps_view(out@) =~= head + mv.take(j + 1).map_values(
            |m: Seq<char>|
                step(
                    ActionView::Run(
                        "xdg-mime"@,
                        seq!["default"@, "open-remote-url-client.desktop"@, m],
                    ),
                ),
        ));
        j = j + 1;
    }
    assert(mv.take(mimes.len() as int) =~= mv);
    assert(steps_view(out@) =~= linux_schemes_spec(sv, exe@, home@));
    out
}

// ---------------------------------------------------------------------------
// All platforms
// ---------------------------------------------------------------------------

/// What registering the URL scheme handlers of the client configured by `c`
/// does on `p`, run as `exe` (`None` where its path cannot be had) under
/// the home directory `home`, as steps and outcome.
pub open spec fn register_spec(c: ClientConfig, p: Platform, exe: Option<Seq<char>>, home: Option<Seq<char>>) -> (
    Seq<StepView>,
    Result<(), SetupError>,
) {
    match p {
        Platform::Other => (Seq::empty(), Ok(())),
        _ => match exe {
            None => (Seq::empty(), Err(SetupError::NoExecutablePath)),
            Some(e) => match p {
                Platform::Windows => (windows_schemes_spec(c, e), Ok(())),
                Platform::MacOs => match app_bundle_of(e) {
                    None => (Seq::empty(), Err(SetupError::NotInAppBundle)),
                    Some(b) => (macos_schemes_spec(handled_schemes(c), b), Ok(())),
                },
                _ => match home {
                    None => (Seq::empty(), Err(SetupError::MissingHome)),
                    Some(h) => (
                        linux_schemes_spec(handled_schemes(c), e, h),
                        Ok(()),
                    ),
                },
            },
        },
    }
}

/// Called at client daemon startup to register URL scheme handlers based on
/// the configuration: `SCHEME=vcc,unityhub` registers those schemes so that
/// the system hands their URLs to this executable; `HTTP=false` removes the
/// http/https registration, which is made otherwise.
pub fn register_url_schemes(c: &ClientConfig, p: Platform, exe: &Option<String>, home: &Option<String>) -> (r: Plan)
    ensures
        crate::steps::plan_view(r) == register_spec(*c, p, opt_view(*exe), opt_view(*home)),
{
    if p == Platform::Other {
        let r = Plan { steps: Vec::new(), outcome: Ok(()) };
        assert(steps_view(r.steps@) =~= Seq::<StepView>::empty());
        return r;
    }
    let e = match exe {
        Some(e) => e,
        None => {
            let r = Plan { steps: Vec::new(), outcome: Err(SetupError::NoExecutablePath) };
            assert(steps_view(r.steps@) =~= Seq::<StepView>::empty());
            return r;
        },
    };
    match p {
        Platform::Windows => Plan { steps: register_windows(c, e.as_str()), outcome: Ok(()) },
        Platform::MacOs => match get_parent_app_dir(e.as_str()) {
            None => {
                let r = Plan { steps: Vec::new(), outcome: Err(SetupError::NotInAppBundle) };
                assert(steps_view(r.steps@) =~= Seq::<StepView>::empty());
                r
            },
            Some(bundle) => {
                let schemes = schemes_to_handle(c);
                Plan { steps: register_macos(&schemes, bundle.as_str()), outcome: Ok(()) }
            },
        },
        _ => match home {
            None => {
                let r = Plan { steps: Vec::new(), outcome: Err(SetupError::MissingHome) };
                assert(steps_view(r.steps@) =~= Seq::<StepView>::empty());
                r
            },
            Some(h) => {
                let schemes = schemes_to_handle(c);
                Plan { steps: register_linux(&schemes, e.as_str(), h.as_str()), outcome: Ok(()) }
            },
        },
    }
}

/// Where http and https are to be handled, registering the client's
/// handlers on Windows sets its browser class to open a link with
/// `"<exe>" "%1"`, so that the clicked URL reaches the client.
pub proof fn lemma_windows_browser_gets_the_url(c: ClientConfig, exe: Seq<char>, home: Option<Seq<char>>)
    requires
        c.register_http,
    ensures
        register_spec(c, Platform::Windows, Some(exe), home).1 is Ok,
        register_spec(c, Platform::Windows, Some(exe), home).0.contains(
            reg(
                seq![
                    "add"@,
                    "HKCU\\Software\\Classes\\OpenRemoteURLClient\\shell\\open\\command"@,
                    "/t"@,
                    "REG_SZ"@,
                    "/d"@,
                    "\""@ + exe + "\" \"%1\""@,
                    "/f"@,
                ],
            ),
        ),
{
    lemma_browser_class_opens_with_url(exe);
    let per = flatten_steps(views(c.schemes@).map_values(|s: Seq<char>| scheme_reg_steps(s, open_command(exe))));
    let h = http_reg_steps(exe);
    let target = reg(
        seq![
            "add"@,
            "HKCU\\Software\\Classes\\OpenRemoteURLClient\\shell\\open\\command"@,
            "/t"@,
            "REG_SZ"@,
            "/d"@,
            "\""@ + exe + "\" \"%1\""@,
            "/f"@,
        ],
    );
    let k = choose|k: int| 0 <= k < h.len() && h[k] == target;
    assert((per + h)[per.len() + k] == target);
}

proof fn lemma_flatten_contains(ss: Seq<Seq<StepView>>, j: int, k: int)
    requires
        0 <= j < ss.len(),
        0 <= k < ss[j].len(),
    ensures
        flatten_steps(ss).contains(ss[j][k]),
    decreases ss.len(),
{
    let f = flatten_steps(ss.drop_last());
    if j == ss.len() - 1 {
        assert((f + ss.last())[f.len() + k] == ss[j][k]);
    } else {
        lemma_flatten_contains(ss.drop_last(), j, k);
        let i = choose|i: int| 0 <= i < f.len() && f[i] == ss[j][k];
        assert((f + ss.last())[i] == ss[j][k]);
    }
}

/// On Windows every configured scheme is declared a URL protocol whose
/// links open with `"<exe>" "%1"`, so that the link reaches the client.
pub proof fn lemma_windows_schemes_get_the_url(c: ClientConfig, exe: Seq<char>, home: Option<Seq<char>>, j: int)
    requires
        0 <= j < c.schemes@.len(),
    ensures
        register_spec(c, Platform::Windows, Some(exe), home).0.contains(
            reg(
                seq![
                    "add"@,
                    "HKCU\\Software\\Classes\\"@ + c.schemes@[j]@ + "\\shell\\open\\command"@,
                    "/t"@,
                    "REG_SZ"@,
                    "/d"@,
                    "\""@ + exe + "\" \"%1\""@,
                    "/f"@,
                ],
            ),
        ),
{
    let ss = views(c.schemes@).map_values(|s: Seq<char>| scheme_reg_steps(s, open_command(exe)));
    let s = c.schemes@[j]@;
    assert(ss[j] == scheme_reg_steps(s, open_command(exe)));
    lemma_flatten_contains(ss, j, 2);
    let per = flatten_steps(ss);
    let target = ss[j][2];
    let i = choose|i: int| 0 <= i < per.len() && per[i] == target;
    let rest = if c.register_http { http_reg_steps(exe) } else { http_unreg_steps() };
    assert((per + rest)[i] == target);
}

} // verus!
