use open_remote_url::cli::{
    app_label, cli_action, command_report, common_command, setup_gui_or_console, start_daemon,
    stop_daemon, CliAction, CommonCommand, StartMode,
};
use open_remote_url::config::{ClientConfig, EnvVars, HostConfig};
use open_remote_url::install::Machine;
use open_remote_url::paths::{DirVars, Platform};
use open_remote_url::scheme_handler::{join_strings, register_url_schemes, scheme_plist_text, schemes_to_handle};
use open_remote_url::status::{check_status, client_status, host_status, installation_probe, InstallProbe, StatusReport};
use open_remote_url::steps::{Action, SetupError, Step};
use open_remote_url::url_events::{listen, take_receiver, url_event_size_ok, url_from_event};
use open_remote_url::steps::dir_counts_as_empty;

fn some(s: &str) -> Option<String> {
    Some(s.to_string())
}

fn strings(v: &[&str]) -> Vec<String> {
    v.iter().map(|s| s.to_string()).collect()
}

fn client_config(scheme: Option<&str>, http: Option<&str>) -> ClientConfig {
    ClientConfig::load(&EnvVars { scheme: scheme.map(|s| s.to_string()), http: http.map(|s| s.to_string()), ..Default::default() })
}

#[test]
fn installation_is_probed_per_platform() {
    let vars = DirVars { home: some("/home/u"), ..Default::default() };
    assert_eq!(
        installation_probe("client", Platform::Linux, &vars),
        InstallProbe::FileExists { path: "/home/u/.config/systemd/user/open-remote-url-client.service".to_string() }
    );
    assert_eq!(
        installation_probe("host", Platform::MacOs, &vars),
        InstallProbe::FileExists { path: "/home/u/Library/LaunchAgents/quest.nae.open-remote-url.host.plist".to_string() }
    );
    assert_eq!(
        installation_probe("host", Platform::Windows, &vars),
        InstallProbe::RunSucceeds {
            program: "reg".to_string(),
            args: strings(&["query", "HKCU\\Software\\Microsoft\\Windows\\CurrentVersion\\Run", "/v", "OpenRemoteURLHostDaemon"]),
        }
    );
    assert_eq!(installation_probe("host", Platform::Other, &vars), InstallProbe::Never);
}

#[test]
fn status_points_at_the_installed_configuration_once_installed() {
    let vars = DirVars { home: some("/home/u"), ..Default::default() };
    let installed = check_status("client", Platform::Linux, &vars, true, false, "/tmp/inactive.env");
    assert_eq!(installed.exe_path, "/home/u/.local/bin/open-remote-url/client/open-remote-url-client");
    assert_eq!(installed.config_path, "/home/u/.config/open-remote-url/client/.env");
    assert!(installed.is_installed && !installed.is_running);
    let fresh = check_status("client", Platform::Linux, &vars, false, true, "/tmp/inactive.env");
    assert_eq!(fresh.config_path, "/tmp/inactive.env");
}

#[test]
fn client_status_text() {
    let report = StatusReport {
        is_installed: true,
        is_running: true,
        exe_path: "/x/open-remote-url-client".to_string(),
        config_path: "/x/.env".to_string(),
    };
    let config = ClientConfig::load(&EnvVars {
        listen: some("0.0.0.0:3000"),
        host_url: some("http://192.168.1.10:4000"),
        relay_url: some("http://192.168.1.20:3000/"),
        passphrase: some("p"),
        ..Default::default()
    });
    let text = client_status(Platform::MacOs, &report, &config);
    assert_eq!(
        text,
        "Open Remote URL - Client Status\n\n[Status]\n- Installed:  Yes\n- Running:    Yes\n- Listen:     http://0.0.0.0:3000/\n- RELAY:      http://192.168.1.20:3000/\n- HOST:       http://192.168.1.10:4000/\n- Auth:       Enabled\n- Executable: /x/open-remote-url-client\n- Config:     /x/.env\n- Custom Schemes: (none)\n- HTTP/HTTPS:     Registered\n\n[Usage]\n- To install / start client:\n  Double-click the OpenRemoteURLClient.app bundle to open GUI Control Panel\n\n- To uninstall / clean registrations:\n  Open GUI Control Panel and click Uninstall"
    );
}

#[test]
fn host_status_text_without_installation() {
    let report = StatusReport { is_installed: false, is_running: false, exe_path: "e".to_string(), config_path: "c".to_string() };
    let config = HostConfig::load(&EnvVars::default());
    let text = host_status(Platform::Windows, &report, &config);
    assert_eq!(
        text,
        "Open Remote URL - Host Status\n\n[Status]\n- Installed:  No\n- Running:    No\n- Listen:     http://0.0.0.0:4000/\n- Auth:       DISABLED  *** Set PASSPHRASE if exposing to the internet ***\n- Executable: (Will be set upon installation)\n- Config:     c\n\n[Usage]\n- To install / start host:\n  Double-click the executable to open GUI Control Panel\n\n- To uninstall / clean registrations:\n  Open GUI Control Panel and click Uninstall"
    );
}

#[test]
fn handled_schemes_are_the_configured_ones_then_http() {
    assert_eq!(schemes_to_handle(&client_config(Some("vcc,unityhub"), None)), strings(&["vcc", "unityhub", "http", "https"]));
    assert_eq!(schemes_to_handle(&client_config(Some("vcc"), Some("false"))), strings(&["vcc"]));
    assert!(schemes_to_handle(&client_config(None, Some("FALSE"))).is_empty());
}

#[test]
fn joining_with_a_separator() {
    assert_eq!(join_strings(&strings(&["a", "b", "c"]), ";"), "a;b;c");
    assert_eq!(join_strings(&strings(&["a"]), ";"), "a");
    assert_eq!(join_strings(&vec![], ";"), "");
}

#[test]
fn linux_registration_writes_a_desktop_entry_for_every_scheme() {
    let plan = register_url_schemes(&client_config(Some("vcc"), None), Platform::Linux, &some("/opt/orc"), &some("/home/u"));
    assert_eq!(plan.outcome, Ok(()));
    assert_eq!(
        plan.steps[1].action,
        Action::WriteFile {
            path: "/home/u/.local/share/applications/open-remote-url-client.desktop".to_string(),
            contents: "[Desktop Entry]\nType=Application\nName=Open Remote URL\nExec=/opt/orc %u\nIcon=html\nTerminal=false\nNoDisplay=true\nMimeType=x-scheme-handler/vcc;x-scheme-handler/http;x-scheme-handler/https;\n".to_string(),
        }
    );
    assert!(plan.steps[1].required);
    assert_eq!(plan.steps.len(), 6);
    assert_eq!(
        plan.steps[3],
        Step {
            action: Action::Run {
                program: "xdg-mime".to_string(),
                args: strings(&["default", "open-remote-url-client.desktop", "x-scheme-handler/vcc"]),
            },
            when: vec![],
            required: false,
        }
    );
    let none = register_url_schemes(&client_config(None, Some("false")), Platform::Linux, &some("/opt/orc"), &some("/home/u"));
    assert!(matches!(&none.steps[1].action, Action::WriteFile { contents, .. } if contents.ends_with("MimeType=;\n")));
    let no_home = register_url_schemes(&client_config(None, None), Platform::Linux, &some("/opt/orc"), &None);
    assert_eq!(no_home.outcome, Err(SetupError::MissingHome));
    assert!(no_home.steps.is_empty());
}

#[test]
fn macos_registration_needs_an_app_bundle() {
    let config = client_config(Some("steam"), None);
    let bare = register_url_schemes(&config, Platform::MacOs, &some("/usr/local/bin/orc"), &None);
    assert_eq!(bare.outcome, Err(SetupError::NotInAppBundle));
    let exe = some("/Users/u/Applications/OpenRemoteURLClient.app/Contents/MacOS/open-remote-url-client");
    let plan = register_url_schemes(&config, Platform::MacOs, &exe, &None);
    assert_eq!(plan.outcome, Ok(()));
    assert_eq!(plan.steps.len(), 5);
    assert!(matches!(&plan.steps[0].action, Action::WriteFile { path, .. } if path == "/Users/u/Applications/OpenRemoteURLClient.app/Contents/Info.plist"));
    assert_eq!(
        plan.steps[2].action,
        Action::SetDefaultUrlHandler { scheme: "steam".to_string(), bundle_id: "quest.nae.open-remote-url.client".to_string() }
    );
    let none = register_url_schemes(&config, Platform::Other, &exe, &None);
    assert!(none.steps.is_empty() && none.outcome == Ok(()));
    let no_exe = register_url_schemes(&config, Platform::Windows, &None, &None);
    assert_eq!(no_exe.outcome, Err(SetupError::NoExecutablePath));
}

#[test]
fn scheme_plist_lists_each_scheme() {
    let text = scheme_plist_text(&strings(&["steam", "http"]));
    assert!(text.starts_with("<?xml version=\"1.0\" encoding=\"UTF-8\"?>\n"));
    assert!(text.contains("    <key>CFBundleIdentifier</key>\n    <string>quest.nae.open-remote-url.client</string>\n"));
    assert!(text.contains("            <array>\n                <string>steam</string>\n                <string>http</string>\n            </array>\n"));
    assert!(text.ends_with("</dict>\n</plist>\n"));
    let empty = scheme_plist_text(&vec![]);
    assert!(!empty.contains("CFBundleURLTypes"));
    assert!(empty.ends_with("    <key>LSUIElement</key>\n    <true/>\n</dict>\n</plist>\n"));
}

#[test]
fn windows_registration_of_schemes_and_browser() {
    let plan = register_url_schemes(&client_config(Some("vcc"), None), Platform::Windows, &some("C:\\orc.exe"), &None);
    assert_eq!(plan.outcome, Ok(()));
    let args: Vec<Vec<String>> = plan
        .steps
        .iter()
        .map(|s| match &s.action {
            Action::Run { args, .. } => args.clone(),
            _ => vec![],
        })
        .collect();
    assert_eq!(args[0], strings(&["add", "HKCU\\Software\\Classes\\vcc", "/t", "REG_SZ", "/d", "URL:vcc Protocol", "/f"]));
    assert_eq!(args[1], strings(&["add", "HKCU\\Software\\Classes\\vcc", "/v", "URL Protocol", "/t", "REG_SZ", "/d", "", "/f"]));
    assert_eq!(
        args[2],
        strings(&["add", "HKCU\\Software\\Classes\\vcc\\shell\\open\\command", "/t", "REG_SZ", "/d", "\"C:\\orc.exe\" \"%1\"", "/f"])
    );
    assert_eq!(
        args[3],
        strings(&["add", "HKCU\\Software\\Clients\\StartMenuInternet\\OpenRemoteURLClient", "/t", "REG_SZ", "/d", "\"C:\\orc.exe\"", "/f"])
    );
    assert_eq!(
        args[8],
        strings(&["add", "HKCU\\Software\\Classes\\OpenRemoteURLClient", "/t", "REG_SZ", "/d", "\"C:\\orc.exe\"", "/f"])
    );
    assert_eq!(
        args[9],
        strings(&[
            "add",
            "HKCU\\Software\\RegisteredApplications",
            "/t",
            "REG_SZ",
            "/d",
            "Software\\Clients\\StartMenuInternet\\OpenRemoteURLClient\\Capabilities",
            "/f",
            "/v",
            "OpenRemoteURLClient",
        ])
    );
    assert_eq!(args.len(), 11);
    let off = register_url_schemes(&client_config(None, Some("false")), Platform::Windows, &some("C:\\orc.exe"), &None);
    assert_eq!(off.steps.len(), 3);
    assert!(matches!(&off.steps[0].action, Action::Run { args, .. } if args[0] == "delete"));
}

#[test]
fn command_line_actions() {
    let args = |v: &[&str]| strings(v);
    assert_eq!(cli_action(&args(&["orc"]), true), CliAction::Status);
    assert_eq!(cli_action(&args(&["orc", "--install"]), true), CliAction::Common(CommonCommand::Install));
    assert_eq!(cli_action(&args(&["orc", "--config"]), false), CliAction::Common(CommonCommand::Config));
    assert_eq!(cli_action(&args(&["orc", "--daemon"]), false), CliAction::Daemon);
    assert_eq!(
        cli_action(&args(&["orc", "steam://install/4084250"]), true),
        CliAction::ForwardUrl("steam://install/4084250".to_string())
    );
    assert_eq!(cli_action(&args(&["orc", "steam://install/4084250"]), false), CliAction::Status);
    assert_eq!(cli_action(&args(&["orc", "--unknown"]), true), CliAction::Status);
    assert_eq!(common_command("--stop"), Some(CommonCommand::Stop));
    assert_eq!(common_command("--Stop"), None);
}

#[test]
fn start_mode_per_platform() {
    assert_eq!(setup_gui_or_console(Platform::Windows, 1, false), StartMode::Gui);
    assert_eq!(setup_gui_or_console(Platform::Windows, 2, true), StartMode::AttachConsole);
    assert_eq!(setup_gui_or_console(Platform::Linux, 1, true), StartMode::Gui);
    assert_eq!(setup_gui_or_console(Platform::Linux, 1, false), StartMode::Console);
    assert_eq!(setup_gui_or_console(Platform::MacOs, 2, true), StartMode::Console);
    assert_eq!(setup_gui_or_console(Platform::Other, 1, true), StartMode::Console);
}

#[test]
fn command_reports() {
    assert_eq!(app_label("client"), "Client");
    assert_eq!(app_label("host"), "Host");
    assert_eq!(command_report(CommonCommand::Install, "client", &None), some("Client installation completed successfully!"));
    assert_eq!(command_report(CommonCommand::Install, "client", &some("boom")), some("Installation failed: boom"));
    assert_eq!(command_report(CommonCommand::Uninstall, "host", &None), some("Host uninstallation completed successfully!"));
    assert_eq!(command_report(CommonCommand::Uninstall, "host", &some("x")), some("Uninstallation failed: x"));
    assert_eq!(command_report(CommonCommand::Start, "host", &some("boom")), some("Failed to start host daemon: boom"));
    assert_eq!(command_report(CommonCommand::Stop, "client", &None), some("Client daemon stopped successfully!"));
    assert_eq!(command_report(CommonCommand::Stop, "client", &some("e")), some("Failed to stop client daemon: e"));
    assert_eq!(command_report(CommonCommand::Config, "client", &None), None);
}

#[test]
fn start_and_stop_daemon_plans() {
    let m = Machine {
        platform: Platform::Linux,
        vars: DirVars::default(),
        current_exe: some("/opt/orc"),
        cwd: None,
        pid: 8,
    };
    let start = start_daemon(&m);
    assert_eq!(start.outcome, Ok(()));
    assert_eq!(start.steps[0].action, Action::Spawn { program: "/opt/orc".to_string(), args: strings(&["--daemon"]) });
    let stop = stop_daemon("client", &m);
    assert_eq!(stop.steps[0].action, Action::KillOthers { binary: "open-remote-url-client".to_string() });
    let nowhere = start_daemon(&Machine { current_exe: None, ..m });
    assert_eq!(nowhere.outcome, Err(SetupError::NoExecutablePath));
}

#[test]
fn main_apple_event_url_roundtrip() {
    const TEST_URL: &str = "steam://install/4084250";
    let mut events = listen();
    events.sender.send(TEST_URL.to_string()).unwrap();
    let rx = take_receiver(&mut events).expect("receiver available");
    let got = rx.recv_timeout(std::time::Duration::from_secs(1)).ok();
    assert_eq!(got.as_deref(), Some(TEST_URL));
    assert!(take_receiver(&mut events).is_none());
}

#[test]
fn client_status_lists_its_schemes() {
    let report = StatusReport { is_installed: false, is_running: false, exe_path: "e".to_string(), config_path: "c".to_string() };
    let config = ClientConfig::load(&EnvVars { scheme: Some("vcc,unityhub".to_string()), ..Default::default() });
    let text = client_status(Platform::Linux, &report, &config);
    assert!(text.contains("\n- Executable: (Will be set upon installation)\n- Config:     c\n- Custom Schemes: vcc, unityhub\n- HTTP/HTTPS:     Registered\n\n[Usage]"));
}

#[test]
fn url_event_payloads_are_read_within_the_limit() {
    assert!(!url_event_size_ok(0));
    assert!(url_event_size_ok(1));
    assert!(url_event_size_ok(8191));
    assert!(!url_event_size_ok(8192));
    assert!(!url_event_size_ok(-1));
    assert_eq!(url_from_event(b"vcc://open?x=1\0"), Some("vcc://open?x=1".to_string()));
    assert_eq!(url_from_event(b"\0\0https://a.example/\0"), Some("https://a.example/".to_string()));
    assert_eq!(url_from_event(b"\0\0"), None);
    assert_eq!(url_from_event(b""), None);
    assert_eq!(url_from_event(b"a\xffb"), Some("a\u{fffd}b".to_string()));
}

#[test]
fn a_directory_with_only_finder_metadata_counts_as_empty() {
    assert!(dir_counts_as_empty(&vec![]));
    assert!(dir_counts_as_empty(&vec![".DS_Store".to_string()]));
    assert!(!dir_counts_as_empty(&vec![".DS_Store".to_string(), ".env".to_string()]));
}
