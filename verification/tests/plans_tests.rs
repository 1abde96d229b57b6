use open_remote_url::config::{ClientConfig, EnvVars, HostConfig};
use open_remote_url::install::{copy_env_file, install, Machine};
use open_remote_url::paths::{DirVars, Platform};
use open_remote_url::removal::uninstall;
use open_remote_url::service::{kill_commands, kill_other_daemon_processes, stop_and_unregister};
use open_remote_url::steps::{Action, Cond, SetupError, Step};

fn some(s: &str) -> Option<String> {
    Some(s.to_string())
}

fn strings(v: &[&str]) -> Vec<String> {
    v.iter().map(|s| s.to_string()).collect()
}

fn run(program: &str, args: &[&str]) -> Step {
    Step { action: Action::Run { program: program.to_string(), args: strings(args) }, when: vec![], required: false }
}

fn remove_if_exists(path: &str) -> Step {
    Step {
        action: Action::RemoveFile { path: path.to_string() },
        when: vec![Cond::Exists(path.to_string())],
        required: false,
    }
}

fn linux_machine() -> Machine {
    Machine {
        platform: Platform::Linux,
        vars: DirVars { home: some("/home/u"), ..Default::default() },
        current_exe: some("/tmp/dl/open-remote-url-client"),
        cwd: some("/tmp/dl"),
        pid: 77,
    }
}

fn written(steps: &[Step]) -> Vec<String> {
    steps
        .iter()
        .filter_map(|s| match &s.action {
            Action::WriteFile { path, .. } => Some(path.clone()),
            Action::CopyFile { to, .. } => Some(to.clone()),
            Action::CopyDirAll { to, .. } => Some(to.clone()),
            _ => None,
        })
        .collect()
}

fn removed(steps: &[Step]) -> Vec<String> {
    steps
        .iter()
        .filter_map(|s| match &s.action {
            Action::RemoveFile { path } => Some(path.clone()),
            Action::RemoveDirAll { path } => Some(path.clone()),
            _ => None,
        })
        .collect()
}

#[test]
fn pgrep_output_kills_every_listed_process_but_this_one() {
    let steps = kill_commands("123\n456\n 789 \nabc\n\n", 456);
    assert_eq!(steps, vec![run("kill", &["-9", "123"]), run("kill", &["-9", "789"])]);
    assert!(kill_commands("", 1).is_empty());
    assert_eq!(kill_commands("4294967295\r\n", 1), vec![run("kill", &["-9", "4294967295"])]);
    assert!(kill_commands("4294967296\n-5\n", 1).is_empty());
}

#[test]
fn other_daemons_are_ended_per_platform() {
    assert_eq!(
        kill_other_daemon_processes("client", Platform::Windows, 42),
        vec![run("taskkill", &["/F", "/FI", "PID ne 42", "/IM", "open-remote-url-client.exe"])]
    );
    let unix = kill_other_daemon_processes("host", Platform::Linux, 42);
    assert_eq!(unix.len(), 1);
    assert_eq!(unix[0].action, Action::KillOthers { binary: "open-remote-url-host".to_string() });
    assert!(kill_other_daemon_processes("host", Platform::Other, 42).is_empty());
}

#[test]
fn stopping_on_linux_disables_and_removes_the_unit_and_desktop_entry() {
    let plan = stop_and_unregister("client", Platform::Linux, &some("/home/u"), 9);
    assert_eq!(plan.outcome, Ok(()));
    assert_eq!(
        plan.steps[1..].to_vec(),
        vec![
            run("systemctl", &["--user", "stop", "open-remote-url-client.service"]),
            run("systemctl", &["--user", "disable", "open-remote-url-client.service"]),
            remove_if_exists("/home/u/.config/systemd/user/open-remote-url-client.service"),
            run("systemctl", &["--user", "daemon-reload"]),
            remove_if_exists("/home/u/.local/share/applications/open-remote-url-client.desktop"),
            run("update-desktop-database", &["/home/u/.local/share/applications"]),
        ]
    );
}

#[test]
fn stopping_on_windows_deletes_the_logon_entry_and_the_browser_registration() {
    let plan = stop_and_unregister("client", Platform::Windows, &None, 5);
    assert_eq!(plan.outcome, Ok(()));
    assert_eq!(
        plan.steps[1..].to_vec(),
        vec![
            run(
                "reg",
                &["delete", "HKCU\\Software\\Microsoft\\Windows\\CurrentVersion\\Run", "/v", "OpenRemoteURLClientDaemon", "/f"]
            ),
            run("reg", &["delete", "HKCU\\Software\\Clients\\StartMenuInternet\\OpenRemoteURLClient", "/f"]),
            run("reg", &["delete", "HKCU\\Software\\Classes\\OpenRemoteURLClient", "/f"]),
            run("reg", &["delete", "HKCU\\Software\\RegisteredApplications", "/v", "OpenRemoteURLClient", "/f"]),
        ]
    );
    let host = stop_and_unregister("host", Platform::Windows, &None, 5);
    assert_eq!(host.steps.len(), 2);
}

#[test]
fn stopping_on_macos_needs_home() {
    let plan = stop_and_unregister("host", Platform::MacOs, &None, 5);
    assert_eq!(plan.outcome, Err(SetupError::MissingHome));
    assert_eq!(plan.steps.len(), 1);
    let ok = stop_and_unregister("host", Platform::MacOs, &some("/Users/u"), 5);
    assert_eq!(ok.outcome, Ok(()));
    assert_eq!(
        ok.steps[1],
        run("launchctl", &["unload", "/Users/u/Library/LaunchAgents/quest.nae.open-remote-url.host.plist"])
    );
    assert_eq!(ok.steps[2], remove_if_exists("/Users/u/Library/LaunchAgents/quest.nae.open-remote-url.host.plist"));
    assert_eq!(ok.steps[3].when, vec![Cond::Exists("/Users/u/Applications/OpenRemoteURLHost.app".to_string())]);
}

#[test]
fn install_on_linux_copies_configures_and_starts_the_service() {
    let m = linux_machine();
    let plan = install("client", &m);
    assert_eq!(plan.outcome, Ok(()));
    let stop = stop_and_unregister("client", Platform::Linux, &m.vars.home, m.pid);
    assert_eq!(plan.steps[..stop.steps.len()].to_vec(), stop.steps);
    let files = written(&plan.steps);
    assert!(files.contains(&"/home/u/.local/bin/open-remote-url/client/open-remote-url-client".to_string()));
    assert!(files.contains(&"/home/u/.config/open-remote-url/client/.env".to_string()));
    assert!(files.contains(&"/home/u/.config/systemd/user/open-remote-url-client.service".to_string()));
    assert!(files.contains(&"/home/u/.local/share/applications/open-remote-url-client.desktop".to_string()));
    assert!(files.contains(&"/home/u/.local/bin/open-remote-url/client/uninstall.sh".to_string()));
    let unit = plan
        .steps
        .iter()
        .find_map(|s| match &s.action {
            Action::WriteFile { path, contents } if path.ends_with(".service") => Some(contents.clone()),
            _ => None,
        })
        .unwrap();
    assert_eq!(
        unit,
        "[Unit]\nDescription=Open Remote URL client Daemon\nAfter=network.target\n\n[Service]\nExecStart=/home/u/.local/bin/open-remote-url/client/open-remote-url-client --daemon\nWorkingDirectory=/home/u/.local/bin/open-remote-url/client\nRestart=always\n\n[Install]\nWantedBy=default.target\n"
    );
    assert!(plan.steps.contains(&run("systemctl", &["--user", "enable", "open-remote-url-client.service"])));
    assert!(plan.steps.contains(&run(
        "xdg-mime",
        &["default", "open-remote-url-client.desktop", "x-scheme-handler/https"]
    )));
}

#[test]
fn uninstall_removes_every_file_that_install_writes() {
    for (app, m) in [
        ("client", linux_machine()),
        ("host", linux_machine()),
        (
            "client",
            Machine {
                platform: Platform::Windows,
                vars: DirVars { local_appdata: some("C:\\L"), appdata: some("C:\\R"), ..Default::default() },
                current_exe: some("C:\\dl\\open-remote-url-client.exe"),
                cwd: some("C:\\dl"),
                pid: 3,
            },
        ),
    ] {
        let written_files = written(&install(app, &m).steps);
        let removed_files = removed(&uninstall(app, &m).steps);
        assert!(!written_files.is_empty());
        for f in written_files {
            assert!(removed_files.contains(&f), "{} is left behind", f);
        }
    }
}

#[test]
fn install_and_uninstall_report_missing_variables() {
    let mut m = linux_machine();
    m.current_exe = None;
    assert_eq!(install("client", &m).outcome, Err(SetupError::NoExecutablePath));
    let windows = Machine { platform: Platform::Windows, ..linux_machine() };
    assert_eq!(install("host", &windows).outcome, Err(SetupError::MissingLocalAppData));
    assert_eq!(uninstall("host", &windows).outcome, Err(SetupError::MissingLocalAppData));
    let no_home = Machine { vars: DirVars::default(), ..linux_machine() };
    assert_eq!(install("host", &no_home).outcome, Err(SetupError::MissingHome));
    let no_cwd = Machine { cwd: None, ..linux_machine() };
    assert_eq!(install("host", &no_cwd).outcome, Err(SetupError::NoWorkingDir));
}

#[test]
fn configuration_comes_from_the_template_or_is_written_once() {
    let (steps, outcome) = copy_env_file("client", &linux_machine());
    assert_eq!(outcome, Ok(()));
    assert_eq!(steps.len(), 4);
    assert_eq!(steps[0].action, Action::CreateDirAll { path: "/home/u/.config/open-remote-url/client".to_string() });
    assert_eq!(
        steps[1].action,
        Action::CopyFile {
            from: "/tmp/dl/inactive.env".to_string(),
            to: "/home/u/.config/open-remote-url/client/.env".to_string()
        }
    );
    assert_eq!(steps[1].when, vec![Cond::Exists("/tmp/dl/inactive.env".to_string())]);
    assert_eq!(
        steps[3].action,
        Action::WriteFile {
            path: "/home/u/.config/open-remote-url/client/.env".to_string(),
            contents: "LISTEN=0.0.0.0:3000\nHOST_URL=http://localhost:4000\nRELAY_URL=http://localhost:3000\nPASSPHRASE=\n".to_string()
        }
    );
    assert_eq!(
        steps[3].when,
        vec![
            Cond::Missing("/tmp/dl/inactive.env".to_string()),
            Cond::Missing("/tmp/dl/inactive.env".to_string()),
            Cond::Missing("/home/u/.config/open-remote-url/client/.env".to_string()),
        ]
    );
    assert!(steps.iter().all(|s| s.required));
}

#[test]
fn install_on_windows_registers_startup_and_browser_then_starts() {
    let m = Machine {
        platform: Platform::Windows,
        vars: DirVars { local_appdata: some("C:\\L"), appdata: some("C:\\R"), ..Default::default() },
        current_exe: some("C:\\dl\\open-remote-url-client.exe"),
        cwd: some("C:\\dl"),
        pid: 3,
    };
    let plan = install("client", &m);
    assert_eq!(plan.outcome, Ok(()));
    let exe = "C:\\L\\Programs\\open-remote-url\\client\\open-remote-url-client.exe";
    assert!(plan.steps.contains(&Step {
        action: Action::RunChecked {
            program: "reg".to_string(),
            args: strings(&[
                "add",
                "HKCU\\Software\\Microsoft\\Windows\\CurrentVersion\\Run",
                "/v",
                "OpenRemoteURLClientDaemon",
                "/t",
                "REG_SZ",
                "/d",
                &format!("\"{}\" --daemon", exe),
                "/f",
            ]),
            error: "Failed to register startup in Windows registry".to_string(),
        },
        when: vec![],
        required: true,
    }));
    assert_eq!(
        plan.steps.last().unwrap(),
        &Step {
            action: Action::Spawn { program: exe.to_string(), args: strings(&["--daemon"]) },
            when: vec![],
            required: true
        }
    );
    let command = plan.steps.iter().any(|s| match &s.action {
        Action::Run { args, .. } => {
            args.get(1).map(|k| k.as_str()) == Some("HKCU\\Software\\Classes\\OpenRemoteURLClient\\shell\\open\\command")
                && args.get(5).map(|d| d.as_str()) == Some(&format!("\"{}\" \"%1\"", exe)[..])
        },
        _ => false,
    });
    assert!(command);
}

#[test]
fn install_on_macos_builds_the_bundle_and_loads_the_agent() {
    let m = Machine {
        platform: Platform::MacOs,
        vars: DirVars { home: some("/Users/u"), ..Default::default() },
        current_exe: some("/Users/u/Downloads/open-remote-url-host"),
        cwd: some("/Users/u/Downloads"),
        pid: 3,
    };
    let plan = install("host", &m);
    assert_eq!(plan.outcome, Ok(()));
    let files = written(&plan.steps);
    assert!(files.contains(&"/Users/u/Applications/OpenRemoteURLHost.app/Contents/MacOS/open-remote-url-host".to_string()));
    assert!(files.contains(&"/Users/u/Applications/OpenRemoteURLHost.app/Contents/Info.plist".to_string()));
    assert!(files.contains(&"/Users/u/Library/LaunchAgents/quest.nae.open-remote-url.host.plist".to_string()));
    assert!(plan.steps.contains(&run("launchctl", &["start", "quest.nae.open-remote-url.host"])));
    let env = "/Users/u/Applications/OpenRemoteURLHost.app/.env".to_string();
    assert!(files.contains(&env));
    // The bundle is in place before its configuration is written into it,
    // and an earlier bundle only loses its `Contents`.
    let bundle_copy = plan.steps.iter().position(|s| {
        matches!(&s.action, Action::CreateDirAll { path } if path == "/Users/u/Applications/OpenRemoteURLHost.app/Contents/MacOS")
    });
    let env_write = plan.steps.iter().position(|s| written(std::slice::from_ref(s)).contains(&env));
    assert!(bundle_copy.unwrap() < env_write.unwrap());
    let removed_paths = removed(&uninstall("host", &m).steps);
    assert!(removed_paths.contains(&"/Users/u/Applications/OpenRemoteURLHost.app".to_string()));
    assert!(removed_paths.contains(&env));
    assert!(removed_paths.contains(&"/Users/u/Library/LaunchAgents/quest.nae.open-remote-url.host.plist".to_string()));
}

#[test]
fn uninstall_on_linux_removes_binary_scripts_and_configuration() {
    let plan = uninstall("host", &linux_machine());
    assert_eq!(plan.outcome, Ok(()));
    let tail: Vec<Step> = plan.steps[plan.steps.len() - 8..].to_vec();
    assert_eq!(tail[0], remove_if_exists("/home/u/.local/bin/open-remote-url/host/uninstall.sh"));
    assert_eq!(tail[1], remove_if_exists("/home/u/.local/bin/open-remote-url/host/config.sh"));
    assert_eq!(tail[2], remove_if_exists("/home/u/.local/bin/open-remote-url/host/open-remote-url-host"));
    assert_eq!(tail[3].action, Action::RemoveDirIfEmpty { path: "/home/u/.local/bin/open-remote-url/host".to_string() });
    assert_eq!(tail[4].action, Action::RemoveDirIfEmpty { path: "/home/u/.local/bin/open-remote-url".to_string() });
    assert_eq!(tail[5], remove_if_exists("/home/u/.config/open-remote-url/host/.env"));
    assert_eq!(tail[6].action, Action::RemoveDirIfEmpty { path: "/home/u/.config/open-remote-url/host".to_string() });
    assert_eq!(tail[7].action, Action::RemoveDirIfEmpty { path: "/home/u/.config/open-remote-url".to_string() });
}

fn reg_args(step: &Step) -> Option<Vec<String>> {
    match &step.action {
        Action::Run { program, args } | Action::RunChecked { program, args, .. } if program == "reg" => Some(args.clone()),
        _ => None,
    }
}

#[test]
fn uninstall_deletes_every_registry_value_that_install_sets() {
    let m = Machine {
        platform: Platform::Windows,
        vars: DirVars { local_appdata: some("C:\\L"), appdata: some("C:\\R"), ..Default::default() },
        current_exe: some("C:\\dl\\open-remote-url-client.exe"),
        cwd: some("C:\\dl"),
        pid: 3,
    };
    let deletes: Vec<Vec<String>> = uninstall("client", &m).steps.iter().filter_map(reg_args).filter(|a| a[0] == "delete").collect();
    let adds: Vec<Vec<String>> = install("client", &m).steps.iter().filter_map(reg_args).filter(|a| a[0] == "add").collect();
    assert_eq!(adds.len(), 9);
    for add in adds {
        let key = &add[1];
        let name = add.iter().position(|a| a == "/v").map(|j| add[j + 1].clone());
        let covered = deletes.iter().any(|d| {
            (d.len() == 3 && (&d[1] == key || key.starts_with(&format!("{}\\", d[1]))))
                || (d.len() == 5 && &d[1] == key && Some(d[3].clone()) == name)
        });
        assert!(covered, "{:?} is left behind", add);
    }
}

#[test]
fn reinstalling_a_bundle_replaces_only_its_contents() {
    let m = Machine {
        platform: Platform::MacOs,
        vars: DirVars { home: some("/Users/u"), ..Default::default() },
        current_exe: some("/Volumes/dl/OpenRemoteURLClient.app/Contents/MacOS/open-remote-url-client"),
        cwd: some("/"),
        pid: 3,
    };
    let plan = install("client", &m);
    assert_eq!(plan.outcome, Ok(()));
    let contents = "/Users/u/Applications/OpenRemoteURLClient.app/Contents".to_string();
    assert!(plan.steps.contains(&Step {
        action: Action::RemoveDirAll { path: contents.clone() },
        when: vec![Cond::Exists(contents)],
        required: true,
    }));
    assert!(!plan.steps.iter().any(|s| matches!(&s.action,
        Action::RemoveDirAll { path } if path == "/Users/u/Applications/OpenRemoteURLClient.app")));
}

fn env_vars_of(text: &str) -> EnvVars {
    let mut env = EnvVars::default();
    for item in dotenvy::from_read_iter(text.as_bytes()) {
        let (key, value) = item.unwrap();
        let value = Some(value);
        match key.as_str() {
            "LISTEN" => env.listen = value,
            "PASSPHRASE" => env.passphrase = value,
            "HOST_URL" => env.host_url = value,
            "RELAY_URL" => env.relay_url = value,
            "SCHEME" => env.scheme = value,
            "HTTP" => env.http = value,
            other => panic!("unknown setting {}", other),
        }
    }
    env
}

fn default_env_written(app_type: &str) -> String {
    let (steps, outcome) = copy_env_file(app_type, &linux_machine());
    assert_eq!(outcome, Ok(()));
    steps
        .iter()
        .find_map(|s| match &s.action {
            Action::WriteFile { contents, .. } => Some(contents.clone()),
            _ => None,
        })
        .unwrap()
}

#[test]
fn default_env_loads_as_the_documented_defaults() {
    let client = ClientConfig::load(&env_vars_of(&default_env_written("client")));
    assert_eq!(client.listen, "0.0.0.0:3000");
    assert_eq!(client.client_port, 3000);
    assert_eq!(client.host_url, "http://localhost:4000");
    assert_eq!(client.relay_url, "http://localhost:3000");
    assert_eq!(client.passphrase, None);
    let host = HostConfig::load(&env_vars_of(&default_env_written("host")));
    assert_eq!(host.listen, "0.0.0.0:4000");
    assert_eq!(host.port, 4000);
    assert_eq!(host.passphrase, None);
}
