use open_remote_url::cli::{is_double_clicked, LaunchProbe};
use open_remote_url::folders::{open_dir_in_file_manager, show_config};
use open_remote_url::paths::{DirVars, Platform};
use open_remote_url::steps::{Action, Cond, Step};

fn spawn(program: &str, args: &[&str]) -> Action {
    Action::Spawn { program: program.to_string(), args: args.iter().map(|a| a.to_string()).collect() }
}

fn required(action: Action) -> Step {
    Step { action, when: vec![], required: true }
}

#[test]
fn windows_folder_opens_in_explorer() {
    let steps = open_dir_in_file_manager("C:\\Users\\u\\AppData\\Roaming\\open-remote-url\\client", Platform::Windows, false);
    assert_eq!(steps, vec![required(spawn("explorer", &["C:\\Users\\u\\AppData\\Roaming\\open-remote-url\\client"]))]);
}

#[test]
fn macos_folder_opens_in_finder() {
    let steps = open_dir_in_file_manager("/Users/u/Documents/notes", Platform::MacOs, false);
    assert_eq!(steps, vec![required(spawn("open", &["/Users/u/Documents/notes"]))]);
}

#[test]
fn macos_app_bundle_reveals_its_env_file() {
    let steps = open_dir_in_file_manager("/Applications/OpenRemoteURLClient.app", Platform::MacOs, false);
    let env = "/Applications/OpenRemoteURLClient.app/.env";
    assert_eq!(
        steps,
        vec![
            Step { action: spawn("open", &["-R", env]), when: vec![Cond::Exists(env.to_string())], required: true },
            Step {
                action: spawn("open", &["-R", "/Applications/OpenRemoteURLClient.app"]),
                when: vec![Cond::Missing(env.to_string())],
                required: true,
            },
        ]
    );
}

#[test]
fn linux_folder_opens_only_with_a_display() {
    assert_eq!(open_dir_in_file_manager("/home/u/.config/open-remote-url/client", Platform::Linux, false), vec![]);
    assert_eq!(
        open_dir_in_file_manager("/home/u/.config/open-remote-url/client", Platform::Linux, true),
        vec![required(spawn("xdg-open", &["/home/u/.config/open-remote-url/client"]))]
    );
}

#[test]
fn show_config_prints_the_file_and_opens_its_folder() {
    let vars = DirVars { home: Some("/home/u".to_string()), ..Default::default() };
    let (path, steps) = show_config("client", Platform::Linux, &vars, true);
    assert_eq!(path, "/home/u/.config/open-remote-url/client/.env");
    assert_eq!(
        steps,
        vec![
            required(Action::CreateDirAll { path: "/home/u/.config/open-remote-url/client".to_string() }),
            required(spawn("xdg-open", &["/home/u/.config/open-remote-url/client"])),
        ]
    );
}

#[test]
fn show_config_without_display_only_creates_the_folder() {
    let vars = DirVars { xdg_config_home: Some("/cfg".to_string()), ..Default::default() };
    let (path, steps) = show_config("host", Platform::Linux, &vars, false);
    assert_eq!(path, "/cfg/open-remote-url/host/.env");
    assert_eq!(steps, vec![required(Action::CreateDirAll { path: "/cfg/open-remote-url/host".to_string() })]);
}

fn probe(console_processes: u32, attachable: bool, terminal: bool, display: bool) -> LaunchProbe {
    LaunchProbe {
        console_processes,
        parent_console_attachable: attachable,
        stdout_is_terminal: terminal,
        has_display: display,
    }
}

#[test]
fn windows_double_click_is_a_console_of_its_own() {
    assert!(is_double_clicked(Platform::Windows, &probe(1, false, false, false)));
    assert!(!is_double_clicked(Platform::Windows, &probe(2, false, false, false)));
    assert!(is_double_clicked(Platform::Windows, &probe(0, false, true, false)));
    assert!(!is_double_clicked(Platform::Windows, &probe(0, true, false, false)));
}

#[test]
fn unix_double_click_has_no_terminal() {
    assert!(is_double_clicked(Platform::MacOs, &probe(0, false, false, false)));
    assert!(!is_double_clicked(Platform::MacOs, &probe(0, false, true, true)));
    assert!(is_double_clicked(Platform::Linux, &probe(0, false, false, true)));
    assert!(!is_double_clicked(Platform::Linux, &probe(0, false, false, false)));
    assert!(!is_double_clicked(Platform::Linux, &probe(0, false, true, true)));
    assert!(!is_double_clicked(Platform::Other, &probe(1, false, false, true)));
}

#[test]
fn macos_settings_folder_is_the_app_bundle() {
    let vars = DirVars { home: Some("/Users/u".to_string()), ..Default::default() };
    let (path, steps) = show_config("client", Platform::MacOs, &vars, false);
    assert_eq!(path, "/Users/u/Applications/OpenRemoteURLClient.app/.env");
    assert_eq!(steps[0], required(Action::CreateDirAll { path: "/Users/u/Applications/OpenRemoteURLClient.app".to_string() }));
    assert_eq!(steps[1].action, spawn("open", &["-R", "/Users/u/Applications/OpenRemoteURLClient.app/.env"]));
}
