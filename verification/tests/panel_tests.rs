use open_remote_url::config::{ClientConfig, EnvVars};
use open_remote_url::panel::{window_title, StatusPanel};
use open_remote_url::status::StatusReport;

fn report(installed: bool, running: bool) -> StatusReport {
    StatusReport {
        is_installed: installed,
        is_running: running,
        exe_path: "/home/u/.local/bin/open-remote-url/client/open-remote-url-client".to_string(),
        config_path: "/home/u/.config/open-remote-url/client/.env".to_string(),
    }
}

#[test]
fn panel_shows_the_installation_state() {
    let p = StatusPanel::new("client", report(false, false), &Some("/tmp/open-remote-url-client".to_string()));
    assert!(!p.is_running_from_install_dir);
    assert_eq!(p.title(), "Open Remote URL — Client Panel");
    assert_eq!(p.installed_label(), "Not Installed");
    assert_eq!(p.running_label(), "Stopped");
    assert_eq!(p.exe_label(), "(Will be set upon installation)");
    assert_eq!(p.install_button_text(), "Install Service");
    assert!(p.buttons_enabled());
    assert!(!p.uninstall_enabled());
    assert_eq!(window_title("client"), "Open Remote URL Client");
    assert_eq!(window_title("host"), "Open Remote URL Host");
}

#[test]
fn panel_run_from_a_removed_installation_disables_its_buttons() {
    let exe = Some("/home/u/.local/bin/open-remote-url/client/open-remote-url-client".to_string());
    let mut p = StatusPanel::new("client", report(true, true), &exe);
    assert!(p.is_running_from_install_dir);
    assert!(p.buttons_enabled() && p.uninstall_enabled());
    assert_eq!(p.install_button_text(), "Reinstall / Update");
    assert_eq!(p.running_label(), "Running (Daemon)");
    p.start_uninstall();
    assert_eq!(p.message.as_deref(), Some("Uninstalling service..."));
    p.finish_uninstall(&None, report(false, false));
    assert_eq!(p.message.as_deref(), Some("Service successfully uninstalled!"));
    assert!(!p.buttons_enabled());
    assert!(!p.uninstall_enabled());
}

#[test]
fn panel_reports_the_outcome_of_an_installation() {
    let mut p = StatusPanel::new("host", report(false, false), &None);
    assert_eq!(p.title(), "Open Remote URL — Host Panel");
    p.start_install();
    assert_eq!(p.message.as_deref(), Some("Installing service..."));
    assert!(!p.is_error);
    p.finish_install(&Some("environment variable not found".to_string()), report(false, false));
    assert_eq!(p.message.as_deref(), Some("Installation failed: environment variable not found"));
    assert!(p.is_error);
    p.finish_install(&None, report(true, true));
    assert_eq!(p.message.as_deref(), Some("Service successfully installed and started!"));
    assert!(!p.is_error);
    assert!(p.report.is_installed);
    p.folder_error("no file manager");
    assert_eq!(p.message.as_deref(), Some("Could not open folder: no file manager"));
    assert!(p.is_error);
}

#[test]
fn settings_folder_is_that_of_the_configuration_file() {
    let p = StatusPanel::new("client", report(true, false), &None);
    assert_eq!(p.settings_folder(), ("/home/u/.config/open-remote-url/client".to_string(), true));
    let fresh = StatusPanel::new("client", report(false, false), &None);
    assert_eq!(fresh.settings_folder().1, false);
}

#[test]
fn client_panel_shows_scheme_rows() {
    let config = ClientConfig::load(&EnvVars {
        scheme: Some("vcc, unityhub".to_string()),
        http: Some("false".to_string()),
        ..Default::default()
    });
    let p = StatusPanel::new("client", report(true, true), &None);
    assert_eq!(
        p.scheme_rows(&config),
        vec![
            ("Custom Schemes:".to_string(), "vcc, unityhub".to_string()),
            ("HTTP/HTTPS:".to_string(), "Not registered".to_string()),
        ]
    );
    let plain = ClientConfig::load(&EnvVars::default());
    assert_eq!(
        p.scheme_rows(&plain),
        vec![
            ("Custom Schemes:".to_string(), "(none)".to_string()),
            ("HTTP/HTTPS:".to_string(), "Registered".to_string()),
        ]
    );
    let host = StatusPanel::new("host", report(true, true), &None);
    assert!(host.scheme_rows(&config).is_empty());
}
