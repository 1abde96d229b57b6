use open_remote_url::locations::{
    bundle_root, env_files, find_inactive_env_path, get_parent_app_dir, install_dir,
    installed_app_bundle_path, installed_exe_path, launchagent_plist_path,
};
use open_remote_url::naming::{
    app_name, binary_name, desktop_file_name, is_url_interceptor, plist_label, registry_run_key,
    service_name,
};
use open_remote_url::paths::{config_root, get_config_dir, get_config_path, join_path, DirVars, Platform};

fn some(s: &str) -> Option<String> {
    Some(s.to_string())
}

fn home(h: &str) -> DirVars {
    DirVars { home: some(h), ..Default::default() }
}

#[test]
fn joining_inserts_one_separator() {
    assert_eq!(join_path(Platform::Linux, "/home/u", "x"), "/home/u/x");
    assert_eq!(join_path(Platform::Linux, "/home/u/", "x"), "/home/u/x");
    assert_eq!(join_path(Platform::Linux, "", "x"), "x");
    assert_eq!(join_path(Platform::Windows, "C:\\Users", "a"), "C:\\Users\\a");
    assert_eq!(join_path(Platform::Windows, "C:/a/", "b"), "C:/a/b");
    assert_eq!(join_path(Platform::Windows, "C:", "x"), "C:x");
    assert_eq!(join_path(Platform::MacOs, "/a\\", "b"), "/a\\/b");
}

#[test]
fn config_directory_per_platform() {
    assert_eq!(get_config_dir("client", Platform::Linux, &home("/home/u")), "/home/u/.config/open-remote-url/client");
    let xdg = DirVars { xdg_config_home: some("/x"), home: some("/home/u"), ..Default::default() };
    assert_eq!(get_config_dir("client", Platform::Linux, &xdg), "/x/open-remote-url/client");
    let appdata = DirVars { appdata: some("C:\\Users\\u\\AppData\\Roaming"), ..Default::default() };
    assert_eq!(
        get_config_dir("host", Platform::Windows, &appdata),
        "C:\\Users\\u\\AppData\\Roaming\\open-remote-url\\host"
    );
    let profile = DirVars { userprofile: some("C:\\Users\\u"), ..Default::default() };
    assert_eq!(
        get_config_dir("host", Platform::Windows, &profile),
        "C:\\Users\\u\\AppData\\Roaming\\open-remote-url\\host"
    );
    assert_eq!(
        get_config_dir("client", Platform::MacOs, &home("/Users/u")),
        "/Users/u/Applications/OpenRemoteURLClient.app"
    );
    assert_eq!(
        get_config_path("host", Platform::MacOs, &home("/Users/u")),
        "/Users/u/Applications/OpenRemoteURLHost.app/.env"
    );
    assert_eq!(get_config_dir("client", Platform::Other, &DirVars::default()), "./client");
    assert_eq!(get_config_dir("client", Platform::Linux, &DirVars::default()), ".config/open-remote-url/client");
}

#[test]
fn config_file_is_env_in_the_config_directory() {
    assert_eq!(get_config_path("host", Platform::Linux, &home("/home/u")), "/home/u/.config/open-remote-url/host/.env");
    assert_eq!(config_root(Platform::Linux, &home("/home/u")), "/home/u/.config/open-remote-url");
    assert_eq!(config_root(Platform::Other, &DirVars::default()), ".");
}

#[test]
fn installed_names_per_app() {
    assert_eq!(binary_name("client"), "open-remote-url-client");
    assert_eq!(binary_name("host"), "open-remote-url-host");
    assert_eq!(binary_name("sender"), "open-remote-url-sender");
    assert_eq!(binary_name("receiver"), "open-remote-url-receiver");
    assert_eq!(binary_name("anything"), "open-remote-url-receiver");
    assert_eq!(app_name("client"), "OpenRemoteURLClient");
    assert_eq!(app_name("host"), "OpenRemoteURLHost");
    assert_eq!(app_name("sender"), "OpenRemoteURLSender");
    assert_eq!(app_name("x"), "OpenRemoteURLReceiver");
    assert_eq!(registry_run_key("client"), "OpenRemoteURLClientDaemon");
    assert_eq!(registry_run_key("host"), "OpenRemoteURLHostDaemon");
    assert_eq!(registry_run_key("sender"), "OpenRemoteURLSenderDaemon");
    assert_eq!(registry_run_key("receiver"), "OpenRemoteURLReceiverDaemon");
    assert_eq!(plist_label("client"), "quest.nae.open-remote-url.client");
    assert_eq!(service_name("host"), "open-remote-url-host.service");
    assert_eq!(desktop_file_name("client"), "open-remote-url-client.desktop");
    assert!(is_url_interceptor("client"));
    assert!(is_url_interceptor("sender"));
    assert!(!is_url_interceptor("host"));
}

#[test]
fn installation_directory_per_platform() {
    let local = DirVars { local_appdata: some("C:\\Users\\u\\AppData\\Local"), ..Default::default() };
    assert_eq!(
        install_dir("client", Platform::Windows, &local),
        "C:\\Users\\u\\AppData\\Local\\Programs\\open-remote-url\\client"
    );
    assert_eq!(
        installed_exe_path("client", Platform::Windows, &local),
        "C:\\Users\\u\\AppData\\Local\\Programs\\open-remote-url\\client\\open-remote-url-client.exe"
    );
    assert_eq!(install_dir("client", Platform::MacOs, &home("/Users/u")), "/Users/u/Applications/OpenRemoteURLClient.app");
    assert_eq!(
        installed_exe_path("client", Platform::MacOs, &home("/Users/u")),
        "/Users/u/Applications/OpenRemoteURLClient.app/Contents/MacOS/open-remote-url-client"
    );
    assert_eq!(install_dir("host", Platform::Linux, &home("/home/u")), "/home/u/.local/bin/open-remote-url/host");
    assert_eq!(
        installed_exe_path("host", Platform::Linux, &home("/home/u")),
        "/home/u/.local/bin/open-remote-url/host/open-remote-url-host"
    );
    assert_eq!(installed_exe_path("host", Platform::Other, &DirVars::default()), "./host/open-remote-url-host");
}

#[test]
fn launch_agent_and_bundle_need_home() {
    assert_eq!(
        launchagent_plist_path("client", &some("/Users/u")),
        some("/Users/u/Library/LaunchAgents/quest.nae.open-remote-url.client.plist")
    );
    assert_eq!(launchagent_plist_path("client", &None), None);
    assert_eq!(installed_app_bundle_path("host", &some("/Users/u")), some("/Users/u/Applications/OpenRemoteURLHost.app"));
    assert_eq!(installed_app_bundle_path("host", &None), None);
}

#[test]
fn app_bundle_of_an_executable() {
    assert_eq!(
        get_parent_app_dir("/Applications/OpenRemoteURLClient.app/Contents/MacOS/open-remote-url-client"),
        some("/Applications/OpenRemoteURLClient.app")
    );
    assert_eq!(get_parent_app_dir("/usr/local/bin/open-remote-url-client"), None);
    assert_eq!(get_parent_app_dir("/a/X.app/Contents/Resources/bin"), None);
    assert_eq!(get_parent_app_dir("/a/X/Contents/MacOS/bin"), None);
    assert_eq!(get_parent_app_dir("bin"), None);
}

#[test]
fn bundle_root_of_an_executable_directory() {
    assert_eq!(bundle_root("/Users/u/Downloads/X.app/Contents/MacOS"), some("/Users/u/Downloads/X.app"));
    assert_eq!(bundle_root("/usr/bin"), None);
}

#[test]
fn inactive_env_search_without_executable() {
    let s = find_inactive_env_path("client", Platform::Linux, &None, &None, "/work");
    assert_eq!(s.candidates, vec!["/work/client/inactive.env", "/work/inactive.env"]);
    assert_eq!(s.fallback, "/work/inactive.env");
}

#[test]
fn inactive_env_search_next_to_executable() {
    let s = find_inactive_env_path("host", Platform::Linux, &some("/opt/app"), &None, "/work");
    assert_eq!(
        s.candidates,
        vec!["/opt/app/host/inactive.env", "/opt/app/inactive.env", "/work/host/inactive.env", "/work/inactive.env"]
    );
    assert_eq!(s.fallback, "/work/inactive.env");
}

#[test]
fn inactive_env_search_skips_build_directories() {
    let s = find_inactive_env_path("host", Platform::Linux, &some("/src/target/debug"), &None, "/src");
    assert_eq!(s.candidates, vec!["/src/target/debug/host/inactive.env", "/src/host/inactive.env", "/src/inactive.env"]);
}

#[test]
fn inactive_env_search_next_to_an_app_bundle() {
    let exe_dir = some("/private/var/folders/t/X.app/Contents/MacOS");
    let real = some("/Users/u/Downloads/X.app");
    let s = find_inactive_env_path("client", Platform::MacOs, &exe_dir, &real, "/");
    assert_eq!(
        s.candidates,
        vec![
            "/private/var/folders/t/X.app/Contents/MacOS/client/inactive.env",
            "/Users/u/Downloads/client/inactive.env",
            "/Users/u/Downloads/inactive.env",
        ]
    );
    assert_eq!(s.fallback, "/Users/u/Downloads/client/inactive.env");
}

#[test]
fn settings_files_in_order_of_preference() {
    let files = env_files("client", Platform::Linux, &home("/home/u"), "/work", "/opt/inactive.env");
    assert_eq!(
        files,
        vec!["/home/u/.config/open-remote-url/client/.env", "/work/.env", "/.env", "/opt/inactive.env"]
    );
}

#[test]
fn settings_search_climbs_from_the_working_directory() {
    let files = env_files("host", Platform::Linux, &home("/home/u"), "/a/b/c", "/t/inactive.env");
    assert_eq!(
        files,
        vec![
            "/home/u/.config/open-remote-url/host/.env",
            "/a/b/c/.env",
            "/a/b/.env",
            "/a/.env",
            "/.env",
            "/t/inactive.env"
        ]
    );
    let relative = env_files("host", Platform::Linux, &home("/home/u"), "work", "inactive.env");
    assert_eq!(relative, vec!["/home/u/.config/open-remote-url/host/.env", "work/.env", ".env", "inactive.env"]);
}
