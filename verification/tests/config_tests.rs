use open_remote_url::config::{get_daemon_port, parse_listen, ClientConfig, EnvVars, HostConfig};

fn some(s: &str) -> Option<String> {
    Some(s.to_string())
}

#[test]
fn client_binds_to_configured_port_and_returns_alive() {
    let env = EnvVars {
        listen: some("127.0.0.1:39100"),
        host_url: some("http://localhost:40000"),
        relay_url: some("http://localhost:39100"),
        passphrase: some(""),
        ..Default::default()
    };
    let config = ClientConfig::load(&env);
    assert_eq!(config.client_port, 39100, "client_port must match LISTEN in .env");
    assert_eq!(config.client_host, "127.0.0.1");
    assert_eq!(config.passphrase, None);
    assert_eq!(config.relay_url, "http://localhost:39100");
}

#[test]
fn host_binds_to_configured_port_and_returns_alive() {
    let env = EnvVars { listen: some("127.0.0.1:39200"), passphrase: some(""), ..Default::default() };
    let config = HostConfig::load(&env);
    assert_eq!(config.port, 39200, "port must match LISTEN in .env");
    assert_eq!(config.bind_host, "127.0.0.1");
    assert_eq!(config.passphrase, None);
}

#[test]
fn host_defaults_when_nothing_is_set() {
    let config = HostConfig::load(&EnvVars::default());
    assert_eq!(config.listen, "0.0.0.0:4000");
    assert_eq!(config.bind_host, "0.0.0.0");
    assert_eq!(config.port, 4000);
    assert_eq!(config.passphrase, None);
}

#[test]
fn client_defaults_when_nothing_is_set() {
    let config = ClientConfig::load(&EnvVars::default());
    assert_eq!(config.listen, "0.0.0.0:3000");
    assert_eq!(config.client_host, "0.0.0.0");
    assert_eq!(config.client_port, 3000);
    assert_eq!(config.host_url, "http://localhost:4000");
    assert_eq!(config.relay_url, "http://localhost:3000");
    assert_eq!(config.passphrase, None);
    assert!(config.schemes.is_empty());
    assert!(config.register_http);
}

#[test]
fn parse_listen_without_colon_falls_back_to_8080() {
    assert_eq!(parse_listen("localhost"), ("localhost".to_string(), 8080));
    assert_eq!(parse_listen(""), ("".to_string(), 8080));
}

#[test]
fn parse_listen_with_unreadable_port_falls_back_to_8080() {
    assert_eq!(parse_listen("host:abc"), ("host".to_string(), 8080));
    assert_eq!(parse_listen("host:70000"), ("host".to_string(), 8080));
    assert_eq!(parse_listen("host:"), ("host".to_string(), 8080));
    assert_eq!(parse_listen("host:-1"), ("host".to_string(), 8080));
}

#[test]
fn parse_listen_splits_at_the_last_colon() {
    assert_eq!(parse_listen("[::1]:9000"), ("[::1]".to_string(), 9000));
    assert_eq!(parse_listen("a:b:12"), ("a:b".to_string(), 12));
    assert_eq!(parse_listen("h:+80"), ("h".to_string(), 80));
    assert_eq!(parse_listen("h:65535"), ("h".to_string(), 65535));
    assert_eq!(parse_listen(":0"), ("".to_string(), 0));
}

#[test]
fn configured_urls_lose_their_trailing_slashes() {
    let env = EnvVars { host_url: some("http://h:1//"), relay_url: some("https://r/"), ..Default::default() };
    let config = ClientConfig::load(&env);
    assert_eq!(config.host_url, "http://h:1");
    assert_eq!(config.relay_url, "https://r");
}

#[test]
fn schemes_are_split_trimmed_and_empty_ones_dropped() {
    let env = EnvVars { scheme: some(" vcc, ,unityhub ,"), ..Default::default() };
    let config = ClientConfig::load(&env);
    assert_eq!(config.schemes, vec!["vcc".to_string(), "unityhub".to_string()]);
}

#[test]
fn http_false_in_any_case_turns_off_http_handling() {
    let off = EnvVars { http: some(" FALSE "), ..Default::default() };
    assert!(!ClientConfig::load(&off).register_http);
    let off2 = EnvVars { http: some("false"), ..Default::default() };
    assert!(!ClientConfig::load(&off2).register_http);
    let on = EnvVars { http: some("0"), ..Default::default() };
    assert!(ClientConfig::load(&on).register_http);
    let on2 = EnvVars { http: some("no"), ..Default::default() };
    assert!(ClientConfig::load(&on2).register_http);
}

#[test]
fn a_nonempty_passphrase_is_kept() {
    let env = EnvVars { passphrase: some("secret"), ..Default::default() };
    assert_eq!(ClientConfig::load(&env).passphrase, some("secret"));
    assert_eq!(HostConfig::load(&env).passphrase, some("secret"));
}

#[test]
fn daemon_port_is_the_clients_for_client_and_the_hosts_otherwise() {
    let env = EnvVars { listen: some("127.0.0.1:39100"), ..Default::default() };
    assert_eq!(get_daemon_port("client", &env), 39100);
    assert_eq!(get_daemon_port("host", &env), 39100);
    let unset = EnvVars::default();
    assert_eq!(get_daemon_port("client", &unset), 3000);
    assert_eq!(get_daemon_port("host", &unset), 4000);
    assert_eq!(get_daemon_port("receiver", &unset), 4000);
}
