use smtp_bridge::ConfigError;
use smtp_bridge::EnvValues;
use smtp_bridge::build_mailer;
use smtp_bridge::load_config;

fn full_env() -> EnvValues {
    EnvValues {
        http_bind: Some("0.0.0.0:9000".to_owned()),
        smtp_host: Some("smtp.example.com".to_owned()),
        smtp_port: Some("2525".to_owned()),
        smtp_username: Some("user".to_owned()),
        smtp_password: Some("secret".to_owned()),
        smtp_from: Some("Bridge <bridge@example.com>".to_owned()),
        smtp_tls: Some("true".to_owned()),
    }
}

fn is_missing(r: Result<smtp_bridge::Config, ConfigError>, name: &str) -> bool {
    matches!(r, Err(ConfigError::MissingVariable(ref n)) if n == name)
}

fn is_invalid(r: Result<smtp_bridge::Config, ConfigError>, name: &str) -> bool {
    matches!(r, Err(ConfigError::InvalidValue(ref n)) if n == name)
}

#[test]
fn full_environment_loads() {
    let cfg = load_config(full_env()).unwrap();
    assert_eq!(cfg.http_bind, "0.0.0.0:9000");
    assert_eq!(cfg.smtp_host, "smtp.example.com");
    assert_eq!(cfg.smtp_port, 2525);
    assert_eq!(cfg.smtp_username, "user");
    assert_eq!(cfg.smtp_password, "secret");
    assert!(cfg.smtp_tls);
}

#[test]
fn missing_from_is_reported() {
    let mut env = full_env();
    env.smtp_from = None;
    assert!(is_missing(load_config(env), "SMTP_FROM"));
}

#[test]
fn missing_host_is_reported() {
    let mut env = full_env();
    env.smtp_host = None;
    assert!(is_missing(load_config(env), "SMTP_HOST"));
}

#[test]
fn missing_username_is_reported() {
    let mut env = full_env();
    env.smtp_username = None;
    assert!(is_missing(load_config(env), "SMTP_USERNAME"));
}

#[test]
fn missing_password_is_reported() {
    let mut env = full_env();
    env.smtp_password = None;
    assert!(is_missing(load_config(env), "SMTP_PASSWORD"));
}

#[test]
fn missing_from_wins_over_missing_host() {
    let mut env = full_env();
    env.smtp_from = None;
    env.smtp_host = None;
    assert!(is_missing(load_config(env), "SMTP_FROM"));
}

#[test]
fn invalid_from_is_reported() {
    let mut env = full_env();
    env.smtp_from = Some("not-an-email".to_owned());
    assert!(is_invalid(load_config(env), "SMTP_FROM"));
}

#[test]
fn invalid_port_is_reported() {
    for port in ["70000", "abc", "", "-1", "  587"] {
        let mut env = full_env();
        env.smtp_port = Some(port.to_owned());
        assert!(is_invalid(load_config(env), "SMTP_PORT"), "accepted {port}");
    }
}

#[test]
fn port_defaults_to_587() {
    let mut env = full_env();
    env.smtp_port = None;
    assert_eq!(load_config(env).unwrap().smtp_port, 587);
}

#[test]
fn port_accepts_a_leading_plus() {
    let mut env = full_env();
    env.smtp_port = Some("+2525".to_owned());
    assert_eq!(load_config(env).unwrap().smtp_port, 2525);
}

#[test]
fn bind_defaults_to_loopback() {
    let mut env = full_env();
    env.http_bind = None;
    assert_eq!(load_config(env).unwrap().http_bind, "127.0.0.1:8080");
}

#[test]
fn tls_defaults_to_enabled_when_unset() {
    let mut env = full_env();
    env.smtp_tls = None;
    assert!(load_config(env).unwrap().smtp_tls);
}

#[test]
fn tls_off_disables() {
    for token in ["off", "0", "false", "no", "OFF", " No "] {
        let mut env = full_env();
        env.smtp_tls = Some(token.to_owned());
        assert!(!load_config(env).unwrap().smtp_tls, "token {token}");
    }
}

#[test]
fn tls_truthy_tokens_enable() {
    for token in ["on", "1", "true", "yes", "TRUE", " Yes "] {
        let mut env = full_env();
        env.smtp_tls = Some(token.to_owned());
        assert!(load_config(env).unwrap().smtp_tls, "token {token}");
    }
}

#[test]
fn tls_unrecognized_token_falls_back_to_enabled() {
    let mut env = full_env();
    env.smtp_tls = Some("maybe".to_owned());
    assert!(load_config(env).unwrap().smtp_tls);
}

fn runtime() -> tokio::runtime::Runtime {
    tokio::runtime::Builder::new_current_thread().enable_all().build().unwrap()
}

#[test]
fn plain_transport_always_builds() {
    let rt = runtime();
    let _guard = rt.enter();
    let mut env = full_env();
    env.smtp_tls = Some("off".to_owned());
    let cfg = load_config(env).unwrap();
    assert!(build_mailer(&cfg).is_ok());
}

#[test]
fn tls_transport_builds_for_a_well_formed_host() {
    let rt = runtime();
    let _guard = rt.enter();
    let cfg = load_config(full_env()).unwrap();
    assert!(build_mailer(&cfg).is_ok());
}

#[test]
fn transport_construction_makes_no_network_round_trip() {
    // Construction is shape-only: even a host that no resolver would
    // accept yields a transport, and the error surfaces at delivery.
    let rt = runtime();
    let _guard = rt.enter();
    let mut env = full_env();
    env.smtp_host = Some("not a hostname".to_owned());
    let cfg = load_config(env).unwrap();
    assert!(build_mailer(&cfg).is_ok());
}
