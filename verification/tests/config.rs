use gvm_mcp::config::{Cli, Config, ConfigError, PasswordFile, Transport};

fn base_cli() -> Cli {
    Cli {
        gateway_url: "http://gateway.example:8080".into(),
        username: Some("admin".into()),
        password: Some("s3cret".into()),
        ..Cli::default()
    }
}

fn error_message(cli: Cli) -> String {
    match Config::from_cli(cli) {
        Ok(_) => panic!("expected the settings to be refused"),
        Err(err) => err.message(),
    }
}

#[test]
fn builds_config_from_flags() {
    let config = Config::from_cli(base_cli()).unwrap();
    assert_eq!(config.username, "admin");
    assert_eq!(config.gateway_url.as_str(), "http://gateway.example:8080/");
    assert_eq!(config.timeout_secs, 30);
    assert!(!config.read_only);
}

#[test]
fn rejects_missing_username() {
    let mut cli = base_cli();
    cli.username = None;
    let err = error_message(cli);
    assert!(err.contains("username"));
}

#[test]
fn rejects_missing_password() {
    let mut cli = base_cli();
    cli.password = None;
    let err = error_message(cli);
    assert!(err.contains("password"));
}

#[test]
fn rejects_non_http_scheme() {
    let mut cli = base_cli();
    cli.gateway_url = "unix:/run/gvmd.sock".into();
    let err = error_message(cli);
    assert!(err.contains("http"));
}

#[test]
fn password_file_takes_precedence() {
    let mut cli = base_cli();
    cli.password_file = Some(PasswordFile::Read {
        path: "/run/secrets/password".into(),
        contents: "from-file\n".into(),
    });
    let config = Config::from_cli(cli).unwrap();
    assert_eq!(config.password, "from-file");
}

#[test]
fn empty_password_file_is_rejected() {
    let mut cli = base_cli();
    cli.password_file = Some(PasswordFile::Read {
        path: "/run/secrets/empty-password".into(),
        contents: "\n".into(),
    });
    let err = error_message(cli);
    assert!(err.contains("empty"));
    assert_eq!(err, "password file '/run/secrets/empty-password' is empty");
}

#[test]
fn unreadable_password_file_is_reported_with_its_path() {
    let mut cli = base_cli();
    cli.password_file = Some(PasswordFile::Unreadable {
        path: "/nope".into(),
        reason: "No such file or directory".into(),
    });
    assert_eq!(error_message(cli), "failed to read password file '/nope'");
}

#[test]
fn password_file_keeps_inner_whitespace_and_drops_line_ends() {
    let mut cli = base_cli();
    cli.password_file = Some(PasswordFile::Read {
        path: "p".into(),
        contents: " pass word \r\n\n".into(),
    });
    assert_eq!(Config::from_cli(cli).unwrap().password, " pass word ");
}

#[test]
fn empty_username_and_password_count_as_missing() {
    let mut cli = base_cli();
    cli.username = Some(String::new());
    assert_eq!(
        error_message(cli),
        "gvmd username is required (--username or GVM_USERNAME)"
    );
    let mut cli = base_cli();
    cli.password = Some(String::new());
    assert_eq!(
        error_message(cli),
        "gvmd password is required (GVM_PASSWORD or --password-file)"
    );
}

#[test]
fn zero_timeout_is_rejected() {
    let mut cli = base_cli();
    cli.timeout_secs = 0;
    match Config::from_cli(cli) {
        Err(ConfigError::ZeroTimeout) => {}
        other => panic!("expected a timeout error, got {:?}", other.err()),
    }
}

#[test]
fn url_checks_come_first() {
    let cli = Cli {
        gateway_url: "ftp://files.example".into(),
        ..Cli::default()
    };
    assert_eq!(
        error_message(cli),
        "gateway URL must use http or https, got 'ftp://files.example/'"
    );
    let cli = Cli {
        gateway_url: "not a url".into(),
        ..Cli::default()
    };
    assert!(matches!(Config::from_cli(cli), Err(ConfigError::InvalidUrl { .. })));
}

#[test]
fn invalid_toolsets_are_reported() {
    let mut cli = base_cli();
    cli.toolsets = vec!["tasks".into(), "bogus".into()];
    let err = error_message(cli);
    assert!(err.contains("bogus"));
}

#[test]
fn settings_are_carried_over() {
    let mut cli = base_cli();
    cli.transport = Transport::StreamableHttp;
    cli.read_only = true;
    cli.timeout_secs = 5;
    cli.auth_token = Some(String::new());
    cli.toolsets = vec!["tasks".into()];
    cli.allowed_hosts = vec!["mcp.example".into()];
    let config = Config::from_cli(cli).unwrap();
    assert_eq!(config.transport, Transport::StreamableHttp);
    assert!(config.read_only);
    assert_eq!(config.timeout_secs, 5);
    assert_eq!(config.auth_token, None);
    assert_eq!(config.allowed_hosts, vec!["mcp.example".to_string()]);
    assert_eq!(config.bind_addr, "127.0.0.1:8000");
    assert_eq!(config.toolsets.to_string(), "system,tasks");
}

#[test]
fn defaults_match_the_command_line_defaults() {
    let cli = Cli::default();
    assert_eq!(cli.gateway_url, "http://127.0.0.1:8080");
    assert_eq!(cli.transport, Transport::Stdio);
    assert_eq!(cli.allowed_hosts, vec!["localhost", "127.0.0.1", "::1"]);
    assert_eq!(cli.timeout_secs, 30);
    assert_eq!(cli.log_level, "info");
}
