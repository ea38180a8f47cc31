use sqlx_bootstrap::env::parse_port;
use sqlx_bootstrap::{BootstrapConfig, BootstrapFromEnvironmentError, EnvVar};

fn full_values() -> [Option<String>; 8] {
    [
        Some("root".to_string()),
        Some("rootpw".to_string()),
        Some("postgres".to_string()),
        Some("svc".to_string()),
        Some("svcpw".to_string()),
        Some("svcdb".to_string()),
        Some("localhost".to_string()),
        Some("5432".to_string()),
    ]
}

fn build(values: [Option<String>; 8]) -> Result<BootstrapConfig, BootstrapFromEnvironmentError> {
    let [ru, rp, rd, au, ap, ad, host, port] = values;
    BootstrapConfig::from_env_values(ru, rp, rd, au, ap, ad, host, port)
}

#[test]
fn all_variables_present_builds_the_config() {
    let c = build(full_values()).unwrap();
    assert_eq!(c.root.username, "root");
    assert_eq!(c.root.password, "rootpw");
    assert_eq!(c.root.database, "postgres");
    assert_eq!(c.app.username, "svc");
    assert_eq!(c.app.password, "svcpw");
    assert_eq!(c.app.database, "svcdb");
    assert_eq!(c.conn.host, "localhost");
    assert_eq!(c.conn.port, 5432);
}

#[test]
fn each_missing_variable_is_named() {
    let vars = [
        EnvVar::RootUsername,
        EnvVar::RootPassword,
        EnvVar::RootDatabase,
        EnvVar::AppUsername,
        EnvVar::AppPassword,
        EnvVar::AppDatabase,
        EnvVar::DatabaseHost,
        EnvVar::DatabasePort,
    ];
    for (i, var) in vars.iter().enumerate() {
        let mut values = full_values();
        values[i] = None;
        let err = build(values).unwrap_err();
        assert_eq!(err, BootstrapFromEnvironmentError::ConfigMissing(*var));
    }
}

#[test]
fn first_missing_variable_wins() {
    let mut values = full_values();
    values[1] = None;
    values[7] = None;
    let err = build(values).unwrap_err();
    assert_eq!(err, BootstrapFromEnvironmentError::ConfigMissing(EnvVar::RootPassword));
}

#[test]
fn non_numeric_port_is_a_configuration_error() {
    let mut values = full_values();
    values[7] = Some("abc".to_string());
    let err = build(values).unwrap_err();
    assert_eq!(
        err,
        BootstrapFromEnvironmentError::ConfigParseFailed(EnvVar::DatabasePort, "abc".to_string())
    );
}

#[test]
fn oversized_port_is_a_configuration_error() {
    let mut values = full_values();
    values[7] = Some("70000".to_string());
    let err = build(values).unwrap_err();
    assert_eq!(
        err,
        BootstrapFromEnvironmentError::ConfigParseFailed(EnvVar::DatabasePort, "70000".to_string())
    );
}

#[test]
fn parse_port_exact_values() {
    assert_eq!(parse_port("0"), Some(0));
    assert_eq!(parse_port("7"), Some(7));
    assert_eq!(parse_port("007"), Some(7));
    assert_eq!(parse_port("5432"), Some(5432));
    assert_eq!(parse_port("65535"), Some(65535));
}

#[test]
fn parse_port_rejections() {
    assert_eq!(parse_port(""), None);
    assert_eq!(parse_port("abc"), None);
    assert_eq!(parse_port("54x2"), None);
    assert_eq!(parse_port("+80"), None);
    assert_eq!(parse_port("-1"), None);
    assert_eq!(parse_port(" 5432"), None);
    assert_eq!(parse_port("65536"), None);
    assert_eq!(parse_port("999999999999999999999"), None);
}

#[test]
fn variable_names_match_the_environment() {
    assert_eq!(EnvVar::RootUsername.name(), "ROOT_USERNAME");
    assert_eq!(EnvVar::RootPassword.name(), "ROOT_PASSWORD");
    assert_eq!(EnvVar::RootDatabase.name(), "ROOT_DATABASE");
    assert_eq!(EnvVar::AppUsername.name(), "APP_USERNAME");
    assert_eq!(EnvVar::AppPassword.name(), "APP_PASSWORD");
    assert_eq!(EnvVar::AppDatabase.name(), "APP_DATABASE");
    assert_eq!(EnvVar::DatabaseHost.name(), "DATABASE_HOST");
    assert_eq!(EnvVar::DatabasePort.name(), "DATABASE_PORT");
}
