use sqlx_bootstrap::{ApplicationConfig, BootstrapConfig, ConnectionConfig, RootConfig};

#[test]
fn constructors_keep_every_field() {
    let root = RootConfig::new("r".to_string(), "rp".to_string(), "rdb".to_string());
    assert_eq!(root.username, "r");
    assert_eq!(root.password, "rp");
    assert_eq!(root.database, "rdb");

    let app = ApplicationConfig::new("a".to_string(), "ap".to_string(), "adb".to_string());
    assert_eq!(app.username, "a");
    assert_eq!(app.password, "ap");
    assert_eq!(app.database, "adb");

    let conn = ConnectionConfig::new("h".to_string(), 1);
    assert_eq!(conn.host, "h");
    assert_eq!(conn.port, 1);

    let config = BootstrapConfig::new(root, app, conn);
    assert_eq!(config.root.username, "r");
    assert_eq!(config.app.database, "adb");
    assert_eq!(config.conn.port, 1);
}

#[test]
fn configs_clone_cleanly() {
    let conn = ConnectionConfig::new("example.invalid".to_string(), 5432);
    let copy = conn.clone();
    assert_eq!(copy.host, conn.host);
    assert_eq!(copy.port, conn.port);
}
