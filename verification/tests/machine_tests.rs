use sqlx_bootstrap::{
    Action, ApplicationConfig, Bootstrap, BootstrapConfig, BootstrapError, ConnectionConfig, Event,
    Notice, Phase, RootConfig,
};

fn sample_config() -> BootstrapConfig {
    BootstrapConfig::new(
        RootConfig::new("root".to_string(), "rootpw".to_string(), "postgres".to_string()),
        ApplicationConfig::new("svc".to_string(), "svcpw".to_string(), "svcdb".to_string()),
        ConnectionConfig::new("localhost".to_string(), 5432),
    )
}

#[test]
fn fresh_server_full_sequence() {
    let mut m = Bootstrap::new(sample_config());
    assert_eq!(m.phase, Phase::Start);

    let o = m.step(Event::Begin);
    assert_eq!(
        o.action,
        Action::ConnectRoot {
            host: "localhost".to_string(),
            port: 5432,
            username: "root".to_string(),
            password: "rootpw".to_string(),
            database: "postgres".to_string(),
        }
    );
    assert_eq!(o.notice, None);

    let o = m.step(Event::Connected);
    assert_eq!(o.action, Action::QueryRoleExists { role: "svc".to_string() });
    assert_eq!(o.notice, None);

    let o = m.step(Event::Absent);
    assert_eq!(
        o.action,
        Action::CreateRole { role: "svc".to_string(), password: "svcpw".to_string() }
    );
    assert_eq!(o.notice, None);

    let o = m.step(Event::Executed);
    assert_eq!(o.action, Action::QueryDatabaseExists { database: "svcdb".to_string() });
    assert_eq!(o.notice, None);

    let o = m.step(Event::Absent);
    assert_eq!(
        o.action,
        Action::GrantMembership { member: "svc".to_string(), target: "root".to_string() }
    );
    assert_eq!(o.notice, None);

    let o = m.step(Event::Executed);
    assert_eq!(
        o.action,
        Action::CreateDatabase { database: "svcdb".to_string(), owner: "svc".to_string() }
    );
    assert_eq!(o.notice, None);

    let o = m.step(Event::Executed);
    assert_eq!(
        o.action,
        Action::RevokeMembership { member: "svc".to_string(), target: "root".to_string() }
    );
    assert_eq!(o.notice, None);

    let o = m.step(Event::Executed);
    assert_eq!(
        o.action,
        Action::ConnectApp {
            host: "localhost".to_string(),
            port: 5432,
            username: "svc".to_string(),
            password: "svcpw".to_string(),
            database: "svcdb".to_string(),
        }
    );
    assert_eq!(o.notice, None);

    let o = m.step(Event::Connected);
    assert_eq!(o.action, Action::Succeed);
    assert_eq!(o.notice, None);
    assert_eq!(m.phase, Phase::Complete);
}

#[test]
fn second_run_skips_every_mutating_statement() {
    let mut m = Bootstrap::new(sample_config());

    let o = m.step(Event::Begin);
    assert!(matches!(o.action, Action::ConnectRoot { .. }));

    let o = m.step(Event::Connected);
    assert_eq!(o.action, Action::QueryRoleExists { role: "svc".to_string() });

    // The role is found: the machine skips creation and moves on to the
    // database lookup, with an informational notice.
    let o = m.step(Event::Found);
    assert_eq!(o.action, Action::QueryDatabaseExists { database: "svcdb".to_string() });
    assert_eq!(o.notice, Some(Notice::RoleAlreadyExists { role: "svc".to_string() }));

    // The database is found too: straight to the application connection.
    let o = m.step(Event::Found);
    assert!(matches!(o.action, Action::ConnectApp { .. }));
    assert_eq!(o.notice, Some(Notice::DatabaseAlreadyExists { database: "svcdb".to_string() }));

    let o = m.step(Event::Connected);
    assert_eq!(o.action, Action::Succeed);
    assert_eq!(m.phase, Phase::Complete);
}

#[test]
fn role_present_database_absent_creates_only_database() {
    let mut m = Bootstrap::new(sample_config());
    m.step(Event::Begin);
    m.step(Event::Connected);

    let o = m.step(Event::Found);
    assert_eq!(o.notice, Some(Notice::RoleAlreadyExists { role: "svc".to_string() }));

    let o = m.step(Event::Absent);
    assert_eq!(
        o.action,
        Action::GrantMembership { member: "svc".to_string(), target: "root".to_string() }
    );
    let o = m.step(Event::Executed);
    assert_eq!(
        o.action,
        Action::CreateDatabase { database: "svcdb".to_string(), owner: "svc".to_string() }
    );
    let o = m.step(Event::Executed);
    assert_eq!(
        o.action,
        Action::RevokeMembership { member: "svc".to_string(), target: "root".to_string() }
    );
    let o = m.step(Event::Executed);
    assert!(matches!(o.action, Action::ConnectApp { .. }));
    let o = m.step(Event::Connected);
    assert_eq!(o.action, Action::Succeed);
    assert_eq!(m.phase, Phase::Complete);
}

#[test]
fn role_absent_database_present_creates_only_role() {
    let mut m = Bootstrap::new(sample_config());
    m.step(Event::Begin);
    m.step(Event::Connected);

    let o = m.step(Event::Absent);
    assert_eq!(
        o.action,
        Action::CreateRole { role: "svc".to_string(), password: "svcpw".to_string() }
    );
    let o = m.step(Event::Executed);
    assert_eq!(o.action, Action::QueryDatabaseExists { database: "svcdb".to_string() });

    let o = m.step(Event::Found);
    assert!(matches!(o.action, Action::ConnectApp { .. }));
    assert_eq!(o.notice, Some(Notice::DatabaseAlreadyExists { database: "svcdb".to_string() }));
    let o = m.step(Event::Connected);
    assert_eq!(o.action, Action::Succeed);
    assert_eq!(m.phase, Phase::Complete);
}

#[test]
fn refused_root_connection_fails_the_run() {
    let mut m = Bootstrap::new(sample_config());
    m.step(Event::Begin);
    let o = m.step(Event::ConnectionRefused { message: "no route to host".to_string() });
    assert_eq!(
        o.action,
        Action::Fail {
            error: BootstrapError::ConnectionFailed { message: "no route to host".to_string() },
        }
    );
    assert_eq!(m.phase, Phase::Failed);
}

#[test]
fn rejected_statement_fails_the_run() {
    let mut m = Bootstrap::new(sample_config());
    m.step(Event::Begin);
    m.step(Event::Connected);
    m.step(Event::Absent);
    let o = m.step(Event::ExecutionFailed { message: "permission denied".to_string() });
    assert_eq!(
        o.action,
        Action::Fail {
            error: BootstrapError::StatementFailed { message: "permission denied".to_string() },
        }
    );
    assert_eq!(m.phase, Phase::Failed);
}

#[test]
fn rejected_revoke_fails_the_run_after_creation() {
    let mut m = Bootstrap::new(sample_config());
    m.step(Event::Begin);
    m.step(Event::Connected);
    m.step(Event::Found);
    let o = m.step(Event::Absent);
    assert!(matches!(o.action, Action::GrantMembership { .. }));
    let o = m.step(Event::Executed);
    assert!(matches!(o.action, Action::CreateDatabase { .. }));
    let o = m.step(Event::Executed);
    assert!(matches!(o.action, Action::RevokeMembership { .. }));
    // The revoke statement itself is rejected: the run fails, with the
    // database already created and the temporary grant left behind.
    let o = m.step(Event::ExecutionFailed { message: "terminated".to_string() });
    assert_eq!(
        o.action,
        Action::Fail {
            error: BootstrapError::StatementFailed { message: "terminated".to_string() },
        }
    );
    assert_eq!(m.phase, Phase::Failed);
}

#[test]
fn accepts_event_tracks_the_phase() {
    let mut m = Bootstrap::new(sample_config());
    assert!(m.accepts_event(&Event::Begin));
    assert!(!m.accepts_event(&Event::Connected));
    assert!(!m.accepts_event(&Event::Found));

    m.step(Event::Begin);
    assert!(!m.accepts_event(&Event::Begin));
    assert!(m.accepts_event(&Event::Connected));
    assert!(m.accepts_event(&Event::ConnectionRefused { message: String::new() }));
    assert!(!m.accepts_event(&Event::Executed));

    m.step(Event::Connected);
    m.step(Event::Found);
    m.step(Event::Found);
    m.step(Event::Connected);
    assert_eq!(m.phase, Phase::Complete);
    assert!(!m.accepts_event(&Event::Begin));
    assert!(!m.accepts_event(&Event::Connected));
    assert!(!m.accepts_event(&Event::Executed));
}
