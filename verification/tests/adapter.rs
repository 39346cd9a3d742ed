use freetds_pool::manager::ConnectionConfig;
use freetds_pool::manager::FreetdsConnectionManager;
use freetds_pool::session::SessionState;

fn manager_with(database: Option<&str>) -> FreetdsConnectionManager {
    FreetdsConnectionManager::new(ConnectionConfig {
        server_name: String::from("192.168.130.221:2025"),
        username: String::from("sa"),
        password: String::from(""),
        database: database.map(String::from),
    })
}

#[test]
fn target_database_defaults_to_master() {
    let manager = manager_with(None);
    assert_eq!("master", manager.target_database());
}

#[test]
fn target_database_uses_configured_name() {
    let manager = manager_with(Some("sales"));
    assert_eq!("sales", manager.target_database());
}

#[test]
fn create_session_activates_target_database() {
    let manager = manager_with(Some("sales"));
    let session = manager.create_session();
    assert_eq!("sales", session.current_database());
    assert!(!manager.has_broken(&session));
}

#[test]
fn needs_switch_only_on_other_database() {
    let manager = manager_with(Some("sales"));
    assert!(!manager.needs_switch(&String::from("sales")));
    assert!(manager.needs_switch(&String::from("master")));
    assert!(manager.needs_switch(&String::from("")));
}

#[test]
fn validate_issues_use_statement_for_other_database() {
    let manager = manager_with(Some("sales"));
    let mut session = manager.create_session();
    session.record_database_switch("tempdb");
    let statement = manager.validate(&mut session);
    assert_eq!(Some(String::from("use sales")), statement);
    assert_eq!("sales", session.current_database());
}

#[test]
fn validate_leaves_matching_database_alone() {
    let manager = manager_with(Some("sales"));
    let mut session = manager.create_session();
    let statement = manager.validate(&mut session);
    assert_eq!(None, statement);
    assert_eq!("sales", session.current_database());
}

#[test]
fn validate_twice_is_idempotent() {
    let manager = manager_with(None);
    let mut session = manager.create_session();
    session.record_database_switch("tempdb");

    let first = manager.validate(&mut session);
    assert_eq!(Some(String::from("use master")), first);
    assert_eq!("master", session.current_database());

    let second = manager.validate(&mut session);
    assert_eq!(None, second);
    assert_eq!("master", session.current_database());
}

#[test]
fn validate_does_not_touch_liveness() {
    let manager = manager_with(Some("sales"));
    let mut session = manager.create_session();
    session.sever();
    session.record_database_switch("tempdb");
    let statement = manager.validate(&mut session);
    assert_eq!(Some(String::from("use sales")), statement);
    assert!(manager.has_broken(&session));
}

#[test]
fn has_broken_tracks_severed_connection() {
    let manager = manager_with(None);
    let mut session = manager.create_session();
    assert!(!manager.has_broken(&session));
    session.sever();
    assert!(manager.has_broken(&session));
    assert_eq!("master", session.current_database());
}

#[test]
fn test_is_valid() {
    /* The connection should restore current database */
    let manager = manager_with(None);
    let mut session = manager.create_session();

    session.record_database_switch("sybsystemprocs");
    assert_eq!("sybsystemprocs", session.current_database());

    let statement = manager.validate(&mut session);
    assert_eq!(Some(String::from("use master")), statement);
    assert_eq!("master", session.current_database());
}
