use convergio_build::extension::{
    build_manifest, build_metrics, health_from, migrations, module_metrics, Health,
};

#[test]
fn manifest_has_correct_id() {
    let m = build_manifest("0.1.0");
    assert_eq!(m.id, "convergio-build");
    assert_eq!(m.provides.len(), 2);
}

#[test]
fn manifest_contents() {
    let m = build_manifest("1.2.3");
    assert_eq!(m.version, "1.2.3");
    assert_eq!(m.provides[0].name, "self-build");
    assert_eq!(m.provides[1].name, "self-deploy");
    assert_eq!(m.required_roles, vec!["orchestrator", "all"]);
    assert!(m.requires.is_empty() && m.agent_tools.is_empty());
}

#[test]
fn migrations_are_returned() {
    let migs = migrations();
    assert_eq!(migs.len(), 1);
}

#[test]
fn health_follows_the_database() {
    assert!(matches!(health_from(Ok(()), true), Health::Healthy));
    match health_from(Ok(()), false) {
        Health::Degraded { reason } => assert_eq!(reason, "build_history table inaccessible"),
        _ => panic!("degraded"),
    }
    match health_from(Err("timed out".into()), true) {
        Health::Down { reason } => assert_eq!(reason, "pool error: timed out"),
        _ => panic!("down"),
    }
}

#[test]
fn metrics_with_zero_counts() {
    let m = build_metrics(Some(0), Some(0), Some(0));
    assert_eq!(m.len(), 3);
    assert_eq!(m[0].value, 0);
    assert_eq!(m[0].name, "build.total");
    assert_eq!(m[1].name, "build.succeeded");
    assert_eq!(m[2].name, "build.deployed");
}

#[test]
fn metrics_skip_unreadable_counts() {
    let m = build_metrics(Some(5), None, Some(1));
    assert_eq!(m.len(), 2);
    assert_eq!((m[0].name, m[0].value), ("build.total", 5));
    assert_eq!((m[1].name, m[1].value), ("build.deployed", 1));
    assert!(build_metrics(None, None, None).is_empty());
}

fn migrated_memory_db() -> rusqlite::Connection {
    let conn = rusqlite::Connection::open_in_memory().unwrap();
    for m in migrations() {
        conn.execute_batch(m.up).unwrap();
    }
    conn
}

#[test]
fn health_ok_with_memory_pool() {
    let conn = migrated_memory_db();
    let ok = conn
        .query_row("SELECT COUNT(*) FROM build_history", [], |r| r.get::<_, i64>(0))
        .is_ok();
    assert!(matches!(health_from(Ok(()), ok), Health::Healthy));
}

#[test]
fn metrics_with_empty_db() {
    let conn = migrated_memory_db();
    let count = |sql: &str| conn.query_row(sql, [], |r| r.get::<_, i64>(0)).ok();
    let m = build_metrics(
        count("SELECT COUNT(*) FROM build_history"),
        count("SELECT COUNT(*) FROM build_history WHERE status='succeeded'"),
        count("SELECT COUNT(*) FROM build_history WHERE status='deployed'"),
    );
    assert_eq!(m.len(), 3);
    assert_eq!(m[0].value as f64, 0.0);
}

#[test]
fn no_metrics_without_a_connection() {
    assert!(module_metrics(Err("pool closed".into()), Some(1), Some(1), Some(1)).is_empty());
    let m = module_metrics(Ok(()), Some(4), Some(2), None);
    assert_eq!(m.len(), 2);
    assert_eq!((m[1].name, m[1].value), ("build.succeeded", 2));
}
