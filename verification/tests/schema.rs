use convergio_build::extension::migrations;

#[test]
fn migrations_apply_to_sqlite() {
    let conn = rusqlite::Connection::open_in_memory().unwrap();
    for m in migrations() {
        conn.execute_batch(m.up).unwrap();
    }
    let count: i64 = conn
        .query_row(
            "SELECT COUNT(*) FROM sqlite_master WHERE type='table' \
             AND name = 'build_history'",
            [],
            |r| r.get(0),
        )
        .unwrap();
    assert_eq!(count, 1);
}

#[test]
fn migrations_have_sequential_versions() {
    let migs = migrations();
    for (i, m) in migs.iter().enumerate() {
        assert_eq!(m.version, (i + 1) as u32);
    }
}
