use aqevia::sqlite::{SqliteStorage, SCHEMA_VERSION};
use aqevia::storage::{StorageBackend, StorageConfig, StorageController, WorldRecord};
use rusqlite::Connection;

// Each test uses its own shared in-memory database, named through a URI;
// the anchor connection keeps the database alive for the whole test.
fn anchored_db(name: &str) -> (String, Connection) {
    let path = format!("file:{}?mode=memory&cache=shared", name);
    let anchor = Connection::open(path.as_str()).unwrap();
    (path, anchor)
}

fn latest_version(conn: &Connection) -> i64 {
    conn.query_row(
        "SELECT version FROM schema_meta ORDER BY id DESC LIMIT 1",
        (),
        |row| row.get(0),
    )
    .unwrap()
}

fn record_count(conn: &Connection) -> i64 {
    conn.query_row("SELECT COUNT(*) FROM world_records", (), |row| row.get(0))
        .unwrap()
}

#[test]
fn bootstrap_creates_schema_and_version_stamp() {
    let (path, anchor) = anchored_db("bootstrap");
    let mut storage = SqliteStorage::new(path.as_str()).unwrap();
    storage.init().unwrap();
    let connection = Connection::open(path.as_str()).unwrap();
    let version = latest_version(&connection);
    assert_eq!(version, SCHEMA_VERSION);
    let count = record_count(&connection);
    assert_eq!(count, 0);
    drop(anchor);
}

#[test]
fn schema_reset_on_version_mismatch() {
    let (path, anchor) = anchored_db("mismatch");
    {
        let mut storage = SqliteStorage::new(path.as_str()).unwrap();
        storage.init().unwrap();
    }
    {
        let connection = Connection::open(path.as_str()).unwrap();
        connection
            .execute("UPDATE schema_meta SET version = ?1", (SCHEMA_VERSION - 1,))
            .unwrap();
        connection
            .execute(
                "INSERT INTO world_records (world_id, payload, timestamp) VALUES (?1, ?2, ?3)",
                ("world", "payload", 0i64),
            )
            .unwrap();
    }
    let mut storage = SqliteStorage::new(path.as_str()).unwrap();
    storage.init().unwrap();
    let connection = Connection::open(path.as_str()).unwrap();
    let version = latest_version(&connection);
    assert_eq!(version, SCHEMA_VERSION);
    let count = record_count(&connection);
    assert_eq!(count, 0);
    drop(anchor);
}

#[test]
fn sqlite_persists_batch_records() {
    let (path, anchor) = anchored_db("persist");
    let backend = SqliteStorage::new(path.as_str()).unwrap();
    let mut controller = StorageController::new(
        backend,
        StorageConfig {
            flush_interval_ms: 1,
            batch_capacity: 1,
        },
    )
    .unwrap();
    controller.record(WorldRecord {
        world_id: "world".to_string(),
        payload: "payload".to_string(),
        timestamp_secs: 11,
    });
    controller.flush_pending().unwrap();
    drop(controller);
    let connection = Connection::open(path.as_str()).unwrap();
    let count = record_count(&connection);
    assert_eq!(count, 1);
    let stored: (String, String, i64) = connection
        .query_row(
            "SELECT world_id, payload, timestamp FROM world_records",
            (),
            |row| Ok((row.get(0)?, row.get(1)?, row.get(2)?)),
        )
        .unwrap();
    assert_eq!(stored, ("world".to_string(), "payload".to_string(), 11));
    drop(anchor);
}

#[test]
fn partially_failing_batch_leaves_no_rows() {
    let (path, anchor) = anchored_db("atomic");
    let backend = SqliteStorage::new(path.as_str()).unwrap();
    let mut controller = StorageController::new(
        backend,
        StorageConfig {
            flush_interval_ms: 1000000,
            batch_capacity: 100,
        },
    )
    .unwrap();
    // The trigger lets two rows in and aborts the third insert, after two
    // rows of the batch have already been written inside the transaction.
    anchor
        .execute_batch(
            "CREATE TRIGGER block_third AFTER INSERT ON world_records
             WHEN (SELECT COUNT(*) FROM world_records) > 2
             BEGIN SELECT RAISE(ABORT, 'full'); END;",
        )
        .unwrap();
    for payload in ["a", "b", "c"] {
        controller.record(WorldRecord {
            world_id: "world".to_string(),
            payload: payload.to_string(),
            timestamp_secs: 5,
        });
    }
    assert!(controller.flush_all().is_err());
    assert_eq!(controller.pending().len(), 3);
    assert_eq!(controller.stats().flush_count, 0);
    assert_eq!(record_count(&anchor), 0);
    // With the trigger gone the very same queue flushes on the next attempt.
    anchor.execute_batch("DROP TRIGGER block_third;").unwrap();
    assert!(controller.flush_all().is_ok());
    assert_eq!(controller.pending().len(), 0);
    assert_eq!(controller.stats().flush_count, 1);
    assert_eq!(record_count(&anchor), 3);
}

#[test]
fn matching_version_keeps_existing_rows() {
    let (path, anchor) = anchored_db("keep");
    {
        let mut storage = SqliteStorage::new(path.as_str()).unwrap();
        storage.init().unwrap();
    }
    anchor
        .execute(
            "INSERT INTO world_records (world_id, payload, timestamp) VALUES (?1, ?2, ?3)",
            ("world", "payload", 3i64),
        )
        .unwrap();
    let mut storage = SqliteStorage::new(path.as_str()).unwrap();
    storage.init().unwrap();
    assert_eq!(latest_version(&anchor), SCHEMA_VERSION);
    assert_eq!(record_count(&anchor), 1);
}

#[test]
fn sqlite_backend_reports_name_and_stats() {
    let (path, _anchor) = anchored_db("name");
    let mut storage = SqliteStorage::new(path.as_str()).unwrap();
    storage.init().unwrap();
    assert_eq!(storage.backend_name(), "sqlite");
    assert_eq!(storage.stats().flush_count, 0);
    assert!(storage.stats().last_flush.is_none());
}

#[test]
fn init_twice_stamps_once_and_keeps_the_store() {
    let (path, anchor) = anchored_db("idempotent");
    let mut storage = SqliteStorage::new(path.as_str()).unwrap();
    storage.init().unwrap();
    storage.init().unwrap();
    let stamps: i64 = anchor
        .query_row("SELECT COUNT(*) FROM schema_meta", (), |row| row.get(0))
        .unwrap();
    assert_eq!(stamps, 1);
    assert_eq!(latest_version(&anchor), SCHEMA_VERSION);
    assert_eq!(record_count(&anchor), 0);
}
