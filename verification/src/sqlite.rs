//! Relational storage backend: a file-backed SQLite store holding a
//! schema-version table and an append-only record table.
//!
//! The connection is opaque to the verifier. The two tables reachable
//! through it are modelled by `record_rows` and `version_stamps`, and every
//! call into rusqlite goes through a trusted wrapper whose contract states
//! what the call does to those models.

use vstd::prelude::*;
use rusqlite::OptionalExtension;
use crate::storage::{RecordModel, StorageBackend, StorageError, StorageResult, StorageStats, WorldRecord};

verus! {

/// The schema version this build writes and expects.
pub const SCHEMA_VERSION: i64 = 1;

/// rusqlite's `Connection` is opaque to the verifier: a handle on the
/// file-backed store.
#[verifier::external_type_specification]
#[verifier::external_body]
pub struct ExConnection(rusqlite::Connection);

/// The rows of the record table reachable through a connection, in insertion
/// order: world identifier, payload, and timestamp seconds as handed to the
/// insert. Empty when the table does not exist.
pub uninterp spec fn record_rows(conn: rusqlite::Connection) -> Seq<RecordModel>;

/// The stamped schema versions in the metadata table reachable through a
/// connection, in insertion order. Empty when the table does not exist.
pub uninterp spec fn version_stamps(conn: rusqlite::Connection) -> Seq<i64>;

/// Relies on `rusqlite::Connection::open`: opens (creating it if absent) the
/// store at `path`. What the tables hold depends on what is on disk, so
/// nothing is promised of the models.
#[verifier::external_body]
fn open_connection(path: &str) -> (r: Result<rusqlite::Connection, String>) {
    rusqlite::Connection::open(path).map_err(|e| e.to_string())
}

/// Relies on `rusqlite::Connection::execute_batch` with two
/// `CREATE TABLE IF NOT EXISTS` statements: creating a missing table leaves
/// both models as they were (a missing table models as empty), and existing
/// rows are never touched, whether or not the call succeeds.
#[verifier::external_body]
fn create_tables(conn: &mut rusqlite::Connection) -> (r: Result<(), String>)
    ensures
        record_rows(*final(conn)) == record_rows(*old(conn)),
        version_stamps(*final(conn)) == version_stamps(*old(conn)),
{
    conn.execute_batch(
        "CREATE TABLE IF NOT EXISTS schema_meta (
            id INTEGER PRIMARY KEY,
            version INTEGER NOT NULL
        );
        CREATE TABLE IF NOT EXISTS world_records (
            id INTEGER PRIMARY KEY,
            world_id TEXT NOT NULL,
            payload TEXT NOT NULL,
            timestamp INTEGER NOT NULL
        );",
    )
        .map_err(|e| e.to_string())
}

/// Relies on `rusqlite::Connection::query_row` running
/// `SELECT version FROM schema_meta ORDER BY id DESC LIMIT 1` (the row handed
/// to the closure carries the version, read with `Row::get`) and on
/// `OptionalExtension::optional`, which turns the no-rows error into `None`:
/// on success the result is the latest stamped version, or `None` when no
/// version row exists; a `SELECT` changes neither table.
#[verifier::external_body]
fn read_latest_version(conn: &mut rusqlite::Connection) -> (r: Result<Option<i64>, String>)
    ensures
        record_rows(*final(conn)) == record_rows(*old(conn)),
        version_stamps(*final(conn)) == version_stamps(*old(conn)),
        r matches Ok(Some(version)) ==> version_stamps(*old(conn)).len() > 0 && version
            == version_stamps(*old(conn)).last(),
        r matches Ok(None) ==> version_stamps(*old(conn)).len() == 0,
{
    conn.query_row("SELECT version FROM schema_meta ORDER BY id DESC LIMIT 1", (), |row| {
        row.get(0)
    })
        .optional()
        .map_err(|e| e.to_string())
}

/// Relies on `rusqlite::Connection::execute` with
/// `INSERT INTO schema_meta (version) VALUES (?1)`: a single statement,
/// atomic in SQLite, so on success the version is appended to the stamps and
/// on failure nothing changed; the record table is never touched. The
/// append-at-end reading relies on SQLite assigning the next rowid as one
/// past the maximum, which holds unless an external writer has stored an
/// explicit row with the largest possible rowid.
#[verifier::external_body]
fn stamp_version(conn: &mut rusqlite::Connection, version: i64) -> (r: Result<(), String>)
    ensures
        record_rows(*final(conn)) == record_rows(*old(conn)),
        r is Ok ==> version_stamps(*final(conn)) == version_stamps(*old(conn)).push(version),
        r is Err ==> version_stamps(*final(conn)) == version_stamps(*old(conn)),
{
    match conn.execute("INSERT INTO schema_meta (version) VALUES (?1)", (version,)) {
        Ok(_) => Ok(()),
        Err(e) => Err(e.to_string()),
    }
}

/// Relies on `rusqlite::Connection::execute_batch` with
/// `DROP TABLE IF EXISTS schema_meta; DROP TABLE IF EXISTS world_records;`:
/// on success both tables are gone, so both models are empty. On failure the
/// first drop may have run, so each model is either untouched or empty.
#[verifier::external_body]
fn drop_tables(conn: &mut rusqlite::Connection) -> (r: Result<(), String>)
    ensures
        r is Ok ==> record_rows(*final(conn)) == Seq::<RecordModel>::empty(),
        r is Ok ==> version_stamps(*final(conn)) == Seq::<i64>::empty(),
        record_rows(*final(conn)) == record_rows(*old(conn)) || record_rows(*final(conn))
            == Seq::<RecordModel>::empty(),
        version_stamps(*final(conn)) == version_stamps(*old(conn)) || version_stamps(*final(conn))
            == Seq::<i64>::empty(),
{
    conn.execute_batch("DROP TABLE IF EXISTS schema_meta; DROP TABLE IF EXISTS world_records;")
        .map_err(|e| e.to_string())
}

/// Relies on `rusqlite::Connection::transaction`, `Transaction::execute` with
/// `INSERT INTO world_records (world_id, payload, timestamp) VALUES (?1, ?2, ?3)`
/// once per record, and `Transaction::commit`; rusqlite's default drop
/// behaviour rolls an uncommitted transaction back when it leaves scope on
/// the early returns. On success every record of the batch is appended to
/// the record table in order (the timestamp stored as the same 64-bit value,
/// reinterpreted signed); on any failure the transaction is rolled back as a
/// unit and nothing changed. The append-at-end reading relies on SQLite
/// assigning rowids one past the maximum, as for `stamp_version`.
#[verifier::external_body]
fn insert_batch_atomically(
    conn: &mut rusqlite::Connection,
    batch: &Vec<WorldRecord>,
) -> (r: Result<(), String>)
    ensures
        r is Ok ==> record_rows(*final(conn)) == record_rows(*old(conn)) + batch@.map_values(
            |rec: WorldRecord| rec@,
        ),
        r is Err ==> record_rows(*final(conn)) == record_rows(*old(conn)),
        version_stamps(*final(conn)) == version_stamps(*old(conn)),
{
    let tx = conn.transaction().map_err(|e| e.to_string())?;
    for record in batch.iter() {
        tx.execute(
            "INSERT INTO world_records (world_id, payload, timestamp) VALUES (?1, ?2, ?3)",
            (&record.world_id, &record.payload, record.timestamp_secs as i64),
        )
            .map_err(|e| e.to_string())?;
    }
    tx.commit().map_err(|e| e.to_string())
}

/// One concrete backend: a file-backed relational store, with local
/// statistics.
pub struct SqliteStorage {
    connection: rusqlite::Connection,
    stats: StorageStats,
}

impl SqliteStorage {
    /// The rows of the record table, in insertion order.
    pub closed spec fn spec_rows(&self) -> Seq<RecordModel> {
        record_rows(self.connection)
    }

    /// The stamped schema versions, in insertion order.
    pub closed spec fn spec_versions(&self) -> Seq<i64> {
        version_stamps(self.connection)
    }

    /// Open (or create) the store at `path`. The parent directory must
    /// already exist. The tables hold whatever is on disk; the statistics
    /// start fresh.
    pub fn new(path: &str) -> (r: StorageResult<SqliteStorage>)
        ensures
            r matches Ok(s) ==> s.flush_count() == 0 && s.last_flush() is None,
    {
        match open_connection(path) {
            Ok(connection) => Ok(
                SqliteStorage {
                    connection,
                    stats: StorageStats { flush_count: 0, last_flush: None },
                },
            ),
            Err(message) => Err(StorageError(message)),
        }
    }

    /// Ensure both tables exist; never touches existing rows.
    fn run_migrations(&mut self) -> (r: StorageResult<()>)
        ensures
            final(self).spec_rows() == old(self).spec_rows(),
            final(self).spec_versions() == old(self).spec_versions(),
            final(self).stats == old(self).stats,
    {
        match create_tables(&mut self.connection) {
            Ok(()) => Ok(()),
            Err(message) => Err(StorageError(message)),
        }
    }

    /// Destructive reset: drop and recreate both tables, discarding every
    /// stored row and stamp. Even on failure each table is either untouched
    /// or already cleared.
    fn reset_schema(&mut self) -> (r: StorageResult<()>)
        ensures
            r is Ok ==> final(self).spec_rows() == Seq::<RecordModel>::empty(),
            r is Ok ==> final(self).spec_versions() == Seq::<i64>::empty(),
            final(self).spec_rows() == old(self).spec_rows() || final(self).spec_rows()
                == Seq::<RecordModel>::empty(),
            final(self).stats == old(self).stats,
    {
        match drop_tables(&mut self.connection) {
            Ok(()) => self.run_migrations(),
            Err(message) => Err(StorageError(message)),
        }
    }
}

impl StorageBackend for SqliteStorage {
    closed spec fn persisted(&self) -> Seq<RecordModel> {
        record_rows(self.connection)
    }

    closed spec fn flush_count(&self) -> usize {
        self.stats.flush_count
    }

    closed spec fn last_flush(&self) -> Option<u64> {
        self.stats.last_flush
    }

    closed spec fn spec_name(&self) -> Seq<char> {
        "sqlite"@
    }

    /// Ensure both tables exist and the latest stamp is the current schema
    /// version. A store stamped with a different version is destructively
    /// reset: both tables dropped, recreated empty, and stamped anew.
    fn init(&mut self) -> (r: StorageResult<()>)
        ensures
            final(self).flush_count() == old(self).flush_count(),
            final(self).last_flush() == old(self).last_flush(),
            final(self).spec_name() == old(self).spec_name(),
            final(self).persisted() == old(self).persisted() || final(self).persisted()
                == Seq::<RecordModel>::empty(),
            r is Ok ==> final(self).spec_versions().len() > 0 && final(self).spec_versions().last()
                == SCHEMA_VERSION,
            r is Ok && old(self).spec_versions().len() == 0 ==> {
                &&& final(self).spec_rows() == old(self).spec_rows()
                &&& final(self).spec_versions() == old(self).spec_versions().push(SCHEMA_VERSION)
            },
            r is Ok && old(self).spec_versions().len() > 0 && old(self).spec_versions().last()
                == SCHEMA_VERSION ==> {
                &&& final(self).spec_rows() == old(self).spec_rows()
                &&& final(self).spec_versions() == old(self).spec_versions()
            },
            r is Ok && old(self).spec_versions().len() > 0 && old(self).spec_versions().last()
                != SCHEMA_VERSION ==> {
                &&& final(self).spec_rows() == Seq::<RecordModel>::empty()
                &&& final(self).spec_versions() == seq![SCHEMA_VERSION]
            },
    {
        match self.run_migrations() {
            Ok(()) => {},
            Err(e) => {
                return Err(e);
            },
        }
        let version = match read_latest_version(&mut self.connection) {
            Ok(v) => v,
            Err(message) => {
                return Err(StorageError(message));
            },
        };
        match version {
            None => {
                match stamp_version(&mut self.connection, SCHEMA_VERSION) {
                    Ok(()) => Ok(()),
                    Err(message) => Err(StorageError(message)),
                }
            },
            Some(v) => {
                if v != SCHEMA_VERSION {
                    match self.reset_schema() {
                        Ok(()) => {},
                        Err(e) => {
                            return Err(e);
                        },
                    }
                    match stamp_version(&mut self.connection, SCHEMA_VERSION) {
                        Ok(()) => Ok(()),
                        Err(message) => Err(StorageError(message)),
                    }
                } else {
                    Ok(())
                }
            },
        }
    }

    /// Commit the batch in one transaction; on success count the flush and
    /// record the wall-clock second, on failure change nothing.
    fn persist_batch(&mut self, batch: &Vec<WorldRecord>) -> (r: StorageResult<()>)
        ensures
            r is Ok ==> final(self).persisted() == old(self).persisted() + batch@.map_values(
                |rec: WorldRecord| rec@,
            ),
            r is Ok ==> final(self).flush_count() == old(self).flush_count() + 1,
            r is Ok ==> final(self).last_flush() is Some,
            r is Err ==> final(self).persisted() == old(self).persisted(),
            r is Err ==> final(self).flush_count() == old(self).flush_count(),
            r is Err ==> final(self).last_flush() == old(self).last_flush(),
            final(self).spec_name() == old(self).spec_name(),
    {
        match insert_batch_atomically(&mut self.connection, batch) {
            Ok(()) => {
                self.stats.flush_count = self.stats.flush_count + 1;
                self.stats.last_flush = Some(crate::clock::wall_clock_secs());
                Ok(())
            },
            Err(message) => Err(StorageError(message)),
        }
    }

    fn stats(&self) -> (s: StorageStats)
        ensures
            s.flush_count == self.flush_count(),
            s.last_flush == self.last_flush(),
    {
        self.stats
    }

    fn backend_name(&self) -> (n: &'static str)
        ensures
            n@ == self.spec_name(),
    {
        "sqlite"
    }
}

} // verus!
