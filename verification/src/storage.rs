//! Storage contract shared by all persistence backends, and the batching
//! controller that drives flushes against one of them.

use vstd::prelude::*;
use vstd::string::StringExecFns;
use crate::text::dec_seq;

verus! {

/// The model of one durable record: world identifier, payload, and
/// wall-clock seconds since the Unix epoch.
pub type RecordModel = (Seq<char>, Seq<char>, u64);

/// Configuration that controls persistence cadence and batching.
/// `batch_capacity` is at least one; constructors of the controller
/// require it.
#[derive(Clone, Copy)]
pub struct StorageConfig {
    pub flush_interval_ms: u64,
    pub batch_capacity: usize,
}

impl Default for StorageConfig {
    /// The default cadence: flush every 500 ms or every 20 records.
    fn default() -> (c: StorageConfig)
        ensures
            c.flush_interval_ms == 500,
            c.batch_capacity == 20,
    {
        StorageConfig { flush_interval_ms: 500, batch_capacity: 20 }
    }
}

/// A single durable record describing an in-memory world state snapshot.
/// The timestamp carries whole seconds since the Unix epoch; sub-second
/// precision is deliberately discarded for durability records.
pub struct WorldRecord {
    pub world_id: String,
    pub payload: String,
    pub timestamp_secs: u64,
}

impl View for WorldRecord {
    type V = RecordModel;

    open spec fn view(&self) -> RecordModel {
        (self.world_id@, self.payload@, self.timestamp_secs)
    }
}

impl Clone for WorldRecord {
    fn clone(&self) -> (r: WorldRecord)
        ensures
            r == *self,
    {
        WorldRecord {
            world_id: self.world_id.clone(),
            payload: self.payload.clone(),
            timestamp_secs: self.timestamp_secs,
        }
    }
}

impl WorldRecord {
    /// The summary line of a record: its world identifier, an `@` sign, and
    /// its timestamp in decimal.
    pub open spec fn spec_summary(&self) -> Seq<char> {
        self.world_id@ + seq!['@'] + dec_seq(self.timestamp_secs as nat)
    }

    /// A short diagnostic summary, `<world_id>@<timestamp_secs>`.
    pub fn summary(&self) -> (s: String)
        ensures
            s@ == self.spec_summary(),
    {
        proof {
            reveal_strlit("@");
        }
        let mut s = self.world_id.clone();
        s.append("@");
        s.append(crate::text::u64_to_dec(self.timestamp_secs).as_str());
        proof {
            assert(s@ =~= self.spec_summary());
        }
        s
    }
}

/// Statistics about persisted data. `last_flush` is the wall-clock second of
/// the latest successful flush, if any.
#[derive(Clone, Copy)]
pub struct StorageStats {
    pub flush_count: usize,
    pub last_flush: Option<u64>,
}

impl Default for StorageStats {
    /// Fresh statistics: nothing flushed yet.
    fn default() -> (s: StorageStats)
        ensures
            s.flush_count == 0,
            s.last_flush is None,
    {
        StorageStats { flush_count: 0, last_flush: None }
    }
}

/// Error returned by storage operations: a string-carrying failure from the
/// underlying storage engine.
#[derive(Debug)]
pub struct StorageError(pub String);

impl StorageError {
    /// The message carried by this error.
    pub fn message(&self) -> (m: &String)
        ensures
            m@ == self.0@,
    {
        &self.0
    }
}

/// Result type of storage operations.
pub type StorageResult<T> = Result<T, StorageError>;

/// Modular storage backend interface for durable persistence.
///
/// A backend models its durable contents as a sequence of records in the
/// order they became durable, and its statistics as a flush counter and the
/// wall-clock second of the latest successful flush. `persist_batch` is
/// atomic: on failure nothing of the batch is durable and the statistics are
/// untouched.
pub trait StorageBackend: Sized {
    /// The records that are durable, in the order they became durable.
    spec fn persisted(&self) -> Seq<RecordModel>;

    /// How many batches have been successfully persisted.
    spec fn flush_count(&self) -> usize;

    /// The wall-clock second of the latest successful flush, if any.
    spec fn last_flush(&self) -> Option<u64>;

    /// The diagnostic name of this backend.
    spec fn spec_name(&self) -> Seq<char>;

    /// Prepare durable storage: create or migrate the schema. Statistics are
    /// not touched, and the durable records are either kept whole or — on a
    /// destructive schema reset — cleared.
    fn init(&mut self) -> (r: StorageResult<()>)
        ensures
            final(self).flush_count() == old(self).flush_count(),
            final(self).last_flush() == old(self).last_flush(),
            final(self).spec_name() == old(self).spec_name(),
            final(self).persisted() == old(self).persisted() || final(self).persisted()
                == Seq::<RecordModel>::empty(),
    ;

    /// Commit a non-empty batch as a single atomic unit. On success all of
    /// it is durable, in order, and the flush counter rises by exactly one;
    /// on failure none of it is durable and the statistics are untouched.
    fn persist_batch(&mut self, batch: &Vec<WorldRecord>) -> (r: StorageResult<()>)
        requires
            batch@.len() >= 1,
            old(self).flush_count() < usize::MAX,
        ensures
            r is Ok ==> final(self).persisted() == old(self).persisted() + batch@.map_values(
                |rec: WorldRecord| rec@,
            ),
            r is Ok ==> final(self).flush_count() == old(self).flush_count() + 1,
            r is Ok ==> final(self).last_flush() is Some,
            r is Err ==> final(self).persisted() == old(self).persisted(),
            r is Err ==> final(self).flush_count() == old(self).flush_count(),
            r is Err ==> final(self).last_flush() == old(self).last_flush(),
            final(self).spec_name() == old(self).spec_name(),
    ;

    /// Current statistics, by value.
    fn stats(&self) -> (s: StorageStats)
        ensures
            s.flush_count == self.flush_count(),
            s.last_flush == self.last_flush(),
    ;

    /// Static identifier of this backend, for diagnostics.
    fn backend_name(&self) -> (n: &'static str)
        ensures
            n@ == self.spec_name(),
    ;
}

/// Whether a flush is due: the queue is non-empty and either full to
/// capacity or old enough.
pub open spec fn flush_due(
    pending_len: nat,
    batch_capacity: nat,
    flush_interval_ms: nat,
    elapsed_ms: nat,
) -> bool {
    pending_len > 0 && (pending_len >= batch_capacity || elapsed_ms >= flush_interval_ms)
}

/// Controller that drives flushing operations for a storage backend. It owns
/// the pending queue (FIFO, unbounded until flushed), the batching policy,
/// the backend, and the monotonic instant of the last flush.
pub struct StorageController<B: StorageBackend> {
    backend: B,
    config: StorageConfig,
    pending: Vec<WorldRecord>,
    last_flush: std::time::Instant,
}

impl<B: StorageBackend> StorageController<B> {
    /// The queued records, oldest first.
    pub closed spec fn spec_pending(&self) -> Seq<RecordModel> {
        self.pending@.map_values(|rec: WorldRecord| rec@)
    }

    /// The records the backend holds durably.
    pub closed spec fn spec_persisted(&self) -> Seq<RecordModel> {
        self.backend.persisted()
    }

    /// The backend's flush counter.
    pub closed spec fn spec_flush_count(&self) -> usize {
        self.backend.flush_count()
    }

    /// The backend's latest successful flush second.
    pub closed spec fn spec_last_flush(&self) -> Option<u64> {
        self.backend.last_flush()
    }

    /// The backend's diagnostic name.
    pub closed spec fn spec_backend_name(&self) -> Seq<char> {
        self.backend.spec_name()
    }

    /// The batching policy this controller was built with.
    pub closed spec fn spec_config(&self) -> StorageConfig {
        self.config
    }

    /// Create a controller over `backend`, initializing it first. Fails with
    /// the backend's error if initialization fails.
    pub fn new(backend: B, config: StorageConfig) -> (r: StorageResult<StorageController<B>>)
        requires
            config.batch_capacity >= 1,
        ensures
            r matches Ok(c) ==> {
                &&& c.spec_pending() == Seq::<RecordModel>::empty()
                &&& c.spec_config() == config
                &&& c.spec_flush_count() == backend.flush_count()
                &&& c.spec_last_flush() == backend.last_flush()
                &&& c.spec_backend_name() == backend.spec_name()
                &&& c.spec_persisted() == backend.persisted() || c.spec_persisted()
                    == Seq::<RecordModel>::empty()
            },
    {
        let mut backend = backend;
        match backend.init() {
            Ok(()) => Ok(
                StorageController {
                    backend,
                    config,
                    pending: Vec::new(),
                    last_flush: std::time::Instant::now(),
                },
            ),
            Err(e) => Err(e),
        }
    }

    /// Append a record to the tail of the pending queue. Never flushes,
    /// never fails, never touches the backend.
    pub fn record(&mut self, payload: WorldRecord)
        ensures
            final(self).spec_pending() == old(self).spec_pending().push(payload@),
            final(self).spec_persisted() == old(self).spec_persisted(),
            final(self).spec_flush_count() == old(self).spec_flush_count(),
            final(self).spec_last_flush() == old(self).spec_last_flush(),
            final(self).spec_backend_name() == old(self).spec_backend_name(),
            final(self).spec_config() == old(self).spec_config(),
    {
        self.pending.push(payload);
        proof {
            assert(final(self).spec_pending() =~= old(self).spec_pending().push(payload@));
        }
    }

    /// The queued records, oldest first.
    pub fn pending(&self) -> (p: &Vec<WorldRecord>)
        ensures
            p@.map_values(|rec: WorldRecord| rec@) == self.spec_pending(),
            p@.len() == self.spec_pending().len(),
    {
        &self.pending
    }

    /// Flush the entire pending queue if the policy says a flush is due for
    /// the given elapsed time since the last flush: the queue is non-empty
    /// and either has reached `batch_capacity` or `elapsed_ms` has reached
    /// `flush_interval_ms`. Returns whether a flush happened; on a backend
    /// failure the queue is kept untouched for a later retry.
    pub fn flush_given_elapsed(&mut self, elapsed_ms: u128) -> (r: StorageResult<bool>)
        requires
            old(self).spec_flush_count() < usize::MAX,
        ensures
            !flush_due(
                old(self).spec_pending().len(),
                old(self).spec_config().batch_capacity as nat,
                old(self).spec_config().flush_interval_ms as nat,
                elapsed_ms as nat,
            ) ==> (r matches Ok(flushed) && !flushed && *final(self) == *old(self)),
            r matches Ok(flushed) ==> (flushed <==> flush_due(
                old(self).spec_pending().len(),
                old(self).spec_config().batch_capacity as nat,
                old(self).spec_config().flush_interval_ms as nat,
                elapsed_ms as nat,
            )),
            r matches Ok(true) ==> {
                &&& final(self).spec_pending() == Seq::<RecordModel>::empty()
                &&& final(self).spec_persisted() == old(self).spec_persisted() + old(
                    self,
                ).spec_pending()
                &&& final(self).spec_flush_count() == old(self).spec_flush_count() + 1
            },
            r is Err ==> {
                &&& final(self).spec_pending() == old(self).spec_pending()
                &&& final(self).spec_persisted() == old(self).spec_persisted()
                &&& final(self).spec_flush_count() == old(self).spec_flush_count()
                &&& final(self).spec_last_flush() == old(self).spec_last_flush()
            },
            final(self).spec_config() == old(self).spec_config(),
            final(self).spec_backend_name() == old(self).spec_backend_name(),
    {
        let len = self.pending.len();
        let should_flush = len != 0 && (len >= self.config.batch_capacity || elapsed_ms
            >= self.config.flush_interval_ms as u128);
        if should_flush {
            self.flush_pending()
        } else {
            Ok(false)
        }
    }

    /// Evaluate the policy against the monotonic clock and flush the entire
    /// pending queue if a flush is due. The elapsed time is read from the
    /// clock, so on a non-empty queue below capacity either outcome is
    /// possible; whatever the clock read, a result of `Ok(false)` leaves the
    /// controller untouched, and a queue at or above capacity is flushed.
    pub fn flush_if_due(&mut self) -> (r: StorageResult<bool>)
        requires
            old(self).spec_flush_count() < usize::MAX,
        ensures
            old(self).spec_pending().len() == 0 ==> (r matches Ok(flushed) && !flushed),
            r matches Ok(flushed) && !flushed ==> *final(self) == *old(self),
            r matches Ok(flushed) && flushed ==> old(self).spec_pending().len() > 0,
            old(self).spec_pending().len() >= old(self).spec_config().batch_capacity && old(
                self,
            ).spec_pending().len() > 0 ==> (r matches Ok(flushed) ==> flushed),
            r matches Ok(true) ==> {
                &&& final(self).spec_pending() == Seq::<RecordModel>::empty()
                &&& final(self).spec_persisted() == old(self).spec_persisted() + old(
                    self,
                ).spec_pending()
                &&& final(self).spec_flush_count() == old(self).spec_flush_count() + 1
            },
            r is Err ==> {
                &&& final(self).spec_pending() == old(self).spec_pending()
                &&& final(self).spec_persisted() == old(self).spec_persisted()
                &&& final(self).spec_flush_count() == old(self).spec_flush_count()
                &&& final(self).spec_last_flush() == old(self).spec_last_flush()
            },
            final(self).spec_config() == old(self).spec_config(),
            final(self).spec_backend_name() == old(self).spec_backend_name(),
    {
        let elapsed_ms = self.last_flush.elapsed().as_millis();
        self.flush_given_elapsed(elapsed_ms)
    }

    /// Flush the entire pending queue in FIFO order, regardless of policy.
    /// A no-op on an empty queue. On success the queue is cleared and the
    /// flush timer reset; on failure the queue is kept untouched for a later
    /// retry and the error propagates.
    pub fn flush_pending(&mut self) -> (r: StorageResult<bool>)
        requires
            old(self).spec_flush_count() < usize::MAX,
        ensures
            old(self).spec_pending().len() == 0 ==> (r matches Ok(flushed) && !flushed
                && *final(self) == *old(self)),
            r matches Ok(flushed) ==> (flushed <==> old(self).spec_pending().len() > 0),
            r matches Ok(true) ==> {
                &&& final(self).spec_pending() == Seq::<RecordModel>::empty()
                &&& final(self).spec_persisted() == old(self).spec_persisted() + old(
                    self,
                ).spec_pending()
                &&& final(self).spec_flush_count() == old(self).spec_flush_count() + 1
            },
            r is Err ==> {
                &&& final(self).spec_pending() == old(self).spec_pending()
                &&& final(self).spec_persisted() == old(self).spec_persisted()
                &&& final(self).spec_flush_count() == old(self).spec_flush_count()
                &&& final(self).spec_last_flush() == old(self).spec_last_flush()
            },
            final(self).spec_config() == old(self).spec_config(),
            final(self).spec_backend_name() == old(self).spec_backend_name(),
    {
        if self.pending.is_empty() {
            return Ok(false);
        }
        match self.backend.persist_batch(&self.pending) {
            Ok(()) => {
                self.pending.clear();
                self.last_flush = std::time::Instant::now();
                proof {
                    assert(final(self).spec_pending() =~= Seq::<RecordModel>::empty());
                }
                Ok(true)
            },
            Err(e) => Err(e),
        }
    }

    /// Force a flush of everything pending, for shutdown or drain. A no-op
    /// on an empty queue: the backend is not called and nothing changes.
    pub fn flush_all(&mut self) -> (r: StorageResult<()>)
        requires
            old(self).spec_flush_count() < usize::MAX,
        ensures
            old(self).spec_pending().len() == 0 ==> r is Ok && *final(self) == *old(self),
            r is Ok ==> final(self).spec_pending() == Seq::<RecordModel>::empty(),
            r is Ok && old(self).spec_pending().len() > 0 ==> {
                &&& final(self).spec_persisted() == old(self).spec_persisted() + old(
                    self,
                ).spec_pending()
                &&& final(self).spec_flush_count() == old(self).spec_flush_count() + 1
            },
            r is Err ==> {
                &&& final(self).spec_pending() == old(self).spec_pending()
                &&& final(self).spec_persisted() == old(self).spec_persisted()
                &&& final(self).spec_flush_count() == old(self).spec_flush_count()
                &&& final(self).spec_last_flush() == old(self).spec_last_flush()
            },
            final(self).spec_config() == old(self).spec_config(),
            final(self).spec_backend_name() == old(self).spec_backend_name(),
    {
        match self.flush_pending() {
            Ok(_) => Ok(()),
            Err(e) => Err(e),
        }
    }

    /// Current statistics of the backend, by value.
    pub fn stats(&self) -> (s: StorageStats)
        ensures
            s.flush_count == self.spec_flush_count(),
            s.last_flush == self.spec_last_flush(),
    {
        self.backend.stats()
    }

    /// The diagnostic name of the backend.
    pub fn backend_name(&self) -> (n: &'static str)
        ensures
            n@ == self.spec_backend_name(),
    {
        self.backend.backend_name()
    }
}

} // verus!
