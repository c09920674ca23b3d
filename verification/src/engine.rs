//! The single-world runner: composes kernel, router, transport, the batching
//! storage controller, and the owner-side pushes into the health state.

use vstd::prelude::*;
use vstd::string::StringExecFns;
use crate::kernel::Kernel;
use crate::observability::ObservabilityState;
use crate::router::Router;
use crate::storage::{
    RecordModel, StorageBackend, StorageConfig, StorageController, StorageResult, WorldRecord,
};
use crate::transport::Transport;

verus! {

/// What one delivered payload does to the controller's model: the record —
/// this world, this payload, stamped `ts` — is queued at the tail, and the
/// queue either stays (no flush, models untouched) or was flushed whole
/// (queue empty, durable rows extended by it, one more flush counted).
pub open spec fn spec_run_outcome(
    old_pending: Seq<RecordModel>,
    old_persisted: Seq<RecordModel>,
    old_count: usize,
    new_pending: Seq<RecordModel>,
    new_persisted: Seq<RecordModel>,
    new_count: usize,
    world: Seq<char>,
    payload: Seq<char>,
    ts: u64,
) -> bool {
    let queued = old_pending.push((world, payload, ts));
    ||| (new_pending == queued && new_persisted == old_persisted && new_count == old_count)
    ||| (new_pending == Seq::<RecordModel>::empty() && new_persisted == old_persisted + queued
        && new_count == old_count + 1)
}

/// Composes the transport, the storage controller, and the world identity;
/// pushes flush statistics into the health state after each flush.
pub struct Engine<B: StorageBackend> {
    transport: Transport,
    storage: StorageController<B>,
    start: std::time::Instant,
}

impl<B: StorageBackend> Engine<B> {
    /// The queued records, oldest first.
    pub closed spec fn spec_pending(&self) -> Seq<RecordModel> {
        self.storage.spec_pending()
    }

    /// The records the backend holds durably.
    pub closed spec fn spec_persisted(&self) -> Seq<RecordModel> {
        self.storage.spec_persisted()
    }

    /// The backend's flush counter.
    pub closed spec fn spec_flush_count(&self) -> usize {
        self.storage.spec_flush_count()
    }

    /// The backend's latest successful flush second.
    pub closed spec fn spec_last_flush(&self) -> Option<u64> {
        self.storage.spec_last_flush()
    }

    /// The identity of the hosted world.
    pub closed spec fn spec_world_id(&self) -> Seq<char> {
        self.transport.spec_world_id()
    }

    /// The backend's diagnostic name.
    pub closed spec fn spec_backend_name(&self) -> Seq<char> {
        self.storage.spec_backend_name()
    }

    /// Wire up the default world over `backend`: initialize storage, then
    /// mark the health state ready and mirror the fresh statistics into it.
    /// Fails with the backend's error if initialization fails, leaving the
    /// health state untouched.
    pub fn new(
        backend: B,
        config: StorageConfig,
        observability: &mut ObservabilityState,
    ) -> (r: StorageResult<Engine<B>>)
        requires
            config.batch_capacity >= 1,
        ensures
            r matches Ok(engine) ==> {
                &&& engine.spec_pending() == Seq::<RecordModel>::empty()
                &&& engine.spec_world_id() == Kernel::spec_default_world_id()
                &&& engine.spec_flush_count() == backend.flush_count()
                &&& engine.spec_last_flush() == backend.last_flush()
                &&& engine.spec_backend_name() == backend.spec_name()
                &&& engine.spec_persisted() == backend.persisted() || engine.spec_persisted()
                    == Seq::<RecordModel>::empty()
                &&& final(observability).spec_ready()
                &&& final(observability).spec_error() is None
                &&& final(observability).spec_flush_count() == engine.spec_flush_count()
                &&& final(observability).spec_last_flush() == if engine.spec_last_flush()
                    is Some {
                    engine.spec_last_flush()
                } else {
                    old(observability).spec_last_flush()
                }
            },
            r is Err ==> *final(observability) == *old(observability),
            final(observability).spec_version() == old(observability).spec_version(),
            final(observability).spec_world_id() == old(observability).spec_world_id(),
            final(observability).spec_storage_backend() == old(
                observability,
            ).spec_storage_backend(),
    {
        let kernel = Kernel::new();
        let router = Router::new(kernel);
        let transport = Transport::new(router);
        match StorageController::new(backend, config) {
            Ok(storage) => {
                observability.mark_storage_ready(true);
                let stats = storage.stats();
                observability.note_flush(stats.flush_count, stats.last_flush);
                Ok(Engine { transport, storage, start: std::time::Instant::now() })
            },
            Err(e) => Err(e),
        }
    }

    /// Record the payload as a durable event stamped with the wall clock,
    /// flush if the policy says a flush is due (mirroring the new statistics
    /// into the health state after a flush), and deliver the payload via the
    /// transport. On a backend failure the queue — the new record included —
    /// is kept for a later retry and the health state is untouched.
    pub fn run_one_world(
        &mut self,
        payload: &str,
        observability: &mut ObservabilityState,
    ) -> (r: StorageResult<String>)
        requires
            old(self).spec_flush_count() < usize::MAX,
        ensures
            r matches Ok(line) ==> line@ == Transport::spec_delivery_line(
                payload@,
                old(self).spec_world_id(),
            ),
            exists|ts: u64|
                #[trigger] spec_run_outcome(
                    old(self).spec_pending(),
                    old(self).spec_persisted(),
                    old(self).spec_flush_count(),
                    final(self).spec_pending(),
                    final(self).spec_persisted(),
                    final(self).spec_flush_count(),
                    old(self).spec_world_id(),
                    payload@,
                    ts,
                ),
            r is Err ==> final(self).spec_persisted() == old(self).spec_persisted()
                && final(self).spec_flush_count() == old(self).spec_flush_count(),
            final(self).spec_flush_count() == old(self).spec_flush_count()
                ==> *final(observability) == *old(observability),
            final(self).spec_flush_count() != old(self).spec_flush_count() ==> {
                &&& final(observability).spec_flush_count() == final(self).spec_flush_count()
                &&& final(observability).spec_error() is None
                &&& final(observability).spec_ready() == old(observability).spec_ready()
                &&& final(observability).spec_version() == old(observability).spec_version()
                &&& final(observability).spec_world_id() == old(observability).spec_world_id()
                &&& final(observability).spec_storage_backend() == old(
                    observability,
                ).spec_storage_backend()
            },
            final(self).spec_world_id() == old(self).spec_world_id(),
            final(self).spec_backend_name() == old(self).spec_backend_name(),
    {
        let timestamp_secs = crate::clock::wall_clock_secs();
        let record = WorldRecord {
            world_id: self.transport.world_context().to_owned(),
            payload: payload.to_owned(),
            timestamp_secs,
        };
        self.storage.record(record);
        let flushed = match self.storage.flush_if_due() {
            Ok(flushed) => flushed,
            Err(e) => {
                proof {
                    assert(spec_run_outcome(
                        old(self).spec_pending(),
                        old(self).spec_persisted(),
                        old(self).spec_flush_count(),
                        self.spec_pending(),
                        self.spec_persisted(),
                        self.spec_flush_count(),
                        old(self).spec_world_id(),
                        payload@,
                        timestamp_secs,
                    ));
                }
                return Err(e);
            },
        };
        if flushed {
            let stats = self.storage.stats();
            observability.note_flush(stats.flush_count, stats.last_flush);
        }
        proof {
            assert(spec_run_outcome(
                old(self).spec_pending(),
                old(self).spec_persisted(),
                old(self).spec_flush_count(),
                self.spec_pending(),
                self.spec_persisted(),
                self.spec_flush_count(),
                old(self).spec_world_id(),
                payload@,
                timestamp_secs,
            ));
        }
        Ok(self.transport.deliver(payload))
    }

    /// Force a flush of everything pending and mirror the statistics into
    /// the health state. On a backend failure the queue and the health state
    /// are untouched and the error propagates.
    pub fn flush_all(&mut self, observability: &mut ObservabilityState) -> (r: StorageResult<()>)
        requires
            old(self).spec_flush_count() < usize::MAX,
        ensures
            old(self).spec_pending().len() == 0 ==> r is Ok,
            r is Ok ==> {
                &&& final(self).spec_pending() == Seq::<RecordModel>::empty()
                &&& final(observability).spec_flush_count() == final(self).spec_flush_count()
                &&& final(observability).spec_error() is None
                &&& final(observability).spec_ready() == old(observability).spec_ready()
            },
            r is Ok && old(self).spec_pending().len() > 0 ==> {
                &&& final(self).spec_persisted() == old(self).spec_persisted() + old(
                    self,
                ).spec_pending()
                &&& final(self).spec_flush_count() == old(self).spec_flush_count() + 1
            },
            r is Ok && old(self).spec_pending().len() == 0 ==> {
                &&& final(self).spec_persisted() == old(self).spec_persisted()
                &&& final(self).spec_flush_count() == old(self).spec_flush_count()
            },
            r is Err ==> {
                &&& final(self).spec_pending() == old(self).spec_pending()
                &&& final(self).spec_persisted() == old(self).spec_persisted()
                &&& final(self).spec_flush_count() == old(self).spec_flush_count()
                &&& *final(observability) == *old(observability)
            },
            final(self).spec_world_id() == old(self).spec_world_id(),
            final(self).spec_backend_name() == old(self).spec_backend_name(),
    {
        match self.storage.flush_all() {
            Ok(()) => {},
            Err(e) => {
                return Err(e);
            },
        }
        let stats = self.storage.stats();
        observability.note_flush(stats.flush_count, stats.last_flush);
        Ok(())
    }

    /// Whole seconds since this engine was constructed, read from the
    /// monotonic clock.
    pub fn uptime_seconds(&self) -> u64 {
        self.start.elapsed().as_secs()
    }

    /// The diagnostic name of the storage backend.
    pub fn storage_backend_name(&self) -> (n: &'static str)
        ensures
            n@ == self.spec_backend_name(),
    {
        self.storage.backend_name()
    }
}

} // verus!
