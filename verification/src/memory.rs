//! An in-memory storage backend: durable only for the lifetime of the
//! process. It plugs into the same backend contract as the relational
//! backend, and its persist step can be forced to fail, to exercise the
//! controller's retry behaviour.

use vstd::prelude::*;
use crate::storage::{RecordModel, StorageBackend, StorageError, StorageResult, StorageStats, WorldRecord};

verus! {

/// A backend that keeps records in process memory.
pub struct MemoryBackend {
    rows: Vec<WorldRecord>,
    stats: StorageStats,
    fail_persist: bool,
}

impl MemoryBackend {
    /// Whether the next persist attempts are forced to fail.
    pub closed spec fn spec_fail_persist(&self) -> bool {
        self.fail_persist
    }

    /// A fresh backend: nothing stored, nothing flushed, persisting works.
    pub fn new() -> (b: MemoryBackend)
        ensures
            b.persisted() == Seq::<RecordModel>::empty(),
            b.flush_count() == 0,
            b.last_flush() is None,
            !b.spec_fail_persist(),
    {
        let b = MemoryBackend {
            rows: Vec::new(),
            stats: StorageStats { flush_count: 0, last_flush: None },
            fail_persist: false,
        };
        proof {
            assert(b.persisted() =~= Seq::<RecordModel>::empty());
        }
        b
    }

    /// The records persisted so far, in the order they became durable.
    pub fn rows(&self) -> (rows: &Vec<WorldRecord>)
        ensures
            rows@.map_values(|rec: WorldRecord| rec@) == self.persisted(),
    {
        &self.rows
    }

    /// Force every following persist attempt to fail (or stop doing so):
    /// a stand-in for a storage medium that has gone away.
    pub fn set_fail_persist(&mut self, fail: bool)
        ensures
            final(self).persisted() == old(self).persisted(),
            final(self).flush_count() == old(self).flush_count(),
            final(self).last_flush() == old(self).last_flush(),
            final(self).spec_fail_persist() == fail,
    {
        self.fail_persist = fail;
    }
}

impl StorageBackend for MemoryBackend {
    closed spec fn persisted(&self) -> Seq<RecordModel> {
        self.rows@.map_values(|rec: WorldRecord| rec@)
    }

    closed spec fn flush_count(&self) -> usize {
        self.stats.flush_count
    }

    closed spec fn last_flush(&self) -> Option<u64> {
        self.stats.last_flush
    }

    closed spec fn spec_name(&self) -> Seq<char> {
        "memory"@
    }

    /// Nothing to prepare: memory is always ready and keeps its records.
    fn init(&mut self) -> (r: StorageResult<()>)
        ensures
            r is Ok,
            *final(self) == *old(self),
    {
        Ok(())
    }

    fn persist_batch(&mut self, batch: &Vec<WorldRecord>) -> (r: StorageResult<()>)
        ensures
            r is Err <==> old(self).spec_fail_persist(),
            final(self).spec_fail_persist() == old(self).spec_fail_persist(),
            r is Ok ==> final(self).persisted() == old(self).persisted() + batch@.map_values(
                |rec: WorldRecord| rec@,
            ),
            r is Ok ==> final(self).flush_count() == old(self).flush_count() + 1,
            r is Ok ==> final(self).last_flush() is Some,
            r is Err ==> final(self).persisted() == old(self).persisted(),
            r is Err ==> final(self).flush_count() == old(self).flush_count(),
            r is Err ==> final(self).last_flush() == old(self).last_flush(),
            final(self).spec_name() == old(self).spec_name(),
    {
        if self.fail_persist {
            return Err(StorageError("memory backend: persist failure forced".to_owned()));
        }
        let ghost prior = self.rows@;
        let mut i: usize = 0;
        while i < batch.len()
            invariant
                i <= batch@.len(),
                self.rows@ == prior + batch@.subrange(0, i as int),
                self.stats == old(self).stats,
                self.fail_persist == old(self).fail_persist,
            decreases batch@.len() - i,
        {
            self.rows.push(batch[i].clone());
            proof {
                assert(self.rows@ =~= prior + batch@.subrange(0, i as int + 1));
            }
            i = i + 1;
        }
        self.stats.flush_count = self.stats.flush_count + 1;
        self.stats.last_flush = Some(crate::clock::wall_clock_secs());
        proof {
            assert(batch@.subrange(0, batch@.len() as int) =~= batch@);
            assert(final(self).persisted() =~= old(self).persisted() + batch@.map_values(
                |rec: WorldRecord| rec@,
            ));
        }
        Ok(())
    }

    fn stats(&self) -> (s: StorageStats)
        ensures
            s.flush_count == self.flush_count(),
            s.last_flush == self.last_flush(),
    {
        self.stats
    }

    fn backend_name(&self) -> (n: &'static str)
        ensures
            n@ == self.spec_name(),
    {
        "memory"
    }
}

} // verus!
