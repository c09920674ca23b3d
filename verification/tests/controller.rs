use aqevia::memory::MemoryBackend;
use aqevia::storage::{StorageBackend, StorageConfig, StorageController, WorldRecord};

fn record(world_id: &str, payload: &str, timestamp_secs: u64) -> WorldRecord {
    WorldRecord {
        world_id: world_id.to_string(),
        payload: payload.to_string(),
        timestamp_secs,
    }
}

#[test]
fn flush_respects_capacity() {
    let backend = MemoryBackend::new();
    let config = StorageConfig {
        flush_interval_ms: 1000,
        batch_capacity: 2,
    };
    let mut controller = StorageController::new(backend, config).unwrap();
    controller.record(record("w", "one", 7));
    assert!(!controller.flush_if_due().unwrap());
    controller.record(record("w", "two", 8));
    assert!(controller.flush_if_due().unwrap());
    assert!(controller.pending().is_empty());
}

#[test]
fn flush_all_with_no_pending() {
    let backend = MemoryBackend::new();
    let config = StorageConfig::default();
    let mut controller = StorageController::new(backend, config).unwrap();
    assert!(controller.flush_all().is_ok());
}

#[test]
fn capacity_two_scenario() {
    let backend = MemoryBackend::new();
    let config = StorageConfig {
        flush_interval_ms: 1000,
        batch_capacity: 2,
    };
    let mut controller = StorageController::new(backend, config).unwrap();
    controller.record(record("w", "first", 1));
    assert!(!controller.flush_if_due().unwrap());
    assert_eq!(controller.pending().len(), 1);
    controller.record(record("w", "second", 2));
    assert!(controller.flush_if_due().unwrap());
    assert_eq!(controller.pending().len(), 0);
    assert_eq!(controller.stats().flush_count, 1);
}

#[test]
fn failed_flush_keeps_queue_and_stats() {
    let mut backend = MemoryBackend::new();
    backend.set_fail_persist(true);
    let config = StorageConfig {
        flush_interval_ms: 1000,
        batch_capacity: 1,
    };
    let mut controller = StorageController::new(backend, config).unwrap();
    controller.record(record("w", "kept", 3));
    let err = controller.flush_pending().unwrap_err();
    assert!(err.message().contains("persist failure"));
    assert_eq!(controller.pending().len(), 1);
    assert_eq!(controller.pending()[0].payload, "kept");
    assert_eq!(controller.stats().flush_count, 0);
    assert!(controller.stats().last_flush.is_none());
}

#[test]
fn failed_persist_leaves_no_rows_and_retry_succeeds() {
    let mut backend = MemoryBackend::new();
    backend.set_fail_persist(true);
    let batch = vec![record("w", "a", 1), record("w", "b", 2)];
    assert!(backend.persist_batch(&batch).is_err());
    assert!(backend.rows().is_empty());
    assert_eq!(backend.stats().flush_count, 0);
    backend.set_fail_persist(false);
    assert!(backend.persist_batch(&batch).is_ok());
    assert_eq!(backend.rows().len(), 2);
    assert_eq!(backend.rows()[0].payload, "a");
    assert_eq!(backend.rows()[1].payload, "b");
    assert_eq!(backend.stats().flush_count, 1);
    assert!(backend.stats().last_flush.is_some());
}

#[test]
fn flush_all_drains_everything_in_order() {
    let backend = MemoryBackend::new();
    let config = StorageConfig {
        flush_interval_ms: 1000000,
        batch_capacity: 100,
    };
    let mut controller = StorageController::new(backend, config).unwrap();
    controller.record(record("w", "x", 1));
    controller.record(record("w", "y", 2));
    controller.record(record("w", "z", 3));
    assert!(controller.flush_all().is_ok());
    assert!(controller.pending().is_empty());
    assert_eq!(controller.stats().flush_count, 1);
}

#[test]
fn flush_all_on_empty_queue_does_not_touch_stats() {
    let backend = MemoryBackend::new();
    let config = StorageConfig {
        flush_interval_ms: 1000,
        batch_capacity: 2,
    };
    let mut controller = StorageController::new(backend, config).unwrap();
    controller.record(record("w", "only", 1));
    controller.record(record("w", "more", 2));
    assert!(controller.flush_all().is_ok());
    assert_eq!(controller.stats().flush_count, 1);
    assert!(controller.flush_all().is_ok());
    assert_eq!(controller.stats().flush_count, 1);
    assert!(controller.pending().is_empty());
}

#[test]
fn record_summary_formats_world_and_timestamp() {
    let r = record("w", "p", 42);
    assert_eq!(r.summary(), "w@42");
    let r2 = record("aqevia-default-world", "p", 0);
    assert_eq!(r2.summary(), "aqevia-default-world@0");
}

#[test]
fn backend_name_passes_through() {
    let backend = MemoryBackend::new();
    let config = StorageConfig::default();
    let controller = StorageController::new(backend, config).unwrap();
    assert_eq!(controller.backend_name(), "memory");
}

#[test]
fn default_config_is_500ms_and_20_records() {
    let config = StorageConfig::default();
    assert_eq!(config.flush_interval_ms, 500);
    assert_eq!(config.batch_capacity, 20);
}

#[test]
fn elapsed_time_triggers_a_flush() {
    let backend = MemoryBackend::new();
    let config = StorageConfig {
        flush_interval_ms: 100,
        batch_capacity: 10,
    };
    let mut controller = StorageController::new(backend, config).unwrap();
    controller.record(record("w", "slow", 1));
    assert!(!controller.flush_given_elapsed(99).unwrap());
    assert_eq!(controller.pending().len(), 1);
    assert!(controller.flush_given_elapsed(100).unwrap());
    assert!(controller.pending().is_empty());
    assert_eq!(controller.stats().flush_count, 1);
}

#[test]
fn no_flush_is_due_on_an_empty_queue() {
    let backend = MemoryBackend::new();
    let config = StorageConfig {
        flush_interval_ms: 100,
        batch_capacity: 10,
    };
    let mut controller = StorageController::new(backend, config).unwrap();
    assert!(!controller.flush_given_elapsed(1000000).unwrap());
    assert!(!controller.flush_if_due().unwrap());
    assert_eq!(controller.stats().flush_count, 0);
}
