use aqevia::engine::Engine;
use aqevia::memory::MemoryBackend;
use aqevia::observability::ObservabilityState;
use aqevia::storage::StorageConfig;

fn state() -> ObservabilityState {
    ObservabilityState::new(
        "0.2.0".to_string(),
        "world".to_string(),
        "dummy".to_string(),
    )
}

#[test]
fn engine_records_and_delivers() {
    let mut state = state();
    let mut engine = Engine::new(
        MemoryBackend::new(),
        StorageConfig {
            flush_interval_ms: 1,
            batch_capacity: 1,
        },
        &mut state,
    )
    .unwrap();
    let output = engine.run_one_world("look", &mut state).unwrap();
    assert!(output.contains("Delivered 'look'"));
}

#[test]
fn engine_flushes_collection() {
    let mut state = state();
    let mut engine = Engine::new(
        MemoryBackend::new(),
        StorageConfig {
            flush_interval_ms: 1,
            batch_capacity: 10,
        },
        &mut state,
    )
    .unwrap();
    engine.run_one_world("say", &mut state).unwrap();
    assert!(engine.flush_all(&mut state).is_ok());
}

#[test]
fn engine_marks_readiness_and_mirrors_flushes() {
    let mut state = state();
    let mut engine = Engine::new(
        MemoryBackend::new(),
        StorageConfig {
            flush_interval_ms: 1000000,
            batch_capacity: 2,
        },
        &mut state,
    )
    .unwrap();
    assert!(state.storage_ready());
    assert_eq!(state.snapshot().flush_count, 0);
    engine.run_one_world("one", &mut state).unwrap();
    assert_eq!(state.snapshot().flush_count, 0);
    engine.run_one_world("two", &mut state).unwrap();
    assert_eq!(state.snapshot().flush_count, 1);
    assert_eq!(engine.storage_backend_name(), "memory");
}
