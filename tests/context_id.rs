use gl_context::{ContextID, ContextIdRegistry};

#[test]
fn two_allocations_are_distinct_and_increasing() {
    let mut registry = ContextIdRegistry::new();
    let first = registry.allocate();
    let second = registry.allocate();
    assert_ne!(first, second);
    assert!(second.0 > first.0);
}

#[test]
fn first_allocation_is_zero() {
    let mut registry = ContextIdRegistry::new();
    assert_eq!(registry.allocate(), ContextID(0));
    assert_eq!(registry.allocate(), ContextID(1));
}

#[test]
fn many_allocations_are_pairwise_distinct() {
    let mut registry = ContextIdRegistry::new();
    let mut ids: Vec<ContextID> = Vec::new();
    for _ in 0..200 {
        assert!(registry.has_capacity());
        ids.push(registry.allocate());
    }
    for i in 0..ids.len() {
        for j in (i + 1)..ids.len() {
            assert_ne!(ids[i], ids[j]);
            assert!(ids[i].0 < ids[j].0);
        }
    }
}

#[test]
fn allocations_behind_a_lock_are_distinct() {
    let shared = std::sync::Mutex::new(ContextIdRegistry::new());
    let mut ids: Vec<ContextID> = Vec::new();
    for _ in 0..50 {
        let mut guard = shared.lock().unwrap();
        ids.push(guard.allocate());
    }
    ids.sort_by_key(|id| id.0);
    ids.dedup();
    assert_eq!(ids.len(), 50);
}

#[test]
fn fresh_registry_has_capacity() {
    let registry = ContextIdRegistry::new();
    assert!(registry.has_capacity());
}
