use starknet_hash_cache::native_stack::runs_on_registered_stack;

const STACK: usize = 2 * 1024 * 1024;

#[test]
fn unregistered_thread_never_runs_in_place() {
    assert!(!runs_on_registered_stack(0, STACK));
    assert!(!runs_on_registered_stack(0, 0));
}

#[test]
fn registered_thread_runs_requests_that_fit() {
    assert!(runs_on_registered_stack(STACK, STACK));
    assert!(runs_on_registered_stack(STACK * 2, STACK));
}

#[test]
fn larger_request_falls_back() {
    assert!(!runs_on_registered_stack(STACK, STACK * 2));
}
