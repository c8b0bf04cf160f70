use oidc_rp::flow::FlowState;
use oidc_rp::flow::FlowStore;

fn sample_flow(tag: &str) -> FlowState {
    FlowState {
        pkce_verifier: format!("verifier-{}", tag),
        csrf_token: format!("csrf-{}", tag),
        nonce: format!("nonce-{}", tag),
    }
}

#[test]
fn take_returns_value_at_most_once_per_set() {
    let mut store = FlowStore::new();
    store.set(sample_flow("a"));
    let first = store.take();
    assert!(first.is_some());
    assert_eq!(first.unwrap().csrf_token, "csrf-a");
    let second = store.take();
    assert!(second.is_none());
}

#[test]
fn take_on_fresh_store_returns_none() {
    let mut store = FlowStore::new();
    assert!(store.take().is_none());
}

#[test]
fn set_overwrites_prior_unconsumed_flow() {
    let mut store = FlowStore::new();
    store.set(sample_flow("old"));
    store.set(sample_flow("new"));
    let taken = store.take();
    assert_eq!(taken.unwrap().csrf_token, "csrf-new");
    assert!(store.take().is_none());
}
