use fuse_channel::pending::{Notifier, PendingRequestGuard, PendingRequests};
use std::sync::Arc;
use tokio::sync::Notify;

fn notifier(waker: &Arc<Notify>) -> Notifier<Arc<Notify>> {
    Notifier { id: Arc::as_ptr(waker) as usize as u64, waker: waker.clone() }
}

#[test]
fn pending_request_guard_does_not_remove_replacement() {
    let mut pending: PendingRequests<Arc<Notify>> = PendingRequests::new();
    let original = Arc::new(Notify::new());
    let mut guard = PendingRequestGuard::register(&mut pending, 1, notifier(&original));

    let replacement = Arc::new(Notify::new());
    pending.insert(1, notifier(&replacement));
    guard.remove(&mut pending);

    let current = pending.get(1).expect("replacement remains registered");
    assert!(
        Arc::ptr_eq(&current.waker, &replacement),
        "an older guard must not remove a same-unique replacement"
    );
}

#[test]
fn guard_removes_its_own_registration_once() {
    let mut pending: PendingRequests<()> = PendingRequests::new();
    pending.insert(8, Notifier { id: 80, waker: () });
    let mut guard = PendingRequestGuard::register(&mut pending, 9, Notifier { id: 90, waker: () });
    assert!(pending.get(9).is_some());
    guard.remove(&mut pending);
    assert!(pending.get(9).is_none());
    assert!(pending.get(8).is_some());
    // A guard that let go does not touch a later registration of the same notifier.
    pending.insert(9, Notifier { id: 90, waker: () });
    guard.remove(&mut pending);
    assert!(pending.get(9).is_some());
}

#[test]
fn remove_if_compares_the_notifier() {
    let mut pending: PendingRequests<()> = PendingRequests::new();
    pending.insert(3, Notifier { id: 1, waker: () });
    pending.remove_if(3, 2);
    assert!(pending.get(3).is_some());
    pending.remove_if(4, 1);
    assert!(pending.get(3).is_some());
    pending.remove_if(3, 1);
    assert!(pending.get(3).is_none());
}
