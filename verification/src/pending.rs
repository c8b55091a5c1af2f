//! The registry of requests that the kernel may interrupt while they wait.
use vstd::prelude::*;
use std::collections::HashMap;

verus! {

broadcast use vstd::std_specs::hash::group_hash_axioms;

/// Something that can be woken, with a number that tells it from every other one
/// that is alive.
pub struct Notifier<N> {
    pub id: u64,
    pub waker: N,
}

/// Who waits, by request number.
pub struct PendingRequests<N> {
    entries: HashMap<u64, Notifier<N>>,
}

impl<N> View for PendingRequests<N> {
    type V = Map<u64, Notifier<N>>;

    closed spec fn view(&self) -> Map<u64, Notifier<N>> {
        self.entries@
    }
}

/// The registry after the registration of `id` under `unique` was taken out. What
/// someone else registered under that number stays.
pub open spec fn without<N>(m: Map<u64, Notifier<N>>, unique: u64, id: u64) -> Map<
    u64,
    Notifier<N>,
> {
    if m.contains_key(unique) && m[unique].id == id {
        m.remove(unique)
    } else {
        m
    }
}

impl<N> PendingRequests<N> {
    /// Nobody waits.
    pub fn new() -> (r: PendingRequests<N>)
        ensures
            r@ == Map::<u64, Notifier<N>>::empty(),
    {
        PendingRequests { entries: HashMap::new() }
    }

    /// Registers `notifier` under `unique`, in place of whatever was there.
    pub fn insert(&mut self, unique: u64, notifier: Notifier<N>)
        ensures
            final(self)@ == old(self)@.insert(unique, notifier),
    {
        self.entries.insert(unique, notifier);
    }

    /// Who is registered under `unique`.
    pub fn get(&self, unique: u64) -> (r: Option<&Notifier<N>>)
        ensures
            match r {
                Some(notifier) => self@.contains_key(unique) && *notifier == self@[unique],
                None => !self@.contains_key(unique),
            },
    {
        self.entries.get(&unique)
    }

    /// Takes out the registration under `unique` if it is that of `id`.
    pub fn remove_if(&mut self, unique: u64, id: u64)
        ensures
            final(self)@ == without(old(self)@, unique, id),
    {
        let own: bool = match self.entries.get(&unique) {
            Some(current) => current.id == id,
            None => false,
        };
        if own {
            self.entries.remove(&unique);
        }
    }
}

/// The registration of one request, to be taken out when its dispatch ends,
/// whichever way it ends.
pub struct PendingRequestGuard {
    unique: u64,
    id: u64,
    registered: bool,
}

/// A registration as a value.
pub struct GuardView {
    pub unique: u64,
    pub id: u64,
    pub registered: bool,
}

impl View for PendingRequestGuard {
    type V = GuardView;

    closed spec fn view(&self) -> GuardView {
        GuardView { unique: self.unique, id: self.id, registered: self.registered }
    }
}

/// The registry after a guard let go: an active guard takes out its own
/// registration, and nothing else.
pub open spec fn let_go<N>(m: Map<u64, Notifier<N>>, guard: GuardView) -> Map<u64, Notifier<N>> {
    if guard.registered {
        without(m, guard.unique, guard.id)
    } else {
        m
    }
}

impl PendingRequestGuard {
    /// Registers `notifier` under `unique` and remembers it.
    pub fn register<N>(
        pending: &mut PendingRequests<N>,
        unique: u64,
        notifier: Notifier<N>,
    ) -> (guard: PendingRequestGuard)
        ensures
            final(pending)@ == old(pending)@.insert(unique, notifier),
            guard@ == (GuardView { unique, id: notifier.id, registered: true }),
    {
        let id: u64 = notifier.id;
        pending.insert(unique, notifier);
        PendingRequestGuard { unique, id, registered: true }
    }

    /// Takes the registration out, once. A replacement that someone else put under
    /// the same number stays.
    pub fn remove<N>(&mut self, pending: &mut PendingRequests<N>)
        ensures
            final(pending)@ == let_go(old(pending)@, old(self)@),
            final(self)@ == (GuardView { registered: false, ..old(self)@ }),
    {
        if !self.registered {
            return;
        }
        pending.remove_if(self.unique, self.id);
        self.registered = false;
    }
}

} // verus!
