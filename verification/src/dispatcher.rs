//! A registry of event handlers, keyed by the event type they accept.
//!
//! Handlers are kept in registration order. Dispatching an event of a given
//! type runs, in that order, exactly the handlers registered for that type.

use vstd::prelude::*;

verus! {

/// One registered handler and the event type it accepts.
pub struct HandlerEntry<H> {
    pub key: u64,
    pub handler: H,
}

impl<H> HandlerEntry<H> {
    /// A handler entry for events of type `key`.
    pub fn new(key: u64, handler: H) -> (entry: Self)
        ensures
            entry.key == key,
            entry.handler == handler,
    {
        HandlerEntry { key, handler }
    }
}

/// The positions, in increasing order, of the entries of `keys` equal to `key`.
pub open spec fn dispatch_positions(keys: Seq<u64>, key: u64) -> Seq<int>
    decreases keys.len(),
{
    if keys.len() == 0 {
        Seq::empty()
    } else {
        let front = dispatch_positions(keys.drop_last(), key);
        if keys.last() == key {
            front.push(keys.len() - 1)
        } else {
            front
        }
    }
}

/// The keys of a sequence of entries, in order.
pub open spec fn entry_keys<H>(entries: Seq<HandlerEntry<H>>) -> Seq<u64> {
    entries.map_values(|e: HandlerEntry<H>| e.key)
}

/// Event dispatcher: handlers of type `H`, each registered for one event type.
pub struct EventDispatcher<H> {
    entries: Vec<HandlerEntry<H>>,
}

impl<H> EventDispatcher<H> {
    /// The registered entries, in registration order.
    pub closed spec fn entries(&self) -> Seq<HandlerEntry<H>> {
        self.entries@
    }

    /// The event-type keys of the registered handlers, in registration order.
    pub open spec fn keys(&self) -> Seq<u64> {
        entry_keys(self.entries())
    }

    /// Creates an empty dispatcher.
    pub fn new() -> (d: Self)
        ensures
            d.entries().len() == 0,
    {
        EventDispatcher { entries: Vec::new() }
    }

    /// Whether no handler is registered.
    pub fn is_empty(&self) -> (r: bool)
        ensures
            r == (self.entries().len() == 0),
    {
        self.entries.len() == 0
    }

    /// The number of registered handlers.
    pub fn len(&self) -> (n: usize)
        ensures
            n == self.entries().len(),
    {
        self.entries.len()
    }

    /// Registers `handler` for events of type `key`, after every handler registered so far.
    pub fn on(&mut self, key: u64, handler: H)
        ensures
            final(self).entries() == old(self).entries().push(HandlerEntry { key, handler }),
    {
        self.entries.push(HandlerEntry::new(key, handler));
    }

    /// The handler at position `i`.
    pub fn handler(&self, i: usize) -> (h: &H)
        requires
            i < self.entries().len(),
        ensures
            *h == self.entries()[i as int].handler,
    {
        &self.entries[i].handler
    }

    /// The positions of the handlers that an event of type `key` runs, in the order they run.
    pub fn dispatch_plan(&self, key: u64) -> (plan: Vec<usize>)
        ensures
            plan@.map_values(|i: usize| i as int) == dispatch_positions(self.keys(), key),
    {
        let n = self.entries.len();
        let mut plan: Vec<usize> = Vec::new();
        let mut i: usize = 0;
        assert(self.keys().subrange(0, 0) =~= Seq::<u64>::empty());
        assert(plan@.map_values(|i: usize| i as int) =~= Seq::<int>::empty());
        while i < n
            invariant
                n == self.entries@.len(),
                i <= n,
                plan@.map_values(|i: usize| i as int) == dispatch_positions(
                    self.keys().subrange(0, i as int),
                    key,
                ),
            decreases n - i,
        {
            let ghost before = plan@;
            let ghost sub = self.keys().subrange(0, i + 1);
            assert(sub.drop_last() =~= self.keys().subrange(0, i as int));
            assert(sub.last() == self.entries@[i as int].key);
            if self.entries[i].key == key {
                plan.push(i);
                assert(plan@.map_values(|i: usize| i as int) =~= before.map_values(
                    |i: usize| i as int,
                ).push(i as int));
            }
            i += 1;
        }
        assert(self.keys().subrange(0, n as int) =~= self.keys());
        plan
    }
}

/// Dispatch runs handlers in registration order: the positions it runs are
/// strictly increasing, each holds a handler registered for the event's type,
/// and every handler registered for that type is among them.
pub proof fn lemma_dispatch_runs_matching_handlers_in_order(keys: Seq<u64>, key: u64)
    ensures
        forall|a: int, b: int|
            0 <= a < b < dispatch_positions(keys, key).len() ==> dispatch_positions(keys, key)[a]
                < dispatch_positions(keys, key)[b],
        forall|a: int|
            0 <= a < dispatch_positions(keys, key).len() ==> 0 <= #[trigger] dispatch_positions(
                keys,
                key,
            )[a] < keys.len() && keys[dispatch_positions(keys, key)[a]] == key,
        forall|i: int|
            0 <= i < keys.len() && keys[i] == key ==> dispatch_positions(keys, key).contains(i),
    decreases keys.len(),
{
    if keys.len() > 0 {
        let front = keys.drop_last();
        lemma_dispatch_runs_matching_handlers_in_order(front, key);
        let p = dispatch_positions(front, key);
        assert forall|i: int| 0 <= i < keys.len() && keys[i] == key implies dispatch_positions(
            keys,
            key,
        ).contains(i) by {
            if i < keys.len() - 1 {
                assert(front[i] == keys[i]);
                let j = choose|j: int| 0 <= j < p.len() && p[j] == i;
                assert(dispatch_positions(keys, key)[j] == i);
            } else {
                assert(dispatch_positions(keys, key)[p.len() as int] == i);
            }
        }
        assert forall|a: int|
            0 <= a < dispatch_positions(keys, key).len() implies 0 <= #[trigger] dispatch_positions(
            keys,
            key,
        )[a] < keys.len() && keys[dispatch_positions(keys, key)[a]] == key by {
            if a < p.len() {
                assert(front[p[a]] == keys[p[a]]);
            }
        }
    }
}

/// Registering a handler for `key` adds it last to what events of type `key`
/// run, and leaves what events of any other type run unchanged.
pub proof fn lemma_registration_appends_only_to_its_type(keys: Seq<u64>, registered: u64, key: u64)
    ensures
        registered == key ==> dispatch_positions(keys.push(registered), key) == dispatch_positions(
            keys,
            key,
        ).push(keys.len() as int),
        registered != key ==> dispatch_positions(keys.push(registered), key)
            == dispatch_positions(keys, key),
{
    assert(keys.push(registered).drop_last() =~= keys);
}

} // verus!
