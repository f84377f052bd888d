//! The repeating timers that are running, by identifier, so that they can be
//! cancelled one by one or all at once.

use vstd::prelude::*;
use std::collections::HashMap;

verus! {

broadcast use vstd::std_specs::hash::group_hash_axioms;

/// The running timers, each with the handle (`T`) that stops it.
pub struct TimerRegistry<T> {
    timers: HashMap<u64, T>,
}

impl<T> View for TimerRegistry<T> {
    type V = Map<u64, T>;

    /// The handle of each running timer, by identifier.
    closed spec fn view(&self) -> Map<u64, T> {
        self.timers@
    }
}

impl<T> TimerRegistry<T> {
    /// No timer is running.
    pub fn new() -> (r: Self)
        ensures
            r@ == Map::<u64, T>::empty(),
    {
        TimerRegistry { timers: HashMap::new() }
    }

    /// Records that the timer `id` runs and is stopped with `handle`; a
    /// handle registered before under the same identifier is handed back.
    pub fn register(&mut self, id: u64, handle: T) -> (previous: Option<T>)
        ensures
            final(self)@ == old(self)@.insert(id, handle),
            previous == (if old(self)@.contains_key(id) {
                Some(old(self)@[id])
            } else {
                None
            }),
    {
        self.timers.insert(id, handle)
    }

    /// Cancels the timer `id`: it is no longer running, and its handle is
    /// handed back to be stopped; a timer that is not running (never started,
    /// or already cancelled) gives `None` and nothing changes.
    pub fn cancel(&mut self, id: u64) -> (handle: Option<T>)
        ensures
            final(self)@ == old(self)@.remove(id),
            handle == (if old(self)@.contains_key(id) {
                Some(old(self)@[id])
            } else {
                None
            }),
    {
        self.timers.remove(&id)
    }

    /// Cancels every timer and hands back all their handles, one per timer,
    /// in no particular order.
    pub fn cancel_all(&mut self) -> (handles: Vec<T>)
        ensures
            final(self)@ == Map::<u64, T>::empty(),
            exists|ids: Seq<u64>|
                {
                    &&& ids.no_duplicates()
                    &&& ids.to_set() == old(self)@.dom()
                    &&& handles@ == ids.map_values(|id: u64| old(self)@[id])
                },
    {
        let ghost start = self.timers@;
        let mut ids: Vec<u64> = Vec::new();
        for k in it: self.timers.keys()
            invariant
                it.seq() == vstd::std_specs::iter::IteratorSpec::remaining(&vstd::std_specs::hash::spec_keys_iter(&self.timers)),
                ids@ == it.seq().take(it.index() as int).map_values(|r: &u64| *r),
        {
            ids.push(*k);
            assert(ids@ =~= it.seq().take(it.index() + 1).map_values(|r: &u64| *r));
        }
        proof {
            let keys = vstd::std_specs::iter::IteratorSpec::remaining(&vstd::std_specs::hash::spec_keys_iter(&self.timers));
            assert(keys.take(keys.len() as int) =~= keys);
            assert(ids@ =~= keys.unref());
        }
        let mut handles: Vec<T> = Vec::new();
        let mut j: usize = 0;
        while j < ids.len()
            invariant
                j <= ids@.len(),
                ids@.no_duplicates(),
                ids@.to_set() == start.dom(),
                handles@ == ids@.take(j as int).map_values(|id: u64| start[id]),
                self.timers@ == start.remove_keys(ids@.take(j as int).to_set()),
            decreases ids@.len() - j,
        {
            let id = ids[j];
            assert(start.dom().contains(id)) by {
                assert(ids@.to_set().contains(id));
            }
            assert(!ids@.take(j as int).to_set().contains(id)) by {
                if ids@.take(j as int).to_set().contains(id) {
                    let k = choose|k: int| 0 <= k < j && ids@[k] == id;
                    assert(ids@.take(j as int)[k] == id);
                }
            }
            let h = self.timers.remove(&id);
            assert(h == Some(start[id]));
            handles.push(h.unwrap());
            assert(ids@.take(j + 1).to_set() =~= ids@.take(j as int).to_set().insert(id)) by {
                assert(ids@.take(j + 1) =~= ids@.take(j as int).push(id));
                ids@.take(j as int).lemma_push_to_set_commute(id);
            }
            assert(self.timers@ =~= start.remove_keys(ids@.take(j + 1).to_set()));
            assert(handles@ =~= ids@.take(j + 1).map_values(|id: u64| start[id]));
            j = j + 1;
        }
        proof {
            assert(ids@.take(ids@.len() as int) =~= ids@);
            assert(self.timers@ =~= Map::<u64, T>::empty());
        }
        handles
    }
}


/// Registering a timer and cancelling it hands back the handle it was
/// registered with and leaves no such timer running, so that cancelling it
/// again has no effect; when no timer of that identifier ran before, the
/// registry is as it was before the registration.
pub proof fn law_register_then_cancel<T>(m: Map<u64, T>, id: u64, handle: T)
    ensures
        m.insert(id, handle).contains_key(id) && m.insert(id, handle)[id] == handle,
        !m.insert(id, handle).remove(id).contains_key(id),
        m.insert(id, handle).remove(id).remove(id) == m.insert(id, handle).remove(id),
        !m.contains_key(id) ==> m.insert(id, handle).remove(id) == m,
{
    assert(m.insert(id, handle).remove(id).remove(id) =~= m.insert(id, handle).remove(id));
    if !m.contains_key(id) {
        assert(m.insert(id, handle).remove(id) =~= m);
    }
}

} // verus!
