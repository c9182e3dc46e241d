//! The registry of jobs: which jobs exist, under which identifier.
//!
//! The registry maps an identifier to a handle of the job. It is generic in
//! the handle, so that a service can store a shared, lockable reference while
//! a single-threaded caller stores the job itself.

use std::collections::HashMap;
use vstd::prelude::*;
use vstd::std_specs::iter::IteratorSpec;
use crate::job::{Job, JobView};
use crate::settings::RecorderSettings;
use crate::uid::is_uid;

verus! {

broadcast use vstd::std_specs::hash::group_hash_axioms;

/// The map from job identifiers to job handles.
pub struct JobRegistry<H> {
    jobs: HashMap<u32, H>,
}

impl<H> View for JobRegistry<H> {
    type V = Map<u32, H>;

    closed spec fn view(&self) -> Map<u32, H> {
        self.jobs@
    }
}

/// Whether `id` is the identifier that the next job gets: it is not in use,
/// and every smaller identifier is.
pub open spec fn is_next_free_id(used: Set<u32>, id: u32) -> bool {
    &&& !used.contains(id)
    &&& forall|k: u32| k < id ==> used.contains(k)
}

/// Whether no identifier is left: every 32-bit value is in use.
pub open spec fn exhausted(used: Set<u32>) -> bool {
    forall|k: u32| used.contains(k)
}

impl<H> JobRegistry<H> {
    /// An empty registry.
    pub fn new() -> (registry: Self)
        ensures
            registry@ == Map::<u32, H>::empty(),
    {
        JobRegistry { jobs: HashMap::new() }
    }

    /// The number of jobs.
    pub fn len(&self) -> (n: usize)
        ensures
            n == self@.len(),
    {
        self.jobs.len()
    }

    /// Whether a job exists under `id`.
    pub fn contains(&self, id: u32) -> (found: bool)
        ensures
            found == self@.contains_key(id),
    {
        self.jobs.contains_key(&id)
    }

    /// The smallest identifier that is not in use.
    pub fn next_free_id(&self) -> (id: u32)
        requires
            !exhausted(self@.dom()),
        ensures
            is_next_free_id(self@.dom(), id),
    {
        let mut id: u32 = 0;
        while self.jobs.contains_key(&id)
            invariant
                !exhausted(self@.dom()),
                forall|k: u32| k < id ==> self@.dom().contains(k),
            decreases u32::MAX - id,
        {
            assert(id < u32::MAX) by {
                if id == u32::MAX {
                    assert forall|k: u32| self@.dom().contains(k) by {
                        if k < id {
                        }
                    }
                }
            }
            id = id + 1;
        }
        id
    }

    /// The smallest identifier that is not in use, or nothing where every
    /// identifier is taken.
    pub fn try_next_free_id(&self) -> (id: Option<u32>)
        ensures
            match id {
                Some(id) => is_next_free_id(self@.dom(), id),
                None => exhausted(self@.dom()),
            },
    {
        let mut id: u32 = 0;
        while id < u32::MAX
            invariant
                forall|k: u32| k < id ==> self@.dom().contains(k),
            decreases u32::MAX - id,
        {
            if !self.jobs.contains_key(&id) {
                return Some(id);
            }
            id = id + 1;
        }
        if !self.jobs.contains_key(&id) {
            return Some(id);
        }
        assert forall|k: u32| self@.dom().contains(k) by {
            if k < id {
            }
        }
        None
    }

    /// Stores a handle under `id` and returns the handle that was stored
    /// there before.
    pub fn insert(&mut self, id: u32, handle: H) -> (previous: Option<H>)
        ensures
            final(self)@ == old(self)@.insert(id, handle),
            previous == if old(self)@.contains_key(id) {
                Some(old(self)@[id])
            } else {
                None
            },
    {
        self.jobs.insert(id, handle)
    }

    /// The handle stored under `id`.
    pub fn get(&self, id: u32) -> (handle: Option<&H>)
        ensures
            handle == if self@.contains_key(id) {
                Some(&self@[id])
            } else {
                None
            },
    {
        self.jobs.get(&id)
    }

    /// Takes the job stored under `id` out of the registry. The job itself is
    /// not stopped.
    pub fn remove(&mut self, id: u32) -> (handle: Option<H>)
        ensures
            final(self)@ == old(self)@.remove(id),
            handle == if old(self)@.contains_key(id) {
                Some(old(self)@[id])
            } else {
                None
            },
    {
        self.jobs.remove(&id)
    }

    /// The identifiers in use, each once, in no particular order.
    pub fn ids(&self) -> (ids: Vec<u32>)
        ensures
            ids@.to_set() == self@.dom(),
            ids@.no_duplicates(),
            ids@.len() == self@.len(),
    {
        let mut out: Vec<u32> = Vec::new();
        for k in it: self.jobs.keys()
            invariant
                out@.len() == it.index(),
                forall|j: int| 0 <= j < out@.len() ==> out@[j] == *it.seq()[j],
        {
            out.push(*k);
        }
        proof {
            let all = vstd::std_specs::hash::spec_keys_iter(&self.jobs).remaining();
            assert(out@ =~= all.unref());
        }
        out
    }
}

/// Creates a job for the settings and stores it in the registry.
///
/// The job gets the smallest identifier that is not in use and a freshly
/// drawn token; it is idle and is not started. `share` turns the job into the
/// handle that the registry keeps. The identifier of the new job is returned.
pub fn create_job<P, H, F>(settings: RecorderSettings, registry: &mut JobRegistry<H>, share: F) -> (id:
    u32) where F: FnOnce(Job<P>) -> H
    requires
        !exhausted(old(registry)@.dom()),
        forall|job: Job<P>| share.requires((job,)),
    ensures
        is_next_free_id(old(registry)@.dom(), id),
        final(registry)@.contains_key(id),
        final(registry)@ == old(registry)@.insert(id, final(registry)@[id]),
        exists|job: Job<P>|
            {
                &&& job@ == JobView::<P>::fresh(id, job@.uid, settings)
                &&& is_uid(job@.uid)
                &&& share.ensures((job,), final(registry)@[id])
            },
{
    let id: u32 = registry.next_free_id();
    let job: Job<P> = Job::new(id, settings);
    let handle = share(job);
    registry.insert(id, handle);
    id
}

} // verus!
