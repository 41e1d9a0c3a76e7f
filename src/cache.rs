//! The per-worker instance cache, keyed by function identity, and the steps
//! of a single-flight cold start.
//!
//! The cache itself is not synchronized: its owner keeps it behind a
//! read/write lock, looks an instance up under the read lock, and runs the
//! write phase (`needs_initialization`, then `complete` with what the
//! backend's initialization returned) under the write lock.
use std::collections::HashMap;
use std::sync::Arc;

use vstd::prelude::*;

verus! {

broadcast use vstd::std_specs::hash::group_hash_axioms;

/// The entry was gone between installing it and fetching it.
#[derive(Debug, Clone, Copy, PartialEq, Eq, Structural)]
pub enum CacheError {
    RaceError,
}

pub struct InstanceCache<B> {
    entries: HashMap<u128, Arc<B>>,
}

/// Relies on `Clone for Arc`: the copy refers to the same instance.
#[verifier::external_body]
fn share<B>(a: &Arc<B>) -> (r: Arc<B>)
    ensures
        r == *a,
{
    Arc::clone(a)
}

/// The write phase of a cold start for `id`: when no instance is installed,
/// the backend initializes one (`outcome`, `None` when that failed) and a
/// success is installed; an installed instance is kept as it is.
pub open spec fn write_phase<B>(m: Map<u128, Arc<B>>, id: u128, outcome: Option<Arc<B>>) -> Map<u128, Arc<B>> {
    if m.contains_key(id) {
        m
    } else {
        match outcome {
            Some(b) => m.insert(id, b),
            None => m,
        }
    }
}

/// How many initializations run in a sequence of write phases for `id`.
pub open spec fn initializations<B>(m: Map<u128, Arc<B>>, id: u128, outcomes: Seq<Option<Arc<B>>>) -> nat
    decreases outcomes.len(),
{
    if outcomes.len() == 0 {
        0
    } else {
        (if m.contains_key(id) { 0nat } else { 1nat }) + initializations(
            write_phase(m, id, outcomes[0]),
            id,
            outcomes.drop_first(),
        )
    }
}

/// How many of those initializations succeed.
pub open spec fn successful_initializations<B>(m: Map<u128, Arc<B>>, id: u128, outcomes: Seq<Option<Arc<B>>>) -> nat
    decreases outcomes.len(),
{
    if outcomes.len() == 0 {
        0
    } else {
        (if !m.contains_key(id) && outcomes[0] is Some { 1nat } else { 0nat }) + successful_initializations(
            write_phase(m, id, outcomes[0]),
            id,
            outcomes.drop_first(),
        )
    }
}

/// The cache after a sequence of write phases, each for its own identity.
pub open spec fn after_write_phases<B>(m: Map<u128, Arc<B>>, ops: Seq<(u128, Option<Arc<B>>)>) -> Map<u128, Arc<B>>
    decreases ops.len(),
{
    if ops.len() == 0 {
        m
    } else {
        after_write_phases(write_phase(m, ops[0].0, ops[0].1), ops.drop_first())
    }
}

impl<B> View for InstanceCache<B> {
    type V = Map<u128, Arc<B>>;

    closed spec fn view(&self) -> Map<u128, Arc<B>> {
        self.entries@
    }
}

impl<B> InstanceCache<B> {
    pub fn new() -> (r: InstanceCache<B>)
        ensures
            r@ == Map::<u128, Arc<B>>::empty(),
    {
        InstanceCache { entries: HashMap::new() }
    }

    /// The instance installed for `id`, if there is one.
    pub fn lookup(&self, id: u128) -> (r: Option<Arc<B>>)
        ensures
            r is Some <==> self@.contains_key(id),
            r is Some ==> r->0 == self@[id],
    {
        match self.entries.get(&id) {
            Some(a) => Some(share(a)),
            None => None,
        }
    }

    /// Whether the write phase for `id` has to initialize an instance: the
    /// check made again under the write lock.
    pub fn needs_initialization(&self, id: u128) -> (r: bool)
        ensures
            r == !self@.contains_key(id),
    {
        !self.entries.contains_key(&id)
    }

    /// Ends the write phase for `id` with what the backend's initialization
    /// returned: a new instance is installed unless one already is, and a
    /// failure leaves the cache as it was.
    pub fn complete<E>(&mut self, id: u128, outcome: Result<Arc<B>, E>) -> (r: Result<Arc<B>, E>)
        ensures
            final(self)@ == write_phase(old(self)@, id, match outcome {
                Ok(b) => Some(b),
                Err(_) => None,
            }),
            match outcome {
                Ok(_) => r is Ok && final(self)@.contains_key(id) && r->Ok_0 == final(self)@[id],
                Err(e) => r == Err::<Arc<B>, E>(e),
            },
    {
        match outcome {
            Ok(b) => {
                if !self.entries.contains_key(&id) {
                    self.entries.insert(id, b);
                }
                let a = self.entries.get(&id).unwrap();
                Ok(share(a))
            },
            Err(e) => Err(e),
        }
    }

    /// The write phase for `id`, run under the write lock: the check made
    /// again, and `initialize` called only when no instance is installed.
    pub fn initialize_if_missing<E, F>(&mut self, id: u128, initialize: F) -> (r: Result<Arc<B>, E>)
        where
            F: FnOnce() -> Result<Arc<B>, E>,
        requires
            initialize.requires(()),
        ensures
            old(self)@.contains_key(id) ==> final(self)@ == old(self)@ && r == Ok::<Arc<B>, E>(old(self)@[id]),
            !old(self)@.contains_key(id) ==> {
                &&& initialize.ensures((), r)
                &&& r is Ok ==> final(self)@ == old(self)@.insert(id, r->Ok_0)
                &&& r is Err ==> final(self)@ == old(self)@
            },
    {
        match self.lookup(id) {
            Some(a) => Ok(a),
            None => {
                let outcome = initialize();
                match outcome {
                    Ok(b) => {
                        let ghost installed = b;
                        let r = self.complete::<E>(id, Ok(b));
                        proof {
                            assert(r == Ok::<Arc<B>, E>(installed));
                        }
                        r
                    },
                    Err(e) => Err(e),
                }
            },
        }
    }

    /// The instance for `id` after its write phase, or `RaceError` if none is
    /// installed.
    pub fn fetch(&self, id: u128) -> (r: Result<Arc<B>, CacheError>)
        ensures
            r is Ok <==> self@.contains_key(id),
            r is Ok ==> r->Ok_0 == self@[id],
            r is Err ==> r == Err::<Arc<B>, CacheError>(CacheError::RaceError),
    {
        match self.lookup(id) {
            Some(a) => Ok(a),
            None => Err(CacheError::RaceError),
        }
    }

    /// The number of installed instances.
    pub fn len(&self) -> (r: usize)
        ensures
            r == self@.len(),
    {
        self.entries.len()
    }
}

/// Single flight: however many write phases for one identity run one after
/// another, at most one initialization succeeds, and none runs once an
/// instance is installed.
pub proof fn lemma_single_flight<B>(m: Map<u128, Arc<B>>, id: u128, outcomes: Seq<Option<Arc<B>>>)
    ensures
        successful_initializations(m, id, outcomes) <= 1,
        m.contains_key(id) ==> initializations(m, id, outcomes) == 0,
        m.contains_key(id) ==> successful_initializations(m, id, outcomes) == 0,
    decreases outcomes.len(),
{
    if outcomes.len() > 0 {
        let next = write_phase(m, id, outcomes[0]);
        lemma_single_flight(next, id, outcomes.drop_first());
    }
}

/// Instance reuse: once an instance is installed for an identity, any later
/// write phases, for any identities, leave that same instance in place.
pub proof fn lemma_instance_reuse<B>(m: Map<u128, Arc<B>>, id: u128, ops: Seq<(u128, Option<Arc<B>>)>)
    requires
        m.contains_key(id),
    ensures
        after_write_phases(m, ops).contains_key(id),
        after_write_phases(m, ops)[id] == m[id],
    decreases ops.len(),
{
    if ops.len() > 0 {
        let next = write_phase(m, ops[0].0, ops[0].1);
        assert(next.contains_key(id) && next[id] == m[id]);
        lemma_instance_reuse(next, id, ops.drop_first());
    }
}

} // verus!
