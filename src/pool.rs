//! The worker pool: a map from worker key to the profile of a live worker,
//! and the decisions that the pool controller takes on its control messages.

use vstd::prelude::*;
use std::collections::HashMap;
use crate::external::new_v4_uuid;
use crate::keys::key_input;

verus! {

broadcast use vstd::std_specs::hash::group_hash_axioms;

/// The addressable endpoint of one worker: the sender half of its inbox.
pub struct WorkerProfile<I> {
    pub worker_request_msg_tx: I,
}

/// What a fresh creation task is handed: the worker's key, the string that
/// the key was hashed from, and a fresh execution id (a version 4 UUID).
#[derive(Debug)]
pub struct UserWorkerStart {
    pub key: u64,
    pub service_path: String,
    pub execution_id: u128,
}

/// The answer to a create request.
#[derive(Debug)]
pub enum CreatePlan {
    /// A worker with this key already exists: reply with the key at once.
    Existing(u64),
    /// Start a worker; once it is addressable it is added under its key.
    Start(UserWorkerStart),
}

/// Why a request could not be routed to a worker.
#[derive(PartialEq, Eq, Structural, Clone, Copy, Debug)]
pub enum PoolError {
    WorkerNotAvailable,
}

impl PoolError {
    /// The text that is logged and handed back for this error.
    pub fn message(&self) -> (r: String)
        ensures
            r@ == pool_error_text(*self),
    {
        proof {
            reveal_strlit("user worker not available");
        }
        match self {
            PoolError::WorkerNotAvailable => String::from_str("user worker not available"),
        }
    }
}

pub open spec fn pool_error_text(e: PoolError) -> Seq<char> {
    match e {
        PoolError::WorkerNotAvailable => "user worker not available"@,
    }
}

/// A change to the pool map, in the order the controller applies them.
pub enum PoolEvent<I> {
    /// A creation task reports that the worker under the key is addressable.
    Created(u64, I),
    /// The worker under the key is shut down.
    Shutdown(u64),
}

/// Whether a create request is answered from the pool without a new worker.
pub open spec fn create_hits<I>(m: Map<u64, WorkerProfile<I>>, key: u64, force_create: bool) -> bool {
    !force_create && m.contains_key(key)
}

/// The pool map after a worker reports itself created. The first worker
/// added under a key wins: a later one is not stored and exits once its
/// inbox sender is dropped.
pub open spec fn after_created<I>(m: Map<u64, WorkerProfile<I>>, key: u64, tx: I) -> Map<u64, WorkerProfile<I>> {
    if m.contains_key(key) {
        m
    } else {
        m.insert(key, WorkerProfile { worker_request_msg_tx: tx })
    }
}

pub open spec fn apply_event<I>(m: Map<u64, WorkerProfile<I>>, e: PoolEvent<I>) -> Map<u64, WorkerProfile<I>> {
    match e {
        PoolEvent::Created(key, tx) => after_created(m, key, tx),
        PoolEvent::Shutdown(key) => m.remove(key),
    }
}

pub open spec fn apply_events<I>(m: Map<u64, WorkerProfile<I>>, es: Seq<PoolEvent<I>>) -> Map<u64, WorkerProfile<I>>
    decreases es.len(),
{
    if es.len() == 0 {
        m
    } else {
        apply_event(apply_events(m, es.drop_last()), es.last())
    }
}

/// The pool of user workers, keyed by worker key. It is owned by one task,
/// which applies the control messages one at a time.
pub struct WorkerPool<I> {
    pub user_workers: HashMap<u64, WorkerProfile<I>>,
}

impl<I> WorkerPool<I> {
    /// The live workers: at most one profile for each key.
    pub open spec fn profiles(&self) -> Map<u64, WorkerProfile<I>> {
        self.user_workers@
    }

    pub fn new() -> (r: Self)
        ensures
            r.profiles() == Map::<u64, WorkerProfile<I>>::empty(),
    {
        WorkerPool { user_workers: HashMap::new() }
    }

    /// Whether a create request for `key` is answered by a live worker.
    pub fn worker_already_exists(&self, key: u64, force_create: bool) -> (r: bool)
        ensures
            r == create_hits(self.profiles(), key, force_create),
    {
        !force_create && self.user_workers.contains_key(&key)
    }

    /// Decides a create request for the worker whose key is `key`, hashed from
    /// `key_input`. Unless creation is forced, a live worker is reused;
    /// otherwise a creation task is to be started with a fresh execution id.
    pub fn create_user_worker(&self, key: u64, key_input: String, force_create: bool) -> (r: CreatePlan)
        ensures
            create_hits(self.profiles(), key, force_create) ==> r == CreatePlan::Existing(key),
            !create_hits(self.profiles(), key, force_create) ==> match r {
                CreatePlan::Start(s) => {
                    &&& s.key == key
                    &&& s.service_path@ == key_input@
                    &&& (s.execution_id >> 76u128) & 0xfu128 == 4
                    &&& (s.execution_id >> 62u128) & 0x3u128 == 2
                },
                CreatePlan::Existing(_) => false,
            },
    {
        if self.worker_already_exists(key, force_create) {
            return CreatePlan::Existing(key);
        }
        let execution_id = new_v4_uuid();
        CreatePlan::Start(UserWorkerStart { key, service_path: key_input, execution_id })
    }

    /// Adds a worker that reports itself created. Where a worker is already
    /// live under the key, the pool keeps it and hands the new inbox sender
    /// back, to be dropped.
    pub fn add_user_worker(&mut self, key: u64, worker_request_msg_tx: I) -> (r: Option<I>)
        ensures
            final(self).profiles() == after_created(old(self).profiles(), key, worker_request_msg_tx),
            r == (if old(self).profiles().contains_key(key) {
                Some(worker_request_msg_tx)
            } else {
                None
            }),
    {
        if self.user_workers.contains_key(&key) {
            return Some(worker_request_msg_tx);
        }
        self.user_workers.insert(key, WorkerProfile { worker_request_msg_tx });
        None
    }

    /// Finds the worker that a request for `key` is forwarded to.
    pub fn send_request(&self, key: u64) -> (r: Result<&WorkerProfile<I>, PoolError>)
        ensures
            match r {
                Ok(p) => self.profiles().contains_key(key) && *p == self.profiles()[key],
                Err(e) => !self.profiles().contains_key(key) && e == PoolError::WorkerNotAvailable,
            },
    {
        match self.user_workers.get(&key) {
            Some(p) => Ok(p),
            None => Err(PoolError::WorkerNotAvailable),
        }
    }

    /// Drops the profile under `key`; the worker exits once its inbox sender
    /// is gone.
    pub fn shutdown(&mut self, key: u64)
        ensures
            final(self).profiles() == old(self).profiles().remove(key),
    {
        self.user_workers.remove(&key);
    }

    /// Applies one change to the pool map. A worker that was not stored has
    /// its inbox sender handed back.
    pub fn apply(&mut self, event: PoolEvent<I>) -> (r: Option<I>)
        ensures
            final(self).profiles() == apply_event(old(self).profiles(), event),
            r == (match event {
                PoolEvent::Created(key, tx) => if old(self).profiles().contains_key(key) {
                    Some(tx)
                } else {
                    None
                },
                PoolEvent::Shutdown(_) => None,
            }),
    {
        match event {
            PoolEvent::Created(key, tx) => self.add_user_worker(key, tx),
            PoolEvent::Shutdown(key) => {
                self.shutdown(key);
                None
            },
        }
    }
}

/// The key that an event is about.
pub open spec fn event_key<I>(e: PoolEvent<I>) -> u64 {
    match e {
        PoolEvent::Created(key, _) => key,
        PoolEvent::Shutdown(key) => key,
    }
}

/// A profile is never replaced: whatever workers report themselves created
/// under any key, the profile under a live key stays the one first stored
/// until that key is shut down.
pub proof fn lemma_profile_stable_until_shutdown<I>(m: Map<u64, WorkerProfile<I>>, k: u64, es: Seq<PoolEvent<I>>)
    requires
        m.contains_key(k),
        forall|i: int| 0 <= i < es.len() ==> #[trigger] es[i] != PoolEvent::<I>::Shutdown(k),
    ensures
        apply_events(m, es).contains_key(k),
        apply_events(m, es)[k] == m[k],
    decreases es.len(),
{
    if es.len() > 0 {
        let init = es.drop_last();
        assert forall|i: int| 0 <= i < init.len() implies #[trigger] init[i] != PoolEvent::<I>::Shutdown(k) by {
            assert(init[i] == es[i]);
        }
        lemma_profile_stable_until_shutdown(m, k, init);
        assert(es[es.len() - 1] != PoolEvent::<I>::Shutdown(k));
    }
}

/// Two requests for one key, routed with any control messages between them
/// but no shutdown of that key, reach the same worker inbox; the inbox then
/// delivers them in the order they were forwarded.
pub proof fn lemma_requests_reach_same_inbox<I>(m: Map<u64, WorkerProfile<I>>, k: u64, es: Seq<PoolEvent<I>>)
    requires
        m.contains_key(k),
        forall|i: int| 0 <= i < es.len() ==> #[trigger] es[i] != PoolEvent::<I>::Shutdown(k),
    ensures
        apply_events(m, es).contains_key(k),
        apply_events(m, es)[k].worker_request_msg_tx == m[k].worker_request_msg_tx,
{
    lemma_profile_stable_until_shutdown(m, k, es);
}

/// After a shutdown of a key, no request for it finds a worker until a
/// worker reports itself created under that key.
pub proof fn lemma_shutdown_terminal<I>(m: Map<u64, WorkerProfile<I>>, k: u64, es: Seq<PoolEvent<I>>)
    requires
        forall|i: int| 0 <= i < es.len() ==> !(#[trigger] es[i] is Created && event_key(es[i]) == k),
    ensures
        !apply_events(m.remove(k), es).contains_key(k),
    decreases es.len(),
{
    if es.len() > 0 {
        let init = es.drop_last();
        assert forall|i: int| 0 <= i < init.len() implies !(#[trigger] init[i] is Created && event_key(init[i]) == k) by {
            assert(init[i] == es[i]);
        }
        lemma_shutdown_terminal(m, k, init);
        assert(!(es[es.len() - 1] is Created && event_key(es[es.len() - 1]) == k));
    }
}

/// Creating a worker for a path twice without forcing hashes the same
/// string both times, and once the first worker is added the second create
/// is answered from the pool, so exactly one worker is started.
pub proof fn lemma_create_idempotent<I>(m: Map<u64, WorkerProfile<I>>, path: Seq<char>, t1: u64, t2: u64, key: u64, tx: I)
    ensures
        key_input(path, false, t1) == key_input(path, false, t2),
        create_hits(after_created(m, key, tx), key, false),
        after_created(after_created(m, key, tx), key, tx) == after_created(m, key, tx),
{
}

} // verus!
