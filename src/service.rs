use std::collections::BTreeMap;
use vstd::std_specs::btree::spec_keys_iter;
use vstd::std_specs::iter::IteratorSpec;
use vstd::prelude::*;

verus! {

#[verifier::external_type_specification]
#[verifier::external_body]
pub struct ExAbortHandle(futures::future::AbortHandle);

#[verifier::external_type_specification]
#[verifier::external_body]
pub struct ExAbortRegistration(futures::future::AbortRegistration);

/// Relies on futures' `AbortHandle::new_pair`: a fresh handle and the
/// registration that ties a future to it.
#[verifier::external_body]
fn new_abort_pair() -> (futures::future::AbortHandle, futures::future::AbortRegistration) {
    futures::future::AbortHandle::new_pair()
}

/// Relies on futures' `AbortHandle::abort`: the future registered with the
/// handle stops with `Aborted` the next time it is polled.
#[verifier::external_body]
fn abort(handle: &futures::future::AbortHandle) {
    handle.abort()
}

/// A command to the request service, processed strictly in arrival order.
/// `P` is what the caller attached to a new request (the request itself and
/// where its outcome goes).
pub enum RequestCommand<P> {
    NewRequest(P),
    /// The request `id` of reset generation `generation` has ended.
    RequestFinished { generation: u64, id: u64 },
    Reset,
}

/// What the owner of the service has to do after a command was processed.
pub enum CommandEffect<P> {
    /// Run the request `payload` under `registration`; when it ends, send
    /// `RequestFinished { generation, id }`.
    Spawn {
        generation: u64,
        id: u64,
        registration: futures::future::AbortRegistration,
        payload: P,
    },
    /// Nothing beyond the bookkeeping.
    Forgotten,
    /// Every request in `cancelled` was aborted: build a fresh HTTP client.
    ResetDone { cancelled: Vec<u64> },
}

/// The bookkeeping of the request-execution actor: the id counter and the
/// table of cancellable in-flight requests. A single owner mutates it, one
/// command at a time.
pub struct RequestService {
    next_id: u64,
    generation: u64,
    in_flight_requests: BTreeMap<u64, futures::future::AbortHandle>,
}

pub open spec fn next_id_after(id: u64) -> u64 {
    if id == u64::MAX {
        0
    } else {
        (id + 1) as u64
    }
}

impl RequestService {
    /// The id the next request gets.
    pub closed spec fn spec_next_id(&self) -> u64 {
        self.next_id
    }

    /// Counts the resets; a completion notice names the generation its
    /// request was started in.
    pub closed spec fn spec_generation(&self) -> u64 {
        self.generation
    }

    /// The ids of the requests that can be cancelled right now.
    pub closed spec fn in_flight(&self) -> Set<u64> {
        self.in_flight_requests@.dom()
    }

    /// Every recorded id was handed out since the last reset, so it lies
    /// below the counter (until the counter wraps).
    pub closed spec fn ids_below_counter(&self) -> bool {
        forall|k: u64| self.in_flight_requests@.contains_key(k) ==> k < self.next_id
    }

    /// Constructs a new request service with no request in flight.
    pub fn new() -> (r: RequestService)
        ensures
            r.spec_next_id() == 0,
            r.spec_generation() == 0,
            r.in_flight() == Set::<u64>::empty(),
            r.ids_below_counter(),
    {
        RequestService { next_id: 0, generation: 0, in_flight_requests: BTreeMap::new() }
    }

    /// Hands out the next id; the counter wraps at the largest `u64`.
    pub fn id(&mut self) -> (id: u64)
        ensures
            id == old(self).spec_next_id(),
            final(self).spec_next_id() == next_id_after(id),
            final(self).spec_generation() == old(self).spec_generation(),
            final(self).in_flight() == old(self).in_flight(),
            old(self).ids_below_counter() && id < u64::MAX ==> final(self).ids_below_counter(),
    {
        let id = self.next_id;
        self.next_id = id.wrapping_add(1);
        id
    }

    /// Starts bookkeeping for a new request: allocates its id and records its
    /// cancellation handle in the same step, so that a later reset reaches it.
    fn start_request(&mut self) -> (r: (u64, futures::future::AbortRegistration))
        ensures
            r.0 == old(self).spec_next_id(),
            old(self).ids_below_counter() ==> !old(self).in_flight().contains(r.0),
            final(self).spec_next_id() == next_id_after(r.0),
            final(self).spec_generation() == old(self).spec_generation(),
            final(self).in_flight() == old(self).in_flight().insert(r.0),
            old(self).ids_below_counter() && r.0 < u64::MAX ==> final(self).ids_below_counter(),
    {
        broadcast use vstd::std_specs::btree::group_btree_axioms;
        let id = self.id();
        let (abort_handle, registration) = new_abort_pair();
        self.in_flight_requests.insert(id, abort_handle);
        (id, registration)
    }

    /// Aborts every request in flight, empties the table, restarts the id
    /// counter and starts a new generation, so that completion notices of the
    /// aborted requests are ignored. Returns the ids of the requests that were
    /// aborted.
    pub fn reset(&mut self) -> (cancelled: Vec<u64>)
        ensures
            cancelled@.to_set() == old(self).in_flight(),
            cancelled@.no_duplicates(),
            final(self).in_flight() == Set::<u64>::empty(),
            final(self).spec_next_id() == 0,
            final(self).spec_generation() == next_id_after(old(self).spec_generation()),
            final(self).spec_generation() != old(self).spec_generation(),
            final(self).ids_below_counter(),
    {
        broadcast use vstd::std_specs::btree::group_btree_axioms;
        let mut cancelled: Vec<u64> = Vec::new();
        let ghost keys = spec_keys_iter(&self.in_flight_requests).remaining();
        for id in iter: self.in_flight_requests.keys()
            invariant
                cancelled.len() == iter.index(),
                forall|i: int| 0 <= i < iter.index() ==> cancelled@[i] == *iter.seq()[i],
        {
            cancelled.push(*id);
        }
        assert(cancelled@ =~= keys.unref());
        for abort_handle in self.in_flight_requests.values() {
            abort(abort_handle);
        }
        self.in_flight_requests.clear();
        self.next_id = 0;
        self.generation = self.generation.wrapping_add(1);
        cancelled
    }

    /// Removes `id` from the table when the notice is of the current
    /// generation. A notice of an earlier generation is about a request that
    /// a reset already dropped: it changes nothing.
    pub fn request_finished(&mut self, generation: u64, id: u64)
        ensures
            generation == old(self).spec_generation() ==> final(self).in_flight() == old(
                self,
            ).in_flight().remove(id),
            generation != old(self).spec_generation() ==> final(self).in_flight() == old(
                self,
            ).in_flight(),
            final(self).spec_next_id() == old(self).spec_next_id(),
            final(self).spec_generation() == old(self).spec_generation(),
            old(self).ids_below_counter() ==> final(self).ids_below_counter(),
    {
        broadcast use vstd::std_specs::btree::group_btree_axioms;
        if generation == self.generation {
            self.in_flight_requests.remove(&id);
        }
    }

    /// Processes one command.
    /// - `NewRequest` allocates the next id and records the request as
    ///   cancellable before this returns; the owner then runs it.
    /// - `RequestFinished { generation, id }` forgets `id`, unless a reset
    ///   came in between.
    /// - `Reset` aborts everything in flight and restarts the counter.
    pub fn process_command<P>(&mut self, command: RequestCommand<P>) -> (effect: CommandEffect<P>)
        ensures
            match command {
                RequestCommand::NewRequest(payload) => match effect {
                    CommandEffect::Spawn { generation, id, registration: _, payload: p } => {
                        &&& p == payload
                        &&& generation == old(self).spec_generation()
                        &&& final(self).spec_generation() == old(self).spec_generation()
                        &&& id == old(self).spec_next_id()
                        &&& old(self).ids_below_counter() ==> !old(self).in_flight().contains(id)
                        &&& final(self).spec_next_id() == next_id_after(id)
                        &&& final(self).in_flight() == old(self).in_flight().insert(id)
                        &&& old(self).ids_below_counter() && id < u64::MAX
                            ==> final(self).ids_below_counter()
                    },
                    _ => false,
                },
                RequestCommand::RequestFinished { generation, id } => {
                    &&& effect is Forgotten
                    &&& generation == old(self).spec_generation() ==> final(self).in_flight() == old(
                        self,
                    ).in_flight().remove(id)
                    &&& generation != old(self).spec_generation() ==> final(self).in_flight()
                        == old(self).in_flight()
                    &&& final(self).spec_next_id() == old(self).spec_next_id()
                    &&& final(self).spec_generation() == old(self).spec_generation()
                    &&& old(self).ids_below_counter() ==> final(self).ids_below_counter()
                },
                RequestCommand::Reset => match effect {
                    CommandEffect::ResetDone { cancelled } => {
                        &&& cancelled@.to_set() == old(self).in_flight()
                        &&& cancelled@.no_duplicates()
                        &&& final(self).in_flight() == Set::<u64>::empty()
                        &&& final(self).spec_next_id() == 0
                        &&& final(self).spec_generation() == next_id_after(
                            old(self).spec_generation(),
                        )
                        &&& final(self).ids_below_counter()
                    },
                    _ => false,
                },
            },
    {
        match command {
            RequestCommand::NewRequest(payload) => {
                let generation = self.generation;
                let (id, registration) = self.start_request();
                CommandEffect::Spawn { generation, id, registration, payload }
            },
            RequestCommand::RequestFinished { generation, id } => {
                self.request_finished(generation, id);
                CommandEffect::Forgotten
            },
            RequestCommand::Reset => {
                let cancelled = self.reset();
                CommandEffect::ResetDone { cancelled }
            },
        }
    }

    /// Whether `id` is a request that can still be cancelled.
    pub fn is_in_flight(&self, id: u64) -> (r: bool)
        ensures
            r == self.in_flight().contains(id),
    {
        broadcast use vstd::std_specs::btree::group_btree_axioms;
        self.in_flight_requests.contains_key(&id)
    }

    /// Number of requests that can still be cancelled.
    pub fn in_flight_count(&self) -> (r: usize)
        ensures
            r == self.in_flight().len(),
    {
        broadcast use vstd::std_specs::btree::group_btree_axioms;
        self.in_flight_requests.len()
    }
}

/// Ids are handed out in strictly increasing order until the counter wraps
/// or a reset restarts it; while every recorded id lies below the counter, a
/// new id is never one that is still in flight.
pub proof fn lemma_ids_fresh(s: RequestService)
    requires
        s.ids_below_counter(),
    ensures
        s.spec_next_id() < u64::MAX ==> next_id_after(s.spec_next_id()) > s.spec_next_id(),
        !s.in_flight().contains(s.spec_next_id()),
{
}

/// A reset starts a new generation, so a completion notice of a request
/// started before it never changes the table afterwards, even where a new
/// request got the same id.
pub proof fn lemma_completion_after_reset(before: RequestService, after: RequestService)
    requires
        after.spec_generation() == next_id_after(before.spec_generation()),
    ensures
        before.spec_generation() != after.spec_generation(),
{
}

} // verus!
