//! Choosing the model that serves a request, and bounding the number of queued requests.
use crate::inference::InferenceError;
use crate::models::manager::{is_not_found, ModelManager};
use vstd::prelude::*;

verus! {

/// How requests are spread over models.
#[derive(Debug, Clone, Copy, PartialEq, Eq, Structural)]
pub enum RoutingStrategy {
    RoundRobin,
    LeastLoaded,
    CapabilityBased,
}

/// Sends each request to a loaded model.
pub struct Scheduler {
    routing_strategy: RoutingStrategy,
}

/// The model a request naming `requested` goes to: that model when it is loaded, else the
/// default model (loaded or not); with neither, the request cannot be placed.
pub open spec fn selected_model(loaded: Set<Seq<char>>, default_id: Option<Seq<char>>, requested: Seq<char>) -> Option<Seq<char>> {
    if loaded.contains(requested) {
        Some(requested)
    } else {
        default_id
    }
}

impl Scheduler {
    /// The routing strategy in force.
    pub closed spec fn strategy(&self) -> RoutingStrategy {
        self.routing_strategy
    }

    /// A scheduler that routes to the least loaded model.
    pub fn new() -> (r: Self)
        ensures
            r.strategy() == RoutingStrategy::LeastLoaded,
    {
        Scheduler { routing_strategy: RoutingStrategy::LeastLoaded }
    }

    /// Changes the routing strategy.
    pub fn set_routing_strategy(&mut self, strategy: RoutingStrategy)
        ensures
            final(self).strategy() == strategy,
    {
        self.routing_strategy = strategy;
    }

    /// Chooses the model for a request naming `requested`: that model when it is loaded,
    /// else the default model; with neither, no suitable model is found.
    pub fn select_model(&self, manager: &ModelManager, requested: &str) -> (r: Result<String, InferenceError>)
        requires
            manager.wf(),
        ensures
            match selected_model(manager.configs().dom(), manager.default_id(), requested@) {
                Some(m) => r matches Ok(s) && s@ == m,
                None => r matches Err(e) && is_not_found(e, "No suitable model found for request"@),
            },
    {
        if manager.is_model_loaded(requested) {
            return Ok(String::from_str(requested));
        }
        match manager.get_default_model() {
            Some(model_id) => Ok(model_id),
            None => Err(InferenceError::ModelNotFound(String::from_str("No suitable model found for request"))),
        }
    }

    /// Places a request naming `requested`: the chosen model, which must be loaded to serve
    /// it. A request is only ever placed on a loaded model.
    pub fn schedule_inference(&self, manager: &ModelManager, requested: &str) -> (r: Result<String, InferenceError>)
        requires
            manager.wf(),
        ensures
            match selected_model(manager.configs().dom(), manager.default_id(), requested@) {
                Some(m) => if manager.configs().contains_key(m) {
                    r matches Ok(s) && s@ == m
                } else {
                    r matches Err(e) && is_not_found(e, m)
                },
                None => r matches Err(e) && is_not_found(e, "No suitable model found for request"@),
            },
            r matches Ok(s) ==> manager.configs().contains_key(s@),
    {
        let model_id = self.select_model(manager, requested)?;
        manager.inference_target(model_id.as_str())
    }
}

/// The queue length after one more request is counted, wrapping at the largest `usize`.
pub open spec fn count_after_enqueue(n: usize) -> usize {
    if n == usize::MAX { 0 } else { (n + 1) as usize }
}

/// The queue length after one request leaves, wrapping below zero.
pub open spec fn count_after_dequeue(n: usize) -> usize {
    if n == 0 { usize::MAX } else { (n - 1) as usize }
}

/// Counts queued requests against a limit.
pub struct QueueManager {
    max_queue_size: usize,
    current_queue_size: usize,
}

impl QueueManager {
    /// The limit on queued requests.
    pub closed spec fn limit(&self) -> usize {
        self.max_queue_size
    }

    /// The number of requests counted as queued.
    pub closed spec fn queued(&self) -> usize {
        self.current_queue_size
    }

    /// An empty queue with the given limit.
    pub fn new(max_queue_size: usize) -> (r: Self)
        ensures
            r.limit() == max_queue_size,
            r.queued() == 0,
    {
        QueueManager { max_queue_size, current_queue_size: 0 }
    }

    /// Counts one more request and tells whether it fits: it does when fewer than the limit
    /// were queued before. The request is counted either way.
    pub fn try_enqueue(&mut self) -> (r: bool)
        ensures
            r == (old(self).queued() < old(self).limit()),
            final(self).queued() == count_after_enqueue(old(self).queued()),
            final(self).limit() == old(self).limit(),
    {
        let current = self.current_queue_size;
        self.current_queue_size = if current == usize::MAX { 0 } else { current + 1 };
        current < self.max_queue_size
    }

    /// Counts one request as gone.
    pub fn dequeue(&mut self)
        ensures
            final(self).queued() == count_after_dequeue(old(self).queued()),
            final(self).limit() == old(self).limit(),
    {
        let current = self.current_queue_size;
        self.current_queue_size = if current == 0 { usize::MAX } else { current - 1 };
    }
}

/// Counting a request in and then out leaves the count where it was.
pub proof fn lemma_enqueue_then_dequeue(n: usize)
    ensures
        count_after_dequeue(count_after_enqueue(n)) == n,
{
}

/// Counting a request out and then in leaves the count where it was.
pub proof fn lemma_dequeue_then_enqueue(n: usize)
    ensures
        count_after_enqueue(count_after_dequeue(n)) == n,
{
}

/// The queue length after `k` more requests are counted, starting from `n`.
pub open spec fn count_after_enqueues(n: usize, k: nat) -> usize
    decreases k,
{
    if k == 0 { n } else { count_after_enqueue(count_after_enqueues(n, (k - 1) as nat)) }
}

/// How many of `k` successive `try_enqueue` calls, starting from a count of `n`, are
/// accepted under `limit`: call `i` is accepted when it finds fewer than `limit` counted.
pub open spec fn accepted_enqueues(n: usize, limit: usize, k: nat) -> nat
    decreases k,
{
    if k == 0 {
        0
    } else {
        accepted_enqueues(n, limit, (k - 1) as nat) + if count_after_enqueues(n, (k - 1) as nat) < limit { 1nat } else { 0nat }
    }
}

/// Starting from an empty queue with limit `limit`, `k` calls of `try_enqueue` (and no
/// `dequeue`) count `k` requests, and exactly the first `min(k, limit)` of them are
/// accepted: no two calls find the same count.
pub proof fn law_enqueues_accept_up_to_limit(limit: usize, k: nat)
    requires
        k <= usize::MAX,
    ensures
        count_after_enqueues(0, k) == k,
        accepted_enqueues(0, limit, k) == if k < limit { k } else { limit as nat },
        forall|i: nat| i < k ==> (#[trigger] count_after_enqueues(0, i) < limit <==> i < limit),
    decreases k,
{
    if k > 0 {
        law_enqueues_accept_up_to_limit(limit, (k - 1) as nat);
    }
}

/// A request for a model that is not loaded goes to the default model, whichever it is.
pub proof fn law_default_serves_other_requests(loaded: Set<Seq<char>>, default_id: Seq<char>, requested: Seq<char>)
    requires
        !loaded.contains(requested),
    ensures
        selected_model(loaded, Some(default_id), requested) == Some(default_id),
{
}

/// A request for a loaded model goes to that model, whatever the default.
pub proof fn law_loaded_model_serves_itself(loaded: Set<Seq<char>>, default_id: Option<Seq<char>>, requested: Seq<char>)
    requires
        loaded.contains(requested),
    ensures
        selected_model(loaded, default_id, requested) == Some(requested),
{
}

} // verus!
