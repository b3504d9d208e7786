//! The watcher core: the filter chain and event queue of one watcher
//! instance, with the producer-side event handling and the consumer-side
//! poll. A source-level error moves the watcher into a terminal failed
//! state instead of aborting the host.

use vstd::prelude::*;

use crate::filter::{chain_accepts, FilterChain, FilterError, glob_valid};
use crate::queue::{queue_rest, EventQueue};
use crate::taxonomy::{classified, classify, NormalizedEvent, RawEvent, RawEventModel};

verus! {

/// The mathematical model of a watcher: its installed filter patterns in
/// order, its buffered events in arrival order, and its failure state.
#[verifier::ext_equal]
pub struct WatcherModel {
    pub filters: Seq<Seq<char>>,
    pub queue: Seq<RawEventModel>,
    pub failure: Option<Seq<char>>,
}

/// Whether the watcher delivers a raw event into its queue: it has not
/// failed and the filter chain accepts every path of the event.
pub open spec fn delivers(w: WatcherModel, e: RawEventModel) -> bool {
    w.failure is None && chain_accepts(w.filters, e.paths)
}

/// The watcher after the producer hands it a raw event: the event is
/// appended iff it is delivered, and nothing else changes.
pub open spec fn after_event(w: WatcherModel, e: RawEventModel) -> WatcherModel {
    if delivers(w, e) {
        WatcherModel { queue: w.queue.push(e), ..w }
    } else {
        w
    }
}

/// One watcher instance: an empty filter chain and an empty queue at
/// construction, owned for the watcher's whole lifetime.
pub struct Watcher {
    chain: FilterChain,
    queue: EventQueue,
    failure: Option<String>,
}

impl View for Watcher {
    type V = WatcherModel;

    closed spec fn view(&self) -> WatcherModel {
        WatcherModel {
            filters: self.chain@,
            queue: self.queue@,
            failure: self.failure.deep_view(),
        }
    }
}

impl Watcher {
    /// A fresh watcher: no filters, no buffered events, no failure.
    pub fn new() -> (r: Self)
        ensures
            r@.filters == Seq::<Seq<char>>::empty(),
            r@.queue == Seq::<RawEventModel>::empty(),
            r@.failure is None,
    {
        Watcher { chain: FilterChain::new(), queue: EventQueue::new(), failure: None }
    }

    /// Compiles a glob filter specification and appends it to the chain;
    /// an invalid pattern is reported and the watcher is left unchanged.
    pub fn filter_by_glob(&mut self, pattern: String) -> (r: Result<(), FilterError>)
        ensures
            final(self)@.queue == old(self)@.queue,
            final(self)@.failure == old(self)@.failure,
            glob_valid(pattern@) ==> r is Ok && final(self)@.filters == old(
                self,
            )@.filters.push(pattern@),
            !glob_valid(pattern@) ==> r is Err && final(self)@.filters == old(self)@.filters,
    {
        self.chain.install(pattern)
    }

    /// The producer path: screens a raw event through the filter chain
    /// and buffers it when every filter accepts it. Returns whether the
    /// event was enqueued. A failed watcher drops every event.
    pub fn on_event(&mut self, e: RawEvent) -> (enqueued: bool)
        ensures
            enqueued == delivers(old(self)@, e@),
            final(self)@ == after_event(old(self)@, e@),
    {
        if self.failure.is_some() {
            return false;
        }
        if self.chain.accepts(&e) {
            self.queue.enqueue(e);
            proof {
                assert(self@ =~= after_event(old(self)@, e@));
            }
            true
        } else {
            false
        }
    }

    /// The source reported an error: the watcher becomes permanently
    /// non-functional, keeping the first reason it was given.
    pub fn on_source_error(&mut self, reason: String)
        ensures
            final(self)@.filters == old(self)@.filters,
            final(self)@.queue == old(self)@.queue,
            old(self)@.failure is None ==> final(self)@.failure == Some(reason@),
            old(self)@.failure is Some ==> final(self)@.failure == old(self)@.failure,
    {
        if self.failure.is_none() {
            self.failure = Some(reason);
        }
    }

    /// Why the watcher failed, when it has.
    pub fn failure_message(&self) -> (r: &Option<String>)
        ensures
            r.deep_view() == self@.failure,
    {
        &self.failure
    }

    /// The consumer path: pops the oldest buffered event, classifies it,
    /// and returns the normalized record. An empty queue, like a failed
    /// watcher, reports `None` at once without blocking.
    pub fn poll(&mut self) -> (r: Option<NormalizedEvent>)
        ensures
            final(self)@.filters == old(self)@.filters,
            final(self)@.failure == old(self)@.failure,
            old(self)@.failure is Some ==> r is None && final(self)@.queue == old(self)@.queue,
            old(self)@.failure is None ==> final(self)@.queue == queue_rest(old(self)@.queue),
            old(self)@.failure is None ==> (r is Some <==> old(self)@.queue.len() > 0),
            old(self)@.failure is None ==> (r matches Some(n) ==> n@ == classified(
                old(self)@.queue[0],
            )),
    {
        if self.failure.is_some() {
            return None;
        }
        match self.queue.dequeue() {
            Some(e) => Some(classify(e)),
            None => None,
        }
    }

    /// How many events are waiting to be polled.
    pub fn pending(&self) -> (n: usize)
        ensures
            n == self@.queue.len(),
    {
        self.queue.len()
    }

    /// How many filters are installed.
    pub fn filter_count(&self) -> (n: usize)
        ensures
            n == self@.filters.len(),
    {
        self.chain.len()
    }
}

/// Filter-before-enqueue: handling an event the chain rejects leaves the
/// queue exactly as it was, so an event absent from the queue stays
/// absent and no later dequeue can return it.
pub proof fn lemma_rejected_event_never_queued(w: WatcherModel, e: RawEventModel)
    requires
        !chain_accepts(w.filters, e.paths),
    ensures
        after_event(w, e).queue == w.queue,
        !w.queue.contains(e) ==> !after_event(w, e).queue.contains(e),
{
}

} // verus!
