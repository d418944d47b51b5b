//! Consuming a queue under a concurrency limit.
//!
//! The consumer is told what happens on the subscription and in the handlers,
//! one event at a time, and answers with what the caller has to do: which
//! delivery to hand to the handler, which to acknowledge, and whether to go on
//! receiving. A delivery is handed out only with a permit of the limiter, and
//! every delivery that was handed out gives its permit back when its handling
//! is reported as over, whatever the outcome.
//!
//! A delivery whose handling succeeded is acknowledged. One whose handling
//! failed is neither acknowledged nor rejected: it stays unacknowledged with
//! the broker, which hands it out again when the channel is gone.

use vstd::prelude::*;
use crate::amqp::connection::Channel;
use crate::messaging::limiter::{lemma_acquire_valid, lemma_release_valid};
use crate::messaging::limiter::{ConcurrencyLimiter, Permits};
use crate::messaging::publisher::AMQPPublisher;
use crate::metrics::{bump, lemma_fresh_valid, lemma_observe_valid, Metrics, Readings};

verus! {

/// The name under which the consumer subscribes.
pub const CONSUMER_TAG: &'static str = "rust-consumer";

/// Why consuming could not begin.
#[derive(Clone, Copy, Debug, PartialEq, Eq, Structural)]
pub enum ConsumeError {
    /// The broker refused to declare the queue.
    Declare,
    /// The broker refused the subscription.
    Subscribe,
}

/// Where a consumer stands.
#[derive(Clone, Copy, Debug, PartialEq, Eq, Structural)]
pub enum Phase {
    /// Consuming has not been started.
    Idle,
    /// The queue is being declared.
    Declaring,
    /// The subscription is being opened.
    Subscribing,
    /// Deliveries are coming in.
    Subscribed,
    /// The subscription has ended.
    Stopped,
    /// Consuming could not begin.
    Failed(ConsumeError),
}

/// What happened on the subscription or in a handler.
#[derive(Clone, Copy, Debug, PartialEq, Eq, Structural)]
pub enum ConsumerEvent {
    /// The queue was declared.
    QueueDeclared,
    /// The broker refused to declare the queue.
    DeclareFailed,
    /// The subscription is open.
    Subscribed,
    /// The broker refused the subscription.
    SubscribeFailed,
    /// A delivery came in.
    Delivery { tag: u64 },
    /// The subscription handed out an error in place of a delivery.
    ReceiveError,
    /// The subscription has ended.
    StreamEnded,
    /// The handling of a delivery is over, with or without success, after
    /// `nanos` nanoseconds.
    Finished { tag: u64, success: bool, nanos: u64 },
}

/// How the caller goes on after an event.
#[derive(Clone, Copy, Debug, PartialEq, Eq, Structural)]
pub enum Command {
    /// Nothing, until consuming is started.
    Idle,
    /// Declare the queue as durable, and report.
    DeclareQueue,
    /// Subscribe to the queue, and report.
    Subscribe,
    /// Wait for the next delivery or the next handler that finishes.
    Receive,
    /// Take no further delivery; wait for the next handler that finishes.
    AwaitCompletion,
    /// The subscription has ended and no handler is left: return without error.
    Stop,
    /// Consuming could not begin: return the error.
    Fail(ConsumeError),
}

/// What the caller has to do after an event.
#[derive(Clone, Copy, Debug, PartialEq, Eq)]
pub struct Reaction {
    /// The delivery to acknowledge, if any.
    pub acknowledge: Option<u64>,
    /// The delivery to hand to the handler, if any.
    pub dispatch: Option<u64>,
    /// How to go on.
    pub command: Command,
}

/// A consumer as a mathematical value.
pub struct ConsumerState {
    /// Where the consumer stands.
    pub phase: Phase,
    /// The queue that is consumed, once consuming was started.
    pub queue: Seq<char>,
    /// The permits and the deliveries whose handling is going on.
    pub permits: Permits,
    /// The deliveries that came in while no permit was free, oldest first.
    pub waiting: Seq<u64>,
    /// The series.
    pub metrics: Readings,
}

/// A count as a counter shows it: held at `u64::MAX`.
pub open spec fn shown(count: nat) -> u64 {
    if count <= u64::MAX {
        count as u64
    } else {
        u64::MAX
    }
}

impl ConsumerState {
    /// A consumer that has not been started, with `concurrency` permits.
    pub open spec fn fresh(concurrency: nat, metrics: Readings) -> ConsumerState {
        ConsumerState {
            phase: Phase::Idle,
            queue: Seq::empty(),
            permits: Permits::fresh(concurrency),
            waiting: Seq::empty(),
            metrics,
        }
    }

    /// The permits and the series are valid.
    pub open spec fn valid(self) -> bool {
        &&& self.permits.valid()
        &&& self.metrics.valid()
    }

    /// The number of deliveries whose handling is going on.
    pub open spec fn in_flight(self) -> nat {
        self.permits.holders.len()
    }

    /// The consumer after consuming of `queue` was started: the gauge of
    /// consumer workers shows the concurrency, and the queue is to be
    /// declared. A consumer that was started before stays as it is.
    pub open spec fn started(self, queue: Seq<char>) -> ConsumerState {
        if self.phase == Phase::Idle {
            ConsumerState {
                phase: Phase::Declaring,
                queue,
                metrics: Readings {
                    active_consumers: shown(self.permits.capacity),
                    ..self.metrics
                },
                ..self
            }
        } else {
            self
        }
    }

    /// The consumer after `tag` took a permit and its handling began.
    pub open spec fn begun(self, tag: u64) -> ConsumerState {
        ConsumerState {
            permits: self.permits.acquire(tag),
            metrics: self.metrics.received(),
            ..self
        }
    }

    /// Whether a delivery that comes in now is handed out at once: the
    /// consumer is subscribed, nothing waits, and a permit is free.
    pub open spec fn admits(self) -> bool {
        self.phase == Phase::Subscribed && self.waiting.len() == 0 && self.permits.has_free()
    }

    /// The consumer after the handling of `tag`, which held a permit, was
    /// reported: the permit is back, the time is observed, and the outcome
    /// is counted.
    pub open spec fn settled(self, tag: u64, success: bool, nanos: u64) -> ConsumerState {
        ConsumerState {
            permits: self.permits.release(tag),
            metrics: if success {
                self.metrics.observed(nanos).processed()
            } else {
                self.metrics.observed(nanos).failed()
            },
            ..self
        }
    }

    /// Whether the oldest waiting delivery can begin.
    pub open spec fn can_resume(self) -> bool {
        self.waiting.len() > 0 && self.permits.has_free()
    }

    /// The consumer after the oldest waiting delivery began, if it can.
    pub open spec fn resumed(self) -> ConsumerState {
        if self.can_resume() {
            ConsumerState { waiting: self.waiting.drop_first(), ..self }.begun(self.waiting[0])
        } else {
            self
        }
    }

    /// The consumer after `event`.
    pub open spec fn after(self, event: ConsumerEvent) -> ConsumerState {
        match event {
            ConsumerEvent::QueueDeclared => if self.phase == Phase::Declaring {
                ConsumerState { phase: Phase::Subscribing, ..self }
            } else {
                self
            },
            ConsumerEvent::DeclareFailed => if self.phase == Phase::Declaring {
                ConsumerState { phase: Phase::Failed(ConsumeError::Declare), ..self }
            } else {
                self
            },
            ConsumerEvent::Subscribed => if self.phase == Phase::Subscribing {
                ConsumerState { phase: Phase::Subscribed, ..self }
            } else {
                self
            },
            ConsumerEvent::SubscribeFailed => if self.phase == Phase::Subscribing {
                ConsumerState { phase: Phase::Failed(ConsumeError::Subscribe), ..self }
            } else {
                self
            },
            ConsumerEvent::Delivery { tag } => if self.phase != Phase::Subscribed {
                self
            } else if self.admits() {
                self.begun(tag)
            } else {
                ConsumerState { waiting: self.waiting.push(tag), ..self }
            },
            ConsumerEvent::ReceiveError => self,
            ConsumerEvent::StreamEnded => if self.phase == Phase::Subscribed {
                ConsumerState { phase: Phase::Stopped, ..self }
            } else {
                self
            },
            ConsumerEvent::Finished { tag, success, nanos } => if self.permits.holds(tag) {
                self.settled(tag, success, nanos).resumed()
            } else {
                self
            },
        }
    }

    /// How the caller goes on with a consumer in this state.
    pub open spec fn command(self) -> Command {
        match self.phase {
            Phase::Idle => Command::Idle,
            Phase::Declaring => Command::DeclareQueue,
            Phase::Subscribing => Command::Subscribe,
            Phase::Subscribed => if self.waiting.len() == 0 {
                Command::Receive
            } else {
                Command::AwaitCompletion
            },
            Phase::Stopped => if self.waiting.len() == 0 && self.permits.holders.len() == 0 {
                Command::Stop
            } else {
                Command::AwaitCompletion
            },
            Phase::Failed(error) => Command::Fail(error),
        }
    }

    /// The delivery that `event` has acknowledged: one whose handling was
    /// going on and is reported as a success.
    pub open spec fn acknowledged(self, event: ConsumerEvent) -> Option<u64> {
        match event {
            ConsumerEvent::Finished { tag, success, nanos } => if self.permits.holds(tag)
                && success {
                Some(tag)
            } else {
                None
            },
            _ => None,
        }
    }

    /// The delivery that `event` hands to the handler: the one that came in,
    /// if it is admitted, or the oldest waiting one, if a handler finished.
    pub open spec fn dispatched(self, event: ConsumerEvent) -> Option<u64> {
        match event {
            ConsumerEvent::Delivery { tag } => if self.admits() {
                Some(tag)
            } else {
                None
            },
            ConsumerEvent::Finished { tag, success, nanos } => if self.permits.holds(tag)
                && self.settled(tag, success, nanos).can_resume() {
                Some(self.waiting[0])
            } else {
                None
            },
            _ => None,
        }
    }

    /// What the caller has to do after `event`.
    pub open spec fn reaction(self, event: ConsumerEvent) -> Reaction {
        Reaction {
            acknowledge: self.acknowledged(event),
            dispatch: self.dispatched(event),
            command: self.after(event).command(),
        }
    }

    /// The consumer after a series of events, first to last.
    pub open spec fn after_all(self, events: Seq<ConsumerEvent>) -> ConsumerState
        decreases events.len(),
    {
        if events.len() == 0 {
            self
        } else {
            self.after_all(events.drop_last()).after(events.last())
        }
    }
}

impl ConsumerState {
    /// Whether `event` reports the end of a handling that was going on, with
    /// the given outcome.
    pub open spec fn settles(self, event: ConsumerEvent, outcome: bool) -> bool {
        event matches ConsumerEvent::Finished { tag, success, nanos } && self.permits.holds(tag)
            && success == outcome
    }

    /// How many handlings a series of events reports as over with the given
    /// outcome. Only a report on a handling that is going on counts.
    pub open spec fn settled_count(self, events: Seq<ConsumerEvent>, outcome: bool) -> nat
        decreases events.len(),
    {
        if events.len() == 0 {
            0
        } else {
            let before = self.after_all(events.drop_last());
            let earlier = self.settled_count(events.drop_last(), outcome);
            if before.settles(events.last(), outcome) {
                earlier + 1
            } else {
                earlier
            }
        }
    }

    /// The deliveries that a series of events brings in, in the order in
    /// which they come. Only a subscribed consumer takes a delivery.
    pub open spec fn taken_in(self, events: Seq<ConsumerEvent>) -> Seq<u64>
        decreases events.len(),
    {
        if events.len() == 0 {
            Seq::empty()
        } else {
            let before = self.after_all(events.drop_last());
            let earlier = self.taken_in(events.drop_last());
            match events.last() {
                ConsumerEvent::Delivery { tag } => if before.phase == Phase::Subscribed {
                    earlier.push(tag)
                } else {
                    earlier
                },
                _ => earlier,
            }
        }
    }

    /// The deliveries that are handed to the handler in the course of a
    /// series of events, in the order in which they are handed out.
    pub open spec fn handed_out(self, events: Seq<ConsumerEvent>) -> Seq<u64>
        decreases events.len(),
    {
        if events.len() == 0 {
            Seq::empty()
        } else {
            let before = self.after_all(events.drop_last());
            let earlier = self.handed_out(events.drop_last());
            match before.dispatched(events.last()) {
                Some(tag) => earlier.push(tag),
                None => earlier,
            }
        }
    }

    /// Nothing was counted yet and no handling is going on.
    pub open spec fn untouched(self) -> bool {
        &&& self.in_flight() == 0
        &&& self.metrics.messages_received == 0
        &&& self.metrics.messages_processed == 0
        &&& self.metrics.messages_failed == 0
        &&& self.metrics.processing_duration.count == 0
    }

    /// No delivery waits while a permit is free.
    pub open spec fn prompt(self) -> bool {
        self.waiting.len() > 0 ==> !self.permits.has_free()
    }
}

/// Starting keeps a consumer valid and leaves permits, waiting deliveries and
/// counters as they are.
pub proof fn lemma_started_valid(state: ConsumerState, queue: Seq<char>)
    requires
        state.valid(),
    ensures
        state.started(queue).valid(),
        state.started(queue).permits == state.permits,
        state.started(queue).waiting == state.waiting,
        state.untouched() ==> state.started(queue).untouched(),
        state.prompt() ==> state.started(queue).prompt(),
{
}

/// An event keeps a consumer valid and its number of permits as it is.
pub proof fn lemma_after_valid(state: ConsumerState, event: ConsumerEvent)
    requires
        state.valid(),
    ensures
        state.after(event).valid(),
        state.after(event).permits.capacity == state.permits.capacity,
{
    match event {
        ConsumerEvent::Delivery { tag } => {
            lemma_acquire_valid(state.permits, tag);
        },
        ConsumerEvent::Finished { tag, success, nanos } => {
            if state.permits.holds(tag) {
                lemma_release_valid(state.permits, tag);
                lemma_observe_valid(state.metrics.processing_duration, nanos);
                let settled = state.settled(tag, success, nanos);
                if settled.can_resume() {
                    lemma_acquire_valid(settled.permits, state.waiting[0]);
                }
            }
        },
        _ => {},
    }
}

/// The number of handlers that run at a time never exceeds the concurrency
/// that the consumer was made with, whatever comes in and however fast.
pub proof fn law_limit_never_exceeded(start: ConsumerState, events: Seq<ConsumerEvent>)
    requires
        start.valid(),
    ensures
        start.after_all(events).valid(),
        start.after_all(events).in_flight() <= start.permits.capacity,
        start.after_all(events).permits.capacity == start.permits.capacity,
    decreases events.len(),
{
    if events.len() > 0 {
        law_limit_never_exceeded(start, events.drop_last());
        lemma_after_valid(start.after_all(events.drop_last()), events.last());
    }
}

/// A handler that finishes gives its permit back, with or without success:
/// if no delivery waits, one more permit is free; if one waits, the oldest
/// takes the permit and is handed to the handler.
pub proof fn law_finished_handler_frees_its_permit(
    state: ConsumerState,
    tag: u64,
    success: bool,
    nanos: u64,
)
    requires
        state.valid(),
        state.permits.holds(tag),
    ensures
        ({
            let event = ConsumerEvent::Finished { tag, success, nanos };
            let next = state.after(event);
            &&& state.waiting.len() == 0 ==> next.in_flight() + 1 == state.in_flight()
                && state.reaction(event).dispatch is None
            &&& state.waiting.len() > 0 ==> next.in_flight() == state.in_flight()
                && state.reaction(event).dispatch == Some(state.waiting[0]) && next.waiting
                == state.waiting.drop_first() && next.permits.holds(state.waiting[0])
        }),
{
    lemma_release_valid(state.permits, tag);
    let settled = state.settled(tag, success, nanos);
    if settled.can_resume() {
        lemma_acquire_valid(settled.permits, state.waiting[0]);
    }
}

/// A handler that fails is counted as failed, once, and as nothing else: the
/// count of successes stays, and its delivery is not acknowledged.
pub proof fn law_failure_counts_once(state: ConsumerState, tag: u64, nanos: u64)
    requires
        state.permits.holds(tag),
    ensures
        ({
            let event = ConsumerEvent::Finished { tag, success: false, nanos };
            let next = state.after(event);
            &&& next.metrics.messages_failed == bump(state.metrics.messages_failed)
            &&& next.metrics.messages_processed == state.metrics.messages_processed
            &&& state.reaction(event).acknowledge is None
        }),
{
}

/// A handler that succeeds is counted as processed, once, and its delivery is
/// acknowledged; no other event acknowledges a delivery.
pub proof fn law_success_is_acknowledged(state: ConsumerState, event: ConsumerEvent)
    ensures
        state.reaction(event).acknowledge matches Some(tag) ==> state.permits.holds(tag) && event
            == (ConsumerEvent::Finished { tag, success: true, nanos: event->nanos })
            && state.after(event).metrics.messages_processed == bump(
            state.metrics.messages_processed,
        ) && state.after(event).metrics.messages_failed == state.metrics.messages_failed,
{
}

/// An event keeps a consumer prompt.
pub proof fn lemma_after_prompt(state: ConsumerState, event: ConsumerEvent)
    requires
        state.valid(),
        state.prompt(),
    ensures
        state.after(event).prompt(),
{
    match event {
        ConsumerEvent::Finished { tag, success, nanos } => {
            if state.permits.holds(tag) {
                lemma_release_valid(state.permits, tag);
                let settled = state.settled(tag, success, nanos);
                if settled.can_resume() {
                    lemma_acquire_valid(settled.permits, state.waiting[0]);
                }
            }
        },
        _ => {},
    }
}

/// No delivery is kept waiting while a permit is free: a consumer in which
/// nothing waits stays, after any series of events, one in which a delivery
/// waits only if all permits are out.
pub proof fn law_no_delivery_waits_beside_a_free_permit(
    start: ConsumerState,
    events: Seq<ConsumerEvent>,
)
    requires
        start.valid(),
        start.waiting.len() == 0,
    ensures
        start.after_all(events).prompt(),
    decreases events.len(),
{
    if events.len() > 0 {
        law_no_delivery_waits_beside_a_free_permit(start, events.drop_last());
        law_limit_never_exceeded(start, events.drop_last());
        lemma_after_prompt(start.after_all(events.drop_last()), events.last());
    }
}

/// A delivery never waits in vain: where one waits in a consumer that is
/// prompt and has permits at all, as many handlers run as there are permits,
/// and whichever of them finishes next, the oldest waiting delivery starts.
pub proof fn law_waiting_delivery_is_next(
    state: ConsumerState,
    tag: u64,
    success: bool,
    nanos: u64,
)
    requires
        state.valid(),
        state.prompt(),
        state.waiting.len() > 0,
        state.permits.capacity > 0,
        state.permits.holds(tag),
    ensures
        state.in_flight() == state.permits.capacity,
        state.reaction(ConsumerEvent::Finished { tag, success, nanos }).dispatch == Some(
            state.waiting[0],
        ),
{
    law_finished_handler_frees_its_permit(state, tag, success, nanos);
}

/// Every delivery is handed to the handler once, in the order in which it
/// came: the deliveries that waited at first, followed by those that a series
/// of events brings in, are those that were handed out in its course, in
/// that order, followed by those that still wait. None is lost, none is
/// handed out twice, and none overtakes another.
pub proof fn law_every_delivery_is_handed_out_once(
    start: ConsumerState,
    events: Seq<ConsumerEvent>,
)
    ensures
        start.waiting + start.taken_in(events) == start.handed_out(events) + start.after_all(
            events,
        ).waiting,
    decreases events.len(),
{
    if events.len() == 0 {
        assert(start.waiting + start.taken_in(events) =~= start.handed_out(events)
            + start.waiting);
    } else {
        let earlier = events.drop_last();
        law_every_delivery_is_handed_out_once(start, earlier);
        let before = start.after_all(earlier);
        let end = start.after_all(events);
        assert(start.waiting + start.taken_in(earlier) == start.handed_out(earlier)
            + before.waiting);
        match events.last() {
            ConsumerEvent::Delivery { tag } => {
                if before.phase == Phase::Subscribed {
                    if before.admits() {
                        assert(before.waiting =~= Seq::<u64>::empty());
                    }
                    assert((start.waiting + start.taken_in(earlier)).push(tag) =~= start.waiting
                        + start.taken_in(earlier).push(tag));
                    assert((start.handed_out(earlier) + before.waiting).push(tag)
                        =~= start.handed_out(events) + end.waiting);
                }
            },
            ConsumerEvent::Finished { tag, success, nanos } => {
                if before.permits.holds(tag) && before.settled(tag, success, nanos).can_resume() {
                    assert(start.handed_out(earlier) + before.waiting =~= start.handed_out(
                        earlier,
                    ).push(before.waiting[0]) + before.waiting.drop_first());
                }
            },
            _ => {},
        }
    }
}

/// The counter of received deliveries shows how many were handed to the
/// handler, for a consumer that had counted nothing.
pub proof fn law_received_counts_what_is_handed_out(
    start: ConsumerState,
    events: Seq<ConsumerEvent>,
)
    requires
        start.metrics.messages_received == 0,
    ensures
        start.after_all(events).metrics.messages_received == shown(
            start.handed_out(events).len(),
        ),
    decreases events.len(),
{
    if events.len() > 0 {
        law_received_counts_what_is_handed_out(start, events.drop_last());
    }
}

/// Handling never stalls and never repeats: in a consumer with at least one
/// permit that was made with fresh series and then started, a delivery waits
/// only while as many handlers run as there are permits; and whenever no
/// handler runs, every delivery that came in has been handed to the handler
/// once, in the order in which it came, and the counter of received
/// deliveries shows their number.
pub proof fn law_all_deliveries_get_through(
    concurrency: nat,
    queue: Seq<char>,
    events: Seq<ConsumerEvent>,
)
    requires
        concurrency >= 1,
    ensures
        ({
            let start = ConsumerState::fresh(concurrency, Readings::fresh()).started(queue);
            let end = start.after_all(events);
            &&& end.waiting.len() > 0 ==> end.in_flight() == concurrency
            &&& start.taken_in(events) == start.handed_out(events) + end.waiting
            &&& end.in_flight() == 0 ==> start.handed_out(events) == start.taken_in(events)
                && end.metrics.messages_received == shown(start.taken_in(events).len())
        }),
{
    let fresh = ConsumerState::fresh(concurrency, Readings::fresh());
    lemma_fresh_valid();
    lemma_started_valid(fresh, queue);
    let start = fresh.started(queue);
    let end = start.after_all(events);
    law_limit_never_exceeded(start, events);
    law_no_delivery_waits_beside_a_free_permit(start, events);
    law_every_delivery_is_handed_out_once(start, events);
    law_received_counts_what_is_handed_out(start, events);
    assert(start.waiting + start.taken_in(events) =~= start.taken_in(events));
    if end.in_flight() == 0 {
        assert(end.waiting.len() == 0);
        assert(start.handed_out(events) + end.waiting =~= start.handed_out(events));
    }
}

/// The counters after a series of events, for a consumer that had counted
/// nothing: with `n` handlings over with success and `m` over with failure,
/// the counter of successes shows `n`, that of failures `m`, the histogram
/// holds `n + m` observations, and the counter of received deliveries shows
/// `n + m` and the handlings that are still going on.
pub proof fn law_counters_match_outcomes(start: ConsumerState, events: Seq<ConsumerEvent>)
    requires
        start.valid(),
        start.untouched(),
    ensures
        ({
            let end = start.after_all(events);
            let n = start.settled_count(events, true);
            let m = start.settled_count(events, false);
            &&& end.metrics.messages_processed == shown(n)
            &&& end.metrics.messages_failed == shown(m)
            &&& end.metrics.processing_duration.count == shown(n + m)
            &&& end.metrics.messages_received == shown(n + m + end.in_flight())
            &&& end.in_flight() == 0 ==> end.metrics.messages_received == shown(n + m)
        }),
    decreases events.len(),
{
    if events.len() > 0 {
        let earlier = events.drop_last();
        let event = events.last();
        law_counters_match_outcomes(start, earlier);
        law_limit_never_exceeded(start, earlier);
        let before = start.after_all(earlier);
        match event {
            ConsumerEvent::Delivery { tag } => {
                lemma_acquire_valid(before.permits, tag);
            },
            ConsumerEvent::Finished { tag, success, nanos } => {
                if before.permits.holds(tag) {
                    lemma_release_valid(before.permits, tag);
                    let settled = before.settled(tag, success, nanos);
                    if settled.can_resume() {
                        lemma_acquire_valid(settled.permits, before.waiting[0]);
                    }
                }
            },
            _ => {},
        }
    }
}

/// No event lowers a counter.
pub proof fn law_counters_never_fall(start: ConsumerState, events: Seq<ConsumerEvent>)
    ensures
        start.metrics.counters_not_above(start.after_all(events).metrics),
    decreases events.len(),
{
    if events.len() > 0 {
        law_counters_never_fall(start, events.drop_last());
    }
}

/// A consumer that was made with fresh series and then started, after any
/// series of events: no more handlers run than its concurrency, no delivery
/// waits beside a free permit, and the counters show the handlings that are
/// over and those that are going on.
pub proof fn law_started_consumer(
    concurrency: nat,
    queue: Seq<char>,
    events: Seq<ConsumerEvent>,
)
    ensures
        ({
            let start = ConsumerState::fresh(concurrency, Readings::fresh()).started(queue);
            let end = start.after_all(events);
            let n = start.settled_count(events, true);
            let m = start.settled_count(events, false);
            &&& end.in_flight() <= concurrency
            &&& end.prompt()
            &&& end.metrics.messages_processed == shown(n)
            &&& end.metrics.messages_failed == shown(m)
            &&& end.metrics.processing_duration.count == shown(n + m)
            &&& end.metrics.messages_received == shown(n + m + end.in_flight())
        }),
{
    let fresh = ConsumerState::fresh(concurrency, Readings::fresh());
    lemma_fresh_valid();
    lemma_started_valid(fresh, queue);
    let start = fresh.started(queue);
    law_limit_never_exceeded(start, events);
    law_no_delivery_waits_beside_a_free_permit(start, events);
    law_counters_match_outcomes(start, events);
}

/// The consumer of one queue.
#[derive(Debug)]
pub struct AMQPConsumer {
    channel: Channel,
    publisher: AMQPPublisher,
    metrics: Metrics,
    limiter: ConcurrencyLimiter,
    waiting: Vec<u64>,
    phase: Phase,
    queue_name: String,
}

impl View for AMQPConsumer {
    type V = ConsumerState;

    closed spec fn view(&self) -> ConsumerState {
        ConsumerState {
            phase: self.phase,
            queue: self.queue_name@,
            permits: self.limiter@,
            waiting: self.waiting@,
            metrics: self.metrics@,
        }
    }
}

impl Clone for AMQPConsumer {
    fn clone(&self) -> (copy: Self)
        ensures
            copy@ == self@,
            copy.channel_of() == self.channel_of(),
            copy.publisher_of() == self.publisher_of(),
    {
        AMQPConsumer {
            channel: self.channel,
            publisher: self.publisher,
            metrics: self.metrics.clone(),
            limiter: self.limiter.clone(),
            waiting: self.waiting.clone(),
            phase: self.phase,
            queue_name: self.queue_name.clone(),
        }
    }
}

impl AMQPConsumer {
    /// The channel that the consumer receives on.
    pub closed spec fn channel_of(self) -> Channel {
        self.channel
    }

    /// The publisher that the handler sends through.
    pub closed spec fn publisher_of(self) -> AMQPPublisher {
        self.publisher
    }

    /// A consumer on `channel` that has not been started and lets
    /// `concurrency` handlers run at a time.
    pub fn new(
        channel: Channel,
        publisher: AMQPPublisher,
        metrics: Metrics,
        concurrency: usize,
    ) -> (consumer: Self)
        ensures
            consumer@ == ConsumerState::fresh(concurrency as nat, metrics@),
            consumer.channel_of() == channel,
            consumer.publisher_of() == publisher,
    {
        AMQPConsumer {
            channel,
            publisher,
            metrics,
            limiter: ConcurrencyLimiter::new(concurrency),
            waiting: Vec::new(),
            phase: Phase::Idle,
            queue_name: String::new(),
        }
    }

    /// Starts consuming the queue `queue_name` and says how to go on: the
    /// queue is to be declared. A consumer that was started before stays as it
    /// is.
    pub fn start_consuming(&mut self, queue_name: &str) -> (command: Command)
        ensures
            final(self)@ == old(self)@.started(queue_name@),
            command == final(self)@.command(),
            final(self).channel_of() == old(self).channel_of(),
            final(self).publisher_of() == old(self).publisher_of(),
    {
        if self.phase == Phase::Idle {
            let workers: usize = self.limiter.capacity();
            self.metrics.set_active_consumers(workers as u64);
            self.queue_name = queue_name.to_owned();
            self.phase = Phase::Declaring;
        }
        self.command()
    }

    /// Takes an event and says what the caller has to do.
    pub fn on_event(&mut self, event: ConsumerEvent) -> (reaction: Reaction)
        ensures
            final(self)@ == old(self)@.after(event),
            reaction == old(self)@.reaction(event),
            final(self)@.in_flight() <= final(self)@.permits.capacity,
            final(self)@.permits.capacity == old(self)@.permits.capacity,
            final(self).channel_of() == old(self).channel_of(),
            final(self).publisher_of() == old(self).publisher_of(),
    {
        let mut acknowledge: Option<u64> = None;
        let mut dispatch: Option<u64> = None;
        let free: usize = self.limiter.available();
        match event {
            ConsumerEvent::QueueDeclared => {
                if self.phase == Phase::Declaring {
                    self.phase = Phase::Subscribing;
                }
            },
            ConsumerEvent::DeclareFailed => {
                if self.phase == Phase::Declaring {
                    self.phase = Phase::Failed(ConsumeError::Declare);
                }
            },
            ConsumerEvent::Subscribed => {
                if self.phase == Phase::Subscribing {
                    self.phase = Phase::Subscribed;
                }
            },
            ConsumerEvent::SubscribeFailed => {
                if self.phase == Phase::Subscribing {
                    self.phase = Phase::Failed(ConsumeError::Subscribe);
                }
            },
            ConsumerEvent::Delivery { tag } => {
                if self.phase == Phase::Subscribed {
                    if self.waiting.len() == 0 && free > 0 {
                        self.limiter.try_acquire(tag);
                        self.metrics.inc_messages_received();
                        dispatch = Some(tag);
                    } else {
                        self.waiting.push(tag);
                    }
                }
            },
            ConsumerEvent::ReceiveError => {},
            ConsumerEvent::StreamEnded => {
                if self.phase == Phase::Subscribed {
                    self.phase = Phase::Stopped;
                }
            },
            ConsumerEvent::Finished { tag, success, nanos } => {
                let held: bool = self.limiter.release(tag);
                if held {
                    self.metrics.observe_processing_duration(nanos);
                    if success {
                        self.metrics.inc_messages_processed();
                        acknowledge = Some(tag);
                    } else {
                        self.metrics.inc_messages_failed();
                    }
                    assert(self@ == old(self)@.settled(tag, success, nanos));
                    if self.waiting.len() > 0 && self.limiter.available() > 0 {
                        let next: u64 = self.waiting.remove(0);
                        assert(self.waiting@ =~= old(self)@.waiting.drop_first());
                        self.limiter.try_acquire(next);
                        self.metrics.inc_messages_received();
                        dispatch = Some(next);
                    }
                } else {
                    proof {
                        lemma_release_valid(old(self)@.permits, tag);
                    }
                }
            },
        }
        let command: Command = self.command();
        Reaction { acknowledge, dispatch, command }
    }

    /// How the caller goes on.
    pub fn command(&self) -> (command: Command)
        ensures
            command == self@.command(),
    {
        match self.phase {
            Phase::Idle => Command::Idle,
            Phase::Declaring => Command::DeclareQueue,
            Phase::Subscribing => Command::Subscribe,
            Phase::Subscribed => {
                if self.waiting.len() == 0 {
                    Command::Receive
                } else {
                    Command::AwaitCompletion
                }
            },
            Phase::Stopped => {
                if self.waiting.len() == 0 && self.limiter.in_use() == 0 {
                    Command::Stop
                } else {
                    Command::AwaitCompletion
                }
            },
            Phase::Failed(error) => Command::Fail(error),
        }
    }

    /// Where the consumer stands.
    pub fn phase(&self) -> (phase: Phase)
        ensures
            phase == self@.phase,
    {
        self.phase
    }

    /// The queue that is consumed, once consuming was started.
    pub fn queue_name(&self) -> (queue_name: &String)
        ensures
            queue_name@ == self@.queue,
    {
        &self.queue_name
    }

    /// How many handlers may run at a time.
    pub fn concurrency(&self) -> (concurrency: usize)
        ensures
            concurrency == self@.permits.capacity,
    {
        self.limiter.capacity()
    }

    /// How many handlers are running.
    pub fn in_flight(&self) -> (running: usize)
        ensures
            running == self@.in_flight(),
            running <= self@.permits.capacity,
    {
        self.limiter.in_use()
    }

    /// How many deliveries wait for a permit.
    pub fn waiting(&self) -> (waiting: usize)
        ensures
            waiting == self@.waiting.len(),
    {
        self.waiting.len()
    }

    /// The series.
    pub fn metrics(&self) -> (metrics: &Metrics)
        ensures
            metrics@ == self@.metrics,
    {
        &self.metrics
    }

    /// The channel that the consumer receives on.
    pub fn channel(&self) -> (channel: Channel)
        ensures
            channel == self.channel_of(),
    {
        self.channel
    }

    /// The publisher that the handler sends through.
    pub fn publisher(&self) -> (publisher: AMQPPublisher)
        ensures
            publisher == self.publisher_of(),
    {
        self.publisher
    }
}

} // verus!
