//! Publishing a message: declare the queue, send, wait for the broker's
//! confirmation.
//!
//! The caller asks the broker and reports each answer; the publication
//! answers with what to do next. It succeeds only on the broker's positive
//! confirmation, and nothing is tried twice.
//!
//! A publication to a queue declares the queue before anything else. A
//! message without wire form fails after the declaration, so the
//! declaration's own failure comes first, and such a message is never sent.

use vstd::prelude::*;
use crate::amqp::connection::Channel;

verus! {

/// The content type that every published message carries.
pub const CONTENT_TYPE: &'static str = "application/json";

/// The delivery mode that every published message carries: persistent.
pub const DELIVERY_MODE: u8 = 2;

/// Whether the queues that the relay declares outlive a restart of the
/// broker: they do.
pub const DURABLE: bool = true;

/// The exchange through which a message reaches a queue by the queue's name.
pub const DEFAULT_EXCHANGE: &'static str = "";

/// Why a message was not published.
#[derive(Clone, Copy, Debug, PartialEq, Eq, Structural)]
pub enum PublishError {
    /// The message has no wire form.
    Serialize,
    /// The broker refused to declare the queue.
    Declare,
    /// The message could not be sent.
    Publish,
    /// Waiting for the confirmation failed, or the broker confirms nothing
    /// on this channel.
    Confirm,
    /// The broker rejected the message.
    Rejected,
}

/// What the broker says of a message that was sent.
#[derive(Clone, Copy, Debug, PartialEq, Eq, Structural)]
pub enum Confirmation {
    /// The broker has taken the message.
    Ack,
    /// The broker has rejected the message.
    Nack,
    /// The channel does not confirm.
    NotRequested,
}

/// An answer to what a publication asked for.
#[derive(Clone, Copy, Debug, PartialEq, Eq, Structural)]
pub enum PublishEvent {
    /// The queue was declared, or the broker refused.
    Declared { ok: bool },
    /// The message was handed to the broker, or could not be.
    Sent { ok: bool },
    /// The broker's word on the message.
    Confirmed(Confirmation),
    /// Waiting for the broker's word failed.
    ConfirmFailed,
}

/// What the caller does next for a publication.
#[derive(Clone, Copy, Debug, PartialEq, Eq, Structural)]
pub enum PublishStep {
    /// Declare the queue named by the routing key as durable, and report.
    DeclareQueue,
    /// Send the payload to the exchange under the routing key, marked
    /// persistent and with the content type, and report.
    Send,
    /// Wait for the broker's confirmation, and report it.
    AwaitConfirm,
    /// The message is published.
    Done,
    /// The message is not published.
    Failed(PublishError),
}

/// A publication as a mathematical value.
pub struct Outgoing {
    /// The exchange to send to.
    pub exchange: Seq<char>,
    /// The routing key; for the default exchange, the queue's name.
    pub routing_key: Seq<char>,
    /// The message's wire form, where it has one.
    pub payload: Option<Seq<u8>>,
    /// What the caller does next.
    pub step: PublishStep,
}

/// A wire form that may be absent, as a mathematical value.
pub open spec fn wire_form(serialized: Option<Vec<u8>>) -> Option<Seq<u8>> {
    match serialized {
        Some(payload) => Some(payload@),
        None => None,
    }
}

impl Outgoing {
    /// A publication to the queue `queue_name`, which is declared first,
    /// whether or not the message has a wire form.
    pub open spec fn to_queue(queue_name: Seq<char>, payload: Option<Seq<u8>>) -> Outgoing {
        Outgoing {
            exchange: DEFAULT_EXCHANGE@,
            routing_key: queue_name,
            payload,
            step: PublishStep::DeclareQueue,
        }
    }

    /// A publication to `exchange` under `routing_key`, without a declaration.
    pub open spec fn to_exchange(
        exchange: Seq<char>,
        routing_key: Seq<char>,
        payload: Seq<u8>,
    ) -> Outgoing {
        Outgoing { exchange, routing_key, payload: Some(payload), step: PublishStep::Send }
    }

    /// The step that follows `step` on `event`, for a message that has a
    /// wire form or has none. A refused declaration fails the publication;
    /// after an accepted one a message with a wire form is sent, and one
    /// without fails. An answer to something that was not asked changes
    /// nothing, and so does any answer once the publication is over.
    pub open spec fn next_step(
        step: PublishStep,
        event: PublishEvent,
        serialized: bool,
    ) -> PublishStep {
        match (step, event) {
            (PublishStep::DeclareQueue, PublishEvent::Declared { ok }) => if !ok {
                PublishStep::Failed(PublishError::Declare)
            } else if serialized {
                PublishStep::Send
            } else {
                PublishStep::Failed(PublishError::Serialize)
            },
            (PublishStep::Send, PublishEvent::Sent { ok }) => if ok {
                PublishStep::AwaitConfirm
            } else {
                PublishStep::Failed(PublishError::Publish)
            },
            (PublishStep::AwaitConfirm, PublishEvent::Confirmed(Confirmation::Ack)) => {
                PublishStep::Done
            },
            (PublishStep::AwaitConfirm, PublishEvent::Confirmed(Confirmation::Nack)) => {
                PublishStep::Failed(PublishError::Rejected)
            },
            (PublishStep::AwaitConfirm, PublishEvent::Confirmed(Confirmation::NotRequested)) => {
                PublishStep::Failed(PublishError::Confirm)
            },
            (PublishStep::AwaitConfirm, PublishEvent::ConfirmFailed) => {
                PublishStep::Failed(PublishError::Confirm)
            },
            _ => step,
        }
    }

    /// The publication after `event`.
    pub open spec fn after(self, event: PublishEvent) -> Outgoing {
        Outgoing { step: Self::next_step(self.step, event, self.payload is Some), ..self }
    }

    /// The publication after a series of events, first to last.
    pub open spec fn after_all(self, events: Seq<PublishEvent>) -> Outgoing
        decreases events.len(),
    {
        if events.len() == 0 {
            self
        } else {
            self.after_all(events.drop_last()).after(events.last())
        }
    }

    /// The result of a publication that is over; `None` while it is going on.
    pub open spec fn result(self) -> Option<Result<(), PublishError>> {
        match self.step {
            PublishStep::Done => Some(Ok(())),
            PublishStep::Failed(error) => Some(Err(error)),
            _ => None,
        }
    }
}

/// No publication succeeds without the broker's positive confirmation: if a
/// publication that was not yet over is published after a series of events,
/// then at one of them it was waiting for the confirmation and the event was
/// the broker's acknowledgement.
pub proof fn law_success_needs_confirmation(start: Outgoing, events: Seq<PublishEvent>)
    requires
        start.step != PublishStep::Done,
        start.after_all(events).step == PublishStep::Done,
    ensures
        exists|i: int|
            0 <= i < events.len() && #[trigger] events[i] == PublishEvent::Confirmed(
                Confirmation::Ack,
            ) && start.after_all(events.subrange(0, i)).step == PublishStep::AwaitConfirm,
    decreases events.len(),
{
    let n = events.len() as int;
    assert(n > 0);
    let before = start.after_all(events.drop_last());
    if before.step == PublishStep::Done {
        law_success_needs_confirmation(start, events.drop_last());
        let i = choose|i: int|
            0 <= i < events.drop_last().len() && #[trigger] events.drop_last()[i]
                == PublishEvent::Confirmed(Confirmation::Ack) && start.after_all(
                events.drop_last().subrange(0, i),
            ).step == PublishStep::AwaitConfirm;
        assert(events.drop_last().subrange(0, i) =~= events.subrange(0, i));
        assert(events[i] == PublishEvent::Confirmed(Confirmation::Ack));
    } else {
        assert(events.subrange(0, n - 1) =~= events.drop_last());
        assert(events[n - 1] == PublishEvent::Confirmed(Confirmation::Ack));
    }
}

/// How far a publication has come.
pub open spec fn progress(step: PublishStep) -> nat {
    match step {
        PublishStep::DeclareQueue => 0,
        PublishStep::Send => 1,
        PublishStep::AwaitConfirm => 2,
        PublishStep::Done | PublishStep::Failed(_) => 3,
    }
}

/// Nothing is tried twice: an event either leaves a publication as it is or
/// takes it further, never back to a step that it has passed.
pub proof fn law_no_step_is_repeated(publication: Outgoing, event: PublishEvent)
    ensures
        publication.after(event) == publication || progress(publication.after(event).step)
            > progress(publication.step),
{
}

/// A publication that is over stays as it is.
pub proof fn law_result_is_final(start: Outgoing, events: Seq<PublishEvent>)
    requires
        start.result() is Some,
    ensures
        start.after_all(events) == start,
    decreases events.len(),
{
    if events.len() > 0 {
        law_result_is_final(start, events.drop_last());
    }
}

/// A queue that is declared, a message that is sent and a broker that
/// acknowledges it: the message is published.
pub proof fn law_confirmed_publication_succeeds(queue_name: Seq<char>, payload: Seq<u8>)
    ensures
        Outgoing::to_queue(queue_name, Some(payload)).after_all(
            seq![
                PublishEvent::Declared { ok: true },
                PublishEvent::Sent { ok: true },
                PublishEvent::Confirmed(Confirmation::Ack),
            ],
        ).result() == Some(Ok::<(), PublishError>(())),
{
    let start = Outgoing::to_queue(queue_name, Some(payload));
    let e3 = seq![
        PublishEvent::Declared { ok: true },
        PublishEvent::Sent { ok: true },
        PublishEvent::Confirmed(Confirmation::Ack),
    ];
    let e2 = seq![PublishEvent::Declared { ok: true }, PublishEvent::Sent { ok: true }];
    let e1 = seq![PublishEvent::Declared { ok: true }];
    assert(e3.drop_last() =~= e2);
    assert(e2.drop_last() =~= e1);
    assert(e1.drop_last() =~= Seq::<PublishEvent>::empty());
    assert(start.after_all(Seq::<PublishEvent>::empty()) == start);
    assert(start.after_all(e1).step == PublishStep::Send);
    assert(start.after_all(e2).step == PublishStep::AwaitConfirm);
}

/// A message without wire form, to a queue: the declaration comes first. If
/// the broker refuses it, the publication fails with the declaration's
/// error; if the broker accepts it, the publication fails because the message
/// has no wire form.
pub proof fn law_declaration_comes_before_serialization(queue_name: Seq<char>, ok: bool)
    ensures
        Outgoing::to_queue(queue_name, None).step == PublishStep::DeclareQueue,
        Outgoing::to_queue(queue_name, None).after(PublishEvent::Declared { ok }).result() == Some(
            Err::<(), PublishError>(
                if ok {
                    PublishError::Serialize
                } else {
                    PublishError::Declare
                },
            ),
        ),
{
}

/// A message without wire form is never sent: whatever is reported, its
/// publication to a queue waits for the declaration or has failed.
pub proof fn law_message_without_wire_form_is_never_sent(
    queue_name: Seq<char>,
    events: Seq<PublishEvent>,
)
    ensures
        ({
            let end = Outgoing::to_queue(queue_name, None).after_all(events);
            &&& end.payload is None
            &&& (end.step == PublishStep::DeclareQueue || end.step is Failed)
        }),
    decreases events.len(),
{
    if events.len() > 0 {
        law_message_without_wire_form_is_never_sent(queue_name, events.drop_last());
    }
}

/// A publication that is to be sent has a wire form to send: from its
/// beginning, to a queue or to an exchange, it never comes to sending
/// without one.
pub proof fn law_what_is_sent_has_a_wire_form(start: Outgoing, events: Seq<PublishEvent>)
    requires
        start.step == PublishStep::DeclareQueue || start.payload is Some,
    ensures
        start.after_all(events).payload == start.payload,
        start.after_all(events).step == PublishStep::Send ==> start.payload is Some,
    decreases events.len(),
{
    if events.len() > 0 {
        law_what_is_sent_has_a_wire_form(start, events.drop_last());
    }
}

/// One message on its way to the broker.
#[derive(Clone, Debug)]
pub struct Publication {
    exchange: String,
    routing_key: String,
    payload: Option<Vec<u8>>,
    step: PublishStep,
}

impl View for Publication {
    type V = Outgoing;

    closed spec fn view(&self) -> Outgoing {
        Outgoing {
            exchange: self.exchange@,
            routing_key: self.routing_key@,
            payload: wire_form(self.payload),
            step: self.step,
        }
    }
}

impl Publication {
    /// Takes an answer of the broker and says what to do next.
    pub fn advance(&mut self, event: PublishEvent) -> (step: PublishStep)
        ensures
            final(self)@ == old(self)@.after(event),
            step == final(self)@.step,
            final(self)@.step == PublishStep::Done ==> old(self)@.step == PublishStep::Done || (
            old(self)@.step == PublishStep::AwaitConfirm && event == PublishEvent::Confirmed(
                Confirmation::Ack,
            )),
    {
        let next: PublishStep = match (self.step, event) {
            (PublishStep::DeclareQueue, PublishEvent::Declared { ok }) => {
                if !ok {
                    PublishStep::Failed(PublishError::Declare)
                } else if self.payload.is_some() {
                    PublishStep::Send
                } else {
                    PublishStep::Failed(PublishError::Serialize)
                }
            },
            (PublishStep::Send, PublishEvent::Sent { ok }) => {
                if ok {
                    PublishStep::AwaitConfirm
                } else {
                    PublishStep::Failed(PublishError::Publish)
                }
            },
            (PublishStep::AwaitConfirm, PublishEvent::Confirmed(Confirmation::Ack)) => {
                PublishStep::Done
            },
            (PublishStep::AwaitConfirm, PublishEvent::Confirmed(Confirmation::Nack)) => {
                PublishStep::Failed(PublishError::Rejected)
            },
            (PublishStep::AwaitConfirm, PublishEvent::Confirmed(Confirmation::NotRequested)) => {
                PublishStep::Failed(PublishError::Confirm)
            },
            (PublishStep::AwaitConfirm, PublishEvent::ConfirmFailed) => {
                PublishStep::Failed(PublishError::Confirm)
            },
            (step, _) => step,
        };
        self.step = next;
        next
    }

    /// What the caller does next.
    pub fn step(&self) -> (step: PublishStep)
        ensures
            step == self@.step,
    {
        self.step
    }

    /// The result, once the publication is over.
    pub fn result(&self) -> (result: Option<Result<(), PublishError>>)
        ensures
            result == self@.result(),
    {
        match self.step {
            PublishStep::Done => Some(Ok(())),
            PublishStep::Failed(error) => Some(Err(error)),
            _ => None,
        }
    }

    /// The exchange to send to.
    pub fn exchange(&self) -> (exchange: &String)
        ensures
            exchange@ == self@.exchange,
    {
        &self.exchange
    }

    /// The routing key; for the default exchange, the queue's name.
    pub fn routing_key(&self) -> (routing_key: &String)
        ensures
            routing_key@ == self@.routing_key,
    {
        &self.routing_key
    }

    /// The message's wire form, where it has one.
    pub fn payload(&self) -> (payload: Option<&Vec<u8>>)
        ensures
            match payload {
                Some(bytes) => self@.payload == Some(bytes@),
                None => self@.payload is None,
            },
    {
        match &self.payload {
            Some(bytes) => Some(bytes),
            None => None,
        }
    }
}

/// The publishing side of the relay.
#[derive(Clone, Copy, Debug)]
pub struct AMQPPublisher {
    channel: Channel,
}

impl AMQPPublisher {
    /// The channel that the publisher sends on.
    pub closed spec fn channel_of(self) -> Channel {
        self.channel
    }

    /// A publisher on `channel`.
    pub fn new(channel: Channel) -> (publisher: Self)
        ensures
            publisher.channel_of() == channel,
    {
        AMQPPublisher { channel }
    }

    /// The channel that the publisher sends on.
    pub fn channel(&self) -> (channel: Channel)
        ensures
            channel == self.channel_of(),
    {
        self.channel
    }

    /// Begins to publish a message to the queue `queue_name`: the queue is
    /// to be declared. `serialized` is the message's wire form, or `None`
    /// where it has none: then the publication fails once the queue is
    /// declared, and the message is never sent.
    pub fn publish(&self, queue_name: &str, serialized: Option<Vec<u8>>) -> (publication:
        Publication)
        ensures
            publication@ == Outgoing::to_queue(queue_name@, wire_form(serialized)),
            publication@.step == PublishStep::DeclareQueue,
    {
        Publication {
            exchange: DEFAULT_EXCHANGE.to_owned(),
            routing_key: queue_name.to_owned(),
            payload: serialized,
            step: PublishStep::DeclareQueue,
        }
    }

    /// Begins to publish a message to `exchange` under `routing_key`. No
    /// queue is declared, so a message without wire form, for which
    /// `serialized` is `None`, fails at once and nothing is asked of the
    /// broker.
    pub fn publish_with_routing_key(
        &self,
        exchange: &str,
        routing_key: &str,
        serialized: Option<Vec<u8>>,
    ) -> (publication: Result<Publication, PublishError>)
        ensures
            match serialized {
                Some(payload) => publication matches Ok(p) && p@ == Outgoing::to_exchange(
                    exchange@,
                    routing_key@,
                    payload@,
                ),
                None => publication matches Err(e) && e == PublishError::Serialize,
            },
    {
        match serialized {
            Some(payload) => Ok(
                Publication {
                    exchange: exchange.to_owned(),
                    routing_key: routing_key.to_owned(),
                    payload: Some(payload),
                    step: PublishStep::Send,
                },
            ),
            None => Err(PublishError::Serialize),
        }
    }
}

} // verus!
