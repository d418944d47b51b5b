use amqp_relay::amqp::connection::Channel;
use amqp_relay::messaging::publisher::{
    Confirmation, PublishError, PublishEvent, PublishStep, Publication, CONTENT_TYPE,
    DEFAULT_EXCHANGE, DELIVERY_MODE, DURABLE,
};
use amqp_relay::messaging::AMQPPublisher;

fn publisher() -> AMQPPublisher {
    AMQPPublisher::new(Channel { prefetch_count: None })
}

fn begun(queue: &str, payload: &[u8]) -> Publication {
    publisher().publish(queue, Some(payload.to_vec()))
}

#[test]
fn every_message_is_persistent_json() {
    assert_eq!(CONTENT_TYPE, "application/json");
    assert_eq!(DELIVERY_MODE, 2);
    assert_eq!(DEFAULT_EXCHANGE, "");
    assert!(DURABLE);
}

#[test]
fn publisher_keeps_its_channel() {
    let channel = Channel { prefetch_count: Some(4) };
    assert_eq!(AMQPPublisher::new(channel).channel(), channel);
}

#[test]
fn publish_declares_the_queue_first() {
    let publication = begun("orders.out", b"{}");
    assert_eq!(publication.step(), PublishStep::DeclareQueue);
    assert_eq!(publication.exchange(), "");
    assert_eq!(publication.routing_key(), "orders.out");
    assert_eq!(publication.payload().unwrap().as_slice(), b"{}");
    assert_eq!(publication.result(), None);
}

#[test]
fn publish_succeeds_only_after_acknowledgement() {
    let mut publication = begun("q", b"x");
    assert_eq!(publication.advance(PublishEvent::Declared { ok: true }), PublishStep::Send);
    assert_eq!(publication.result(), None);
    assert_eq!(publication.advance(PublishEvent::Sent { ok: true }), PublishStep::AwaitConfirm);
    assert_eq!(publication.result(), None);
    assert_eq!(
        publication.advance(PublishEvent::Confirmed(Confirmation::Ack)),
        PublishStep::Done
    );
    assert_eq!(publication.result(), Some(Ok(())));
}

#[test]
fn unserializable_message_is_not_published() {
    let mut publication = publisher().publish("q", None);
    assert_eq!(publication.step(), PublishStep::DeclareQueue);
    assert_eq!(publication.routing_key(), "q");
    assert_eq!(publication.exchange(), "");
    assert!(publication.payload().is_none());
    assert_eq!(publication.result(), None);
    assert_eq!(
        publication.advance(PublishEvent::Declared { ok: true }),
        PublishStep::Failed(PublishError::Serialize)
    );
    assert_eq!(publication.result(), Some(Err(PublishError::Serialize)));
    let result = publisher().publish_with_routing_key("ex", "key", None);
    assert!(matches!(result, Err(PublishError::Serialize)));
}

#[test]
fn refused_declaration_comes_before_the_missing_wire_form() {
    let mut publication = publisher().publish("q", None);
    assert_eq!(
        publication.advance(PublishEvent::Declared { ok: false }),
        PublishStep::Failed(PublishError::Declare)
    );
    assert_eq!(publication.result(), Some(Err(PublishError::Declare)));
}

#[test]
fn unserializable_message_is_never_sent() {
    let mut publication = publisher().publish("q", None);
    assert_eq!(publication.advance(PublishEvent::Sent { ok: true }), PublishStep::DeclareQueue);
    assert_eq!(
        publication.advance(PublishEvent::Confirmed(Confirmation::Ack)),
        PublishStep::DeclareQueue
    );
    publication.advance(PublishEvent::Declared { ok: true });
    for event in [
        PublishEvent::Sent { ok: true },
        PublishEvent::Confirmed(Confirmation::Ack),
        PublishEvent::Declared { ok: true },
    ] {
        assert_eq!(publication.advance(event), PublishStep::Failed(PublishError::Serialize));
    }
    assert_eq!(publication.result(), Some(Err(PublishError::Serialize)));
}

#[test]
fn declare_failure_ends_the_publication() {
    let mut publication = begun("q", b"x");
    assert_eq!(
        publication.advance(PublishEvent::Declared { ok: false }),
        PublishStep::Failed(PublishError::Declare)
    );
    assert_eq!(publication.result(), Some(Err(PublishError::Declare)));
    assert_eq!(
        publication.advance(PublishEvent::Confirmed(Confirmation::Ack)),
        PublishStep::Failed(PublishError::Declare)
    );
}

#[test]
fn send_failure_ends_the_publication() {
    let mut publication = begun("q", b"x");
    publication.advance(PublishEvent::Declared { ok: true });
    assert_eq!(
        publication.advance(PublishEvent::Sent { ok: false }),
        PublishStep::Failed(PublishError::Publish)
    );
    assert_eq!(publication.result(), Some(Err(PublishError::Publish)));
}

#[test]
fn nack_is_a_rejection() {
    let mut publication = begun("q", b"x");
    publication.advance(PublishEvent::Declared { ok: true });
    publication.advance(PublishEvent::Sent { ok: true });
    assert_eq!(
        publication.advance(PublishEvent::Confirmed(Confirmation::Nack)),
        PublishStep::Failed(PublishError::Rejected)
    );
    assert_eq!(publication.result(), Some(Err(PublishError::Rejected)));
}

#[test]
fn missing_confirmation_is_no_success() {
    let mut publication = begun("q", b"x");
    publication.advance(PublishEvent::Declared { ok: true });
    publication.advance(PublishEvent::Sent { ok: true });
    assert_eq!(
        publication.advance(PublishEvent::Confirmed(Confirmation::NotRequested)),
        PublishStep::Failed(PublishError::Confirm)
    );
    let mut publication = begun("q", b"x");
    publication.advance(PublishEvent::Declared { ok: true });
    publication.advance(PublishEvent::Sent { ok: true });
    assert_eq!(
        publication.advance(PublishEvent::ConfirmFailed),
        PublishStep::Failed(PublishError::Confirm)
    );
    assert_eq!(publication.result(), Some(Err(PublishError::Confirm)));
}

#[test]
fn acknowledgement_out_of_turn_is_ignored() {
    let mut publication = begun("q", b"x");
    assert_eq!(
        publication.advance(PublishEvent::Confirmed(Confirmation::Ack)),
        PublishStep::DeclareQueue
    );
    assert_eq!(publication.advance(PublishEvent::Sent { ok: true }), PublishStep::DeclareQueue);
    publication.advance(PublishEvent::Declared { ok: true });
    assert_eq!(
        publication.advance(PublishEvent::Confirmed(Confirmation::Ack)),
        PublishStep::Send
    );
    assert_eq!(publication.advance(PublishEvent::Declared { ok: true }), PublishStep::Send);
    assert_eq!(publication.result(), None);
}

#[test]
fn finished_publication_stays_finished() {
    let mut publication = begun("q", b"x");
    publication.advance(PublishEvent::Declared { ok: true });
    publication.advance(PublishEvent::Sent { ok: true });
    publication.advance(PublishEvent::Confirmed(Confirmation::Ack));
    assert_eq!(publication.advance(PublishEvent::Sent { ok: false }), PublishStep::Done);
    assert_eq!(
        publication.advance(PublishEvent::Confirmed(Confirmation::Nack)),
        PublishStep::Done
    );
    assert_eq!(publication.result(), Some(Ok(())));
}

#[test]
fn routing_key_variant_declares_nothing() {
    let mut publication = publisher()
        .publish_with_routing_key("orders", "eu.widget", Some(b"payload".to_vec()))
        .unwrap();
    assert_eq!(publication.step(), PublishStep::Send);
    assert_eq!(publication.exchange(), "orders");
    assert_eq!(publication.routing_key(), "eu.widget");
    assert_eq!(publication.payload().unwrap().as_slice(), b"payload");
    assert_eq!(publication.advance(PublishEvent::Declared { ok: true }), PublishStep::Send);
    assert_eq!(publication.advance(PublishEvent::Sent { ok: true }), PublishStep::AwaitConfirm);
    assert_eq!(
        publication.advance(PublishEvent::Confirmed(Confirmation::Ack)),
        PublishStep::Done
    );
}

#[test]
fn routing_key_variant_needs_confirmation_too() {
    let mut publication =
        publisher().publish_with_routing_key("orders", "k", Some(vec![1, 2, 3])).unwrap();
    publication.advance(PublishEvent::Sent { ok: true });
    assert_eq!(publication.result(), None);
    assert_eq!(
        publication.advance(PublishEvent::Confirmed(Confirmation::Nack)),
        PublishStep::Failed(PublishError::Rejected)
    );
}

#[test]
fn empty_payload_is_published_as_it_is() {
    let publication = begun("q", b"");
    assert_eq!(publication.payload().unwrap().len(), 0);
    assert_eq!(publication.step(), PublishStep::DeclareQueue);
}
