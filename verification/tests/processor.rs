use amqp_relay::amqp::connection::Channel;
use amqp_relay::messaging::consumer::{Command, ConsumerEvent};
use amqp_relay::messaging::processor::{Delivery, Forward, HandlerError, Price};
use amqp_relay::messaging::publisher::{
    Confirmation, PublishError, PublishEvent, PublishStep,
};
use amqp_relay::messaging::{
    AMQPConsumer, AMQPPublisher, InputMessage, OutputMessage, QueueProcessor,
};
use amqp_relay::metrics::Metrics;
use serde_json::{Number, Value};

fn processor() -> QueueProcessor {
    let publisher = AMQPPublisher::new(Channel { prefetch_count: None });
    let consumer =
        AMQPConsumer::new(Channel { prefetch_count: Some(10) }, publisher, Metrics::new(), 2);
    QueueProcessor::new(consumer, "orders.in".to_string(), "orders.out".to_string())
}

fn widget() -> InputMessage {
    InputMessage {
        user_id: "u1".to_string(),
        product_name: "widget".to_string(),
        quantity: 3,
        price: Price::from_bits(9.99f64.to_bits()),
    }
}

fn delivery(tag: u64, data: &[u8]) -> Delivery {
    Delivery { delivery_tag: tag, data: data.to_vec() }
}

/// Reads a payload as a message of the input queue would be read from JSON.
fn decode(payload: &[u8]) -> Option<InputMessage> {
    let value: Value = serde_json::from_slice(payload).ok()?;
    let quantity = value.get("quantity")?.as_i64()?;
    Some(InputMessage {
        user_id: value.get("user_id")?.as_str()?.to_string(),
        product_name: value.get("product_name")?.as_str()?.to_string(),
        quantity: i32::try_from(quantity).ok()?,
        price: Price::from_bits(value.get("price")?.as_f64()?.to_bits()),
    })
}

/// Writes a message of the output queue as JSON.
fn encode(message: &OutputMessage) -> Option<Vec<u8>> {
    let mut object = serde_json::Map::new();
    object.insert("id".to_string(), Value::String(message.id.clone()));
    object.insert("user_id".to_string(), Value::String(message.user_id.clone()));
    object.insert("product_name".to_string(), Value::String(message.product_name.clone()));
    object.insert("quantity".to_string(), Value::Number(Number::from(message.quantity)));
    let price = Number::from_f64(f64::from_bits(message.price.to_bits()))?;
    object.insert("price".to_string(), Value::Number(price));
    serde_json::to_vec(&Value::Object(object)).ok()
}

fn assert_uuid_v4(id: &str) {
    assert_eq!(id.len(), 36);
    for (i, c) in id.chars().enumerate() {
        if i == 8 || i == 13 || i == 18 || i == 23 {
            assert_eq!(c, '-');
        } else {
            assert!(c.is_ascii_digit() || ('a'..='f').contains(&c));
        }
    }
    assert_eq!(id.as_bytes()[14], b'4');
    assert!(b"89ab".contains(&id.as_bytes()[19]));
}

#[test]
fn price_keeps_its_bits() {
    let price = Price::from_bits(9.99f64.to_bits());
    assert_eq!(price.to_bits(), 9.99f64.to_bits());
    assert_eq!(f64::from_bits(price.to_bits()), 9.99);
    assert_eq!(price, Price { bits: 0x4023_FAE1_47AE_147B });
}

#[test]
fn processor_keeps_its_queues() {
    let processor = processor();
    assert_eq!(processor.input_queue, "orders.in");
    assert_eq!(processor.output_queue, "orders.out");
    assert_eq!(processor.consumer.concurrency(), 2);
}

#[test]
fn transform_keeps_the_order_and_sets_the_identifier() {
    let output = QueueProcessor::transform(widget(), "abc".to_string());
    assert_eq!(output.id, "abc");
    assert_eq!(output.user_id, "u1");
    assert_eq!(output.product_name, "widget");
    assert_eq!(output.quantity, 3);
    assert_eq!(f64::from_bits(output.price.to_bits()), 9.99);
}

#[test]
fn forward_goes_to_the_output_queue() {
    let forward = processor().forward(delivery(5, b"payload"), widget(), "id-1".to_string());
    assert_eq!(forward.queue, "orders.out");
    assert_eq!(forward.delivery.delivery_tag, 5);
    assert_eq!(forward.delivery.data, b"payload");
    assert_eq!(forward.message.id, "id-1");
    assert_eq!(forward.message.user_id, "u1");
}

#[test]
fn valid_message_is_forwarded_with_a_fresh_identifier() {
    let forward = processor().handle(delivery(1, b"{}"), Some(widget())).unwrap();
    assert_eq!(forward.queue, "orders.out");
    assert_eq!(forward.delivery.delivery_tag, 1);
    assert_eq!(forward.delivery.data, b"{}");
    assert_eq!(forward.message.user_id, "u1");
    assert_eq!(forward.message.product_name, "widget");
    assert_eq!(forward.message.quantity, 3);
    assert_eq!(forward.message.price, widget().price);
    assert!(!forward.message.id.is_empty());
    assert_uuid_v4(&forward.message.id);
}

#[test]
fn identifiers_differ_from_message_to_message() {
    let processor = processor();
    let mut seen: Vec<String> = Vec::new();
    for tag in 0..100 {
        let forward = processor.handle(delivery(tag, b""), Some(widget())).unwrap();
        assert_uuid_v4(&forward.message.id);
        assert!(!seen.contains(&forward.message.id));
        seen.push(forward.message.id);
    }
}

#[test]
fn repeated_delivery_gets_a_new_identifier() {
    let processor = processor();
    let first = processor.handle(delivery(1, b"same"), Some(widget())).unwrap();
    let second = processor.handle(delivery(1, b"same"), Some(widget())).unwrap();
    assert_ne!(first.message.id, second.message.id);
    assert_eq!(first.message.user_id, second.message.user_id);
}

#[test]
fn malformed_payload_fails_and_publishes_nothing() {
    let handled = processor().handle(delivery(1, b"not json"), None);
    assert!(matches!(handled, Err(HandlerError::Deserialize)));
}

#[test]
fn extreme_values_are_preserved() {
    let input = InputMessage {
        user_id: String::new(),
        product_name: "w\u{00e4}re \"x\"".to_string(),
        quantity: i32::MIN,
        price: Price::from_bits(f64::MAX.to_bits()),
    };
    let forward = processor().handle(delivery(0, b""), Some(input)).unwrap();
    assert_eq!(forward.message.user_id, "");
    assert_eq!(forward.message.product_name, "w\u{00e4}re \"x\"");
    assert_eq!(forward.message.quantity, i32::MIN);
    assert_eq!(f64::from_bits(forward.message.price.to_bits()), f64::MAX);
}

#[test]
fn published_message_hands_the_delivery_back() {
    let forward: Forward = processor().handle(delivery(9, b"abc"), Some(widget())).unwrap();
    let handled = forward.complete(Ok(())).unwrap();
    assert_eq!(handled.delivery_tag, 9);
    assert_eq!(handled.data, b"abc");
}

#[test]
fn failed_publication_fails_the_handler() {
    for error in [
        PublishError::Serialize,
        PublishError::Declare,
        PublishError::Publish,
        PublishError::Confirm,
        PublishError::Rejected,
    ] {
        let forward = processor().handle(delivery(9, b"abc"), Some(widget())).unwrap();
        let handled = forward.complete(Err(error));
        assert_eq!(handled.err().unwrap(), HandlerError::Publish(error));
    }
}

#[test]
fn one_order_end_to_end() {
    let payload = br#"{"user_id":"u1","product_name":"widget","quantity":3,"price":9.99}"#;
    let mut processor = processor();
    let publisher = processor.consumer.publisher();

    assert_eq!(processor.consumer.start_consuming("orders.in"), Command::DeclareQueue);
    processor.consumer.on_event(ConsumerEvent::QueueDeclared);
    processor.consumer.on_event(ConsumerEvent::Subscribed);
    let reaction = processor.consumer.on_event(ConsumerEvent::Delivery { tag: 1 });
    assert_eq!(reaction.dispatch, Some(1));

    let forward = processor.handle(delivery(1, payload), decode(payload)).unwrap();
    let mut published: Vec<(String, Vec<u8>)> = Vec::new();
    let mut publication = publisher.publish(&forward.queue, encode(&forward.message));
    assert_eq!(publication.advance(PublishEvent::Declared { ok: true }), PublishStep::Send);
    published.push((publication.routing_key().clone(), publication.payload().unwrap().clone()));
    publication.advance(PublishEvent::Sent { ok: true });
    publication.advance(PublishEvent::Confirmed(Confirmation::Ack));
    let handled = forward.clone().complete(publication.result().unwrap());
    let reaction = processor.consumer.on_event(ConsumerEvent::Finished {
        tag: 1,
        success: handled.is_ok(),
        nanos: 2_000_000,
    });
    assert_eq!(reaction.acknowledge, Some(1));

    assert_eq!(published.len(), 1);
    assert_eq!(published[0].0, "orders.out");
    let sent: Value = serde_json::from_slice(&published[0].1).unwrap();
    let id = sent.get("id").unwrap().as_str().unwrap().to_string();
    assert_uuid_v4(&id);
    let expected: Value = serde_json::from_str(&format!(
        r#"{{"id":"{}","user_id":"u1","product_name":"widget","quantity":3,"price":9.99}}"#,
        id
    ))
    .unwrap();
    assert_eq!(sent, expected);

    let metrics = processor.consumer.metrics();
    assert_eq!(metrics.messages_received(), 1);
    assert_eq!(metrics.messages_processed(), 1);
    assert_eq!(metrics.messages_failed(), 0);
    assert_eq!(metrics.processing_duration().count(), 1);
}

#[test]
fn malformed_payload_end_to_end() {
    for payload in [
        &b"not json"[..],
        &br#"{"user_id":"u1","product_name":"widget","quantity":3}"#[..],
        &br#"{"user_id":"u1","product_name":"widget","quantity":"3","price":9.99}"#[..],
        &b""[..],
    ] {
        let mut processor = processor();
        processor.consumer.start_consuming("orders.in");
        processor.consumer.on_event(ConsumerEvent::QueueDeclared);
        processor.consumer.on_event(ConsumerEvent::Subscribed);
        processor.consumer.on_event(ConsumerEvent::Delivery { tag: 1 });
        let handled = processor.handle(delivery(1, payload), decode(payload));
        assert!(matches!(handled, Err(HandlerError::Deserialize)));
        let reaction = processor.consumer.on_event(ConsumerEvent::Finished {
            tag: 1,
            success: handled.is_ok(),
            nanos: 10,
        });
        assert_eq!(reaction.acknowledge, None);
        let metrics = processor.consumer.metrics();
        assert_eq!(metrics.messages_received(), 1);
        assert_eq!(metrics.messages_failed(), 1);
        assert_eq!(metrics.messages_processed(), 0);
    }
}
