//! The transformation that the relay applies to every message: an order
//! that came in goes out again under a fresh identifier.

use vstd::prelude::*;
use crate::messaging::consumer::AMQPConsumer;
use crate::messaging::publisher::PublishError;

verus! {

/// A price: a 64-bit IEEE 754 number, kept as its bit pattern.
#[derive(Clone, Copy, Debug, PartialEq, Eq, Structural)]
pub struct Price {
    /// The bit pattern.
    pub bits: u64,
}

impl Price {
    /// The price with this bit pattern.
    pub fn from_bits(bits: u64) -> (price: Price)
        ensures
            price.bits == bits,
    {
        Price { bits }
    }

    /// The price's bit pattern.
    pub fn to_bits(self) -> (bits: u64)
        ensures
            bits == self.bits,
    {
        self.bits
    }
}

/// An order as a mathematical value.
pub struct Order {
    /// Who ordered.
    pub user_id: Seq<char>,
    /// What was ordered.
    pub product_name: Seq<char>,
    /// How many.
    pub quantity: i32,
    /// At what price.
    pub price: Price,
}

/// An order under an identifier, as a mathematical value.
pub struct IdentifiedOrder {
    /// The identifier.
    pub id: Seq<char>,
    /// The order.
    pub order: Order,
}

/// A message of the input queue.
#[derive(Clone, Debug)]
pub struct InputMessage {
    pub user_id: String,
    pub product_name: String,
    pub quantity: i32,
    pub price: Price,
}

impl View for InputMessage {
    type V = Order;

    open spec fn view(&self) -> Order {
        Order {
            user_id: self.user_id@,
            product_name: self.product_name@,
            quantity: self.quantity,
            price: self.price,
        }
    }
}

/// A message of the output queue.
#[derive(Clone, Debug)]
pub struct OutputMessage {
    pub id: String,
    pub user_id: String,
    pub product_name: String,
    pub quantity: i32,
    pub price: Price,
}

impl View for OutputMessage {
    type V = IdentifiedOrder;

    open spec fn view(&self) -> IdentifiedOrder {
        IdentifiedOrder {
            id: self.id@,
            order: Order {
                user_id: self.user_id@,
                product_name: self.product_name@,
                quantity: self.quantity,
                price: self.price,
            },
        }
    }
}

/// One message that the broker handed out.
#[derive(Clone, Debug)]
pub struct Delivery {
    /// The handle by which the delivery is acknowledged.
    pub delivery_tag: u64,
    /// The payload.
    pub data: Vec<u8>,
}

/// Why a delivery was not handled.
#[derive(Clone, Copy, Debug, PartialEq, Eq, Structural)]
pub enum HandlerError {
    /// The payload is no message of the input queue.
    Deserialize,
    /// The outgoing message was not published.
    Publish(PublishError),
}

/// A lower-case hexadecimal digit.
pub open spec fn is_lower_hex(c: char) -> bool {
    c == '0' || c == '1' || c == '2' || c == '3' || c == '4' || c == '5' || c == '6' || c == '7'
        || c == '8' || c == '9' || c == 'a' || c == 'b' || c == 'c' || c == 'd' || c == 'e' || c
        == 'f'
}

/// The text form of a random UUID: 36 characters, hyphens after the 8th,
/// 12th, 16th and 20th digit, lower-case hexadecimal digits elsewhere, the
/// 13th digit `4` and the 17th one of `8`, `9`, `a`, `b`.
pub open spec fn is_uuid_v4_text(text: Seq<char>) -> bool {
    &&& text.len() == 36
    &&& forall|i: int|
        0 <= i < 36 ==> if i == 8 || i == 13 || i == 18 || i == 23 {
            #[trigger] text[i] == '-'
        } else {
            is_lower_hex(text[i])
        }
    &&& text[14] == '4'
    &&& (text[19] == '8' || text[19] == '9' || text[19] == 'a' || text[19] == 'b')
}

/// A fresh identifier, from `uuid::Uuid::new_v4` and the `to_string` of the
/// result. The UUID is random, so all that is claimed is its form: the text is
/// the hyphenated lower-case form of a UUID whose version is 4 and whose
/// variant is that of RFC 9562. The call panics where the operating system
/// hands out no random bytes.
#[verifier::external_body]
fn fresh_identifier() -> (id: String)
    ensures
        is_uuid_v4_text(id@),
{
    uuid::Uuid::new_v4().to_string()
}

/// A message on its way from a handled delivery to the output queue.
#[derive(Clone, Debug)]
pub struct Forward {
    /// The delivery that was handled.
    pub delivery: Delivery,
    /// The queue to publish to.
    pub queue: String,
    /// The message to publish.
    pub message: OutputMessage,
}

impl Forward {
    /// The handler's result once the publication of the message is over: the
    /// delivery, to be acknowledged, if the message was published, and the
    /// publication's error if not.
    pub fn complete(self, published: Result<(), PublishError>) -> (handled: Result<
        Delivery,
        HandlerError,
    >)
        ensures
            handled == (match published {
                Ok(_) => Ok::<Delivery, HandlerError>(self.delivery),
                Err(error) => Err::<Delivery, HandlerError>(HandlerError::Publish(error)),
            }),
    {
        match published {
            Ok(_) => Ok(self.delivery),
            Err(error) => Err(HandlerError::Publish(error)),
        }
    }
}

/// The handler of the relay: it forwards every order of the input queue to
/// the output queue.
#[derive(Clone, Debug)]
pub struct QueueProcessor {
    pub consumer: AMQPConsumer,
    pub input_queue: String,
    pub output_queue: String,
}

impl QueueProcessor {
    /// A handler that forwards from `input_queue` to `output_queue`.
    pub fn new(consumer: AMQPConsumer, input_queue: String, output_queue: String) -> (processor:
        Self)
        ensures
            processor.consumer == consumer,
            processor.input_queue == input_queue,
            processor.output_queue == output_queue,
    {
        QueueProcessor { consumer, input_queue, output_queue }
    }

    /// The outgoing message for `input`: the same order under `id`.
    pub fn transform(input: InputMessage, id: String) -> (output: OutputMessage)
        ensures
            output@ == (IdentifiedOrder { id: id@, order: input@ }),
    {
        OutputMessage {
            id,
            user_id: input.user_id,
            product_name: input.product_name,
            quantity: input.quantity,
            price: input.price,
        }
    }

    /// What is to be published for `delivery`, whose payload holds `input`,
    /// under the identifier `id`: one message, to the output queue.
    pub fn forward(&self, delivery: Delivery, input: InputMessage, id: String) -> (forward:
        Forward)
        ensures
            forward.delivery == delivery,
            forward.queue@ == self.output_queue@,
            forward.message@ == (IdentifiedOrder { id: id@, order: input@ }),
    {
        Forward {
            delivery,
            queue: self.output_queue.clone(),
            message: Self::transform(input, id),
        }
    }

    /// Handles one delivery. `input` is what the payload holds, or `None`
    /// where it holds no message of the input queue: then the handling fails
    /// and nothing is to be published. Otherwise one message is to be
    /// published to the output queue, with the order as it came in and a
    /// fresh identifier.
    pub fn handle(&self, delivery: Delivery, input: Option<InputMessage>) -> (handled: Result<
        Forward,
        HandlerError,
    >)
        ensures
            match input {
                None => handled matches Err(error) && error == HandlerError::Deserialize,
                Some(message) => handled matches Ok(forward) && forward.delivery == delivery
                    && forward.queue@ == self.output_queue@ && forward.message@.order == message@
                    && is_uuid_v4_text(forward.message@.id),
            },
    {
        match input {
            None => Err(HandlerError::Deserialize),
            Some(message) => {
                let id: String = fresh_identifier();
                Ok(self.forward(delivery, message, id))
            },
        }
    }
}

} // verus!
