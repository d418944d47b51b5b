//! Consuming, transforming and publishing messages.

pub mod consumer;
pub mod limiter;
pub mod processor;
pub mod publisher;

pub use consumer::AMQPConsumer;
pub use limiter::ConcurrencyLimiter;
pub use processor::{InputMessage, OutputMessage, QueueProcessor};
pub use publisher::AMQPPublisher;
