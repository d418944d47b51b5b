//! Decision logic of a relay between two queues of a message broker.
//!
//! The library holds what the relay decides: how often to retry the first
//! connection, in which order a message is declared, published and confirmed,
//! when a delivery may start under the concurrency limit, what is counted and
//! what is acknowledged. Talking to the broker is left to the caller, who reports
//! every outcome back as an event and carries out what the library answers.

pub mod amqp;
pub mod config;
pub mod messaging;
pub mod metrics;
