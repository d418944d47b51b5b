//! The connection to the broker and its channels.

pub mod connection;

pub use connection::AMQPConnection;
