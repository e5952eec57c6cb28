//! One-producer, many-consumer fan-out of a single event, under four ways
//! of representing the payload: a shared handle, a small scalar, an owned
//! aggregate cloned per consumer, and independent per-consumer duplicates.

pub mod event;
pub mod fanout;
pub mod strategy;
