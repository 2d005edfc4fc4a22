//! Transfer metering for byte streams.
//!
//! A [`progress::Progress`] wraps a stream, forwards every read, write and
//! seek to it, counts the bytes that writes deliver, and refuses writes once
//! it has been canceled. An [`item::Item`] is a detached copy of its counters.
//! The counters are specified over the mathematical state in [`model`], and
//! [`laws`] states what holds of every history of a stream.

pub mod item;
pub mod model;
pub mod stream;
pub mod laws;
pub mod progress;
