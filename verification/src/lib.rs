//! Append-only byte buffers with a proved capacity model.
//!
//! Three variants share one storage abstraction, [`ByteStore`]:
//!
//! * [`BoundedBuffer`] has a fixed capacity and rejects an append that would
//!   not fit, leaving the buffer untouched.
//! * [`BufferR`] grows on demand, so an append always succeeds.
//! * [`LowLevelBuffer`] adds an explicit allocate / reallocate / release
//!   lifecycle: it grows by moving to larger storage, fails where that
//!   storage is refused, and answers every use of released storage with an
//!   error value.
//!
//! Every operation is specified over a mathematical model of the buffer
//! ([`StoreModel`], [`ManagedModel`]) and proved against it.

pub mod bounded;
pub mod error;
pub mod growable;
pub mod growth;
pub mod managed;
pub mod order;
pub mod store;

pub use bounded::BoundedBuffer;
pub use error::BufferError;
pub use growable::{BufferR, GrowableBuffer};
pub use managed::{Lifecycle, LowLevelBuffer, ManagedBuffer, ManagedModel};
pub use store::{ByteStore, StoreModel};
