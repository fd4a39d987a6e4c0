//! A fixed-capacity, single-item-transfer channel built from two primitives:
//! a mutual-exclusion lock and a circular buffer.
//!
//! The ring buffer carries the functional content: a fixed number of slots,
//! wrap-around read and write positions, and an explicit `full` flag that
//! disambiguates the state where the two positions coincide. Its contracts
//! are stated over an abstract sequence view holding the live elements in
//! first-in, first-out order.
//!
//! The lock is a bare gate: it owns no data, and every channel operation
//! brackets its buffer access between an acquisition and a release. Holding
//! the lock is the stated license to touch the buffer; the channel's
//! well-formedness invariant says the lock is free between operations.

pub mod channel;
pub mod ring_buffer;
pub mod spinlock;
