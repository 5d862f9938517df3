//! A verified model of a result-passing boundary between a memory-managed
//! core and a foreign caller.
//!
//! Every heap block that crosses the boundary is addressed by an opaque
//! handle and has exactly one owner and exactly one release path. The
//! [`memory`] module provides the ownership-transfer primitive: a store of
//! slots in which a transferred value lives until its handle is released.
//! The [`result`] module builds the outcome envelope on top of it: a flat
//! two-field record that carries either a success handle or an error
//! descriptor (code plus message handle), together with the constructors
//! for the several success and failure shapes and the destructor that
//! transitively releases everything an envelope owns.

pub mod memory;
pub mod result;
