//! A verified model of the client-side adaptation layer for an asynchronous
//! sound-server protocol library.
//!
//! The native client library owns every protocol state machine; a binding
//! around it only marshals arguments, translates raw returns (null pointers,
//! sentinel integers, error codes) into typed results, and keeps the
//! foreign reference-count discipline. This crate states and proves that
//! adaptation contract over plain values: the foreign calls themselves are
//! performed by a host outside the library, which hands raw outcomes in and
//! receives teardown plans and marshalled arguments back.

pub mod context;
pub mod ctext;
pub mod def;
pub mod error;
pub mod handle;
pub mod operation;
pub mod sample;
pub mod stream;
