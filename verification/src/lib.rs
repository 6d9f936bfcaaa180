//! Private profile data of a participant in an agent-centric record store.
//!
//! A participant keeps sensitive profile fields in a record that only its
//! author can read, and reaches it from the public profile through links:
//! identity to profile, profile to private data. This crate holds the
//! decisions of that subsystem and a model of the store they are made
//! against:
//!
//! - [`address`]: content addresses as raw hash bytes;
//! - [`person`]: the private payload and the inputs of the operations;
//! - [`substrate`]: the record store and the link graph, as an in-memory model
//!   with the visibility rule;
//! - [`controller`]: the three operations as state machines that ask the store
//!   for one thing at a time;
//! - [`private_data`]: the operations run against the model, with their
//!   contracts;
//! - [`laws`]: what holds of the store and of the operations together.

pub mod address;
pub mod controller;
pub mod laws;
pub mod person;
pub mod private_data;
pub mod substrate;
