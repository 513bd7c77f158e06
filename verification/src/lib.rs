//! A library for submitting a single native-asset payment to a Stellar
//! Horizon gateway: it resolves the sender's account sequence number,
//! builds and signs a transaction envelope, and classifies the gateway's
//! responses into actionable outcomes.
//!
//! The pipeline's decision logic lives here; network I/O is performed by
//! the caller, which feeds responses back into the state machines.

pub mod base64;

pub mod codec;

pub mod config;

pub mod envelope;

pub mod errors;

pub mod json;

pub mod keys;

pub mod pipeline;

pub mod sequence;

pub mod submit;

pub mod tx;
