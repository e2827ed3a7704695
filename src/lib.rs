//! Typed HTTP-style event envelopes for serverless handlers, a verified
//! mapping between envelopes and their JSON wire shape, and the start-up
//! decisions of a handler's entry point (managed service loop, or one local
//! invocation with a fabricated event).

pub mod entry;
pub mod json;
pub mod payload;
pub mod wire;
