//! Decision logic of a one-shot chat-completion client: which text becomes the
//! user message, how the request is put together, and what is reported back.
//! Reading the environment, the input stream and the network is left to the
//! caller, which hands the outcomes in as plain values.

pub mod config;
pub mod conversation;
pub mod diagnostics;
pub mod error;
pub mod exchange;
pub mod input;
