//! Compiler for a binary, message-oriented RPC protocol description: reads an
//! in-memory protocol model (interfaces, requests, events, enums, typed
//! arguments) and emits the source text of dispatch-capable server traits,
//! argument decode/encode sequences, and enum wrapper types.

pub mod codec;
pub mod emit;
pub mod names;
pub mod proto;
pub mod text;
