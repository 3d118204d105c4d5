//! A single-input, multi-output message relay engine.
//!
//! The engine decides; the program around it performs. Every function here
//! maps plain values to plain values: descriptors to the kind of transport
//! they name, messages to the effects that deliver them, and the outcome of
//! each transport operation to what becomes of the connection it was tried on.

pub mod broker;
pub mod descriptor;
pub mod effect;
pub mod fanout;
pub mod pass;
pub mod receiver;
pub mod relay;
