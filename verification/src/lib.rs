//! Verified core of a Krustlet provider that runs waSCC / wasmCloud actors,
//! of the wasmCloud logging capability provider, and of the demo actors.

pub mod actors;
pub mod logging;
pub mod provider;
pub mod registry;
pub mod startup;
pub mod text;
