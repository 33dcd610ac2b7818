//! Bindings for proving and checking membership actions of an anonymous
//! circle with a Noir circuit.
//!
//! The proving engine itself lives outside this crate. What is decided here
//! is what the engine is asked (which circuit, which reference string, which
//! signal values in which order) and how its answer is reported to the host.

pub mod anon_circle;
pub mod greeting;
pub mod report;

pub use greeting::mopro_uniffi_hello_world;
