//! Bootstrap of a Vulkan rendering context: negotiation of instance
//! extensions and validation layers, assembly of the instance creation
//! descriptor, routing of diagnostic messages, and ordered teardown.
//!
//! The library decides; the caller performs the Vulkan commands it is told to
//! perform and hands their results back.
//!
//! - [`vk`] is the boundary to `vulkanalia`: what is taken from it on trust.
//! - [`version`] holds version triples and their order.
//! - [`negotiation`] settles layers, extensions and creation flags.
//! - [`descriptor`] holds what instance creation and messenger attachment
//!   consume.
//! - [`diagnostics`] routes diagnostic messages by severity.
//! - [`app`] is the context itself, made step by step, and its teardown.
//! - [`laws`] proves what holds of every way a context can come to be.

pub mod app;
pub mod descriptor;
pub mod diagnostics;
pub mod error;
pub mod laws;
pub mod negotiation;
pub mod version;
pub mod vk;
