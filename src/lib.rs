//! Bootstrapping of a GPU rendering context as a chain of typed build stages.
//!
//! The library decides: which accelerator is picked, which queue families are
//! requested, how the swap chain is negotiated, what each stage asks of the
//! native API, what a failing stage must release and in which order a finished
//! context is torn down. The native calls themselves are made by the caller,
//! who hands their outcomes (handles or status codes) back to the stages.
pub mod context;
pub mod error;
pub mod handles;
pub mod physical_device;
pub mod queue_family;
pub mod render_stages;
pub mod shaders;
pub mod stages;
pub mod swap_chain;
