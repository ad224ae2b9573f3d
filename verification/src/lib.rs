//! A plugin hook bridge: adapts a plugin described as a bag of
//! optionally-present named callbacks into the fixed hook interface a
//! build pipeline drives.
//!
//! The adapter owns a hook registry (which of the six hooks the plugin
//! implements), a write-once cache of the plugin's id filter, and the
//! gating and error-translation rules around each hook. Crossing the
//! runtime boundary to the callbacks themselves is the driver's job:
//! each hook method here decides whether the boundary must be crossed
//! and with which arguments, and a matching completion method turns the
//! outcome of the crossing into the pipeline's result or error shape.

pub mod adapter;
pub mod error;
pub mod filter;
pub mod hooks;
