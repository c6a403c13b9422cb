//! Human-readable reports on the elements of a plugin-based media framework.
//!
//! The crate turns already-resolved element metadata (factory and plugin
//! details, the type hierarchy, pad templates, capabilities and properties)
//! into lines of toned text. Every function carries a contract that fixes the
//! lines it produces.

pub mod caps;
pub mod details;
pub mod hierarchy;
pub mod order;
pub mod pads;
pub mod property;
pub mod report;
pub mod style;
pub mod text;
