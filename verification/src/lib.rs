//! Synthesis of a local multi-service deployment from a declarative rule
//! list: per-rule source/version resolution under a layered override policy,
//! planning of the per-rule checkout/install work, and aggregation of the
//! resulting service definitions into one shared deployment manifest.
pub mod config;
pub mod docker;
pub mod node_pkg;
pub mod orchestrate;
pub mod resolve;
