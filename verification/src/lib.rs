//! Labelled nodes that link to shared downstream nodes.
//!
//! Shared nodes live in a [`pool::NodePool`] and are named by copyable
//! [`handle::NodeRef`] handles, so one node may be the downstream of many
//! others and a change made through any handle is seen through all of them.
pub mod model;
pub mod handle;
pub mod node;
pub mod pool;
pub mod demo;
pub mod laws;
