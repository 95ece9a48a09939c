//! Configuration of an ordinals indexing node.
//!
//! A `Config` is the one value from which every subsystem of the node takes
//! its parameters. It is made once, by one of the named profiles or by
//! whoever loads it, and only read afterwards: what the indexer and the event
//! observer are handed is derived from it whenever they start.
//!
//! Contracts are stated over views, in which text is a sequence of
//! characters, so that they hold of what a configuration says and not of how
//! its strings are stored.

pub mod config;
pub mod laws;
pub mod network;
pub mod paths;
pub mod profiles;
pub mod resources;
pub mod subsystems;
