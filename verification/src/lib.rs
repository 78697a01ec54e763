//! Distributed sorting on a line topology: the node-side core.
//!
//! A line of worker nodes, each owning one signed value, converges on a
//! globally sorted arrangement after a fixed number of synchronized rounds.
//! This crate holds the logic of a node: the binary wire protocol, the
//! neighbour-topology rules, the round engines of the sorting strategies,
//! and a lockstep simulation of a whole line of nodes.  All I/O (sockets,
//! threads, argument handling) lives outside, in the surrounding program.

pub mod engine;
pub mod error;
pub mod node;
pub mod session;
pub mod sim;
pub mod topology;
pub mod wire;

pub use error::NodeError;
pub use node::{get_rounds, Algo, LinkBuffer, Node, PartialOrder, Position, Side, Utility};
