//! The fatal-error taxonomy of a node.

use vstd::prelude::*;

verus! {

/// Everything that terminates a node.  None of these is retried: the node
/// fails fast and its closed connection is what the distributor observes.
#[derive(Clone, Copy, Debug, PartialEq, Eq, Structural)]
pub enum NodeError {
    /// A frame whose byte count does not match its kind, an unrecognized
    /// tag, or a field byte outside its admissible values.
    FramingError,
    /// A duplicate or contradictory neighbour claim, an order received out
    /// of sequence, a zero node count, or both neighbour ports zero.
    ProtocolError,
    /// The peer closed the connection before an expected frame.
    AbruptDisconnect,
    /// A defensive check that should be unreachable was reached.
    InvariantViolation,
    /// The selected strategy has no resolved behaviour.
    Unimplemented,
}

} // verus!
