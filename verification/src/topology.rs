//! The topology rules: how the two assigned neighbour ports classify a
//! node, which outbound claims it sends, and how inbound claims are bound
//! to sides.
//!
//! Establishment itself (connecting, accepting) is the surrounding
//! program's work; everything it decides — the classification, the claim
//! each outbound connection carries, whether an inbound claim is
//! admissible, and when the expected set is complete — is decided here.

use vstd::prelude::*;

use crate::error::NodeError;
use crate::node::{Position, Side};

verus! {

/// The position the assigned ports dictate: a zero port means the side is
/// absent.  Both ports zero is a protocol error — every run has at least
/// two nodes, so every node has a neighbour.
pub open spec fn spec_classify(l_port: u16, r_port: u16) -> Result<Position, NodeError> {
    if l_port == 0 && r_port == 0 {
        Err(NodeError::ProtocolError)
    } else if l_port == 0 {
        Ok(Position::Left)
    } else if r_port == 0 {
        Ok(Position::Right)
    } else {
        Ok(Position::Middle)
    }
}

/// Classifies a node from its assigned neighbour ports.  Fails with a
/// protocol error exactly when both ports are zero.
pub fn classify(l_port: u16, r_port: u16) -> (r: Result<Position, NodeError>)
    ensures
        r == spec_classify(l_port, r_port),
        (l_port == 0 && r_port == 0) <==> r == Err::<Position, NodeError>(
            NodeError::ProtocolError,
        ),
{
    if l_port == 0 && r_port == 0 {
        Err(NodeError::ProtocolError)
    } else if l_port == 0 {
        Ok(Position::Left)
    } else if r_port == 0 {
        Ok(Position::Right)
    } else {
        Ok(Position::Middle)
    }
}

/// Whether a node of this position owns a link on `side`: the left end
/// has no left link, the right end no right link.
pub open spec fn spec_has_side(rel_pos: Position, side: Side) -> bool {
    match side {
        Side::Left => rel_pos != Position::Left,
        Side::Right => rel_pos != Position::Right,
    }
}

/// Whether this node owns a link on `side`.
pub fn has_side(rel_pos: Position, side: Side) -> (r: bool)
    ensures
        r == spec_has_side(rel_pos, side),
{
    match side {
        Side::Left => rel_pos != Position::Left,
        Side::Right => rel_pos != Position::Right,
    }
}

/// How many inbound connections a node waits for: one per owned side.
pub fn expected_inbound(rel_pos: Position) -> (r: u8)
    ensures
        rel_pos == Position::Middle ==> r == 2,
        rel_pos != Position::Middle ==> r == 1,
{
    match rel_pos {
        Position::Middle => 2,
        _ => 1,
    }
}

/// The side an outbound connection claims, from the receiver's point of
/// view: connecting to the neighbour on this node's right claims `Left`,
/// since this node is that neighbour's left neighbour.
pub fn claim_for(connect_side: Side) -> (r: Side)
    ensures
        connect_side == Side::Right ==> r == Side::Left,
        connect_side == Side::Left ==> r == Side::Right,
{
    match connect_side {
        Side::Right => Side::Left,
        Side::Left => Side::Right,
    }
}

/// The accept-loop bookkeeping: which sides already have an inbound
/// connection bound to them.
#[derive(Clone, Copy, Debug, PartialEq, Eq, Structural)]
pub struct Binding {
    pub l_bound: bool,
    pub r_bound: bool,
}

impl Binding {
    /// Whether an inbound connection is bound to `side`.
    pub open spec fn spec_bound(self, side: Side) -> bool {
        match side {
            Side::Left => self.l_bound,
            Side::Right => self.r_bound,
        }
    }

    /// Whether a claim is admissible: it must name a side this node has,
    /// and one not already bound.
    pub open spec fn spec_accepts(self, rel_pos: Position, claimed: Side) -> bool {
        spec_has_side(rel_pos, claimed) && !self.spec_bound(claimed)
    }

    /// Whether every owned side is bound, so establishment is complete.
    pub open spec fn spec_complete(self, rel_pos: Position) -> bool {
        &&& spec_has_side(rel_pos, Side::Left) ==> self.l_bound
        &&& spec_has_side(rel_pos, Side::Right) ==> self.r_bound
    }

    /// No side bound yet.
    pub fn new() -> (r: Binding)
        ensures
            r == (Binding { l_bound: false, r_bound: false }),
    {
        Binding { l_bound: false, r_bound: false }
    }

    /// Binds an inbound connection by its claim.  A claim matching this
    /// node's own missing side, or a duplicate claim for an already-bound
    /// side, is a protocol violation and changes nothing.
    pub fn bind(&mut self, rel_pos: Position, claimed: Side) -> (r: Result<(), NodeError>)
        ensures
            old(self).spec_accepts(rel_pos, claimed) ==> {
                &&& r == Ok::<(), NodeError>(())
                &&& final(self).spec_bound(claimed)
                &&& final(self).spec_bound(claimed.spec_opposite()) == old(self).spec_bound(
                    claimed.spec_opposite(),
                )
            },
            !old(self).spec_accepts(rel_pos, claimed) ==> {
                &&& r == Err::<(), NodeError>(NodeError::ProtocolError)
                &&& *final(self) == *old(self)
            },
    {
        if !has_side(rel_pos, claimed) {
            return Err(NodeError::ProtocolError);
        }
        match claimed {
            Side::Left => {
                if self.l_bound {
                    Err(NodeError::ProtocolError)
                } else {
                    self.l_bound = true;
                    Ok(())
                }
            },
            Side::Right => {
                if self.r_bound {
                    Err(NodeError::ProtocolError)
                } else {
                    self.r_bound = true;
                    Ok(())
                }
            },
        }
    }

    /// Whether establishment is complete for this node.
    pub fn complete(&self, rel_pos: Position) -> (r: bool)
        ensures
            r == self.spec_complete(rel_pos),
    {
        let left_ok = !has_side(rel_pos, Side::Left) || self.l_bound;
        let right_ok = !has_side(rel_pos, Side::Right) || self.r_bound;
        left_ok && right_ok
    }
}

} // verus!
