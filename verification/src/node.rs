//! The state a node carries through a run, and the small enums that
//! configure it.

use vstd::prelude::*;

use crate::error::NodeError;

verus! {

/// The sorting strategy a node was ordered to run.
#[derive(Clone, Copy, Debug, PartialEq, Eq, Structural)]
pub enum Algo {
    OddEvenTransposition,
    Sasaki,
    Triplet,
}

/// The configured ordering direction: `LessThan` sorts ascending (smaller
/// values end up leftward), `GreaterThan` descending.
#[derive(Clone, Copy, Debug, PartialEq, Eq, Structural)]
pub enum PartialOrder {
    LessThan,
    GreaterThan,
}

/// A node's position relative to the line: `Left` is the left end (it has
/// no left neighbour), `Right` the right end, `Middle` has both neighbours.
#[derive(Clone, Copy, Debug, PartialEq, Eq, Structural)]
pub enum Position {
    Left,
    Right,
    Middle,
}

/// One of the two neighbour links a node may own.
#[derive(Clone, Copy, Debug, PartialEq, Eq, Structural)]
pub enum Side {
    Left,
    Right,
}

impl Side {
    /// The wire byte of this side in a neighbour claim.
    pub fn to_u8(self) -> (r: u8)
        ensures
            r == self.as_byte(),
    {
        match self {
            Side::Left => 0,
            Side::Right => 1,
        }
    }

    /// The claimed side a wire byte names, if any.
    pub fn from_u8(b: u8) -> (r: Option<Side>)
        ensures
            r == Side::spec_from_u8(b),
    {
        match b {
            0 => Some(Side::Left),
            1 => Some(Side::Right),
            _ => None,
        }
    }

    pub open spec fn as_byte(self) -> u8 {
        match self {
            Side::Left => 0,
            Side::Right => 1,
        }
    }

    pub open spec fn spec_from_u8(b: u8) -> Option<Side> {
        if b == 0 {
            Some(Side::Left)
        } else if b == 1 {
            Some(Side::Right)
        } else {
            None
        }
    }

    pub open spec fn spec_opposite(self) -> Side {
        match self {
            Side::Left => Side::Right,
            Side::Right => Side::Left,
        }
    }

    /// The other side.
    pub fn opposite(self) -> (r: Side)
        ensures
            r == self.spec_opposite(),
    {
        match self {
            Side::Left => Side::Right,
            Side::Right => Side::Left,
        }
    }
}

impl Algo {
    /// The wire byte of this strategy.
    pub fn to_u8(self) -> (r: u8)
        ensures
            r == self.as_byte(),
    {
        match self {
            Algo::OddEvenTransposition => 0,
            Algo::Sasaki => 1,
            Algo::Triplet => 2,
        }
    }

    /// The strategy a wire byte names, if any.
    pub fn from_u8(b: u8) -> (r: Option<Algo>)
        ensures
            r == Algo::spec_from_u8(b),
    {
        match b {
            0 => Some(Algo::OddEvenTransposition),
            1 => Some(Algo::Sasaki),
            2 => Some(Algo::Triplet),
            _ => None,
        }
    }

    pub open spec fn as_byte(self) -> u8 {
        match self {
            Algo::OddEvenTransposition => 0,
            Algo::Sasaki => 1,
            Algo::Triplet => 2,
        }
    }

    pub open spec fn spec_from_u8(b: u8) -> Option<Algo> {
        if b == 0 {
            Some(Algo::OddEvenTransposition)
        } else if b == 1 {
            Some(Algo::Sasaki)
        } else if b == 2 {
            Some(Algo::Triplet)
        } else {
            None
        }
    }
}

impl PartialOrder {
    /// The wire byte of this direction.
    pub fn to_u8(self) -> (r: u8)
        ensures
            r == self.as_byte(),
    {
        match self {
            PartialOrder::LessThan => 0,
            PartialOrder::GreaterThan => 1,
        }
    }

    /// The direction a wire byte names, if any.
    pub fn from_u8(b: u8) -> (r: Option<PartialOrder>)
        ensures
            r == PartialOrder::spec_from_u8(b),
    {
        match b {
            0 => Some(PartialOrder::LessThan),
            1 => Some(PartialOrder::GreaterThan),
            _ => None,
        }
    }

    pub open spec fn as_byte(self) -> u8 {
        match self {
            PartialOrder::LessThan => 0,
            PartialOrder::GreaterThan => 1,
        }
    }

    pub open spec fn spec_from_u8(b: u8) -> Option<PartialOrder> {
        if b == 0 {
            Some(PartialOrder::LessThan)
        } else if b == 1 {
            Some(PartialOrder::GreaterThan)
        } else {
            None
        }
    }
}

/// A node's whole configuration and its mutable held value.  It is built
/// once from a received order, mutated once per round by the strategy, and
/// consumed to produce the final value.
#[derive(Clone, Copy, Debug, PartialEq, Eq, Structural)]
pub struct Node {
    pub algo: Algo,
    pub partial_order: PartialOrder,
    pub rounds: u16,
    /// Position relative to the other nodes.
    pub rel_pos: Position,
    /// The node's one-based index in the line; its parity drives the
    /// Odd-Even schedule (Sasaki ignores it).
    pub glb_pos: u16,
    /// The value the node currently holds.
    pub num: i32,
}

impl Node {
    /// A node before any order arrived: the defaults every field is
    /// overwritten from once the order is handled.
    pub fn new() -> (r: Node)
        ensures
            r.algo == Algo::OddEvenTransposition,
            r.partial_order == PartialOrder::LessThan,
            r.rounds == 0,
            r.rel_pos == Position::Middle,
            r.glb_pos == 0,
            r.num == 0,
    {
        Node {
            algo: Algo::OddEvenTransposition,
            partial_order: PartialOrder::LessThan,
            rounds: 0,
            rel_pos: Position::Middle,
            glb_pos: 0,
            num: 0,
        }
    }
}

/// The round count of a strategy on `no_nodes` nodes.
pub open spec fn spec_rounds(algo: Algo, no_nodes: u16) -> u16 {
    if algo == Algo::OddEvenTransposition {
        no_nodes
    } else {
        (no_nodes - 1) as u16
    }
}

/// The number of synchronized rounds a strategy runs for `no_nodes` nodes:
/// Odd-Even Transposition takes `no_nodes` rounds, Sasaki and Triplet take
/// `no_nodes - 1`.
pub fn get_rounds(algo: Algo, no_nodes: u16) -> (r: u16)
    requires
        no_nodes >= 1,
    ensures
        r == spec_rounds(algo, no_nodes),
        algo == Algo::OddEvenTransposition ==> r == no_nodes,
        algo != Algo::OddEvenTransposition ==> r == no_nodes - 1,
{
    match algo {
        Algo::OddEvenTransposition => no_nodes,
        Algo::Sasaki => no_nodes - 1,
        Algo::Triplet => no_nodes - 1,
    }
}

/// The pure helpers a node shares with its surrounding program.
pub struct Utility;

impl Utility {
    /// Same round count as the free function, offered where a caller
    /// already holds the utility handle.
    pub fn get_rounds(algo: Algo, no_nodes: u16) -> (r: u16)
        requires
            no_nodes >= 1,
        ensures
            algo == Algo::OddEvenTransposition ==> r == no_nodes,
            algo != Algo::OddEvenTransposition ==> r == no_nodes - 1,
    {
        get_rounds(algo, no_nodes)
    }
}

/// The single-slot buffer behind a link's receive path: a dedicated
/// receiver deposits each decoded value (with its marked flag; plain
/// exchanges carry `false`), the round logic takes it.  At most one value
/// is ever unconsumed; a second arrival before consumption signals a
/// round-count mismatch between peers and fails fast.
#[derive(Clone, Copy, Debug)]
pub struct LinkBuffer {
    slot: Option<(i32, bool)>,
}

impl LinkBuffer {
    /// What the buffer currently holds.
    pub closed spec fn view(self) -> Option<(i32, bool)> {
        self.slot
    }

    /// An empty buffer.
    pub fn new() -> (r: LinkBuffer)
        ensures
            r.view() == None::<(i32, bool)>,
    {
        LinkBuffer { slot: None }
    }

    /// Stores one arrived value.  A deposit into a full buffer is a
    /// protocol violation and leaves the buffer unchanged.
    pub fn deposit(&mut self, num: i32, is_marked: bool) -> (r: Result<(), NodeError>)
        ensures
            old(self).view() == None::<(i32, bool)> ==> r == Ok::<(), NodeError>(())
                && final(self).view() == Some((num, is_marked)),
            old(self).view() != None::<(i32, bool)> ==> r == Err::<(), NodeError>(
                NodeError::ProtocolError,
            ) && final(self).view() == old(self).view(),
    {
        match self.slot {
            None => {
                self.slot = Some((num, is_marked));
                Ok(())
            },
            Some(_) => Err(NodeError::ProtocolError),
        }
    }

    /// Consumes the buffered value, if one is there.
    pub fn take(&mut self) -> (r: Option<(i32, bool)>)
        ensures
            r == old(self).view(),
            final(self).view() == None::<(i32, bool)>,
    {
        let r = self.slot;
        self.slot = None;
        r
    }
}

} // verus!
