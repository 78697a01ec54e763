//! The binary wire protocol: little-endian, fixed-layout, tagged frames.
//!
//! Every frame opens with a tag byte.  The layouts, tag included, are:
//! Order 15 bytes (tag, algo, order, nodeCount 2, leftPort 2, rightPort 2,
//! globalIndex 2, value 4 signed); Start and Ready 1 byte; Report 3 bytes
//! (tag, port 2); Finish 5 bytes (tag, value 4 signed); NeighbourConnect
//! 2 bytes (tag, claimed side); Exchange 5 bytes plain or 6 bytes with a
//! marked flag before the value.  Decoding fails with a framing error when
//! the byte count does not exactly match the frame's size, the tag is
//! unrecognized, or a field byte is outside its admissible values.

use vstd::prelude::*;
use vstd::arithmetic::div_mod::{
    lemma_div_denominator, lemma_fundamental_div_mod, lemma_small_mod,
};

use crate::error::NodeError;
use crate::node::{Algo, PartialOrder, Side};

verus! {

/// The tag byte that opens every frame.
#[derive(Clone, Copy, Debug, PartialEq, Eq, Structural)]
pub enum CommFlags {
    // Sent by the distributor to a node.
    Order,
    Start,
    // Sent by a node to the distributor.
    Report,
    Ready,
    Finish,
    // Sent from one node to another.
    NeighbourConnect,
    Exchange,
}

impl CommFlags {
    pub open spec fn as_byte(self) -> u8 {
        match self {
            CommFlags::Order => 0,
            CommFlags::Start => 1,
            CommFlags::Report => 2,
            CommFlags::Ready => 3,
            CommFlags::Finish => 4,
            CommFlags::NeighbourConnect => 5,
            CommFlags::Exchange => 6,
        }
    }

    /// The wire value of this tag.
    pub fn to_u8(self) -> (r: u8)
        ensures
            r == self.as_byte(),
    {
        match self {
            CommFlags::Order => 0,
            CommFlags::Start => 1,
            CommFlags::Report => 2,
            CommFlags::Ready => 3,
            CommFlags::Finish => 4,
            CommFlags::NeighbourConnect => 5,
            CommFlags::Exchange => 6,
        }
    }
}

/// A decoded frame.  `Exchange` and `MarkedExchange` share a tag and are
/// told apart by their sizes.
#[derive(Clone, Copy, Debug, PartialEq, Eq, Structural)]
pub enum Message {
    Order {
        algo: Algo,
        order: PartialOrder,
        node_count: u16,
        left_port: u16,
        right_port: u16,
        global_index: u16,
        value: i32,
    },
    Start,
    Report { port: u16 },
    Ready,
    Finish { value: i32 },
    NeighbourConnect { claimed: Side },
    Exchange { value: i32 },
    MarkedExchange { value: i32, marked: bool },
}

/// The unsigned 32-bit representative of a signed value, as two's
/// complement writes it on the wire.
pub open spec fn rep32(v: i32) -> int {
    if v >= 0 {
        v as int
    } else {
        v + 0x1_0000_0000
    }
}

/// The value two little-endian bytes spell.
pub open spec fn le16(b0: u8, b1: u8) -> u16 {
    (b0 + 256 * b1) as u16
}

/// The unsigned value four little-endian bytes spell.
pub open spec fn le32(b0: u8, b1: u8, b2: u8, b3: u8) -> int {
    b0 + 256 * b1 + 65536 * b2 + 16777216 * b3
}

/// The signed value four little-endian bytes spell.
pub open spec fn le32_signed(b0: u8, b1: u8, b2: u8, b3: u8) -> i32 {
    if le32(b0, b1, b2, b3) < 0x8000_0000 {
        le32(b0, b1, b2, b3) as i32
    } else {
        (le32(b0, b1, b2, b3) - 0x1_0000_0000) as i32
    }
}

/// The two little-endian bytes of a 16-bit value.
pub open spec fn u16_bytes(v: u16) -> Seq<u8> {
    seq![(v % 256) as u8, (v / 256) as u8]
}

/// The four little-endian bytes of a signed 32-bit value.
pub open spec fn i32_bytes(v: i32) -> Seq<u8> {
    seq![
        (rep32(v) % 256) as u8,
        ((rep32(v) / 256) % 256) as u8,
        ((rep32(v) / 65536) % 256) as u8,
        ((rep32(v) / 16777216) % 256) as u8,
    ]
}

/// The exact bytes a message is sent as.
pub open spec fn spec_encode(m: Message) -> Seq<u8> {
    match m {
        Message::Order { algo, order, node_count, left_port, right_port, global_index, value } => (
            seq![0u8, algo.as_byte(), order.as_byte()] + u16_bytes(node_count)
                + u16_bytes(left_port) + u16_bytes(right_port) + u16_bytes(global_index)
                + i32_bytes(value)
        ),
        Message::Start => seq![1u8],
        Message::Report { port } => seq![2u8] + u16_bytes(port),
        Message::Ready => seq![3u8],
        Message::Finish { value } => seq![4u8] + i32_bytes(value),
        Message::NeighbourConnect { claimed } => seq![5u8, claimed.as_byte()],
        Message::Exchange { value } => seq![6u8] + i32_bytes(value),
        Message::MarkedExchange { value, marked } => (
            seq![6u8, if marked { 1u8 } else { 0u8 }] + i32_bytes(value)
        ),
    }
}

/// The message a byte string spells, or nothing where it breaks framing.
pub open spec fn spec_decode(s: Seq<u8>) -> Option<Message> {
    if s.len() == 0 {
        None
    } else if s[0] == 0 {
        if s.len() == 15 {
            match (Algo::spec_from_u8(s[1]), PartialOrder::spec_from_u8(s[2])) {
                (Some(algo), Some(order)) => Some(
                    Message::Order {
                        algo,
                        order,
                        node_count: le16(s[3], s[4]),
                        left_port: le16(s[5], s[6]),
                        right_port: le16(s[7], s[8]),
                        global_index: le16(s[9], s[10]),
                        value: le32_signed(s[11], s[12], s[13], s[14]),
                    },
                ),
                _ => None,
            }
        } else {
            None
        }
    } else if s[0] == 1 {
        if s.len() == 1 {
            Some(Message::Start)
        } else {
            None
        }
    } else if s[0] == 2 {
        if s.len() == 3 {
            Some(Message::Report { port: le16(s[1], s[2]) })
        } else {
            None
        }
    } else if s[0] == 3 {
        if s.len() == 1 {
            Some(Message::Ready)
        } else {
            None
        }
    } else if s[0] == 4 {
        if s.len() == 5 {
            Some(Message::Finish { value: le32_signed(s[1], s[2], s[3], s[4]) })
        } else {
            None
        }
    } else if s[0] == 5 {
        if s.len() == 2 {
            match Side::spec_from_u8(s[1]) {
                Some(claimed) => Some(Message::NeighbourConnect { claimed }),
                None => None,
            }
        } else {
            None
        }
    } else if s[0] == 6 {
        if s.len() == 5 {
            Some(Message::Exchange { value: le32_signed(s[1], s[2], s[3], s[4]) })
        } else if s.len() == 6 {
            if s[1] == 0 || s[1] == 1 {
                Some(
                    Message::MarkedExchange {
                        value: le32_signed(s[2], s[3], s[4], s[5]),
                        marked: s[1] == 1,
                    },
                )
            } else {
                None
            }
        } else {
            None
        }
    } else {
        None
    }
}

/// Decoding as the node performs it: a framing error exactly where no
/// message is spelled.
pub open spec fn spec_decode_result(s: Seq<u8>) -> Result<Message, NodeError> {
    match spec_decode(s) {
        Some(m) => Ok(m),
        None => Err(NodeError::FramingError),
    }
}

/// Appends the two little-endian bytes of `v`.
fn push_u16(out: &mut Vec<u8>, v: u16)
    ensures
        final(out)@ == old(out)@ + u16_bytes(v),
{
    out.push((v % 256) as u8);
    out.push((v / 256) as u8);
    proof {
        assert(out@ =~= old(out)@ + u16_bytes(v));
    }
}

/// Appends the four little-endian bytes of `v`.
fn push_i32(out: &mut Vec<u8>, v: i32)
    ensures
        final(out)@ == old(out)@ + i32_bytes(v),
{
    let u: u64 = if v >= 0 {
        v as u64
    } else {
        (v as i64 + 4294967296) as u64
    };
    proof {
        assert(u == rep32(v));
    }
    out.push((u % 256) as u8);
    out.push(((u / 256) % 256) as u8);
    out.push(((u / 65536) % 256) as u8);
    out.push(((u / 16777216) % 256) as u8);
    proof {
        assert(out@ =~= old(out)@ + i32_bytes(v));
    }
}

/// Encodes a message into the exact frame the wire carries.
pub fn encode(m: &Message) -> (r: Vec<u8>)
    ensures
        r@ == spec_encode(*m),
{
    let mut out: Vec<u8> = Vec::new();
    match *m {
        Message::Order { algo, order, node_count, left_port, right_port, global_index, value } => {
            out.push(0);
            out.push(algo.to_u8());
            out.push(order.to_u8());
            push_u16(&mut out, node_count);
            push_u16(&mut out, left_port);
            push_u16(&mut out, right_port);
            push_u16(&mut out, global_index);
            push_i32(&mut out, value);
            proof {
                assert(out@ =~= spec_encode(*m));
            }
        },
        Message::Start => {
            out.push(1);
            proof {
                assert(out@ =~= spec_encode(*m));
            }
        },
        Message::Report { port } => {
            out.push(2);
            push_u16(&mut out, port);
            proof {
                assert(out@ =~= spec_encode(*m));
            }
        },
        Message::Ready => {
            out.push(3);
            proof {
                assert(out@ =~= spec_encode(*m));
            }
        },
        Message::Finish { value } => {
            out.push(4);
            push_i32(&mut out, value);
            proof {
                assert(out@ =~= spec_encode(*m));
            }
        },
        Message::NeighbourConnect { claimed } => {
            out.push(5);
            out.push(claimed.to_u8());
            proof {
                assert(out@ =~= spec_encode(*m));
            }
        },
        Message::Exchange { value } => {
            out.push(6);
            push_i32(&mut out, value);
            proof {
                assert(out@ =~= spec_encode(*m));
            }
        },
        Message::MarkedExchange { value, marked } => {
            out.push(6);
            out.push(if marked { 1 } else { 0 });
            push_i32(&mut out, value);
            proof {
                assert(out@ =~= spec_encode(*m));
            }
        },
    }
    out
}

/// Reads the 16-bit value two little-endian bytes spell.
fn read_u16(b0: u8, b1: u8) -> (r: u16)
    ensures
        r == le16(b0, b1),
{
    b0 as u16 + 256 * (b1 as u16)
}

/// Reads the signed 32-bit value four little-endian bytes spell.
fn read_i32(b0: u8, b1: u8, b2: u8, b3: u8) -> (r: i32)
    ensures
        r == le32_signed(b0, b1, b2, b3),
{
    let u: u64 = b0 as u64 + 256 * (b1 as u64) + 65536 * (b2 as u64) + 16777216 * (b3 as u64);
    if u < 2147483648 {
        u as i32
    } else {
        ((u as i64) - 4294967296) as i32
    }
}

/// Decodes one frame.  Succeeds on exactly the byte strings some message
/// encodes to; everything else is a framing error.
pub fn decode(bytes: &Vec<u8>) -> (r: Result<Message, NodeError>)
    ensures
        r == spec_decode_result(bytes@),
{
    if bytes.len() == 0 {
        return Err(NodeError::FramingError);
    }
    let tag = bytes[0];
    if tag == 0 {
        if bytes.len() != 15 {
            return Err(NodeError::FramingError);
        }
        let algo = match Algo::from_u8(bytes[1]) {
            Some(a) => a,
            None => {
                return Err(NodeError::FramingError);
            },
        };
        let order = match PartialOrder::from_u8(bytes[2]) {
            Some(o) => o,
            None => {
                return Err(NodeError::FramingError);
            },
        };
        Ok(
            Message::Order {
                algo,
                order,
                node_count: read_u16(bytes[3], bytes[4]),
                left_port: read_u16(bytes[5], bytes[6]),
                right_port: read_u16(bytes[7], bytes[8]),
                global_index: read_u16(bytes[9], bytes[10]),
                value: read_i32(bytes[11], bytes[12], bytes[13], bytes[14]),
            },
        )
    } else if tag == 1 {
        if bytes.len() != 1 {
            return Err(NodeError::FramingError);
        }
        Ok(Message::Start)
    } else if tag == 2 {
        if bytes.len() != 3 {
            return Err(NodeError::FramingError);
        }
        Ok(Message::Report { port: read_u16(bytes[1], bytes[2]) })
    } else if tag == 3 {
        if bytes.len() != 1 {
            return Err(NodeError::FramingError);
        }
        Ok(Message::Ready)
    } else if tag == 4 {
        if bytes.len() != 5 {
            return Err(NodeError::FramingError);
        }
        Ok(Message::Finish { value: read_i32(bytes[1], bytes[2], bytes[3], bytes[4]) })
    } else if tag == 5 {
        if bytes.len() != 2 {
            return Err(NodeError::FramingError);
        }
        match Side::from_u8(bytes[1]) {
            Some(claimed) => Ok(Message::NeighbourConnect { claimed }),
            None => Err(NodeError::FramingError),
        }
    } else if tag == 6 {
        if bytes.len() == 5 {
            Ok(Message::Exchange { value: read_i32(bytes[1], bytes[2], bytes[3], bytes[4]) })
        } else if bytes.len() == 6 {
            if bytes[1] == 0 || bytes[1] == 1 {
                Ok(
                    Message::MarkedExchange {
                        value: read_i32(bytes[2], bytes[3], bytes[4], bytes[5]),
                        marked: bytes[1] == 1,
                    },
                )
            } else {
                Err(NodeError::FramingError)
            }
        } else {
            Err(NodeError::FramingError)
        }
    } else {
        Err(NodeError::FramingError)
    }
}

/// Two little-endian bytes spell back the value they were written from.
proof fn lemma_u16_round_trip(v: u16)
    ensures
        le16((v % 256) as u8, (v / 256) as u8) == v,
{
    lemma_fundamental_div_mod(v as int, 256);
}

/// Four little-endian bytes spell back the signed value they were written
/// from.
proof fn lemma_i32_round_trip(v: i32)
    ensures
        le32_signed(
            (rep32(v) % 256) as u8,
            ((rep32(v) / 256) % 256) as u8,
            ((rep32(v) / 65536) % 256) as u8,
            ((rep32(v) / 16777216) % 256) as u8,
        ) == v,
{
    let u = rep32(v);
    lemma_fundamental_div_mod(u, 256);
    lemma_fundamental_div_mod(u / 256, 256);
    lemma_fundamental_div_mod(u / 65536, 256);
    lemma_div_denominator(u, 256, 256);
    lemma_div_denominator(u, 65536, 256);
    assert(u / 16777216 < 256);
    lemma_small_mod((u / 16777216) as nat, 256);
    assert(le32(
        (u % 256) as u8,
        ((u / 256) % 256) as u8,
        ((u / 65536) % 256) as u8,
        ((u / 16777216) % 256) as u8,
    ) == u);
}

/// Decoding inverts encoding: every message comes back from its own frame.
pub proof fn lemma_wire_round_trip(m: Message)
    ensures
        spec_decode(spec_encode(m)) == Some(m),
{
    let s = spec_encode(m);
    match m {
        Message::Order { algo, order, node_count, left_port, right_port, global_index, value } => {
            assert(s.len() == 15);
            assert(s[0] == 0);
            assert(s[1] == algo.as_byte() && s[2] == order.as_byte());
            lemma_u16_round_trip(node_count);
            lemma_u16_round_trip(left_port);
            lemma_u16_round_trip(right_port);
            lemma_u16_round_trip(global_index);
            lemma_i32_round_trip(value);
        },
        Message::Start => {},
        Message::Report { port } => {
            lemma_u16_round_trip(port);
        },
        Message::Ready => {},
        Message::Finish { value } => {
            lemma_i32_round_trip(value);
        },
        Message::NeighbourConnect { claimed } => {},
        Message::Exchange { value } => {
            lemma_i32_round_trip(value);
        },
        Message::MarkedExchange { value, marked } => {
            lemma_i32_round_trip(value);
        },
    }
}

} // verus!
