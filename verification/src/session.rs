//! The node's conversation with the distributor, as a state machine.
//!
//! The wire sequence is strict: the node reports its port, receives the
//! order exactly once, establishes its links, sends ready, waits for
//! start, runs the ordered strategy, and sends the finish value.  The
//! surrounding program performs each action (sending frames, opening
//! connections, running rounds) and hands the next event back; every
//! decision in between is made here.  An event out of sequence — an order
//! arriving twice, a start before ready — is a protocol error.

use vstd::prelude::*;

use crate::error::NodeError;
use crate::node::{spec_rounds, Algo, Node, PartialOrder};
use crate::topology::{classify, spec_classify};
use crate::wire::{decode, spec_decode, Message};

verus! {

/// Where a node stands in its conversation with the distributor.
#[derive(Clone, Copy, Debug, PartialEq, Eq, Structural)]
pub enum Phase {
    /// Connected; the report has not been sent yet.
    Reporting,
    AwaitingOrder,
    Establishing,
    AwaitingStart,
    Sorting,
    Done,
}

/// What the surrounding program tells the session.
#[derive(Clone, Copy, Debug, PartialEq, Eq, Structural)]
pub enum SessionEvent {
    /// The connection to the distributor stands.
    Connected,
    /// A decoded frame arrived from the distributor.
    FrameReceived(Message),
    /// Every required link is established.
    LinksEstablished,
    /// The strategy finished with this value.
    Sorted(i32),
}

/// What the session asks the surrounding program to do next.
#[derive(Clone, Copy, Debug, PartialEq, Eq, Structural)]
pub enum SessionAction {
    /// Encode this message and send it to the distributor.
    Send(Message),
    /// Establish links to these neighbour ports (left, right).
    EstablishLinks(u16, u16),
    /// Run the ordered strategy for the given round count.
    RunStrategy(Algo, u16),
}

/// One node's session state.
#[derive(Clone, Copy, Debug, PartialEq, Eq, Structural)]
pub struct Session {
    pub phase: Phase,
    /// The port of this node's own listener, reported to the distributor.
    pub port: u16,
    /// The node configuration, once an order arrived.
    pub node: Option<Node>,
}

/// The node an order configures: a zero node count is a protocol error,
/// the assigned ports classify the position (both zero is a protocol
/// error), and the round count follows the strategy.
pub open spec fn spec_node_of_order(
    algo: Algo,
    order: PartialOrder,
    node_count: u16,
    left_port: u16,
    right_port: u16,
    global_index: u16,
    value: i32,
) -> Result<Node, NodeError> {
    if node_count == 0 {
        Err(NodeError::ProtocolError)
    } else {
        match spec_classify(left_port, right_port) {
            Ok(rel_pos) => Ok(
                Node {
                    algo,
                    partial_order: order,
                    rounds: spec_rounds(algo, node_count),
                    rel_pos,
                    glb_pos: global_index,
                    num: value,
                },
            ),
            Err(e) => Err(e),
        }
    }
}

/// The node an order frame configures, from the raw bytes: a framing
/// error where the bytes spell no message, a protocol error where they
/// spell one that is not an order or an order that is invalid.
pub open spec fn spec_handle_order(s: Seq<u8>) -> Result<Node, NodeError> {
    match spec_decode(s) {
        Some(
            Message::Order { algo, order, node_count, left_port, right_port, global_index, value },
        ) => spec_node_of_order(
            algo,
            order,
            node_count,
            left_port,
            right_port,
            global_index,
            value,
        ),
        Some(_) => Err(NodeError::ProtocolError),
        None => Err(NodeError::FramingError),
    }
}

/// The whole transition relation of the session: the state after the
/// event, and the action or error it produces.
pub open spec fn spec_transition(s: Session, ev: SessionEvent) -> (
    Session,
    Result<SessionAction, NodeError>,
) {
    match ev {
        SessionEvent::Connected => {
            if s.phase == Phase::Reporting {
                (
                    Session { phase: Phase::AwaitingOrder, ..s },
                    Ok(SessionAction::Send(Message::Report { port: s.port })),
                )
            } else {
                (s, Err(NodeError::ProtocolError))
            }
        },
        SessionEvent::FrameReceived(m) => {
            if s.phase == Phase::AwaitingOrder {
                match m {
                    Message::Order {
                        algo,
                        order,
                        node_count,
                        left_port,
                        right_port,
                        global_index,
                        value,
                    } => {
                        match spec_node_of_order(
                            algo,
                            order,
                            node_count,
                            left_port,
                            right_port,
                            global_index,
                            value,
                        ) {
                            Ok(n) => (
                                Session { phase: Phase::Establishing, node: Some(n), ..s },
                                Ok(SessionAction::EstablishLinks(left_port, right_port)),
                            ),
                            Err(e) => (s, Err(e)),
                        }
                    },
                    _ => (s, Err(NodeError::ProtocolError)),
                }
            } else if s.phase == Phase::AwaitingStart {
                match m {
                    Message::Start => {
                        match s.node {
                            Some(n) => (
                                Session { phase: Phase::Sorting, ..s },
                                Ok(SessionAction::RunStrategy(n.algo, n.rounds)),
                            ),
                            None => (s, Err(NodeError::InvariantViolation)),
                        }
                    },
                    _ => (s, Err(NodeError::ProtocolError)),
                }
            } else {
                (s, Err(NodeError::ProtocolError))
            }
        },
        SessionEvent::LinksEstablished => {
            if s.phase == Phase::Establishing {
                (
                    Session { phase: Phase::AwaitingStart, ..s },
                    Ok(SessionAction::Send(Message::Ready)),
                )
            } else {
                (s, Err(NodeError::ProtocolError))
            }
        },
        SessionEvent::Sorted(v) => {
            if s.phase == Phase::Sorting {
                (
                    Session { phase: Phase::Done, ..s },
                    Ok(SessionAction::Send(Message::Finish { value: v })),
                )
            } else {
                (s, Err(NodeError::ProtocolError))
            }
        },
    }
}

impl Session {
    /// A fresh session for a node whose listener got this port.
    pub fn new(port: u16) -> (r: Session)
        ensures
            r == (Session { phase: Phase::Reporting, port, node: None }),
    {
        Session { phase: Phase::Reporting, port, node: None }
    }
}

/// The node's side of the distributor protocol.
pub struct Distributor;

impl Distributor {
    /// Drives the conversation with the distributor one event at a time:
    /// the caller performs the returned action and hands back the next
    /// event.  Every transition follows `spec_transition`; an event out of
    /// sequence is a protocol error and leaves the session unchanged.
    pub fn handle_distributor(session: &mut Session, event: SessionEvent) -> (r: Result<
        SessionAction,
        NodeError,
    >)
        ensures
            *final(session) == spec_transition(*old(session), event).0,
            r == spec_transition(*old(session), event).1,
    {
        match event {
            SessionEvent::Connected => {
                if session.phase == Phase::Reporting {
                    session.phase = Phase::AwaitingOrder;
                    Ok(SessionAction::Send(Message::Report { port: session.port }))
                } else {
                    Err(NodeError::ProtocolError)
                }
            },
            SessionEvent::FrameReceived(m) => {
                if session.phase == Phase::AwaitingOrder {
                    match m {
                        Message::Order {
                            algo,
                            order,
                            node_count,
                            left_port,
                            right_port,
                            global_index,
                            value,
                        } => {
                            match Self::node_of_order(
                                algo,
                                order,
                                node_count,
                                left_port,
                                right_port,
                                global_index,
                                value,
                            ) {
                                Ok(n) => {
                                    session.phase = Phase::Establishing;
                                    session.node = Some(n);
                                    Ok(SessionAction::EstablishLinks(left_port, right_port))
                                },
                                Err(e) => Err(e),
                            }
                        },
                        _ => Err(NodeError::ProtocolError),
                    }
                } else if session.phase == Phase::AwaitingStart {
                    match m {
                        Message::Start => {
                            match session.node {
                                Some(n) => {
                                    session.phase = Phase::Sorting;
                                    Ok(SessionAction::RunStrategy(n.algo, n.rounds))
                                },
                                None => Err(NodeError::InvariantViolation),
                            }
                        },
                        _ => Err(NodeError::ProtocolError),
                    }
                } else {
                    Err(NodeError::ProtocolError)
                }
            },
            SessionEvent::LinksEstablished => {
                if session.phase == Phase::Establishing {
                    session.phase = Phase::AwaitingStart;
                    Ok(SessionAction::Send(Message::Ready))
                } else {
                    Err(NodeError::ProtocolError)
                }
            },
            SessionEvent::Sorted(v) => {
                if session.phase == Phase::Sorting {
                    session.phase = Phase::Done;
                    Ok(SessionAction::Send(Message::Finish { value: v }))
                } else {
                    Err(NodeError::ProtocolError)
                }
            },
        }
    }

    /// Builds the node an order configures.
    pub fn node_of_order(
        algo: Algo,
        order: PartialOrder,
        node_count: u16,
        left_port: u16,
        right_port: u16,
        global_index: u16,
        value: i32,
    ) -> (r: Result<Node, NodeError>)
        ensures
            r == spec_node_of_order(
                algo,
                order,
                node_count,
                left_port,
                right_port,
                global_index,
                value,
            ),
    {
        if node_count == 0 {
            return Err(NodeError::ProtocolError);
        }
        match classify(left_port, right_port) {
            Ok(rel_pos) => Ok(
                Node {
                    algo,
                    partial_order: order,
                    rounds: crate::node::get_rounds(algo, node_count),
                    rel_pos,
                    glb_pos: global_index,
                    num: value,
                },
            ),
            Err(e) => Err(e),
        }
    }

    /// Builds the node an order frame configures, from the raw bytes.
    pub fn handle_order(buffer: &Vec<u8>) -> (r: Result<Node, NodeError>)
        ensures
            r == spec_handle_order(buffer@),
    {
        match decode(buffer) {
            Ok(
                Message::Order {
                    algo,
                    order,
                    node_count,
                    left_port,
                    right_port,
                    global_index,
                    value,
                },
            ) => Self::node_of_order(
                algo,
                order,
                node_count,
                left_port,
                right_port,
                global_index,
                value,
            ),
            Ok(_) => Err(NodeError::ProtocolError),
            Err(_) => Err(NodeError::FramingError),
        }
    }
}

} // verus!
