use line_sort::node::{LinkBuffer, Position, Side};
use line_sort::topology::{claim_for, classify, expected_inbound, has_side, Binding};
use line_sort::NodeError;

#[test]
fn classify_by_ports() {
    assert_eq!(classify(0, 40000), Ok(Position::Left));
    assert_eq!(classify(40000, 0), Ok(Position::Right));
    assert_eq!(classify(40000, 40001), Ok(Position::Middle));
}

#[test]
fn both_ports_zero_is_a_protocol_error() {
    assert_eq!(classify(0, 0), Err(NodeError::ProtocolError));
}

#[test]
fn owned_sides() {
    assert!(!has_side(Position::Left, Side::Left));
    assert!(has_side(Position::Left, Side::Right));
    assert!(has_side(Position::Right, Side::Left));
    assert!(!has_side(Position::Right, Side::Right));
    assert!(has_side(Position::Middle, Side::Left));
    assert!(has_side(Position::Middle, Side::Right));
}

#[test]
fn expected_inbound_counts() {
    assert_eq!(expected_inbound(Position::Middle), 2);
    assert_eq!(expected_inbound(Position::Left), 1);
    assert_eq!(expected_inbound(Position::Right), 1);
}

#[test]
fn outbound_claims_are_reciprocal() {
    // Connecting to the right neighbour claims to be its left neighbour.
    assert_eq!(claim_for(Side::Right), Side::Left);
    assert_eq!(claim_for(Side::Left), Side::Right);
}

#[test]
fn binding_accepts_each_owned_side_once() {
    let mut b = Binding::new();
    assert!(!b.complete(Position::Middle));
    assert_eq!(b.bind(Position::Middle, Side::Left), Ok(()));
    assert!(!b.complete(Position::Middle));
    assert_eq!(b.bind(Position::Middle, Side::Right), Ok(()));
    assert!(b.complete(Position::Middle));
}

#[test]
fn binding_rejects_duplicate_claims() {
    let mut b = Binding::new();
    assert_eq!(b.bind(Position::Middle, Side::Left), Ok(()));
    assert_eq!(b.bind(Position::Middle, Side::Left), Err(NodeError::ProtocolError));
}

#[test]
fn binding_rejects_the_missing_side() {
    // The left end has no left neighbour: a left claim contradicts it.
    let mut b = Binding::new();
    assert_eq!(b.bind(Position::Left, Side::Left), Err(NodeError::ProtocolError));
    assert_eq!(b.bind(Position::Left, Side::Right), Ok(()));
    assert!(b.complete(Position::Left));

    let mut b2 = Binding::new();
    assert_eq!(b2.bind(Position::Right, Side::Right), Err(NodeError::ProtocolError));
    assert_eq!(b2.bind(Position::Right, Side::Left), Ok(()));
    assert!(b2.complete(Position::Right));
}

#[test]
fn link_buffer_holds_one_value() {
    let mut buf = LinkBuffer::new();
    assert_eq!(buf.take(), None);
    assert_eq!(buf.deposit(42, false), Ok(()));
    // A second arrival before consumption signals a round mismatch.
    assert_eq!(buf.deposit(43, true), Err(NodeError::ProtocolError));
    assert_eq!(buf.take(), Some((42, false)));
    assert_eq!(buf.take(), None);
    assert_eq!(buf.deposit(-7, true), Ok(()));
    assert_eq!(buf.take(), Some((-7, true)));
}
