use line_sort::engine::{should_swap_left, should_swap_right, OddEven, Sasaki};
use line_sort::node::{get_rounds, Algo, Node, PartialOrder, Position, Side, Utility};
use line_sort::NodeError;

#[test]
fn round_counts() {
    // Odd-Even runs nodeCount rounds; Sasaki and Triplet one fewer.
    assert_eq!(get_rounds(Algo::OddEvenTransposition, 4), 4);
    assert_eq!(get_rounds(Algo::Sasaki, 5), 4);
    assert_eq!(get_rounds(Algo::Triplet, 5), 4);
    assert_eq!(get_rounds(Algo::OddEvenTransposition, 1), 1);
    assert_eq!(get_rounds(Algo::Sasaki, 1), 0);
    assert_eq!(Utility::get_rounds(Algo::OddEvenTransposition, 7), 7);
    assert_eq!(Utility::get_rounds(Algo::Triplet, 7), 6);
}

#[test]
fn swap_rules_ascending() {
    // Ascending: the right-acting member keeps the smaller value.
    assert!(should_swap_right(PartialOrder::LessThan, 5, 3));
    assert!(!should_swap_right(PartialOrder::LessThan, 3, 5));
    assert!(should_swap_left(PartialOrder::LessThan, 3, 5));
    assert!(!should_swap_left(PartialOrder::LessThan, 5, 3));
}

#[test]
fn swap_rules_descending() {
    assert!(should_swap_right(PartialOrder::GreaterThan, 3, 5));
    assert!(!should_swap_right(PartialOrder::GreaterThan, 5, 3));
    assert!(should_swap_left(PartialOrder::GreaterThan, 5, 3));
    assert!(!should_swap_left(PartialOrder::GreaterThan, 3, 5));
}

#[test]
fn ties_never_swap() {
    for order in [PartialOrder::LessThan, PartialOrder::GreaterThan] {
        assert!(!should_swap_right(order, 7, 7));
        assert!(!should_swap_left(order, 7, 7));
    }
}

#[test]
fn active_side_alternates() {
    // A middle node with odd one-based index acts rightward in odd rounds.
    assert_eq!(
        OddEven::active_side(1, 1, Position::Middle),
        Some(Side::Right)
    );
    assert_eq!(OddEven::active_side(1, 2, Position::Middle), Some(Side::Left));
    assert_eq!(
        OddEven::active_side(2, 1, Position::Middle),
        Some(Side::Left)
    );
    assert_eq!(OddEven::active_side(2, 2, Position::Middle), Some(Side::Right));
}

#[test]
fn end_nodes_skip_their_absent_side() {
    // Node 1 of 4 (left end) would act leftward in even rounds: it does
    // nothing instead.  Node 4 (right end, even index) likewise skips its
    // rightward rounds.
    assert_eq!(OddEven::active_side(1, 2, Position::Left), None);
    assert_eq!(OddEven::active_side(1, 1, Position::Left), Some(Side::Right));
    assert_eq!(OddEven::active_side(4, 2, Position::Right), None);
    assert_eq!(OddEven::active_side(4, 1, Position::Right), Some(Side::Left));
}

#[test]
fn odd_even_single_node_exchanges() {
    // Node 2 of 4 in the line [5,3,8,1], ascending: it pairs leftward in
    // even rounds and rightward in odd ones, and passes through 5, 1 and 3.
    let mut node = Node {
        algo: Algo::OddEvenTransposition,
        partial_order: PartialOrder::LessThan,
        rounds: 4,
        rel_pos: Position::Middle,
        glb_pos: 2,
        num: 3,
    };
    let received = vec![5, 1, 3, 5];
    let out = OddEven::odd_even_transposition(&mut node, &received);
    assert_eq!(out, 3);
    assert_eq!(node.num, 3);
    assert_eq!(node.rounds, 4);
}

#[test]
fn sasaki_single_node_run() {
    // The left end of the scenario line [4,4,2,2,9]: each round it
    // exchanges only rightward; its marked token decides the final lane.
    let mut node = Node {
        algo: Algo::Sasaki,
        partial_order: PartialOrder::LessThan,
        rounds: 4,
        rel_pos: Position::Left,
        glb_pos: 1,
        num: 4,
    };
    let ignored = Sasaki { num: 0, is_marked: false };
    let from_left = vec![ignored; 4];
    let from_right = vec![
        Sasaki { num: 4, is_marked: false },
        Sasaki { num: 2, is_marked: false },
        Sasaki { num: 2, is_marked: false },
        Sasaki { num: 2, is_marked: false },
    ];
    let out = Sasaki::sasaki(&mut node, &from_left, &from_right);
    assert_eq!(out, 2);
    assert_eq!(node.num, 2);
}

#[test]
fn triplet_is_unimplemented() {
    let node = Node {
        algo: Algo::Triplet,
        partial_order: PartialOrder::LessThan,
        rounds: 4,
        rel_pos: Position::Middle,
        glb_pos: 2,
        num: 0,
    };
    assert_eq!(line_sort::engine::triplet(&node), Err(NodeError::Unimplemented));
}

#[test]
fn node_defaults() {
    let n = Node::new();
    assert_eq!(n.rounds, 0);
    assert_eq!(n.glb_pos, 0);
    assert_eq!(n.num, 0);
    assert_eq!(n.rel_pos, Position::Middle);
}
