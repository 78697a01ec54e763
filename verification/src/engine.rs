//! The round engines: the per-round decision rules of the sorting
//! strategies, and the per-node run of each strategy over the values its
//! neighbours send it.
//!
//! A node's exchanges are synchronous rounds: in each round it sends its
//! current value and receives the peer's, and both ends apply the same
//! decision rule, so they agree on the outcome without a second message.
//! The engines here take the received values as arguments — one entry per
//! round — which is everything the strategy's behaviour depends on; the
//! surrounding program supplies each entry as it arrives off the wire.

use vstd::prelude::*;

use crate::error::NodeError;
use crate::node::{Node, PartialOrder, Position, Side};

verus! {

/// When a node acting on its right link replaces its value: ascending
/// (`LessThan`) keeps the smaller of the pair leftward, so the left member
/// takes the received value exactly when its own is larger; descending
/// reverses this.  Equal values never swap.
pub open spec fn spec_should_swap_right(partial_order: PartialOrder, cur_num: int, rec_val: int) -> bool {
    (partial_order == PartialOrder::LessThan && cur_num > rec_val) || (partial_order
        == PartialOrder::GreaterThan && cur_num < rec_val)
}

/// When a node acting on its left link replaces its value: the mirror of
/// `spec_should_swap_right`.  Equal values never swap.
pub open spec fn spec_should_swap_left(partial_order: PartialOrder, cur_num: int, rec_val: int) -> bool {
    (partial_order == PartialOrder::LessThan && cur_num < rec_val) || (partial_order
        == PartialOrder::GreaterThan && cur_num > rec_val)
}

/// Whether a node exchanging rightward takes the received value.
pub fn should_swap_right(partial_order: PartialOrder, cur_num: i32, rec_val: i32) -> (r: bool)
    ensures
        r == spec_should_swap_right(partial_order, cur_num as int, rec_val as int),
        cur_num == rec_val ==> !r,
{
    (partial_order == PartialOrder::LessThan && cur_num > rec_val) || (partial_order
        == PartialOrder::GreaterThan && cur_num < rec_val)
}

/// Whether a node exchanging leftward takes the received value.
pub fn should_swap_left(partial_order: PartialOrder, cur_num: i32, rec_val: i32) -> (r: bool)
    ensures
        r == spec_should_swap_left(partial_order, cur_num as int, rec_val as int),
        cur_num == rec_val ==> !r,
{
    (partial_order == PartialOrder::LessThan && cur_num < rec_val) || (partial_order
        == PartialOrder::GreaterThan && cur_num > rec_val)
}

/// Odd-Even Transposition: `nodeCount` rounds; a node alternates between
/// acting on its right link and its left link by the parity rule below.
pub struct OddEven;

impl OddEven {
    /// The link a node acts on in a round (rounds are numbered from one),
    /// or nothing where the selected side is absent.  A node with an odd
    /// one-based index acts rightward in odd rounds; parities flip
    /// together.
    pub open spec fn spec_active_side(glb_pos: u16, round: int, rel_pos: Position) -> Option<
        Side,
    > {
        let odd_round = round % 2 == 1;
        let odd_index = glb_pos % 2 == 1;
        if odd_index == odd_round {
            if rel_pos == Position::Right {
                None
            } else {
                Some(Side::Right)
            }
        } else {
            if rel_pos == Position::Left {
                None
            } else {
                Some(Side::Left)
            }
        }
    }

    /// The link this node acts on in `round`.  An end node never acts on
    /// its absent side.
    pub fn active_side(glb_pos: u16, round: u16, rel_pos: Position) -> (r: Option<Side>)
        ensures
            r == Self::spec_active_side(glb_pos, round as int, rel_pos),
            rel_pos == Position::Left ==> r != Some(Side::Left),
            rel_pos == Position::Right ==> r != Some(Side::Right),
    {
        let odd_round = round % 2 == 1;
        let odd_index = glb_pos % 2 == 1;
        if odd_index == odd_round {
            if rel_pos == Position::Right {
                None
            } else {
                Some(Side::Right)
            }
        } else {
            if rel_pos == Position::Left {
                None
            } else {
                Some(Side::Left)
            }
        }
    }

    /// The value a node holds after one exchange: the received value where
    /// the side's swap rule says so, its own otherwise.
    pub open spec fn spec_step(
        partial_order: PartialOrder,
        cur_num: i32,
        rec_val: i32,
        side: Side,
    ) -> i32 {
        let swap = if side == Side::Right {
            spec_should_swap_right(partial_order, cur_num as int, rec_val as int)
        } else {
            spec_should_swap_left(partial_order, cur_num as int, rec_val as int)
        };
        if swap {
            rec_val
        } else {
            cur_num
        }
    }

    /// Applies one exchange outcome.
    pub fn step(partial_order: PartialOrder, cur_num: i32, rec_val: i32, side: Side) -> (r: i32)
        ensures
            r == Self::spec_step(partial_order, cur_num, rec_val, side),
    {
        let swap = match side {
            Side::Right => should_swap_right(partial_order, cur_num, rec_val),
            Side::Left => should_swap_left(partial_order, cur_num, rec_val),
        };
        if swap {
            rec_val
        } else {
            cur_num
        }
    }

    /// Both ends of an exchange agree on the outcome without a second
    /// message: each applies its own side's rule to the same two values,
    /// and together they either both keep or exactly trade them.
    pub proof fn lemma_pair_agreement(partial_order: PartialOrder, a: i32, b: i32)
        ensures
            (Self::spec_step(partial_order, a, b, Side::Right) == a && Self::spec_step(
                partial_order,
                b,
                a,
                Side::Left,
            ) == b) || (Self::spec_step(partial_order, a, b, Side::Right) == b
                && Self::spec_step(partial_order, b, a, Side::Left) == a),
    {
    }

    /// The value held after running rounds `round`, `round + 1`, … with
    /// one received entry per round (the entry of an inactive round is
    /// ignored).
    pub open spec fn spec_run_rounds(
        partial_order: PartialOrder,
        glb_pos: u16,
        rel_pos: Position,
        num: i32,
        received: Seq<i32>,
        round: int,
    ) -> i32
        decreases received.len(),
    {
        if received.len() == 0 {
            num
        } else {
            let num2 = match Self::spec_active_side(glb_pos, round, rel_pos) {
                Some(side) => Self::spec_step(partial_order, num, received[0], side),
                None => num,
            };
            Self::spec_run_rounds(partial_order, glb_pos, rel_pos, num2, received.skip(1), round + 1)
        }
    }

    /// The final value of a node that starts at `num` and receives
    /// `received[k]` in round `k + 1`.
    pub open spec fn spec_odd_even(
        partial_order: PartialOrder,
        glb_pos: u16,
        rel_pos: Position,
        num: i32,
        received: Seq<i32>,
    ) -> i32 {
        Self::spec_run_rounds(partial_order, glb_pos, rel_pos, num, received, 1)
    }

    /// Runs all rounds of Odd-Even Transposition on one node.
    /// `received[k]` is the value the active link delivered in round
    /// `k + 1`; entries of inactive rounds are ignored.  Only the held
    /// value changes.
    pub fn odd_even_transposition(node_data: &mut Node, received: &Vec<i32>) -> (r: i32)
        requires
            old(node_data).rounds as int == received@.len(),
        ensures
            r == Self::spec_odd_even(
                old(node_data).partial_order,
                old(node_data).glb_pos,
                old(node_data).rel_pos,
                old(node_data).num,
                received@,
            ),
            *final(node_data) == (Node { num: r, ..*old(node_data) }),
    {
        let rounds = node_data.rounds;
        let ghost goal = Self::spec_odd_even(
            node_data.partial_order,
            node_data.glb_pos,
            node_data.rel_pos,
            node_data.num,
            received@,
        );
        proof {
            assert(received@.skip(0) =~= received@);
        }
        let mut round: u32 = 1;
        while round <= rounds as u32
            invariant
                1 <= round <= rounds + 1,
                rounds as int == received@.len(),
                *node_data == (Node { num: node_data.num, ..*old(node_data) }),
                goal == Self::spec_run_rounds(
                    node_data.partial_order,
                    node_data.glb_pos,
                    node_data.rel_pos,
                    node_data.num,
                    received@.skip(round - 1),
                    round as int,
                ),
            decreases rounds + 1 - round,
        {
            let ghost before = received@.skip(round - 1);
            match Self::active_side(node_data.glb_pos, round as u16, node_data.rel_pos) {
                Some(side) => {
                    node_data.num = Self::step(
                        node_data.partial_order,
                        node_data.num,
                        received[(round - 1) as usize],
                        side,
                    );
                },
                None => {},
            }
            proof {
                assert(before[0] == received@[round - 1]);
                assert(before.skip(1) =~= received@.skip(round as int));
            }
            round = round + 1;
        }
        node_data.num
    }
}

/// One lane value of the Sasaki strategy: a number together with the
/// marked flag of the boundary token.
#[derive(Clone, Copy, Debug, PartialEq, Eq, Structural)]
pub struct Sasaki {
    pub num: i32,
    pub is_marked: bool,
}

impl Sasaki {
    /// One leftward exchange: the left lane takes the received value where
    /// the left swap rule says so, and the crossing balance moves with the
    /// marked tokens — up one where the forwarded (replaced) value was
    /// marked, down one where the accepted incoming value is marked.
    pub open spec fn spec_left_step(
        partial_order: PartialOrder,
        cur: Sasaki,
        rec: Sasaki,
        area: int,
    ) -> (Sasaki, int) {
        if spec_should_swap_left(partial_order, cur.num as int, rec.num as int) {
            (
                rec,
                area + (if cur.is_marked { 1int } else { 0int }) - (if rec.is_marked {
                    1int
                } else {
                    0int
                }),
            )
        } else {
            (cur, area)
        }
    }

    /// One rightward exchange: the right lane takes the received value
    /// where the right swap rule says so; the crossing balance is not
    /// touched.
    pub open spec fn spec_right_step(partial_order: PartialOrder, cur: Sasaki, rec: Sasaki) -> Sasaki {
        if spec_should_swap_right(partial_order, cur.num as int, rec.num as int) {
            rec
        } else {
            cur
        }
    }

    /// The round-end reorder of a middle node: its two lanes swap where
    /// they violate the configured ordering.
    pub open spec fn spec_reorder(partial_order: PartialOrder, left: Sasaki, right: Sasaki) -> (
        Sasaki,
        Sasaki,
    ) {
        if (left.num < right.num && partial_order == PartialOrder::GreaterThan) || (left.num
            > right.num && partial_order == PartialOrder::LessThan) {
            (right, left)
        } else {
            (left, right)
        }
    }

    /// One whole round of one node: the left exchange (absent at the left
    /// end), the right exchange (absent at the right end), then the middle
    /// reorder.
    pub open spec fn spec_round(
        partial_order: PartialOrder,
        rel_pos: Position,
        left: Sasaki,
        right: Sasaki,
        area: int,
        from_left: Sasaki,
        from_right: Sasaki,
    ) -> (Sasaki, Sasaki, int) {
        let step_l = if rel_pos != Position::Left {
            Self::spec_left_step(partial_order, left, from_left, area)
        } else {
            (left, area)
        };
        let right2 = if rel_pos != Position::Right {
            Self::spec_right_step(partial_order, right, from_right)
        } else {
            right
        };
        if rel_pos == Position::Middle {
            let reordered = Self::spec_reorder(partial_order, step_l.0, right2);
            (reordered.0, reordered.1, step_l.1)
        } else {
            (step_l.0, right2, step_l.1)
        }
    }

    /// Applies one whole round to one node's lanes and balance.
    pub fn round_step(
        partial_order: PartialOrder,
        rel_pos: Position,
        left: Sasaki,
        right: Sasaki,
        area: i32,
        from_left: Sasaki,
        from_right: Sasaki,
    ) -> (r: (Sasaki, Sasaki, i32))
        requires
            -1000000000 <= area <= 1000000000,
        ensures
            ({
                let s = Self::spec_round(
                    partial_order,
                    rel_pos,
                    left,
                    right,
                    area as int,
                    from_left,
                    from_right,
                );
                r.0 == s.0 && r.1 == s.1 && r.2 as int == s.2
            }),
    {
        let mut left_num = left;
        let mut right_num = right;
        let mut new_area = area;
        if rel_pos != Position::Left {
            if should_swap_left(partial_order, left_num.num, from_left.num) {
                if left_num.is_marked {
                    new_area = new_area + 1;
                }
                if from_left.is_marked {
                    new_area = new_area - 1;
                }
                left_num = from_left;
            }
        }
        if rel_pos != Position::Right {
            if should_swap_right(partial_order, right_num.num, from_right.num) {
                right_num = from_right;
            }
        }
        if rel_pos == Position::Middle {
            if (left_num.num < right_num.num && partial_order == PartialOrder::GreaterThan) || (
            left_num.num > right_num.num && partial_order == PartialOrder::LessThan) {
                let tmp = left_num;
                left_num = right_num;
                right_num = tmp;
            }
        }
        (left_num, right_num, new_area)
    }

    /// The lanes and balance after all remaining rounds, receiving
    /// `from_left[k]` and `from_right[k]` in the `k`-th of them (entries of
    /// an absent side are ignored).
    pub open spec fn spec_run(
        partial_order: PartialOrder,
        rel_pos: Position,
        left: Sasaki,
        right: Sasaki,
        area: int,
        from_left: Seq<Sasaki>,
        from_right: Seq<Sasaki>,
    ) -> (Sasaki, Sasaki, int)
        decreases from_left.len(),
    {
        if from_left.len() == 0 || from_right.len() == 0 {
            (left, right, area)
        } else {
            let next = Self::spec_round(
                partial_order,
                rel_pos,
                left,
                right,
                area,
                from_left[0],
                from_right[0],
            );
            Self::spec_run(
                partial_order,
                rel_pos,
                next.0,
                next.1,
                next.2,
                from_left.skip(1),
                from_right.skip(1),
            )
        }
    }

    /// How a node starts: end nodes carry their own value marked on both
    /// lanes and the left end opens with balance −1; middle nodes start
    /// unmarked with balance 0.
    pub open spec fn spec_init(rel_pos: Position, num: i32) -> (Sasaki, Sasaki, int) {
        let lane = Sasaki { num, is_marked: rel_pos != Position::Middle };
        (lane, lane, if rel_pos == Position::Left { -1int } else { 0int })
    }

    /// The node's final value: the right lane where the crossing balance
    /// ended at −1, the left lane otherwise.
    pub open spec fn spec_sasaki(
        partial_order: PartialOrder,
        rel_pos: Position,
        num: i32,
        from_left: Seq<Sasaki>,
        from_right: Seq<Sasaki>,
    ) -> i32 {
        let init = Self::spec_init(rel_pos, num);
        let end = Self::spec_run(
            partial_order,
            rel_pos,
            init.0,
            init.1,
            init.2,
            from_left,
            from_right,
        );
        if end.2 == -1 {
            end.1.num
        } else {
            end.0.num
        }
    }

    /// Runs all rounds of the Sasaki strategy on one node.
    /// `from_left[k]` and `from_right[k]` are the values the two links
    /// delivered in round `k + 1`; entries of an absent side are ignored.
    /// Only the held value changes.
    pub fn sasaki(node_data: &mut Node, from_left: &Vec<Sasaki>, from_right: &Vec<Sasaki>) -> (r:
        i32)
        requires
            old(node_data).rounds as int == from_left@.len(),
            from_left@.len() == from_right@.len(),
        ensures
            r == Self::spec_sasaki(
                old(node_data).partial_order,
                old(node_data).rel_pos,
                old(node_data).num,
                from_left@,
                from_right@,
            ),
            *final(node_data) == (Node { num: r, ..*old(node_data) }),
    {
        let rounds = node_data.rounds;
        let is_marked = node_data.rel_pos != Position::Middle;
        let mut left_num = Sasaki { num: node_data.num, is_marked };
        let mut right_num = Sasaki { num: node_data.num, is_marked };
        let mut area: i32 = if node_data.rel_pos == Position::Left {
            -1
        } else {
            0
        };
        let ghost init = Self::spec_init(node_data.rel_pos, node_data.num);
        let ghost goal = Self::spec_run(
            node_data.partial_order,
            node_data.rel_pos,
            init.0,
            init.1,
            init.2,
            from_left@,
            from_right@,
        );
        proof {
            assert(from_left@.skip(0) =~= from_left@);
            assert(from_right@.skip(0) =~= from_right@);
        }
        let mut round: u16 = 0;
        while round < rounds
            invariant
                round <= rounds,
                rounds as int == from_left@.len(),
                from_left@.len() == from_right@.len(),
                *node_data == *old(node_data),
                -(round + 1) <= area as int <= round + 1,
                goal == Self::spec_run(
                    node_data.partial_order,
                    node_data.rel_pos,
                    left_num,
                    right_num,
                    area as int,
                    from_left@.skip(round as int),
                    from_right@.skip(round as int),
                ),
            decreases rounds - round,
        {
            let ghost l_before = from_left@.skip(round as int);
            let ghost r_before = from_right@.skip(round as int);
            if node_data.rel_pos != Position::Left {
                let rec = from_left[round as usize];
                if should_swap_left(node_data.partial_order, left_num.num, rec.num) {
                    if left_num.is_marked {
                        area = area + 1;
                    }
                    if rec.is_marked {
                        area = area - 1;
                    }
                    left_num = rec;
                }
            }
            if node_data.rel_pos != Position::Right {
                let rec = from_right[round as usize];
                if should_swap_right(node_data.partial_order, right_num.num, rec.num) {
                    right_num = rec;
                }
            }
            if node_data.rel_pos == Position::Middle {
                if (left_num.num < right_num.num && node_data.partial_order
                    == PartialOrder::GreaterThan) || (left_num.num > right_num.num
                    && node_data.partial_order == PartialOrder::LessThan) {
                    let tmp = left_num;
                    left_num = right_num;
                    right_num = tmp;
                }
            }
            proof {
                assert(l_before[0] == from_left@[round as int]);
                assert(r_before[0] == from_right@[round as int]);
                assert(l_before.skip(1) =~= from_left@.skip(round + 1));
                assert(r_before.skip(1) =~= from_right@.skip(round + 1));
            }
            round = round + 1;
        }
        let r = if area == -1 {
            right_num.num
        } else {
            left_num.num
        };
        node_data.num = r;
        r
    }
}

/// The Triplet strategy is declared with the same interface and round
/// count as Sasaki, but its comparison body is an unresolved design slot:
/// running it is reported as unimplemented rather than given invented
/// behaviour.
pub fn triplet(_node_data: &Node) -> (r: Result<i32, NodeError>)
    ensures
        r == Err::<i32, NodeError>(NodeError::Unimplemented),
{
    Err(NodeError::Unimplemented)
}

} // verus!
