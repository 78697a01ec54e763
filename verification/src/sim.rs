//! A lockstep run of a whole line of nodes, in memory.
//!
//! Every node of the line applies the same per-round decision rules as the
//! engines, with each exchange resolved directly against the neighbour's
//! round-start state instead of a wire.  This is the network-level meaning
//! of the strategies: what the collected finish values of a run are, as a
//! function of the initial values and the ordering direction alone.

use vstd::prelude::*;
use vstd::seq_lib::{to_multiset_insert, to_multiset_remove};

use crate::engine::{OddEven, Sasaki};
use crate::node::{PartialOrder, Position, Side};

verus! {

/// The pair offset of a round: odd rounds pair indices (0,1), (2,3), …;
/// even rounds pair (1,2), (3,4), ….  This is the parity rule of the
/// per-node schedule read at network level, with one-based node indices.
pub open spec fn round_offset(round: int) -> int {
    if round % 2 == 1 {
        0int
    } else {
        1int
    }
}

/// One Odd-Even round over the whole line: each paired index applies the
/// same exchange step a node applies on the matching link; unpaired
/// indices keep their value.
pub open spec fn spec_oe_round(order: PartialOrder, s: Seq<i32>, round: int) -> Seq<i32> {
    let off = round_offset(round);
    Seq::new(
        s.len(),
        |i: int|
            {
                if i >= off && (i - off) % 2 == 0 && i + 1 < s.len() {
                    OddEven::spec_step(order, s[i], s[i + 1], Side::Right)
                } else if i >= off + 1 && (i - off) % 2 == 1 {
                    OddEven::spec_step(order, s[i], s[i - 1], Side::Left)
                } else {
                    s[i]
                }
            },
    )
}

/// The line after rounds `round`, `round + 1`, …, `round + remaining − 1`.
pub open spec fn spec_oe_run(order: PartialOrder, s: Seq<i32>, round: int, remaining: nat) -> Seq<
    i32,
>
    decreases remaining,
{
    if remaining == 0 {
        s
    } else {
        spec_oe_run(order, spec_oe_round(order, s, round), round + 1, (remaining - 1) as nat)
    }
}

/// The collected finish values of an Odd-Even Transposition run: the line
/// after as many rounds as it has nodes, counted from round one.
pub open spec fn spec_odd_even_network(order: PartialOrder, s: Seq<i32>) -> Seq<i32> {
    spec_oe_run(order, s, 1, s.len())
}

/// Updating one position rewrites the multiset by one removal and one
/// insertion.
proof fn lemma_update_multiset(s: Seq<i32>, i: int, a: i32)
    requires
        0 <= i < s.len(),
    ensures
        s.update(i, a).to_multiset() == s.to_multiset().remove(s[i]).insert(a),
{
    assert(s.update(i, a) =~= s.remove(i).insert(i, a));
    to_multiset_remove(s, i);
    to_multiset_insert(s.remove(i), i, a);
}

/// Swapping two positions keeps the multiset of the line.
proof fn lemma_swap_multiset(s: Seq<i32>, i: int, j: int)
    requires
        0 <= i < s.len(),
        0 <= j < s.len(),
        i != j,
    ensures
        s.update(i, s[j]).update(j, s[i]).to_multiset() == s.to_multiset(),
{
    broadcast use vstd::multiset::group_multiset_axioms;

    let t = s.update(i, s[j]);
    lemma_update_multiset(s, i, s[j]);
    lemma_update_multiset(t, j, s[i]);
    s.to_multiset_ensures();
    assert(s.contains(s[i]));
    assert(s.to_multiset().count(s[i]) > 0);
    assert(t.update(j, s[i]).to_multiset() =~= s.to_multiset());
}

/// Whether a line is monotonic per the configured direction: ascending
/// for `LessThan`, descending for `GreaterThan`.
pub open spec fn spec_sorted(order: PartialOrder, s: Seq<i32>) -> bool {
    forall|i: int, j: int|
        0 <= i < j < s.len() ==> if order == PartialOrder::LessThan {
            s[i] <= s[j]
        } else {
            s[i] >= s[j]
        }
}

/// Adjacent equal values are never swapped by the comparison rule: where
/// a round pairs two equal neighbours, both keep their place.
pub proof fn lemma_ties_stable(order: PartialOrder, s: Seq<i32>, round: int, i: int)
    requires
        round_offset(round) <= i,
        (i - round_offset(round)) % 2 == 0,
        i + 1 < s.len(),
        s[i] == s[i + 1],
    ensures
        spec_oe_round(order, s, round)[i] == s[i],
        spec_oe_round(order, s, round)[i + 1] == s[i + 1],
{
}

/// A line already in the configured order is a fixpoint of every round:
/// no pair of a sorted line satisfies its swap rule.
pub proof fn lemma_sorted_round_fixpoint(order: PartialOrder, s: Seq<i32>, round: int)
    requires
        spec_sorted(order, s),
    ensures
        spec_oe_round(order, s, round) == s,
{
    assert(spec_oe_round(order, s, round) =~= s);
}

/// A line already in the configured order comes out of a whole run
/// unchanged.
pub proof fn lemma_sorted_run_fixpoint(
    order: PartialOrder,
    s: Seq<i32>,
    round: int,
    remaining: nat,
)
    requires
        spec_sorted(order, s),
    ensures
        spec_oe_run(order, s, round, remaining) == s,
    decreases remaining,
{
    if remaining > 0 {
        lemma_sorted_round_fixpoint(order, s, round);
        lemma_sorted_run_fixpoint(order, s, round + 1, (remaining - 1) as nat);
    }
}

/// One Odd-Even round, in place.  The result is exactly the round spec,
/// and a permutation of what was there.
fn oe_round(values: &mut Vec<i32>, order: PartialOrder, round: usize)
    ensures
        final(values)@ == spec_oe_round(order, old(values)@, round as int),
        final(values)@.to_multiset() == old(values)@.to_multiset(),
{
    let ghost s0 = values@;
    let ghost target = spec_oe_round(order, s0, round as int);
    let off: usize = if round % 2 == 1 {
        0
    } else {
        1
    };
    let n = values.len();
    let mut i = off;
    while n >= 2 && i <= n - 2
        invariant
            n == values@.len(),
            s0.len() == n,
            off == round_offset(round as int),
            target == spec_oe_round(order, s0, round as int),
            off <= i <= n + 2,
            (i - off) % 2 == 0,
            forall|j: int| 0 <= j < i && j < n ==> values@[j] == target[j],
            forall|j: int| i <= j < n ==> values@[j] == s0[j],
            values@.to_multiset() == s0.to_multiset(),
        decreases n - i,
    {
        let a = values[i];
        let b = values[i + 1];
        let new_a = OddEven::step(order, a, b, Side::Right);
        let new_b = OddEven::step(order, b, a, Side::Left);
        let ghost before = values@;
        values.set(i, new_a);
        values.set(i + 1, new_b);
        proof {
            if new_a == b && new_b == a {
                lemma_swap_multiset(before, i as int, i + 1);
            } else {
                assert(new_a == a && new_b == b);
                assert(values@ =~= before);
            }
            assert(values@[i as int] == target[i as int]);
            assert(values@[i + 1] == target[i + 1]);
        }
        i = i + 2;
    }
    proof {
        assert(values@ =~= target);
    }
}

/// Runs Odd-Even Transposition over a whole line, for as many rounds as
/// there are nodes.  The result is exactly the network spec — in
/// particular a permutation of the input.
pub fn run_odd_even(values: &Vec<i32>, order: PartialOrder) -> (r: Vec<i32>)
    ensures
        r@ == spec_odd_even_network(order, values@),
        r@.len() == values@.len(),
        r@.to_multiset() == values@.to_multiset(),
{
    let n = values.len();
    let mut line: Vec<i32> = Vec::new();
    let mut k: usize = 0;
    while k < n
        invariant
            n == values@.len(),
            k <= n,
            line@ == values@.subrange(0, k as int),
        decreases n - k,
    {
        line.push(values[k]);
        proof {
            assert(line@ =~= values@.subrange(0, k + 1));
        }
        k = k + 1;
    }
    proof {
        assert(line@ =~= values@);
    }
    let ghost goal = spec_odd_even_network(order, values@);
    let mut done: usize = 0;
    while done < n
        invariant
            n == values@.len(),
            done <= n,
            line@.len() == n,
            goal == spec_oe_run(order, line@, done + 1, (n - done) as nat),
            line@.to_multiset() == values@.to_multiset(),
        decreases n - done,
    {
        oe_round(&mut line, order, done + 1);
        done = done + 1;
    }
    line
}

/// What a node receives from the lockstep line, round by round: the
/// round-start value of the partner its schedule pairs it with (its own
/// value where it is inactive; that entry is ignored by the engine).
pub open spec fn oe_received(order: PartialOrder, u: Seq<i32>, r: int, m: nat, i: int) -> Seq<
    i32,
> {
    Seq::new(
        m,
        |t: int|
            {
                let line = spec_oe_run(order, u, r, t as nat);
                match OddEven::spec_active_side((i + 1) as u16, r + t, pos_of(i, u.len() as int)) {
                    Some(side) => if side == Side::Right {
                        line[i + 1]
                    } else {
                        line[i - 1]
                    },
                    None => line[i],
                }
            },
    )
}

/// One node of the line, running its own engine over what the line sends
/// it, tracks the line exactly through the remaining rounds.
proof fn lemma_node_run_matches(order: PartialOrder, u: Seq<i32>, i: int, r: int, m: nat)
    requires
        2 <= u.len() <= 65535,
        0 <= i < u.len(),
        1 <= r,
    ensures
        OddEven::spec_run_rounds(
            order,
            (i + 1) as u16,
            pos_of(i, u.len() as int),
            u[i],
            oe_received(order, u, r, m, i),
            r,
        ) == spec_oe_run(order, u, r, m)[i],
    decreases m,
{
    if m > 0 {
        let n = u.len() as int;
        let pos = pos_of(i, n);
        let glb = (i + 1) as u16;
        let recvs = oe_received(order, u, r, m, i);
        let line1 = spec_oe_round(order, u, r);
        assert(spec_oe_run(order, u, r, 0) == u);
        let num2 = match OddEven::spec_active_side(glb, r, pos) {
            Some(side) => OddEven::spec_step(order, u[i], recvs[0], side),
            None => u[i],
        };
        assert(num2 == line1[i]);
        assert forall|t: int| 0 <= t < m - 1 implies recvs.skip(1)[t] == oe_received(
            order,
            line1,
            r + 1,
            (m - 1) as nat,
            i,
        )[t] by {
            assert(spec_oe_run(order, u, r, (t + 1) as nat) == spec_oe_run(
                order,
                line1,
                r + 1,
                t as nat,
            ));
        }
        assert(recvs.skip(1) =~= oe_received(order, line1, r + 1, (m - 1) as nat, i));
        lemma_node_run_matches(order, line1, i, r + 1, (m - 1) as nat);
    }
}

/// The distributed run agrees with the lockstep line: a node that starts
/// at its own value and applies its schedule to the values its neighbours
/// send it ends at exactly the network result of its index.
pub proof fn lemma_engine_matches_network(order: PartialOrder, s: Seq<i32>, i: int)
    requires
        2 <= s.len() <= 65535,
        0 <= i < s.len(),
    ensures
        OddEven::spec_odd_even(
            order,
            (i + 1) as u16,
            pos_of(i, s.len() as int),
            s[i],
            oe_received(order, s, 1, s.len(), i),
        ) == spec_odd_even_network(order, s)[i],
{
    lemma_node_run_matches(order, s, i, 1, s.len());
}

/// A node's position in a line of `n`, by its zero-based index.
pub open spec fn pos_of(i: int, n: int) -> Position {
    if i == 0 {
        Position::Left
    } else if i == n - 1 {
        Position::Right
    } else {
        Position::Middle
    }
}

/// One node's Sasaki state in the lockstep line: its two lanes and its
/// crossing balance.
#[derive(Clone, Copy, Debug, PartialEq, Eq, Structural)]
pub struct LaneState {
    pub left: Sasaki,
    pub right: Sasaki,
    pub area: i32,
}

impl LaneState {
    /// The state as the engine's spec speaks of it.
    pub open spec fn view(self) -> (Sasaki, Sasaki, int) {
        (self.left, self.right, self.area as int)
    }
}

/// A whole line of lane states, as the engine's spec speaks of them.
pub open spec fn lanes_view(s: Seq<LaneState>) -> Seq<(Sasaki, Sasaki, int)> {
    Seq::new(s.len(), |i: int| s[i].view())
}

/// How the line starts: each node seeds both lanes with its own value,
/// marked at the ends, with the left end's balance at −1.
pub open spec fn spec_sasaki_init(values: Seq<i32>) -> Seq<(Sasaki, Sasaki, int)> {
    Seq::new(values.len(), |i: int| Sasaki::spec_init(pos_of(i, values.len() as int), values[i]))
}

/// One Sasaki round over the whole line: every node applies the engine's
/// round step, receiving its left neighbour's right lane and its right
/// neighbour's left lane, both at their round-start values (either
/// frame may arrive first; the round's outcome is the same).  An end
/// node's absent side is passed its own lane, which the step ignores.
pub open spec fn spec_sasaki_round(order: PartialOrder, states: Seq<(Sasaki, Sasaki, int)>) -> Seq<
    (Sasaki, Sasaki, int),
> {
    let n = states.len() as int;
    Seq::new(
        states.len(),
        |i: int|
            {
                let from_left = if i > 0 {
                    states[i - 1].1
                } else {
                    states[i].0
                };
                let from_right = if i + 1 < n {
                    states[i + 1].0
                } else {
                    states[i].1
                };
                Sasaki::spec_round(
                    order,
                    pos_of(i, n),
                    states[i].0,
                    states[i].1,
                    states[i].2,
                    from_left,
                    from_right,
                )
            },
    )
}

/// The line after the remaining rounds.
pub open spec fn spec_sasaki_run(
    order: PartialOrder,
    states: Seq<(Sasaki, Sasaki, int)>,
    remaining: nat,
) -> Seq<(Sasaki, Sasaki, int)>
    decreases remaining,
{
    if remaining == 0 {
        states
    } else {
        spec_sasaki_run(order, spec_sasaki_round(order, states), (remaining - 1) as nat)
    }
}

/// The collected finish values of a Sasaki run: after one round fewer
/// than there are nodes, each node reports its right lane where its
/// crossing balance ended at −1, its left lane otherwise.
pub open spec fn spec_sasaki_network(order: PartialOrder, values: Seq<i32>) -> Seq<i32> {
    let fin = spec_sasaki_run(order, spec_sasaki_init(values), (values.len() - 1) as nat);
    Seq::new(values.len(), |i: int| if fin[i].2 == -1 { fin[i].1.num } else { fin[i].0.num })
}

/// A line already in the configured order is a fixpoint of every Sasaki
/// round: both lanes of every node keep their seed value, since no
/// exchange rule fires between ordered neighbours.
proof fn lemma_sasaki_sorted_round_fixpoint(order: PartialOrder, values: Seq<i32>)
    requires
        spec_sorted(order, values),
        2 <= values.len(),
    ensures
        spec_sasaki_round(order, spec_sasaki_init(values)) == spec_sasaki_init(values),
{
    let init = spec_sasaki_init(values);
    assert forall|i: int| 0 <= i < values.len() implies spec_sasaki_round(order, init)[i]
        == init[i] by {
        if i > 0 {
            assert(values[i - 1] == init[i - 1].1.num);
        }
        if i + 1 < values.len() {
            assert(values[i + 1] == init[i + 1].0.num);
        }
    }
    assert(spec_sasaki_round(order, init) =~= init);
}

/// A line already in the configured order stays at its seed states
/// through any number of Sasaki rounds.
proof fn lemma_sasaki_sorted_run_fixpoint(order: PartialOrder, values: Seq<i32>, remaining: nat)
    requires
        spec_sorted(order, values),
        2 <= values.len(),
    ensures
        spec_sasaki_run(order, spec_sasaki_init(values), remaining) == spec_sasaki_init(values),
    decreases remaining,
{
    if remaining > 0 {
        lemma_sasaki_sorted_round_fixpoint(order, values);
        lemma_sasaki_sorted_run_fixpoint(order, values, (remaining - 1) as nat);
    }
}

/// A line already in the configured order comes out of a whole Sasaki run
/// unchanged: every node's two lanes still hold its own value, so either
/// crossing balance picks it.
pub proof fn lemma_sasaki_sorted_fixpoint(order: PartialOrder, values: Seq<i32>)
    requires
        spec_sorted(order, values),
        2 <= values.len(),
    ensures
        spec_sasaki_network(order, values) == values,
{
    lemma_sasaki_sorted_run_fixpoint(order, values, (values.len() - 1) as nat);
    assert(spec_sasaki_network(order, values) =~= values);
}

/// On a line already in the configured order, the Sasaki run and the
/// Odd-Even run agree: both return it unchanged.
pub proof fn lemma_sorted_strategies_agree(order: PartialOrder, values: Seq<i32>)
    requires
        spec_sorted(order, values),
        2 <= values.len(),
    ensures
        spec_sasaki_network(order, values) == spec_odd_even_network(order, values),
{
    lemma_sasaki_sorted_fixpoint(order, values);
    lemma_sorted_run_fixpoint(order, values, 1, values.len());
}

/// What a node receives on its left link from the lockstep line, round by
/// round: its left neighbour's right lane at round start (at the left end,
/// its own lane, which the engine ignores).
pub open spec fn sasaki_from_left(
    order: PartialOrder,
    states: Seq<(Sasaki, Sasaki, int)>,
    m: nat,
    i: int,
) -> Seq<Sasaki> {
    Seq::new(
        m,
        |t: int|
            {
                let line = spec_sasaki_run(order, states, t as nat);
                if i > 0 {
                    line[i - 1].1
                } else {
                    line[i].0
                }
            },
    )
}

/// What a node receives on its right link from the lockstep line, round by
/// round: its right neighbour's left lane at round start (at the right
/// end, its own lane, which the engine ignores).
pub open spec fn sasaki_from_right(
    order: PartialOrder,
    states: Seq<(Sasaki, Sasaki, int)>,
    m: nat,
    i: int,
) -> Seq<Sasaki> {
    Seq::new(
        m,
        |t: int|
            {
                let line = spec_sasaki_run(order, states, t as nat);
                if i + 1 < states.len() {
                    line[i + 1].0
                } else {
                    line[i].1
                }
            },
    )
}

/// One node of the line, running its own Sasaki engine over what the line
/// sends it, tracks the line exactly through the remaining rounds.
proof fn lemma_sasaki_node_run_matches(
    order: PartialOrder,
    states: Seq<(Sasaki, Sasaki, int)>,
    i: int,
    m: nat,
)
    requires
        2 <= states.len(),
        0 <= i < states.len(),
    ensures
        Sasaki::spec_run(
            order,
            pos_of(i, states.len() as int),
            states[i].0,
            states[i].1,
            states[i].2,
            sasaki_from_left(order, states, m, i),
            sasaki_from_right(order, states, m, i),
        ) == spec_sasaki_run(order, states, m)[i],
    decreases m,
{
    if m > 0 {
        let n = states.len() as int;
        let pos = pos_of(i, n);
        let from_l = sasaki_from_left(order, states, m, i);
        let from_r = sasaki_from_right(order, states, m, i);
        let line1 = spec_sasaki_round(order, states);
        assert(spec_sasaki_run(order, states, 0) == states);
        assert(Sasaki::spec_round(order, pos, states[i].0, states[i].1, states[i].2, from_l[0], from_r[0])
            == line1[i]);
        assert forall|t: int| 0 <= t < m - 1 implies from_l.skip(1)[t] == sasaki_from_left(
            order,
            line1,
            (m - 1) as nat,
            i,
        )[t] by {
            assert(spec_sasaki_run(order, states, (t + 1) as nat) == spec_sasaki_run(
                order,
                line1,
                t as nat,
            ));
        }
        assert forall|t: int| 0 <= t < m - 1 implies from_r.skip(1)[t] == sasaki_from_right(
            order,
            line1,
            (m - 1) as nat,
            i,
        )[t] by {
            assert(spec_sasaki_run(order, states, (t + 1) as nat) == spec_sasaki_run(
                order,
                line1,
                t as nat,
            ));
        }
        assert(from_l.skip(1) =~= sasaki_from_left(order, line1, (m - 1) as nat, i));
        assert(from_r.skip(1) =~= sasaki_from_right(order, line1, (m - 1) as nat, i));
        lemma_sasaki_node_run_matches(order, line1, i, (m - 1) as nat);
    }
}

/// The distributed Sasaki run agrees with the lockstep line: a node that
/// seeds its lanes from its own value and applies every round to the
/// values its neighbours send it reports exactly the network result of
/// its index.
pub proof fn lemma_sasaki_engine_matches_network(order: PartialOrder, values: Seq<i32>, i: int)
    requires
        2 <= values.len(),
        0 <= i < values.len(),
    ensures
        Sasaki::spec_sasaki(
            order,
            pos_of(i, values.len() as int),
            values[i],
            sasaki_from_left(order, spec_sasaki_init(values), (values.len() - 1) as nat, i),
            sasaki_from_right(order, spec_sasaki_init(values), (values.len() - 1) as nat, i),
        ) == spec_sasaki_network(order, values)[i],
{
    lemma_sasaki_node_run_matches(order, spec_sasaki_init(values), i, (values.len() - 1) as nat);
}

/// One Sasaki round over the line, reading the round-start states.
fn sasaki_round(states: &Vec<LaneState>, order: PartialOrder) -> (r: Vec<LaneState>)
    requires
        forall|i: int| 0 <= i < states@.len() ==> -1000000000 <= #[trigger] states@[i].area
            <= 1000000000,
    ensures
        lanes_view(r@) == spec_sasaki_round(order, lanes_view(states@)),
        r@.len() == states@.len(),
        forall|i: int| 0 <= i < r@.len() ==> states@[i].area - 1 <= #[trigger] r@[i].area
            <= states@[i].area + 1,
    {
    let n = states.len();
    let ghost target = spec_sasaki_round(order, lanes_view(states@));
    let mut out: Vec<LaneState> = Vec::new();
    let mut i: usize = 0;
    while i < n
        invariant
            n == states@.len(),
            i <= n,
            forall|j: int| 0 <= j < n ==> -1000000000 <= #[trigger] states@[j].area <= 1000000000,
            target == spec_sasaki_round(order, lanes_view(states@)),
            out@.len() == i,
            forall|j: int| 0 <= j < i ==> #[trigger] out@[j].view() == target[j],
            forall|j: int| 0 <= j < i ==> states@[j].area - 1 <= #[trigger] out@[j].area
                <= states@[j].area + 1,
        decreases n - i,
    {
        let cur = states[i];
        let rel_pos = if i == 0 {
            Position::Left
        } else if i == n - 1 {
            Position::Right
        } else {
            Position::Middle
        };
        let from_left = if i > 0 {
            states[i - 1].right
        } else {
            cur.left
        };
        let from_right = if i + 1 < n {
            states[i + 1].left
        } else {
            cur.right
        };
        let stepped = Sasaki::round_step(
            order,
            rel_pos,
            cur.left,
            cur.right,
            cur.area,
            from_left,
            from_right,
        );
        out.push(LaneState { left: stepped.0, right: stepped.1, area: stepped.2 });
        i = i + 1;
    }
    proof {
        assert(lanes_view(out@) =~= target);
    }
    out
}

/// Runs the Sasaki strategy over a whole line, for one round fewer than
/// there are nodes.  The result is exactly the network spec.
pub fn run_sasaki(values: &Vec<i32>, order: PartialOrder) -> (r: Vec<i32>)
    requires
        2 <= values@.len() <= 65535,
    ensures
        r@ == spec_sasaki_network(order, values@),
        r@.len() == values@.len(),
{
    let n = values.len();
    let mut states: Vec<LaneState> = Vec::new();
    let mut k: usize = 0;
    while k < n
        invariant
            n == values@.len(),
            k <= n,
            states@.len() == k,
            forall|j: int| 0 <= j < k ==> #[trigger] states@[j].view() == spec_sasaki_init(
                values@,
            )[j],
            forall|j: int| 0 <= j < k ==> -1 <= #[trigger] states@[j].area <= 0,
        decreases n - k,
    {
        let rel_pos = if k == 0 {
            Position::Left
        } else if k == n - 1 {
            Position::Right
        } else {
            Position::Middle
        };
        let is_marked = match rel_pos {
            Position::Middle => false,
            _ => true,
        };
        let lane = Sasaki { num: values[k], is_marked };
        let area: i32 = if k == 0 {
            -1
        } else {
            0
        };
        states.push(LaneState { left: lane, right: lane, area });
        k = k + 1;
    }
    proof {
        assert(lanes_view(states@) =~= spec_sasaki_init(values@));
    }
    let ghost goal = spec_sasaki_run(order, spec_sasaki_init(values@), (n - 1) as nat);
    let mut round: usize = 0;
    while round < n - 1
        invariant
            2 <= n <= 65535,
            n == values@.len(),
            round <= n - 1,
            states@.len() == n,
            forall|j: int| 0 <= j < n ==> -(round + 1) <= #[trigger] states@[j].area <= round + 1,
            goal == spec_sasaki_run(order, lanes_view(states@), (n - 1 - round) as nat),
        decreases n - 1 - round,
    {
        states = sasaki_round(&states, order);
        round = round + 1;
    }
    let mut out: Vec<i32> = Vec::new();
    let mut i: usize = 0;
    while i < n
        invariant
            n == states@.len(),
            n == values@.len(),
            i <= n,
            goal == lanes_view(states@),
            goal == spec_sasaki_run(order, spec_sasaki_init(values@), (values@.len() - 1) as nat),
            out@.len() == i,
            forall|j: int| 0 <= j < i ==> #[trigger] out@[j] == spec_sasaki_network(
                order,
                values@,
            )[j],
        decreases n - i,
    {
        let st = states[i];
        let v = if st.area == -1 {
            st.right.num
        } else {
            st.left.num
        };
        proof {
            assert(lanes_view(states@)[i as int] == states@[i as int].view());
        }
        out.push(v);
        i = i + 1;
    }
    proof {
        assert(out@ =~= spec_sasaki_network(order, values@));
    }
    out
}

} // verus!
