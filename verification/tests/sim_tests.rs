use line_sort::node::PartialOrder;
use line_sort::sim::{run_odd_even, run_sasaki};

fn sorted(mut v: Vec<i32>, order: PartialOrder) -> Vec<i32> {
    match order {
        PartialOrder::LessThan => v.sort(),
        PartialOrder::GreaterThan => v.sort_by(|a, b| b.cmp(a)),
    }
    v
}

#[test]
fn scenario_four_nodes_odd_even() {
    // 4 nodes, values [5,3,8,1], ascending, Odd-Even, 4 rounds.
    let out = run_odd_even(&vec![5, 3, 8, 1], PartialOrder::LessThan);
    assert_eq!(out, vec![1, 3, 5, 8]);
}

#[test]
fn scenario_five_nodes_sasaki() {
    // 5 nodes, values [4,4,2,2,9], ascending, Sasaki, 4 rounds.
    let out = run_sasaki(&vec![4, 4, 2, 2, 9], PartialOrder::LessThan);
    assert_eq!(out, vec![2, 2, 4, 4, 9]);
}

#[test]
fn odd_even_sorts_ascending() {
    let cases: Vec<Vec<i32>> = vec![
        vec![2, 1],
        vec![1, 2],
        vec![3, 3, 1],
        vec![9, -4, 7, 0, 7, -4],
        vec![5, 4, 3, 2, 1, 0, -1],
        vec![i32::MIN, i32::MAX, 0, -1, 1],
    ];
    for input in cases {
        let out = run_odd_even(&input, PartialOrder::LessThan);
        assert_eq!(out, sorted(input, PartialOrder::LessThan));
    }
}

#[test]
fn odd_even_sorts_descending() {
    let cases: Vec<Vec<i32>> = vec![
        vec![2, 1],
        vec![1, 2],
        vec![3, 3, 1],
        vec![9, -4, 7, 0, 7, -4],
        vec![-5, 0, 5, 10, -10],
    ];
    for input in cases {
        let out = run_odd_even(&input, PartialOrder::GreaterThan);
        assert_eq!(out, sorted(input, PartialOrder::GreaterThan));
    }
}

#[test]
fn sasaki_matches_odd_even() {
    // Cross-validation: Sasaki after n-1 rounds agrees with Odd-Even after
    // n rounds, on the same input and direction.
    let cases: Vec<Vec<i32>> = vec![
        vec![2, 1],
        vec![1, 2],
        vec![3, 3, 1],
        vec![4, 4, 2, 2, 9],
        vec![9, -4, 7, 0, 7, -4],
        vec![5, 4, 3, 2, 1, 0, -1],
        vec![0, 0, 0, 0],
        vec![i32::MAX, i32::MIN, 3, -3, 3],
    ];
    for input in cases {
        for order in [PartialOrder::LessThan, PartialOrder::GreaterThan] {
            let oe = run_odd_even(&input, order);
            let sa = run_sasaki(&input, order);
            assert_eq!(sa, oe, "inputs {:?}", input);
        }
    }
}

#[test]
fn odd_even_keeps_the_values() {
    // A permutation: the same values come out, counted with multiplicity.
    let input: Vec<i32> = vec![4, 4, 2, 2, 9, -1, -1, 0];
    let mut out = run_odd_even(&input, PartialOrder::LessThan);
    let mut sorted_in = input.clone();
    sorted_in.sort();
    out.sort();
    assert_eq!(out, sorted_in);
}

#[test]
fn equal_values_everywhere() {
    let input: Vec<i32> = vec![7, 7, 7, 7, 7];
    assert_eq!(run_odd_even(&input, PartialOrder::LessThan), input);
    assert_eq!(run_sasaki(&input, PartialOrder::LessThan), input);
}

#[test]
fn scenario_variants_descending() {
    let out = run_odd_even(&vec![5, 3, 8, 1], PartialOrder::GreaterThan);
    assert_eq!(out, vec![8, 5, 3, 1]);
    let out = run_sasaki(&vec![4, 4, 2, 2, 9], PartialOrder::GreaterThan);
    assert_eq!(out, vec![9, 4, 4, 2, 2]);
}

#[test]
fn sorted_input_passes_through() {
    // A line already in the configured order comes out unchanged, under
    // both strategies and both directions.
    let asc: Vec<i32> = vec![-3, 0, 0, 2, 7];
    assert_eq!(run_odd_even(&asc, PartialOrder::LessThan), asc);
    assert_eq!(run_sasaki(&asc, PartialOrder::LessThan), asc);
    let desc: Vec<i32> = vec![7, 2, 0, 0, -3];
    assert_eq!(run_odd_even(&desc, PartialOrder::GreaterThan), desc);
    assert_eq!(run_sasaki(&desc, PartialOrder::GreaterThan), desc);
}

#[test]
fn adjacent_ties_keep_their_places() {
    // The equal pair is never exchanged, so the line is already stable.
    let input: Vec<i32> = vec![1, 4, 4, 9];
    assert_eq!(run_odd_even(&input, PartialOrder::LessThan), input);
}

#[test]
fn reverse_ordered_worst_case() {
    let input: Vec<i32> = vec![6, 5, 4, 3, 2, 1];
    assert_eq!(
        run_odd_even(&input, PartialOrder::LessThan),
        vec![1, 2, 3, 4, 5, 6]
    );
    assert_eq!(
        run_sasaki(&input, PartialOrder::LessThan),
        vec![1, 2, 3, 4, 5, 6]
    );
}

#[test]
fn two_nodes_smallest_line() {
    assert_eq!(run_odd_even(&vec![8, -8], PartialOrder::LessThan), vec![-8, 8]);
    assert_eq!(run_sasaki(&vec![8, -8], PartialOrder::LessThan), vec![-8, 8]);
    assert_eq!(run_odd_even(&vec![-8, 8], PartialOrder::GreaterThan), vec![8, -8]);
    assert_eq!(run_sasaki(&vec![-8, 8], PartialOrder::GreaterThan), vec![8, -8]);
}
