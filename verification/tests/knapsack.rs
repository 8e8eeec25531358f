use mithra::scheduler::knapsack::{dp_knapsack1, dp_knapsack2, Candidate};

fn cand(miner: usize, phase: u8, power: u32) -> Candidate {
    Candidate { miner, phase, power }
}

#[test]
fn one_capacity_takes_highest_total_below_it() {
    let miners = vec![cand(0, 0, 400), cand(1, 0, 300), cand(2, 0, 500)];
    let (run, stop) = dp_knapsack1(&miners, 1000);
    assert_eq!(run, vec![0, 2]);
    assert_eq!(stop, vec![1]);
}

#[test]
fn exact_capacity_is_reached_when_a_set_fills_it() {
    let miners = vec![cand(0, 0, 400), cand(1, 0, 300), cand(2, 0, 500)];
    let (run, stop) = dp_knapsack1(&miners, 800);
    assert_eq!(run, vec![1, 2]);
    assert_eq!(stop, vec![0]);
}

#[test]
fn nothing_runs_under_a_capacity_below_every_draw() {
    let miners = vec![cand(0, 0, 400), cand(1, 1, 300)];
    let (run, stop) = dp_knapsack1(&miners, 299);
    assert_eq!(run, Vec::<usize>::new());
    assert_eq!(stop, vec![0, 1]);
}

#[test]
fn zero_capacity_stops_everything() {
    let miners = vec![cand(7, 2, 1)];
    let (run, stop) = dp_knapsack1(&miners, 0);
    assert_eq!(run, Vec::<usize>::new());
    assert_eq!(stop, vec![7]);
}

#[test]
fn a_miner_that_draws_nothing_is_never_chosen() {
    let miners = vec![cand(0, 0, 0), cand(1, 0, 10)];
    let (run, stop) = dp_knapsack1(&miners, 10);
    assert_eq!(run, vec![1]);
    assert_eq!(stop, vec![0]);
}

#[test]
fn earlier_candidates_win_ties() {
    let miners = vec![cand(0, 0, 500), cand(1, 0, 500)];
    let (run, stop) = dp_knapsack1(&miners, 500);
    assert_eq!(run, vec![0]);
    assert_eq!(stop, vec![1]);
}

#[test]
fn phase_limit_keeps_a_phase_from_filling_the_capacity() {
    let miners = vec![cand(0, 0, 400), cand(1, 0, 400), cand(2, 1, 300)];
    let (run, stop) = dp_knapsack2(&miners, &[500, 1000, 1000], 1000);
    assert_eq!(run, vec![0, 2]);
    assert_eq!(stop, vec![1]);
}

#[test]
fn a_miner_above_its_phase_limit_stays_off() {
    let miners = vec![cand(0, 2, 400)];
    let (run, stop) = dp_knapsack2(&miners, &[1000, 1000, 399], 1000);
    assert_eq!(run, Vec::<usize>::new());
    assert_eq!(stop, vec![0]);
}

#[test]
fn capacity_far_above_the_total_needs_no_large_table() {
    let miners = vec![cand(0, 0, 400), cand(1, 1, 300)];
    let (run, stop) = dp_knapsack1(&miners, u64::MAX);
    assert_eq!(run, vec![0, 1]);
    assert_eq!(stop, Vec::<usize>::new());
}
