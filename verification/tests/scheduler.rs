use mithra::scheduler::knapsack::Candidate;
use mithra::scheduler::outlook::Accounts;
use mithra::scheduler::{schedule, Candidates, Outlook};

fn cand(miner: usize, phase: u8, power: u32) -> Candidate {
    Candidate { miner, phase, power }
}

fn candidates() -> Candidates {
    Candidates {
        running: [vec![cand(0, 0, 400)], vec![cand(3, 1, 200)], vec![cand(5, 2, 300), cand(6, 2, 300)]],
        runnable: [vec![cand(1, 0, 300), cand(2, 0, 500)], vec![cand(4, 1, 100)], vec![]],
    }
}

fn accounts() -> Accounts {
    Accounts {
        total_consumed: [1_000, 0, 0],
        total_returned: [10_000, 0, 0],
        miners_grid_consumed: [0, 0, 0],
        last_consumed: [30, 0, 0],
        last_returned: [100, 0, 0],
        last_miners_consumed: [50, 0, 0],
        elapsed: 30_000,
        since_period_start: 1_000,
        until_period_end: 1_000,
        recovery_ratio: 800_000,
        month: 6,
    }
}

fn sorted(mut v: Vec<usize>) -> Vec<usize> {
    v.sort();
    v
}

#[test]
fn exhausted_budget_stops_every_candidate() {
    let outlook =
        Outlook { exhausted: true, effective_power: 5_000, phase_caps: [9_000; 3], production: [9_000; 3] };
    let (run, stop) = schedule(&candidates(), &outlook);
    assert_eq!(run, Vec::<usize>::new());
    assert_eq!(stop, vec![0, 3, 5, 6, 1, 2, 4]);
}

#[test]
fn budget_of_the_contract_example_is_exhausted() {
    let accounts = Accounts {
        total_consumed: [100_000, 100_000, 100_000],
        total_returned: [100_000, 100_000, 100_000],
        ..accounts()
    };
    assert!(accounts.is_valid());
    let outlook = accounts.outlook();
    assert!(outlook.exhausted);
    let two_running = Candidates {
        running: [vec![cand(0, 0, 1_000)], vec![cand(1, 1, 1_000)], vec![]],
        runnable: [vec![], vec![], vec![]],
    };
    let (run, stop) = schedule(&two_running, &outlook);
    assert_eq!(run, Vec::<usize>::new());
    assert_eq!(stop, vec![0, 1]);
}

#[test]
fn surplus_is_shared_out_among_all_candidates() {
    let outlook = Outlook {
        exhausted: false,
        effective_power: 1_000,
        phase_caps: [2_000; 3],
        production: [0; 3],
    };
    let (run, stop) = schedule(&candidates(), &outlook);
    assert_eq!(run, vec![1, 2, 3]);
    assert_eq!(stop, vec![0, 4, 5, 6]);
}

#[test]
fn surplus_respects_the_limit_of_a_phase() {
    let outlook = Outlook {
        exhausted: false,
        effective_power: 1_000,
        phase_caps: [450, 2_000, 2_000],
        production: [0; 3],
    };
    let (run, stop) = schedule(&candidates(), &outlook);
    let phase_zero: u32 = [(0usize, 400u32), (1, 300), (2, 500)]
        .iter()
        .filter(|(m, _)| run.contains(m))
        .map(|(_, p)| *p)
        .sum();
    assert!(phase_zero <= 450);
    assert_eq!(run, vec![0, 3, 4, 5]);
    assert_eq!(stop, vec![1, 2, 6]);
}

#[test]
fn each_phase_follows_its_production() {
    let outlook = Outlook {
        exhausted: false,
        effective_power: 0,
        phase_caps: [0; 3],
        production: [1_000, 0, 500],
    };
    let (run, stop) = schedule(&candidates(), &outlook);
    assert_eq!(run, vec![1, 2, 0, 5]);
    assert_eq!(stop, vec![3, 4, 6]);
}

#[test]
fn running_miners_stay_while_production_covers_them() {
    let outlook = Outlook {
        exhausted: false,
        effective_power: 0,
        phase_caps: [0; 3],
        production: [400, 200, 600],
    };
    let (run, stop) = schedule(&candidates(), &outlook);
    assert_eq!(run, vec![1, 0, 4, 3, 5, 6]);
    assert_eq!(stop, vec![2]);
}

#[test]
fn every_candidate_is_decided_exactly_once() {
    let outlooks = [
        Outlook { exhausted: true, effective_power: 0, phase_caps: [0; 3], production: [0; 3] },
        Outlook { exhausted: false, effective_power: 777, phase_caps: [500; 3], production: [0; 3] },
        Outlook { exhausted: false, effective_power: 0, phase_caps: [0; 3], production: [350, 150, 299] },
    ];
    for outlook in outlooks {
        let (run, stop) = schedule(&candidates(), &outlook);
        let mut all = run.clone();
        all.extend(stop.iter());
        assert_eq!(sorted(all), vec![0, 1, 2, 3, 4, 5, 6]);
    }
}

#[test]
fn no_candidates_give_an_empty_decision() {
    let none = Candidates { running: [vec![], vec![], vec![]], runnable: [vec![], vec![], vec![]] };
    let outlook =
        Outlook { exhausted: false, effective_power: 100, phase_caps: [100; 3], production: [100; 3] };
    let (run, stop) = schedule(&none, &outlook);
    assert!(run.is_empty());
    assert!(stop.is_empty());
}

#[test]
fn effective_power_is_what_may_be_drawn_back_less_the_household() {
    let outlook = accounts().outlook();
    assert!(!outlook.exhausted);
    assert_eq!(outlook.effective_power, 25_200);
}

#[test]
fn miners_draw_from_the_grid_is_not_the_households() {
    let accounts = Accounts { miners_grid_consumed: [600, 0, 0], ..accounts() };
    assert_eq!(accounts.outlook().effective_power, 25_236);
}

#[test]
fn effective_power_is_rounded_down() {
    let accounts = Accounts { since_period_start: 1_000, until_period_end: 7_000, ..accounts() };
    // 8000 Wh over 7000 s are 4114.28 W; the household drew 3600 W.
    assert_eq!(accounts.outlook().effective_power, 514);
}

#[test]
fn less_than_a_watt_is_no_effective_power() {
    let accounts = Accounts { total_returned: [1_251, 0, 0], ..accounts() };
    // 1000.8 Wh over 1000 s are 3602.88 W, less 3600 W.
    assert_eq!(accounts.outlook().effective_power, 2);
    let accounts = Accounts { total_returned: [1_250, 0, 0], ..accounts };
    assert!(accounts.outlook().exhausted);
    let accounts = Accounts { total_returned: [1_251, 0, 0], until_period_end: 1_001, ..accounts };
    assert!(!accounts.outlook().exhausted);
    assert_eq!(accounts.outlook().effective_power, 0);
}

#[test]
fn a_period_without_time_behind_or_ahead_has_no_effective_power() {
    assert_eq!(Accounts { since_period_start: 0, ..accounts() }.outlook().effective_power, 0);
    assert_eq!(Accounts { until_period_end: 0, ..accounts() }.outlook().effective_power, 0);
}

#[test]
fn budget_is_exhausted_when_consumption_reaches_what_may_be_drawn_back() {
    let exactly = Accounts { total_consumed: [8_000, 0, 0], ..accounts() };
    assert!(exactly.outlook().exhausted);
    let below = Accounts { total_consumed: [7_999, 0, 0], ..accounts() };
    assert!(!below.outlook().exhausted);
    let nothing = Accounts { total_consumed: [0; 3], total_returned: [0; 3], ..accounts() };
    assert!(nothing.outlook().exhausted);
}

#[test]
fn production_is_what_was_returned_and_used_less_what_was_drawn() {
    let outlook = accounts().outlook();
    // 120 Wmin in 30 s are 240 W, of which 80 % count in June.
    assert_eq!(outlook.production, [192, 0, 0]);
    assert_eq!(outlook.phase_caps, [25_200 + 216, 25_200, 25_200]);
}

#[test]
fn seasonal_share_follows_the_month() {
    let expected = [96, 96, 132, 168, 192, 192, 192, 192, 168, 132, 96, 96];
    for month in 1..=12u32 {
        let outlook = Accounts { month, ..accounts() }.outlook();
        assert_eq!(outlook.production[0], expected[month as usize - 1], "month {}", month);
    }
}

#[test]
fn production_is_rounded_down() {
    let accounts = Accounts {
        last_returned: [7, 0, 0],
        last_miners_consumed: [0; 3],
        last_consumed: [0; 3],
        month: 3,
        ..accounts()
    };
    assert_eq!(accounts.outlook().production[0], 7);
}

#[test]
fn a_phase_that_drew_more_than_it_gave_produced_nothing() {
    let accounts = Accounts {
        last_returned: [10, 0, 5],
        last_miners_consumed: [10, 0, 5],
        last_consumed: [21, 0, 10],
        ..accounts()
    };
    let outlook = accounts.outlook();
    assert_eq!(outlook.production, [0, 0, 0]);
    assert_eq!(outlook.phase_caps, [25_200; 3]);
}

#[test]
fn no_time_since_the_last_decision_means_no_production() {
    let outlook = Accounts { elapsed: 0, ..accounts() }.outlook();
    assert_eq!(outlook.production, [0, 0, 0]);
    assert_eq!(outlook.phase_caps, [25_200; 3]);
}

#[test]
fn accounts_out_of_range_are_told() {
    assert!(accounts().is_valid());
    assert!(!Accounts { month: 0, ..accounts() }.is_valid());
    assert!(!Accounts { month: 13, ..accounts() }.is_valid());
    assert!(!Accounts { recovery_ratio: 1_000_001, ..accounts() }.is_valid());
    assert!(!Accounts { total_consumed: [0, 0, 1_099_511_627_777], ..accounts() }.is_valid());
    assert!(Accounts { total_consumed: [0, 0, 1_099_511_627_776], ..accounts() }.is_valid());
    assert!(!Accounts { last_returned: [70_368_744_177_665, 0, 0], ..accounts() }.is_valid());
    assert!(!Accounts { since_period_start: 4_294_967_297, ..accounts() }.is_valid());
}

#[test]
fn largest_accounts_are_computed_without_overflow() {
    let accounts = Accounts {
        total_consumed: [0; 3],
        total_returned: [1_099_511_627_776; 3],
        miners_grid_consumed: [70_368_744_177_664; 3],
        last_consumed: [0; 3],
        last_returned: [70_368_744_177_664; 3],
        last_miners_consumed: [70_368_744_177_664; 3],
        elapsed: 1,
        since_period_start: 4_294_967_296,
        until_period_end: 1,
        recovery_ratio: 1_000_000,
        month: 7,
    };
    assert!(accounts.is_valid());
    let outlook = accounts.outlook();
    assert!(!outlook.exhausted);
    // 3 * 2^40 Wh in one second, and the miners' draw counts against the household.
    assert_eq!(
        outlook.effective_power,
        3 * 1_099_511_627_776 * 3600 + (3 * 70_368_744_177_664 * 60) / 4_294_967_296
    );
    assert_eq!(outlook.production[0], 2 * 70_368_744_177_664 * 600 * 80);
}
