use mithra::config::{build_system, RawGuard, RawMiner, RawTopology};
use mithra::scheduler::knapsack::Candidate;
use mithra::structs::{GuardData, MinerAlert, MinerState, UserCommands};
use mithra::system::announce::Announce;
use mithra::system::{Contract, MqttConfig, System};

fn raw_miner(guard: usize, id: &str, pinset: i64, plug: &str, phase: i64, watts: i64) -> RawMiner {
    RawMiner {
        guard,
        id: Some(String::from(id)),
        pinset: Some(pinset),
        plug: Some(String::from(plug)),
        phase: Some(phase),
        consumption: Some(watts),
    }
}

/// Two guards; the miners m1 to m4 on the phases 0, 1, 1 and 2.
fn live_system(states: [MinerState; 4]) -> System {
    let guard = |id: &str| RawGuard {
        id: Some(String::from(id)),
        board_type: Some(String::from("ESP32")),
        has_miners: true,
    };
    let raw = RawTopology {
        switchboard_id: Some(String::from("sb")),
        guards: Some(vec![guard("g1"), guard("g2")]),
        miners: vec![
            raw_miner(0, "m1", 0, "p1", 0, 1_000),
            raw_miner(0, "m2", 1, "p2", 1, 1_100),
            raw_miner(1, "m3", 0, "p3", 1, 1_200),
            raw_miner(1, "m4", 1, "p4", 2, 1_300),
        ],
    };
    let contract =
        Contract { start_year: 2024, start_month: 1, billing_period: 6, recovery_ratio: 800_000 };
    let broker = MqttConfig {
        host: String::from("localhost"),
        port: 1883,
        user: String::from("mithra"),
        password: String::from("SECRET-REDACTED"),
    };
    let mut system = build_system(&raw, contract, broker, 0).expect("accepted");
    for plug in ["p1", "p2", "p3", "p4"] {
        let a = Announce {
            id: Some(String::from(plug)),
            model: Some(String::from("SHPLG-S")),
            board: None,
            miners: None,
        };
        system.take_announce("shellies/announce", &a);
    }
    for guard in ["g1", "g2"] {
        system.handle_guard_msg(guard, 0, &GuardData::Started, 0);
        system.handle_guard_msg(guard, 0, &GuardData::Configured, 0);
    }
    for (i, id) in ["m1", "m2", "m3", "m4"].iter().enumerate() {
        let guard = if i < 2 { "g1" } else { "g2" };
        system.handle_guard_msg(
            guard,
            0,
            &GuardData::State { miner_id: String::from(*id), state: states[i] },
            0,
        );
    }
    system
}

fn cand(miner: usize, phase: u8, power: u32) -> Candidate {
    Candidate { miner, phase, power }
}

#[test]
fn miners_without_a_target_stand_as_their_state_tells() {
    let system = live_system([
        MinerState::Running,
        MinerState::PoweredOff,
        MinerState::Starting,
        MinerState::HardStopping,
    ]);
    let c = system.collect_miners();
    assert_eq!(c.running[0], vec![cand(0, 0, 1_000)]);
    assert_eq!(c.running[1], vec![cand(2, 1, 1_200)]);
    assert_eq!(c.running[2], vec![]);
    assert_eq!(c.runnable[0], vec![]);
    assert_eq!(c.runnable[1], vec![cand(1, 1, 1_100)]);
    assert_eq!(c.runnable[2], vec![cand(3, 2, 1_300)]);
}

#[test]
fn every_state_has_its_standing_without_a_target() {
    let running = [MinerState::Running, MinerState::Starting, MinerState::Restarting, MinerState::HardRestarting];
    let runnable = [MinerState::PoweredOff, MinerState::Stopping, MinerState::HardStopping];
    let neither = [MinerState::Undefined, MinerState::Aborted, MinerState::Unreachable];
    for state in running {
        let c = live_system([state; 4]).collect_miners();
        assert_eq!(c.running[1].len(), 2, "{:?}", state);
        assert!(c.runnable[1].is_empty());
    }
    for state in runnable {
        let c = live_system([state; 4]).collect_miners();
        assert_eq!(c.runnable[1].len(), 2, "{:?}", state);
        assert!(c.running[1].is_empty());
    }
    for state in neither {
        let c = live_system([state; 4]).collect_miners();
        assert!(c.running[1].is_empty() && c.runnable[1].is_empty(), "{:?}", state);
    }
}

#[test]
fn target_tells_the_standing_whatever_the_state() {
    let mut system = live_system([
        MinerState::Running,
        MinerState::PoweredOff,
        MinerState::Starting,
        MinerState::Undefined,
    ]);
    system.apply_schedule(&vec![1, 3], &vec![0, 2]);
    let c = system.collect_miners();
    assert_eq!(c.runnable[0], vec![cand(0, 0, 1_000)]);
    assert_eq!(c.running[1], vec![cand(1, 1, 1_100)]);
    assert_eq!(c.runnable[1], vec![cand(2, 1, 1_200)]);
    assert_eq!(c.running[2], vec![cand(3, 2, 1_300)]);
}

#[test]
fn measured_power_is_planned_with_once_it_is_known() {
    let mut system = live_system([MinerState::Running; 4]);
    assert_eq!(system.record_miner_power("m2", 1_500_001), Some(1));
    assert_eq!(system.record_miner_power("m9", 5), None);
    let c = system.collect_miners();
    assert_eq!(c.running[1], vec![cand(1, 1, 1_501), cand(2, 1, 1_200)]);
}

#[test]
fn miners_that_cannot_be_decided_about_are_left_out() {
    let mut system = live_system([MinerState::Running; 4]);
    system.handle_user_command("m1", UserCommands::Exclude, 1);
    system.handle_plug_msg("p2", 1, false);
    system.handle_guard_msg(
        "g2",
        1,
        &GuardData::Alert { miner_id: String::from("m3"), alert: MinerAlert::PoweredOff },
        1,
    );
    let c = system.collect_miners();
    assert!(c.running[0].is_empty() && c.runnable[0].is_empty());
    assert!(c.running[1].is_empty() && c.runnable[1].is_empty());
    assert_eq!(c.running[2], vec![cand(3, 2, 1_300)]);
}

#[test]
fn miners_of_a_guard_that_is_not_available_are_left_out() {
    let mut system = live_system([MinerState::Running; 4]);
    system.handle_guard_msg("g1", 1, &GuardData::Started, 1);
    let c = system.collect_miners();
    assert!(c.running[0].is_empty());
    assert_eq!(c.running[1], vec![cand(2, 1, 1_200)]);
    system.validate_devices(400_000);
    let c = system.collect_miners();
    assert!(c.running[1].is_empty() && c.running[2].is_empty());
}

#[test]
fn miners_behind_a_plug_that_was_given_up_are_left_out() {
    let mut system = live_system([MinerState::Running; 4]);
    for plug in ["p2", "p3", "p4"] {
        system.handle_plug_msg(plug, 50_000, true);
    }
    system.handle_guard_msg("g1", 50_000, &GuardData::Ping, 50_000);
    system.handle_guard_msg("g2", 50_000, &GuardData::Ping, 50_000);
    system.validate_devices(61_000);
    let c = system.collect_miners();
    assert!(c.running[0].is_empty());
    assert_eq!(c.running[1].len(), 2);
}

#[test]
fn decision_becomes_the_targets() {
    let mut system = live_system([MinerState::Running; 4]);
    system.apply_schedule(&vec![0, 9], &vec![3, 17]);
    assert_eq!(system.miners()[0].target_state, Some(MinerState::Running));
    assert_eq!(system.miners()[1].target_state, None);
    assert_eq!(system.miners()[3].target_state, Some(MinerState::PoweredOff));
    system.power_off_all();
    for m in system.miners() {
        assert_eq!(m.target_state, Some(MinerState::PoweredOff));
    }
    assert!(system.is_well_formed());
}
