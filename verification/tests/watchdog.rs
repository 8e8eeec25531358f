use mithra::config::{build_system, RawGuard, RawMiner, RawTopology};
use mithra::structs::{
    DeviceState, GuardData, MinerAlert, MinerCommand, MinerState, UserCommands,
};
use mithra::system::announce::{Announce, Announced};
use mithra::system::{Action, Contract, MqttConfig, System};

fn raw_miner(guard: usize, id: &str, pinset: i64, plug: &str, phase: i64) -> RawMiner {
    RawMiner {
        guard,
        id: Some(String::from(id)),
        pinset: Some(pinset),
        plug: Some(String::from(plug)),
        phase: Some(phase),
        consumption: Some(1000),
    }
}

fn announce(id: &str, model: &str) -> Announce {
    Announce { id: Some(String::from(id)), model: Some(String::from(model)), board: None, miners: None }
}

/// A system whose devices were all heard at `at`, with both miners in `state`.
fn live_system(state: MinerState, at: i64) -> System {
    let raw = RawTopology {
        switchboard_id: Some(String::from("sb")),
        guards: Some(vec![RawGuard {
            id: Some(String::from("g1")),
            board_type: Some(String::from("ESP32")),
            has_miners: true,
        }]),
        miners: vec![raw_miner(0, "m1", 0, "p1", 0), raw_miner(0, "m2", 1, "p2", 1)],
    };
    let contract =
        Contract { start_year: 2024, start_month: 1, billing_period: 6, recovery_ratio: 800_000 };
    let broker = MqttConfig {
        host: String::from("localhost"),
        port: 1883,
        user: String::from("mithra"),
        password: String::from("SECRET-REDACTED"),
    };
    let mut system = build_system(&raw, contract, broker, at).expect("accepted");
    assert_eq!(system.take_announce("shellies/announce", &announce("sb", "SHEM-3")), Announced::Switchboard);
    assert_eq!(system.take_announce("shellies/announce", &announce("p1", "SHPLG-S")), Announced::Plug { plug: 0 });
    assert_eq!(system.take_announce("shellies/announce", &announce("p2", "SHPLG-S")), Announced::Plug { plug: 1 });
    system.switchboard_seen(at);
    assert!(system.handle_plug_msg("p1", at, true));
    assert!(system.handle_plug_msg("p2", at, true));
    system.handle_guard_msg("g1", at, &GuardData::Started, at);
    system.handle_guard_msg("g1", at, &GuardData::Configured, at);
    for id in ["m1", "m2"] {
        system.handle_guard_msg("g1", at, &GuardData::State { miner_id: String::from(id), state }, at);
    }
    system
}

fn command(miner: usize, command: MinerCommand) -> Action {
    Action::GuardCommand { miner, command }
}

#[test]
fn nothing_happens_while_all_is_well() {
    let mut system = live_system(MinerState::Running, 1_000);
    let actions = system.validate_devices(31_000);
    assert!(actions.is_empty());
    assert_eq!(system.switchboard().state, DeviceState::Available);
    assert_eq!(system.guards()[0].state, DeviceState::Available);
    assert_eq!(system.plugs()[0].state, DeviceState::Available);
    assert_eq!(system.miners()[0].state, MinerState::Running);
    assert_eq!(system.miners()[0].target_state, None);
}

#[test]
fn silent_switchboard_is_given_up_and_every_miner_is_to_stop() {
    let mut system = live_system(MinerState::Running, 0);
    system.validate_devices(200_000);
    assert_eq!(system.switchboard().state, DeviceState::Inaccessible);
    assert_eq!(system.miners()[0].target_state, Some(MinerState::PoweredOff));
    assert_eq!(system.miners()[1].target_state, Some(MinerState::PoweredOff));
}

#[test]
fn switchboard_silence_of_exactly_the_limit_is_tolerated() {
    let mut system = live_system(MinerState::Running, 0);
    system.validate_devices(150_000);
    assert_eq!(system.switchboard().state, DeviceState::Available);
    system.validate_devices(150_001);
    assert_eq!(system.switchboard().state, DeviceState::Inaccessible);
}

#[test]
fn given_up_switchboard_stops_running_miners_under_a_live_guard() {
    let mut system = live_system(MinerState::Running, 0);
    system.handle_guard_msg("g1", 190_000, &GuardData::Ping, 190_000);
    system.handle_plug_msg("p1", 190_000, true);
    system.handle_plug_msg("p2", 190_000, true);
    let actions = system.validate_devices(200_000);
    assert_eq!(actions, vec![command(0, MinerCommand::PowerOff), command(1, MinerCommand::PowerOff)]);
    assert_eq!(system.miners()[0].state, MinerState::Stopping);
    assert_eq!(system.miners()[0].command_ts, Some(200_000));
}

#[test]
fn switchboard_heard_again_is_available_again() {
    let mut system = live_system(MinerState::Running, 0);
    system.validate_devices(200_000);
    system.switchboard_seen(210_000);
    system.validate_devices(220_000);
    assert_eq!(system.switchboard().state, DeviceState::Available);
}

#[test]
fn silent_guard_is_given_up() {
    let mut system = live_system(MinerState::Running, 0);
    system.switchboard_seen(40_000);
    let actions = system.validate_devices(45_001);
    assert!(actions.is_empty());
    assert_eq!(system.guards()[0].state, DeviceState::Inaccessible);
    assert_eq!(system.miners()[0].state, MinerState::Running);
}

#[test]
fn guard_silence_of_exactly_the_limit_is_tolerated() {
    let mut system = live_system(MinerState::Running, 0);
    system.handle_plug_msg("p1", 40_000, true);
    system.handle_plug_msg("p2", 40_000, true);
    system.validate_devices(45_000);
    assert_eq!(system.guards()[0].state, DeviceState::Available);
}

#[test]
fn long_silent_guard_has_its_miners_cut_off() {
    let mut system = live_system(MinerState::Running, 0);
    system.handle_plug_msg("p2", 1_000, false);
    let actions = system.validate_devices(300_001);
    assert_eq!(actions, vec![Action::PlugCutOff { plug: 0 }]);
    assert_eq!(system.guards()[0].state, DeviceState::Inaccessible);
}

#[test]
fn guard_silent_for_five_minutes_exactly_keeps_its_plugs() {
    let mut system = live_system(MinerState::Running, 0);
    let actions = system.validate_devices(300_000);
    assert!(actions.is_empty());
}

#[test]
fn recovered_guard_is_available_and_cut_plugs_come_back() {
    let mut system = live_system(MinerState::Running, 0);
    system.validate_devices(300_001);
    system.handle_plug_msg("p1", 310_000, false);
    system.handle_guard_msg("g1", 320_000, &GuardData::Ping, 320_000);
    let actions = system.validate_devices(330_000);
    assert_eq!(
        actions,
        vec![
            Action::PlugEnable { plug: 0 },
            Action::Subscribe { miner: 0 },
            command(0, MinerCommand::StateReport),
        ]
    );
    assert_eq!(system.subscription(&actions[1]).plug, vec!["shellies/p1/relay/0/power", "shellies/p1/relay/0/energy"]);
    assert_eq!(system.subscription(&actions[1]).guard.len(), 3);
    let publication = system.publication(&actions[0]).expect("the plug is told");
    assert_eq!(publication.topic, "shellies/p1/relay/0/command");
    assert_eq!(publication.payload, "on");
    assert_eq!(system.guards()[0].state, DeviceState::Available);
    assert_eq!(system.miners()[0].state, MinerState::Undefined);
    assert_eq!(system.miners()[0].command_ts, Some(330_000));
    assert_eq!(system.miners()[1].state, MinerState::Running);
}

#[test]
fn powered_off_miner_with_target_running_is_powered_on() {
    let mut system = live_system(MinerState::PoweredOff, 0);
    system.apply_schedule(&vec![1], &vec![0]);
    let actions = system.validate_devices(10_000);
    assert_eq!(actions, vec![command(1, MinerCommand::PowerOn)]);
    assert_eq!(system.miners()[1].state, MinerState::Starting);
    assert_eq!(system.miners()[1].command_ts, Some(10_000));
    assert_eq!(system.miners()[0].state, MinerState::PoweredOff);
    assert_eq!(system.miners()[0].command_ts, None);
    let publication = system.publication(&actions[0]).expect("a command is published");
    assert_eq!(publication.topic, "guards/g1/miners/m2");
    assert_eq!(publication.payload, "PowerOn");
}

#[test]
fn running_miner_with_target_off_is_powered_off() {
    let mut system = live_system(MinerState::Running, 0);
    system.apply_schedule(&vec![], &vec![0]);
    let actions = system.validate_devices(10_000);
    assert_eq!(actions, vec![command(0, MinerCommand::PowerOff)]);
    assert_eq!(system.miners()[0].state, MinerState::Stopping);
    assert_eq!(system.miners()[0].command_ts, Some(10_000));
}

#[test]
fn miner_at_its_target_is_left_alone() {
    let mut system = live_system(MinerState::Running, 0);
    system.apply_schedule(&vec![0, 1], &vec![]);
    assert!(system.validate_devices(10_000).is_empty());
    assert_eq!(system.miners()[0].state, MinerState::Running);
}

fn timed_out(state: MinerState, limit: i64) {
    let mut system = live_system(state, 0);
    assert!(system.validate_devices(limit).is_empty(), "{:?} at its limit", state);
    assert_eq!(system.miners()[0].state, state);
    assert_eq!(system.miners()[0].command_ts, Some(0));
    let actions = system.validate_devices(limit + 1);
    assert_eq!(
        actions,
        vec![command(0, MinerCommand::StateReport), command(1, MinerCommand::StateReport)],
        "{:?} past its limit",
        state
    );
    assert_eq!(system.miners()[0].state, MinerState::Undefined);
    assert_eq!(system.miners()[0].command_ts, Some(limit + 1));
}

#[test]
fn starting_times_out_after_seven_seconds() {
    timed_out(MinerState::Starting, 7_000);
}

#[test]
fn hard_stopping_times_out_after_twelve_seconds() {
    timed_out(MinerState::HardStopping, 12_000);
}

#[test]
fn restarting_times_out_after_twelve_seconds() {
    timed_out(MinerState::Restarting, 12_000);
}

#[test]
fn hard_restarting_times_out_after_twenty_seconds() {
    timed_out(MinerState::HardRestarting, 20_000);
}

#[test]
fn stopping_times_out_after_a_hundred_and_thirty_seconds() {
    let mut system = live_system(MinerState::Stopping, 0);
    system.handle_guard_msg("g1", 129_000, &GuardData::Ping, 129_000);
    system.switchboard_seen(129_000);
    assert!(system.validate_devices(130_000).is_empty());
    let actions = system.validate_devices(130_001);
    assert_eq!(
        actions,
        vec![command(0, MinerCommand::StateReport), command(1, MinerCommand::StateReport)]
    );
    assert_eq!(system.miners()[1].state, MinerState::Undefined);
}

#[test]
fn unknown_state_is_asked_for_again_after_ten_seconds() {
    let mut system = live_system(MinerState::Undefined, 0);
    assert!(system.validate_devices(10_000).is_empty());
    let actions = system.validate_devices(10_001);
    assert_eq!(
        actions,
        vec![command(0, MinerCommand::StateReport), command(1, MinerCommand::StateReport)]
    );
    assert_eq!(system.miners()[0].state, MinerState::Undefined);
    assert_eq!(system.miners()[0].command_ts, Some(10_001));
}

#[test]
fn silent_plug_is_given_up_and_comes_back() {
    let mut system = live_system(MinerState::Running, 0);
    system.handle_guard_msg("g1", 50_000, &GuardData::Ping, 50_000);
    system.handle_plug_msg("p2", 50_000, true);
    system.validate_devices(60_001);
    assert_eq!(system.plugs()[0].state, DeviceState::Inaccessible);
    assert_eq!(system.plugs()[1].state, DeviceState::Available);
    system.handle_plug_msg("p1", 61_000, true);
    system.validate_devices(62_000);
    assert_eq!(system.plugs()[0].state, DeviceState::Available);
}

#[test]
fn plug_that_is_off_under_a_running_miner_is_noted() {
    let mut system = live_system(MinerState::Running, 0);
    system.handle_plug_msg("p1", 1_000, false);
    let actions = system.validate_devices(2_000);
    assert_eq!(actions, vec![Action::Inconsistent { miner: 0 }]);
    assert!(system.publication(&actions[0]).is_none());
}

#[test]
fn plug_that_is_off_is_switched_on_for_a_miner_that_is_to_run() {
    let mut system = live_system(MinerState::PoweredOff, 0);
    system.apply_schedule(&vec![0], &vec![]);
    system.handle_plug_msg("p1", 1_000, false);
    let actions = system.validate_devices(2_000);
    assert_eq!(actions, vec![Action::PlugEnable { plug: 0 }, command(0, MinerCommand::PowerOn)]);
}

#[test]
fn unreachable_miner_keeps_its_plug_off() {
    let mut system = live_system(MinerState::PoweredOff, 0);
    system.handle_guard_msg(
        "g1",
        1_000,
        &GuardData::Alert { miner_id: String::from("m1"), alert: MinerAlert::PoweredOn },
        1_000,
    );
    let actions = system.validate_devices(2_000);
    assert_eq!(actions, vec![Action::PlugCutOff { plug: 0 }]);
    system.handle_plug_msg("p1", 3_000, false);
    assert!(system.validate_devices(4_000).is_empty());
    assert_eq!(system.miners()[0].target_state, Some(MinerState::PoweredOff));
}

#[test]
fn miner_out_of_service_is_not_watched() {
    let mut system = live_system(MinerState::Starting, 0);
    system.handle_user_command("m1", UserCommands::Exclude, 1_000);
    let actions = system.validate_devices(20_000);
    assert_eq!(actions, vec![command(1, MinerCommand::StateReport)]);
    assert_eq!(system.miners()[0].command_ts, Some(1_000));
}

#[test]
fn watchdog_keeps_the_system_well_formed() {
    let mut system = live_system(MinerState::Starting, 0);
    for now in [5_000, 8_000, 50_000, 400_000] {
        system.validate_devices(now);
        assert!(system.is_well_formed());
    }
}
