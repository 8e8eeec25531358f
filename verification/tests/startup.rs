use mithra::config::{build_system, RawGuard, RawMiner, RawTopology};
use mithra::structs::{DeviceState, MinerCommand, MinerState};
use mithra::system::announce::{Announce, AnnouncedMiner};
use mithra::system::{Action, Contract, MqttConfig, System};

fn system() -> System {
    let guard = |id: &str| RawGuard {
        id: Some(String::from(id)),
        board_type: Some(String::from("ESP32")),
        has_miners: true,
    };
    let miner = |g: usize, id: &str, pinset: i64, plug: &str, phase: i64| RawMiner {
        guard: g,
        id: Some(String::from(id)),
        pinset: Some(pinset),
        plug: Some(String::from(plug)),
        phase: Some(phase),
        consumption: Some(1000),
    };
    let raw = RawTopology {
        switchboard_id: Some(String::from("sb")),
        guards: Some(vec![guard("g1"), guard("g2"), guard("g3")]),
        miners: vec![
            miner(0, "m1", 0, "p1", 0),
            miner(1, "m2", 2, "p2", 1),
            miner(0, "m3", 12 - 9, "p3", 1),
        ],
    };
    let contract =
        Contract { start_year: 2024, start_month: 1, billing_period: 6, recovery_ratio: 800_000 };
    let broker = MqttConfig {
        host: String::from("localhost"),
        port: 1883,
        user: String::from("mithra"),
        password: String::from("SECRET-REDACTED"),
    };
    build_system(&raw, contract, broker, 0).expect("accepted")
}

fn guard_announce(id: &str, miners: &[(&str, u32)]) -> Announce {
    Announce {
        id: Some(String::from(id)),
        model: None,
        board: Some(String::from("ESP32")),
        miners: Some(
            miners
                .iter()
                .map(|(id, pinset)| AnnouncedMiner { id: Some(String::from(*id)), pinset: Some(*pinset) })
                .collect(),
        ),
    }
}

#[test]
fn listeners_start_with_the_topics_of_every_device() {
    let s = system().subscriptions();
    assert_eq!(
        s.switchboard,
        vec![
            "shellies/sb/emeter/+/energy",
            "shellies/sb/emeter/+/returned_energy",
            "shellies/sb/emeter/+/total",
            "shellies/sb/emeter/+/total_returned",
        ]
    );
    assert_eq!(
        s.plugs,
        vec![
            "shellies/p1/relay/0/power",
            "shellies/p1/relay/0/energy",
            "shellies/p1/relay/0",
            "shellies/p2/relay/0/power",
            "shellies/p2/relay/0/energy",
            "shellies/p2/relay/0",
            "shellies/p3/relay/0/power",
            "shellies/p3/relay/0/energy",
            "shellies/p3/relay/0",
        ]
    );
    assert_eq!(
        s.guards,
        vec![
            "guards/started",
            "guards/g1/configured",
            "guards/g1/ping",
            "guards/g2/configured",
            "guards/g2/ping",
            "guards/g3/configured",
            "guards/g3/ping",
            "guards/g1/miners/m1/alert",
            "guards/g1/miners/m1/command",
            "guards/g1/miners/m1/status",
            "guards/g2/miners/m2/alert",
            "guards/g2/miners/m2/command",
            "guards/g2/miners/m2/status",
            "guards/g1/miners/m3/alert",
            "guards/g1/miners/m3/command",
            "guards/g1/miners/m3/status",
        ]
    );
    assert_eq!(s.user, vec!["user/m1", "user/m2", "user/m3"]);
}

#[test]
fn topics_of_a_miner_are_those_of_its_plug_and_its_guard() {
    let topics = system().topics_of_miner(1);
    assert_eq!(topics.plug, vec!["shellies/p2/relay/0/power", "shellies/p2/relay/0/energy"]);
    assert_eq!(
        topics.guard,
        vec![
            "guards/g2/miners/m2/alert",
            "guards/g2/miners/m2/command",
            "guards/g2/miners/m2/status",
        ]
    );
}

#[test]
fn guards_are_told_their_miners_in_the_systems_order() {
    let system = system();
    assert_eq!(system.get_guard_config(0), "2 m1 0 m3 3");
    assert_eq!(system.get_guard_config(1), "1 m2 2");
    assert_eq!(system.get_guard_config(2), "0");
    assert_eq!(system.get_guard_config(7), "0");
}

#[test]
fn actions_that_name_no_device_publish_nothing() {
    let system = system();
    assert!(system.publication(&Action::GuardReset { guard: 3 }).is_none());
    assert!(system.publication(&Action::GuardConfig { guard: 3 }).is_none());
    assert!(system.publication(&Action::PlugCutOff { plug: 3 }).is_none());
    assert!(system.publication(&Action::PlugEnable { plug: 3 }).is_none());
    assert!(system
        .publication(&Action::GuardCommand { miner: 3, command: MinerCommand::Restart })
        .is_none());
    assert!(system.publication(&Action::Subscribe { miner: 0 }).is_none());
    let none = system.subscription(&Action::Subscribe { miner: 3 });
    assert!(none.plug.is_empty() && none.guard.is_empty());
    let none = system.subscription(&Action::PlugEnable { plug: 0 });
    assert!(none.plug.is_empty() && none.guard.is_empty());
    let p = system.publication(&Action::GuardConfig { guard: 1 }).expect("published");
    assert_eq!((p.topic.as_str(), p.payload.as_str()), ("guards/g2/config", "1 m2 2"));
    let p = system
        .publication(&Action::GuardCommand { miner: 2, command: MinerCommand::HardRestart })
        .expect("published");
    assert_eq!((p.topic.as_str(), p.payload.as_str()), ("guards/g1/miners/m3", "HardRestart"));
}

#[test]
fn start_resets_expired_guards_and_asks_available_ones() {
    let mut system = system();
    system.take_announce("guards/announce", &guard_announce("g1", &[("m1", 0), ("m3", 3)]));
    system.take_announce("guards/announce", &guard_announce("g2", &[]));
    assert_eq!(system.guards()[0].state, DeviceState::Available);
    assert_eq!(system.guards()[1].state, DeviceState::ConfigExpired);
    assert_eq!(system.guards()[2].state, DeviceState::Inaccessible);
    let actions = system.startup(9_000);
    assert_eq!(
        actions,
        vec![
            Action::GuardReset { guard: 1 },
            Action::GuardCommand { miner: 0, command: MinerCommand::StateReport },
            Action::GuardCommand { miner: 2, command: MinerCommand::StateReport },
        ]
    );
    assert_eq!(system.miners()[0].command_ts, Some(9_000));
    assert_eq!(system.miners()[0].state, MinerState::Undefined);
    assert_eq!(system.miners()[1].command_ts, Some(0));
    assert_eq!(system.miners()[2].command_ts, Some(9_000));
    assert!(system.is_well_formed());
}

#[test]
fn start_without_announcements_tells_nobody() {
    let mut system = system();
    assert!(system.startup(9_000).is_empty());
    assert_eq!(system.miners()[0].command_ts, Some(0));
}
