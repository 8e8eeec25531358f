use mithra::structs::{CommandStatus, Miner, MinerAlert, MinerCommand, MinerState};
use mithra::system::transitions::{is_overdue, timeout, Effect};

const ALL: [MinerState; 10] = [
    MinerState::Undefined,
    MinerState::PoweredOff,
    MinerState::Starting,
    MinerState::Running,
    MinerState::Stopping,
    MinerState::HardStopping,
    MinerState::Restarting,
    MinerState::HardRestarting,
    MinerState::Aborted,
    MinerState::Unreachable,
];

fn miner(state: MinerState, target: Option<MinerState>) -> Miner {
    Miner {
        id: String::from("m1"),
        guard: 0,
        pinset: 0,
        phase: 0,
        estimated_consumption: 1000,
        power_consumption: None,
        state,
        target_state: if state.terminal() { Some(MinerState::PoweredOff) } else { target },
        command_ts: if state.steady() { None } else { Some(100) },
        included: true,
    }
}

fn targets() -> [Option<MinerState>; 3] {
    [None, Some(MinerState::Running), Some(MinerState::PoweredOff)]
}

#[test]
fn consistency_is_told() {
    assert!(miner(MinerState::Running, None).is_consistent());
    assert!(miner(MinerState::Aborted, None).is_consistent());
    let mut m = miner(MinerState::Running, None);
    m.command_ts = Some(1);
    assert!(!m.is_consistent());
    let mut m = miner(MinerState::Starting, None);
    m.command_ts = None;
    assert!(!m.is_consistent());
    let mut m = miner(MinerState::Unreachable, None);
    m.target_state = Some(MinerState::Running);
    assert!(!m.is_consistent());
    let mut m = miner(MinerState::Running, None);
    m.target_state = Some(MinerState::Starting);
    assert!(!m.is_consistent());
}

#[test]
fn every_step_from_every_state_keeps_the_miner_consistent() {
    let statuses = [
        CommandStatus::Busy,
        CommandStatus::Disallowed,
        CommandStatus::Done,
        CommandStatus::Failed,
        CommandStatus::Undefined,
    ];
    for state in ALL {
        for target in targets() {
            for included in [true, false] {
                let fresh = || {
                    let mut m = miner(state, target);
                    m.included = included;
                    m
                };
                assert!(fresh().is_consistent());
                for alert in [MinerAlert::PoweredOn, MinerAlert::PoweredOff] {
                    let mut m = fresh();
                    m.on_alert(alert);
                    assert!(m.is_consistent());
                }
                for status in statuses {
                    for reported in ALL {
                        let mut m = fresh();
                        m.on_command(status, reported, 500);
                        assert!(m.is_consistent(), "{:?} {:?} {:?}", state, status, reported);
                    }
                }
                for reported in ALL {
                    let mut m = fresh();
                    m.on_state_report(reported, 500);
                    assert!(m.is_consistent());
                }
                for run in [true, false] {
                    let mut m = fresh();
                    m.set_target(run);
                    assert!(m.is_consistent());
                }
                for plug in [true, false] {
                    for now in [100, 7_100, 7_101, 1_000_000] {
                        let mut m = fresh();
                        let effect = m.watchdog(plug, now);
                        assert!(m.is_consistent());
                        if effect.command == Some(MinerCommand::PowerOn) {
                            assert_eq!(m.state, MinerState::Starting);
                            assert_eq!(m.command_ts, Some(now));
                        }
                    }
                }
                let mut m = fresh();
                m.exclude(500);
                assert!(m.is_consistent());
                m.reinclude(600);
                assert!(m.is_consistent());
                m.ask(700);
                assert!(m.is_consistent());
                m.record_power(5);
                assert!(m.is_consistent());
            }
        }
    }
}

#[test]
fn only_the_five_pairs_complete_a_command() {
    let completing = [
        (MinerState::Starting, MinerState::Running),
        (MinerState::Stopping, MinerState::PoweredOff),
        (MinerState::HardStopping, MinerState::PoweredOff),
        (MinerState::Restarting, MinerState::Running),
        (MinerState::HardRestarting, MinerState::Running),
    ];
    for before in ALL {
        for reported in ALL {
            let mut m = miner(before, None);
            let effect = m.on_command(CommandStatus::Done, reported, 500);
            if completing.contains(&(before, reported)) {
                assert_eq!(effect, Effect { command: None, relay: None, inconsistent: false });
                assert_eq!(m.state, reported);
                assert_eq!(m.command_ts, None);
            } else {
                assert_eq!(effect.command, Some(MinerCommand::StateReport));
                assert_eq!(effect.relay, None);
                assert_eq!(m.state, MinerState::Undefined);
                assert_eq!(m.command_ts, Some(500));
            }
        }
    }
}

#[test]
fn target_running_is_not_given_to_a_miner_in_a_terminal_state() {
    let mut m = miner(MinerState::Aborted, None);
    m.set_target(true);
    assert_eq!(m.target_state, Some(MinerState::PoweredOff));
    let mut m = miner(MinerState::Stopping, None);
    m.set_target(true);
    assert_eq!(m.target_state, Some(MinerState::Running));
    m.set_target(false);
    assert_eq!(m.target_state, Some(MinerState::PoweredOff));
}

#[test]
fn each_state_has_its_timeout() {
    assert_eq!(timeout(MinerState::Starting), Some(7_000));
    assert_eq!(timeout(MinerState::Stopping), Some(130_000));
    assert_eq!(timeout(MinerState::HardStopping), Some(12_000));
    assert_eq!(timeout(MinerState::Restarting), Some(12_000));
    assert_eq!(timeout(MinerState::HardRestarting), Some(20_000));
    assert_eq!(timeout(MinerState::Undefined), Some(10_000));
    for steady in [MinerState::Running, MinerState::PoweredOff, MinerState::Aborted, MinerState::Unreachable] {
        assert_eq!(timeout(steady), None);
    }
}

#[test]
fn overdue_is_judged_without_overflow() {
    assert!(!is_overdue(10, 3, 7));
    assert!(is_overdue(11, 3, 7));
    assert!(is_overdue(i64::MAX, i64::MIN, i64::MAX));
    assert!(!is_overdue(i64::MIN, i64::MAX, 0));
    assert!(!is_overdue(5, 10, 0));
}

#[test]
fn exclusion_and_inclusion_tell_whether_anything_changed() {
    let mut m = miner(MinerState::Running, Some(MinerState::Running));
    assert!(!m.reinclude(1));
    assert!(m.exclude(2));
    assert!(!m.exclude(3));
    assert_eq!(m.command_ts, Some(2));
    assert!(m.reinclude(4));
    assert_eq!(m.target_state, None);
    assert_eq!(m.state, MinerState::Undefined);
}
