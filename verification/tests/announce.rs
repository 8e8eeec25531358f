use mithra::config::{build_system, RawGuard, RawMiner, RawTopology};
use mithra::structs::DeviceState;
use mithra::system::announce::{
    read_announce, Announce, AnnounceError, Announced, AnnouncedMiner, MAX_PAYLOAD,
};
use mithra::system::{Contract, MqttConfig, System};

fn system() -> System {
    let guard = |id: &str| RawGuard {
        id: Some(String::from(id)),
        board_type: Some(String::from("ESP32")),
        has_miners: true,
    };
    let miner = |g: usize, id: &str, pinset: i64, plug: &str| RawMiner {
        guard: g,
        id: Some(String::from(id)),
        pinset: Some(pinset),
        plug: Some(String::from(plug)),
        phase: Some(0),
        consumption: Some(1000),
    };
    let raw = RawTopology {
        switchboard_id: Some(String::from("sb")),
        guards: Some(vec![guard("g1"), guard("g2")]),
        miners: vec![miner(0, "m1", 0, "p1"), miner(0, "m2", 1, "p2"), miner(1, "m3", 0, "p3")],
    };
    let contract =
        Contract { start_year: 2024, start_month: 1, billing_period: 6, recovery_ratio: 800_000 };
    let broker = MqttConfig {
        host: String::from("localhost"),
        port: 1883,
        user: String::from("mithra"),
        password: String::from("SECRET-REDACTED"),
    };
    build_system(&raw, contract, broker, 0).expect("accepted")
}

#[test]
fn announcement_is_read_from_json() {
    let a = read_announce(r#"{"id":"g1","type":"ESP32","miners":[{"id":"m1","pinset":0},{"id":"m2","pinset":1}]}"#);
    assert_eq!(a.id.as_deref(), Some("g1"));
    assert_eq!(a.board.as_deref(), Some("ESP32"));
    assert_eq!(a.model, None);
    let miners = a.miners.expect("a list");
    assert_eq!(miners.len(), 2);
    assert_eq!(miners[0].id.as_deref(), Some("m1"));
    assert_eq!(miners[0].pinset, Some(0));
    assert_eq!(miners[1].id.as_deref(), Some("m2"));
    assert_eq!(miners[1].pinset, Some(1));
}

#[test]
fn what_an_announcement_lacks_is_none() {
    let a = read_announce(r#"{"id":17,"model":"SHEM-3","miners":{"id":"m1"}}"#);
    assert_eq!(a.id, None);
    assert_eq!(a.model.as_deref(), Some("SHEM-3"));
    assert_eq!(a.board, None);
    assert!(a.miners.is_none());
    let a = read_announce(r#"{"miners":[{"id":"m1","pinset":-1},{"pinset":4294967296},{"id":null,"pinset":1.5},7]}"#);
    let miners = a.miners.expect("a list");
    assert_eq!(miners.len(), 4);
    assert_eq!((miners[0].id.as_deref(), miners[0].pinset), (Some("m1"), None));
    assert_eq!((miners[1].id.as_deref(), miners[1].pinset), (None, None));
    assert_eq!((miners[2].id.as_deref(), miners[2].pinset), (None, None));
    assert_eq!((miners[3].id.as_deref(), miners[3].pinset), (None, None));
}

#[test]
fn what_is_no_json_holds_nothing() {
    for payload in ["", "not json", "{\"id\":", "[1,2"] {
        let a = read_announce(payload);
        assert!(a.id.is_none() && a.model.is_none() && a.board.is_none() && a.miners.is_none());
    }
    let a = read_announce("[]");
    assert!(a.id.is_none() && a.miners.is_none());
}

#[test]
fn announced_switchboard_is_available() {
    let mut system = system();
    let outcome = system.parse_announce("shellies/announce", r#"{"id":"sb","model":"SHEM-3"}"#);
    assert_eq!(outcome, Announced::Switchboard);
    assert_eq!(system.switchboard().state, DeviceState::Available);
}

#[test]
fn foreign_meter_is_ignored() {
    let mut system = system();
    let outcome = system.parse_announce("shellies/announce", r#"{"id":"other","model":"SHEM-3"}"#);
    assert_eq!(outcome, Announced::Ignored);
    assert_eq!(system.switchboard().state, DeviceState::Inaccessible);
}

#[test]
fn announced_plug_is_available() {
    let mut system = system();
    let outcome = system.parse_announce("shellies/announce", r#"{"id":"p2","model":"SHPLG-S"}"#);
    assert_eq!(outcome, Announced::Plug { plug: 1 });
    assert_eq!(system.plugs()[1].state, DeviceState::Available);
    assert_eq!(system.plugs()[0].state, DeviceState::Inaccessible);
    assert_eq!(
        system.parse_announce("shellies/announce", r#"{"id":"p9","model":"SHPLG-S"}"#),
        Announced::Ignored
    );
    assert_eq!(
        system.parse_announce("shellies/announce", r#"{"id":"sb","model":"SHPLG-S"}"#),
        Announced::Ignored
    );
}

#[test]
fn unknown_model_or_missing_field_is_ignored() {
    let mut system = system();
    for payload in [r#"{"id":"sb","model":"SHSW-1"}"#, r#"{"id":"sb"}"#, r#"{"model":"SHEM-3"}"#, "junk"] {
        assert_eq!(system.parse_announce("shellies/announce", payload), Announced::Ignored);
    }
    assert_eq!(system.switchboard().state, DeviceState::Inaccessible);
}

#[test]
fn guard_that_knows_its_miners_is_available() {
    let mut system = system();
    let outcome = system.parse_announce(
        "guards/announce",
        r#"{"id":"g1","type":"ESP32","miners":[{"id":"m2","pinset":1},{"id":"m1","pinset":0}]}"#,
    );
    assert_eq!(outcome, Announced::Guard { guard: 0, matches: true });
    assert_eq!(system.guards()[0].state, DeviceState::Available);
    assert_eq!(system.guards()[1].state, DeviceState::Inaccessible);
}

fn mismatch(payload: &str) {
    let mut system = system();
    let outcome = system.parse_announce("guards/announce", payload);
    assert_eq!(outcome, Announced::Guard { guard: 0, matches: false }, "for {}", payload);
    assert_eq!(system.guards()[0].state, DeviceState::ConfigExpired);
}

#[test]
fn guard_with_other_miners_has_an_expired_configuration() {
    mismatch(r#"{"id":"g1","type":"ESP32","miners":[]}"#);
    mismatch(r#"{"id":"g1","type":"ESP32","miners":[{"id":"m1","pinset":0}]}"#);
    mismatch(r#"{"id":"g1","type":"ESP32","miners":[{"id":"m1","pinset":1},{"id":"m2","pinset":0}]}"#);
    mismatch(r#"{"id":"g1","type":"ESP32","miners":[{"id":"m1","pinset":0},{"id":"m2","pinset":1},{"id":"m3","pinset":0}]}"#);
    mismatch(r#"{"id":"g1","type":"ESP32","miners":[{"id":"m1","pinset":0},{"id":"m2"}]}"#);
    mismatch(r#"{"id":"g1","type":"ESP32","miners":[{"id":"m1","pinset":0},{"id":"m2","pinset":1},{"pinset":2}]}"#);
}

#[test]
fn guard_without_miners_matches_an_empty_list() {
    let raw = RawTopology {
        switchboard_id: Some(String::from("sb")),
        guards: Some(vec![RawGuard {
            id: Some(String::from("g1")),
            board_type: Some(String::from("ESP32")),
            has_miners: true,
        }]),
        miners: vec![],
    };
    let contract =
        Contract { start_year: 2024, start_month: 1, billing_period: 6, recovery_ratio: 800_000 };
    let broker = MqttConfig {
        host: String::from("localhost"),
        port: 1883,
        user: String::from("mithra"),
        password: String::from("SECRET-REDACTED"),
    };
    let mut system = build_system(&raw, contract, broker, 0).expect("accepted");
    let outcome = system.parse_announce("guards/announce", r#"{"id":"g1","type":"ESP32","miners":[]}"#);
    assert_eq!(outcome, Announced::Guard { guard: 0, matches: true });
}

#[test]
fn announcement_of_an_unknown_guard_is_ignored() {
    let mut system = system();
    let outcome = system.parse_announce("guards/announce", r#"{"id":"g9","type":"ESP32","miners":[]}"#);
    assert_eq!(outcome, Announced::Ignored);
    assert_eq!(
        system.parse_announce("guards/announce", r#"{"type":"ESP32","miners":[]}"#),
        Announced::Ignored
    );
    assert_eq!(system.parse_announce("guards/announce", r#"{"id":"g1","miners":[]}"#), Announced::Ignored);
}

#[test]
fn announcements_that_end_the_start_up_are_rejected() {
    let mut system = system();
    assert_eq!(
        system.parse_announce("guards/announce", r#"{"id":"g1","type":"ESP8266","miners":[]}"#),
        Announced::Rejected(AnnounceError::UnknownGuardType)
    );
    assert_eq!(
        system.parse_announce("guards/announce", r#"{"id":"g1","type":"ESP32"}"#),
        Announced::Rejected(AnnounceError::ImproperMiners)
    );
    assert_eq!(
        system.parse_announce("guards/announce", r#"{"id":"g1","type":"ESP32","miners":"m1"}"#),
        Announced::Rejected(AnnounceError::ImproperMiners)
    );
    assert_eq!(
        system.parse_announce(
            "guards/announce",
            r#"{"id":"g1","type":"ESP32","miners":[{"id":"m1","pinset":0},{"id":"m7","pinset":1}]}"#
        ),
        Announced::Rejected(AnnounceError::UnknownMiner)
    );
    assert_eq!(system.guards()[0].state, DeviceState::Inaccessible);
}

#[test]
fn other_topics_are_ignored() {
    let mut system = system();
    assert_eq!(
        system.parse_announce("shellies/announcement", r#"{"id":"sb","model":"SHEM-3"}"#),
        Announced::Ignored
    );
    assert_eq!(system.switchboard().state, DeviceState::Inaccessible);
}

#[test]
fn announcement_may_be_handed_over_as_values() {
    let mut system = system();
    let a = Announce {
        id: Some(String::from("g2")),
        model: None,
        board: Some(String::from("ESP32")),
        miners: Some(vec![AnnouncedMiner { id: Some(String::from("m3")), pinset: Some(0) }]),
    };
    assert_eq!(system.take_announce("guards/announce", &a), Announced::Guard { guard: 1, matches: true });
    assert_eq!(system.guards()[1].state, DeviceState::Available);
    assert!(system.is_well_formed());
}

#[test]
fn payload_of_the_greatest_length_is_read() {
    let head = r#"{"id":"sb","model":"SHEM-3","pad":0."#;
    let payload = format!("{}{}}}", head, "0".repeat(MAX_PAYLOAD - head.len() - 1));
    assert_eq!(payload.len(), MAX_PAYLOAD);
    let a = read_announce(&payload);
    assert_eq!(a.id.as_deref(), Some("sb"));
    assert_eq!(a.model.as_deref(), Some("SHEM-3"));
}

#[test]
fn longer_payload_holds_nothing() {
    let head = r#"{"id":"sb","model":"SHEM-3","pad":""#;
    let payload = format!("{}{}\"}}", head, "x".repeat(MAX_PAYLOAD - head.len() - 1));
    assert_eq!(payload.len(), MAX_PAYLOAD + 1);
    let a = read_announce(&payload);
    assert!(a.id.is_none() && a.model.is_none() && a.board.is_none() && a.miners.is_none());
    let mut system = system();
    assert_eq!(system.parse_announce("shellies/announce", &payload), Announced::Ignored);
}

#[test]
fn fraction_with_more_digits_than_can_be_counted_is_not_read() {
    let payload = format!(r#"{{"id":"sb","model":"SHEM-3","pad":0.{}}}"#, "0".repeat(40_000));
    let mut system = system();
    assert_eq!(system.parse_announce("shellies/announce", &payload), Announced::Ignored);
}
