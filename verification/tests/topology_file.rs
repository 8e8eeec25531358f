use mithra::structs::MinerState;
use mithra::system::{Contract, MqttConfig};
use mithra::topology_file::{is_readable, parse_yaml, read_topology, MAX_BRACKETS, MAX_COLUMN};

const DOCUMENT: &str = "
switchboard:
  id: shellyem3-1
guards:
  - id: g1
    type: ESP32
    miners:
      - id: m1
        pinset: 0
        plug: shellyplug-1
        phase: 0
        consumption: 1300
      - id: m2
        pinset: 1
        plug: shellyplug-2
        phase: 2
        consumption: 900
  - id: g2
    type: ESP32
    miners: []
  - id: g3
    type: ESP32
    miners:
      - id: m3
        pinset: 3
        plug: shellyplug-3
        phase: 1
        consumption: 0
";

fn contract() -> Contract {
    Contract { start_year: 2024, start_month: 1, billing_period: 6, recovery_ratio: 800_000 }
}

fn broker() -> MqttConfig {
    MqttConfig {
        host: String::from("localhost"),
        port: 1883,
        user: String::from("mithra"),
        password: String::from("SECRET-REDACTED"),
    }
}

#[test]
fn document_is_read_guard_after_guard() {
    let raw = read_topology(DOCUMENT);
    assert_eq!(raw.switchboard_id.as_deref(), Some("shellyem3-1"));
    let guards = raw.guards.expect("a list of guards");
    assert_eq!(guards.len(), 3);
    assert_eq!(guards[0].id.as_deref(), Some("g1"));
    assert_eq!(guards[2].board_type.as_deref(), Some("ESP32"));
    assert!(guards.iter().all(|g| g.has_miners));
    assert_eq!(raw.miners.len(), 3);
    let m = &raw.miners[1];
    assert_eq!(m.guard, 0);
    assert_eq!(m.id.as_deref(), Some("m2"));
    assert_eq!(m.pinset, Some(1));
    assert_eq!(m.plug.as_deref(), Some("shellyplug-2"));
    assert_eq!(m.phase, Some(2));
    assert_eq!(m.consumption, Some(900));
    let m = &raw.miners[2];
    assert_eq!((m.guard, m.id.as_deref(), m.pinset), (2, Some("m3"), Some(3)));
}

#[test]
fn what_a_document_lacks_is_none() {
    let raw = read_topology("switchboard:\n  name: x\nguards:\n  - id: 7\n  - type: ESP32\n    miners:\n      - id: m1\n        pinset: zero\n        phase: 1.5\n");
    assert_eq!(raw.switchboard_id, None);
    let guards = raw.guards.expect("a list of guards");
    assert_eq!(guards.len(), 2);
    assert_eq!(guards[0].id, None);
    assert_eq!(guards[0].board_type, None);
    assert!(!guards[0].has_miners);
    assert_eq!(guards[1].board_type.as_deref(), Some("ESP32"));
    assert!(guards[1].has_miners);
    assert_eq!(raw.miners.len(), 1);
    let m = &raw.miners[0];
    assert_eq!(m.guard, 1);
    assert_eq!(m.id.as_deref(), Some("m1"));
    assert_eq!(m.pinset, None);
    assert_eq!(m.plug, None);
    assert_eq!(m.phase, None);
    assert_eq!(m.consumption, None);
}

#[test]
fn document_without_guards_has_none() {
    for content in ["", "switchboard:\n  id: sb\n", "guards: 5\n", "- a\n- b\n", "a: [unclosed"] {
        let raw = read_topology(content);
        assert!(raw.guards.is_none(), "for {:?}", content);
        assert!(raw.miners.is_empty(), "for {:?}", content);
    }
    assert_eq!(read_topology("switchboard:\n  id: sb\n").switchboard_id.as_deref(), Some("sb"));
}

#[test]
fn only_the_first_document_counts() {
    let raw = read_topology("switchboard:\n  id: first\nguards: []\n---\nswitchboard:\n  id: second\n");
    assert_eq!(raw.switchboard_id.as_deref(), Some("first"));
    assert_eq!(raw.guards.expect("a list").len(), 0);
}

#[test]
fn accepted_document_becomes_a_system() {
    let system = parse_yaml(DOCUMENT, contract(), broker(), 77).expect("accepted");
    assert!(system.is_well_formed());
    assert_eq!(system.switchboard().id, "shellyem3-1");
    assert_eq!(system.guards().len(), 3);
    assert_eq!(system.miners().len(), 3);
    assert_eq!(system.miners()[2].guard, 2);
    assert_eq!(system.miners()[2].estimated_consumption, 0);
    assert_eq!(system.miners()[2].state, MinerState::Undefined);
    assert_eq!(system.miners()[2].command_ts, Some(77));
    assert_eq!(system.plugs()[0].id, "shellyplug-1");
    assert_eq!(system.get_guard_config(0), "2 m1 0 m2 1");
}

#[test]
fn refused_documents_become_nothing() {
    let refused = |content: &str| parse_yaml(content, contract(), broker(), 0).is_none();
    assert!(refused(""));
    assert!(refused("not: a topology\n"));
    assert!(refused("switchboard:\n  id: sb\n"));
    assert!(refused(&DOCUMENT.replace("id: m3", "id: m1")));
    assert!(refused(&DOCUMENT.replace("plug: shellyplug-3", "plug: shellyplug-1")));
    assert!(refused(&DOCUMENT.replace("id: g3", "id: g1")));
    assert!(refused(&DOCUMENT.replace("pinset: 3", "pinset: 4")));
    assert!(refused(&DOCUMENT.replace("pinset: 1", "pinset: 0")));
    assert!(refused(&DOCUMENT.replace("phase: 2", "phase: 3")));
    assert!(refused(&DOCUMENT.replace("consumption: 900", "consumption: -1")));
    assert!(refused(&DOCUMENT.replace("type: ESP32\n    miners: []", "type: ESP8266\n    miners: []")));
    assert!(refused(&DOCUMENT.replace("    miners: []\n", "")));
    assert!(refused(&DOCUMENT.replace("  id: shellyem3-1", "  name: shellyem3-1")));
    assert!(!refused(DOCUMENT));
}

#[test]
fn texts_that_are_read_are_told() {
    assert!(is_readable(""));
    assert!(is_readable(DOCUMENT));
    assert!(is_readable(&"x".repeat(MAX_COLUMN + 1)));
    assert!(!is_readable(&"x".repeat(MAX_COLUMN + 2)));
    assert!(is_readable(&format!("{}\n{}", "x".repeat(MAX_COLUMN), "y".repeat(MAX_COLUMN + 1))));
    assert!(!is_readable(&format!("{}\n", "x".repeat(MAX_COLUMN + 1))));
    assert!(!is_readable(&format!("a\n{}\nb", "y".repeat(MAX_COLUMN + 2))));
    assert!(is_readable(&"[{".repeat(MAX_BRACKETS / 2)));
    assert!(!is_readable(&format!("{}\n[", "[{".repeat(MAX_BRACKETS / 2))));
    assert!(is_readable(&"]}\n".repeat(100)));
    assert!(is_readable(&"- x\n".repeat(16_384)));
    assert!(!is_readable(&format!("{}-", "- x\n".repeat(16_384))));
    assert!(!is_readable("a: &x 1\nb: *x\n"));
    assert!(is_readable("a: &x 1\nb: 2\n"));
}

#[test]
fn text_that_is_not_read_becomes_nothing() {
    let deep = "- ".repeat(5_000);
    assert!(!is_readable(&deep));
    assert!(parse_yaml(&deep, contract(), broker(), 0).is_none());
    let wide = DOCUMENT.replace("id: m1", &format!("id: {}", "m".repeat(120)));
    assert!(parse_yaml(&wide, contract(), broker(), 0).is_none());
    let bracketed = format!("{}note: {}\n", DOCUMENT, "[".repeat(17));
    assert!(parse_yaml(&bracketed, contract(), broker(), 0).is_none());
    let aliased = format!("{}note: *anchor\n", DOCUMENT);
    assert!(parse_yaml(&aliased, contract(), broker(), 0).is_none());
    let commented = format!("{}# a note\n", DOCUMENT);
    assert!(parse_yaml(&commented, contract(), broker(), 0).is_some());
}

#[test]
fn deepest_texts_that_are_read_are_read() {
    let mut stairs = String::new();
    for level in 0..MAX_COLUMN {
        stairs.push_str(&" ".repeat(level));
        stairs.push_str(if level == MAX_COLUMN - 1 { "x\n" } else { "-\n" });
    }
    assert!(is_readable(&stairs));
    assert!(read_topology(&stairs).guards.is_none());

    let compact = format!("{}x", "- ".repeat(MAX_COLUMN / 2));
    assert!(is_readable(&compact));
    assert!(read_topology(&compact).guards.is_none());

    let mut mappings = String::new();
    for level in 0..MAX_COLUMN / 2 - 1 {
        mappings.push_str(&" ".repeat(2 * level));
        mappings.push_str(if level == 0 { "guards:\n" } else { "- a:\n" });
    }
    assert!(is_readable(&mappings));
    assert_eq!(read_topology(&mappings).guards.map(|g| g.len()), Some(1));

    let flow = format!("guards: {}{}", "[".repeat(MAX_BRACKETS), "]".repeat(MAX_BRACKETS));
    assert!(is_readable(&flow));
    assert_eq!(read_topology(&flow).guards.map(|g| g.len()), Some(1));
}
