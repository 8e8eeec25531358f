use mithra::settings::{
    get_contract_data, get_db_config, get_mqtt_config, is_hostname, ConfigError,
};
use mithra::system::Contract;

fn text(s: &str) -> Option<String> {
    Some(String::from(s))
}

#[test]
fn contract_is_taken_from_proper_settings() {
    assert_eq!(
        get_contract_data(Some(2024), Some(1), Some(6), Some(800_000)),
        Ok(Contract { start_year: 2024, start_month: 1, billing_period: 6, recovery_ratio: 800_000 })
    );
    let contract = get_contract_data(Some(0), Some(12), Some(4_294_967_295), Some(0)).expect("proper");
    assert!(contract.is_valid());
    assert!(get_contract_data(Some(262_142), Some(12), Some(1), Some(1_000_000)).is_ok());
}

#[test]
fn first_fault_of_the_contract_is_told() {
    assert_eq!(get_contract_data(None, None, None, None), Err(ConfigError::StartYearInvalid));
    assert_eq!(get_contract_data(Some(-1), None, None, None), Err(ConfigError::StartYearImproper));
    assert_eq!(get_contract_data(Some(262_143), Some(1), Some(6), Some(1)), Err(ConfigError::StartYearImproper));
    assert_eq!(get_contract_data(Some(2024), None, Some(6), Some(1)), Err(ConfigError::StartMonthInvalid));
    assert_eq!(get_contract_data(Some(2024), Some(0), Some(6), Some(1)), Err(ConfigError::StartMonthImproper));
    assert_eq!(get_contract_data(Some(2024), Some(13), Some(6), Some(1)), Err(ConfigError::StartMonthImproper));
    assert_eq!(get_contract_data(Some(2024), Some(1), None, Some(1)), Err(ConfigError::BillingPeriodInvalid));
    assert_eq!(get_contract_data(Some(2024), Some(1), Some(0), Some(1)), Err(ConfigError::BillingPeriodImproper));
    assert_eq!(
        get_contract_data(Some(2024), Some(1), Some(4_294_967_296), Some(1)),
        Err(ConfigError::BillingPeriodImproper)
    );
    assert_eq!(get_contract_data(Some(2024), Some(1), Some(6), None), Err(ConfigError::RecoveryRatioInvalid));
    assert_eq!(get_contract_data(Some(2024), Some(1), Some(6), Some(-1)), Err(ConfigError::RecoveryRatioImproper));
    assert_eq!(
        get_contract_data(Some(2024), Some(1), Some(6), Some(1_000_001)),
        Err(ConfigError::RecoveryRatioImproper)
    );
}

#[test]
fn contract_validity_is_told() {
    let ok = Contract { start_year: 2024, start_month: 1, billing_period: 6, recovery_ratio: 800_000 };
    assert!(ok.is_valid());
    assert!(!Contract { start_month: 0, ..ok }.is_valid());
    assert!(!Contract { start_month: 13, ..ok }.is_valid());
    assert!(!Contract { billing_period: 0, ..ok }.is_valid());
    assert!(!Contract { recovery_ratio: 1_000_001, ..ok }.is_valid());
    assert!(!Contract { start_year: 2_147_483_648, ..ok }.is_valid());
}

#[test]
fn broker_settings_are_taken() {
    let config = get_mqtt_config(text("broker.example.org"), Some(1883), text("u"), text("SECRET-REDACTED"))
        .expect("proper");
    assert_eq!(config.host, "broker.example.org");
    assert_eq!(config.port, 1883);
    assert_eq!(config.user, "u");
    assert_eq!(config.password, "SECRET-REDACTED");
}

fn mqtt_fault(host: Option<String>, port: Option<i64>, user: Option<String>, password: Option<String>) -> ConfigError {
    get_mqtt_config(host, port, user, password).expect_err("a fault")
}

#[test]
fn first_fault_of_the_broker_is_told() {
    assert_eq!(mqtt_fault(None, None, None, None), ConfigError::HostMissing);
    assert_eq!(mqtt_fault(text("-bad-"), None, None, None), ConfigError::HostInvalid);
    assert_eq!(mqtt_fault(text("host"), None, None, None), ConfigError::PortInvalid);
    assert_eq!(mqtt_fault(text("host"), Some(-1), None, None), ConfigError::PortImproper);
    assert_eq!(mqtt_fault(text("host"), Some(65_536), None, None), ConfigError::PortImproper);
    assert_eq!(mqtt_fault(text("host"), Some(65_535), None, None), ConfigError::UserMissing);
    assert_eq!(mqtt_fault(text("host"), Some(0), text("u"), None), ConfigError::PasswordMissing);
}

#[test]
fn hostnames_are_judged_by_their_labels() {
    let long_label = "a".repeat(63);
    let too_long_label = "a".repeat(64);
    let longest = format!("{0}.{0}.{0}.{1}", long_label, "a".repeat(61));
    let too_long = format!("{0}.{0}.{0}.{1}", long_label, "a".repeat(62));
    assert_eq!(longest.len(), 253);
    let valid = ["VaLiD-HoStNaMe", "50-name", "235235", "example.com", "123.456", "a", &long_label, &longest];
    let invalid = [
        "",
        "-invalid-name",
        "also-invalid-",
        "asdf@fasd",
        "asd f@",
        ".invalid",
        "invalid.name.",
        "invalid.-starting.char",
        "invalid.ending-.char",
        "empty..label",
        "bücher.example",
        "under_score",
        ".",
        "-",
        &too_long_label,
        &too_long,
    ];
    for host in valid {
        assert!(get_mqtt_config(text(host), Some(1), text("u"), text("p")).is_ok(), "{:?}", host);
    }
    for host in invalid {
        assert_eq!(mqtt_fault(text(host), Some(1), text("u"), text("p")), ConfigError::HostInvalid, "{:?}", host);
    }
}

#[test]
fn database_settings_are_taken() {
    let config = get_db_config(text("db.example"), Some(5432), text("energy"), text("u"), text("SECRET-REDACTED"))
        .expect("proper");
    assert_eq!(config.host, "db.example");
    assert_eq!(config.port, 5432);
    assert_eq!(config.db_name, "energy");
    assert_eq!(config.user, "u");
    assert_eq!(config.password, "SECRET-REDACTED");
}

#[test]
fn first_fault_of_the_database_is_told() {
    let fault = |h, p, d, u, w| get_db_config(h, p, d, u, w).expect_err("a fault");
    assert_eq!(fault(None, None, None, None, None), ConfigError::HostMissing);
    assert_eq!(fault(text("a..b"), Some(1), text("d"), text("u"), text("p")), ConfigError::HostInvalid);
    assert_eq!(fault(text("db"), None, text("d"), text("u"), text("p")), ConfigError::PortInvalid);
    assert_eq!(fault(text("db"), Some(70_000), text("d"), text("u"), text("p")), ConfigError::PortImproper);
    assert_eq!(fault(text("db"), Some(1), None, text("u"), text("p")), ConfigError::DatabaseNameMissing);
    assert_eq!(fault(text("db"), Some(1), text("d"), None, text("p")), ConfigError::UserMissing);
    assert_eq!(fault(text("db"), Some(1), text("d"), text("u"), None), ConfigError::PasswordMissing);
}

#[test]
fn every_fault_has_its_message() {
    assert_eq!(ConfigError::StartYearInvalid.message(), "Contract start year configuration invalid!");
    assert_eq!(ConfigError::StartYearImproper.message(), "Contract start year improper value!");
    assert_eq!(ConfigError::StartMonthInvalid.message(), "Contract start month configuration invalid!");
    assert_eq!(ConfigError::StartMonthImproper.message(), "Contract start month improper value!");
    assert_eq!(ConfigError::BillingPeriodInvalid.message(), "Billing data configuration invalid!");
    assert_eq!(ConfigError::BillingPeriodImproper.message(), "Billing data improper value!");
    assert_eq!(ConfigError::RecoveryRatioInvalid.message(), "Recovery ratio configuration invalid!");
    assert_eq!(ConfigError::RecoveryRatioImproper.message(), "Recovery ratio improper value!");
    assert_eq!(ConfigError::HostMissing.message(), "Host configuration missing!");
    assert_eq!(ConfigError::HostInvalid.message(), "Host link invalid!");
    assert_eq!(ConfigError::PortInvalid.message(), "Port configuration invalid!");
    assert_eq!(ConfigError::PortImproper.message(), "Port configuration improper value");
    assert_eq!(ConfigError::DatabaseNameMissing.message(), "Database name configuration missing");
    assert_eq!(ConfigError::UserMissing.message(), "User configuration missing");
    assert_eq!(ConfigError::PasswordMissing.message(), "Password configuration missing");
}

#[test]
fn hostnames_are_judged_as_the_validator_judges_them() {
    let long = "a".repeat(63);
    let hosts = [
        String::from("VaLiD-HoStNaMe"),
        String::from("50-name"),
        String::from("235235"),
        String::from("example.com"),
        String::from("123.456"),
        String::from("-invalid-name"),
        String::from("also-invalid-"),
        String::from("asdf@fasd"),
        String::from(".invalid"),
        String::from("invalid.name."),
        String::from("invalid.-starting.char"),
        String::from("invalid.ending-.char"),
        String::from("empty..label"),
        String::from(""),
        String::from("."),
        String::from("-"),
        String::from("a-b.c-d"),
        String::from("a--b"),
        String::from("bücher.example"),
        String::from("tab\there"),
        "a".repeat(64),
        long.clone(),
        format!("{0}.{0}.{0}.{1}", long, "a".repeat(61)),
        format!("{0}.{0}.{0}.{1}", long, "a".repeat(62)),
    ];
    for host in hosts {
        assert_eq!(is_hostname(&host), hostname_validator::is_valid(&host), "for {:?}", host);
    }
}
