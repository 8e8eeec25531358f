//! The settings of the servers and of the energy contract: which values
//! are accepted, and what is wrong with those that are not.

use vstd::prelude::*;
use crate::billing::MAX_YEAR;
use crate::system::{Contract, MqttConfig};
use crate::text::{chars_of, segments, split};

verus! {

/// What is wrong with a setting: `Invalid` where it is missing or no
/// number, `Improper` where its value is out of range.
#[derive(Clone, Copy, Debug, PartialEq, Eq, Structural)]
pub enum ConfigError {
    StartYearInvalid,
    StartYearImproper,
    StartMonthInvalid,
    StartMonthImproper,
    BillingPeriodInvalid,
    BillingPeriodImproper,
    RecoveryRatioInvalid,
    RecoveryRatioImproper,
    HostMissing,
    HostInvalid,
    PortInvalid,
    PortImproper,
    DatabaseNameMissing,
    UserMissing,
    PasswordMissing,
}

impl ConfigError {
    pub open spec fn text(self) -> Seq<char> {
        match self {
            ConfigError::StartYearInvalid => "Contract start year configuration invalid!"@,
            ConfigError::StartYearImproper => "Contract start year improper value!"@,
            ConfigError::StartMonthInvalid => "Contract start month configuration invalid!"@,
            ConfigError::StartMonthImproper => "Contract start month improper value!"@,
            ConfigError::BillingPeriodInvalid => "Billing data configuration invalid!"@,
            ConfigError::BillingPeriodImproper => "Billing data improper value!"@,
            ConfigError::RecoveryRatioInvalid => "Recovery ratio configuration invalid!"@,
            ConfigError::RecoveryRatioImproper => "Recovery ratio improper value!"@,
            ConfigError::HostMissing => "Host configuration missing!"@,
            ConfigError::HostInvalid => "Host link invalid!"@,
            ConfigError::PortInvalid => "Port configuration invalid!"@,
            ConfigError::PortImproper => "Port configuration improper value"@,
            ConfigError::DatabaseNameMissing => "Database name configuration missing"@,
            ConfigError::UserMissing => "User configuration missing"@,
            ConfigError::PasswordMissing => "Password configuration missing"@,
        }
    }

    /// The message to show for the error.
    pub fn message(&self) -> (s: String)
        ensures
            s@ == self.text(),
    {
        String::from_str(
            match self {
                ConfigError::StartYearInvalid => "Contract start year configuration invalid!",
                ConfigError::StartYearImproper => "Contract start year improper value!",
                ConfigError::StartMonthInvalid => "Contract start month configuration invalid!",
                ConfigError::StartMonthImproper => "Contract start month improper value!",
                ConfigError::BillingPeriodInvalid => "Billing data configuration invalid!",
                ConfigError::BillingPeriodImproper => "Billing data improper value!",
                ConfigError::RecoveryRatioInvalid => "Recovery ratio configuration invalid!",
                ConfigError::RecoveryRatioImproper => "Recovery ratio improper value!",
                ConfigError::HostMissing => "Host configuration missing!",
                ConfigError::HostInvalid => "Host link invalid!",
                ConfigError::PortInvalid => "Port configuration invalid!",
                ConfigError::PortImproper => "Port configuration improper value",
                ConfigError::DatabaseNameMissing => "Database name configuration missing",
                ConfigError::UserMissing => "User configuration missing",
                ConfigError::PasswordMissing => "Password configuration missing",
            },
        )
    }
}

/// How to reach the database.
#[derive(Debug)]
pub struct DbConfig {
    pub host: String,
    pub port: u16,
    pub db_name: String,
    pub user: String,
    pub password: String,
}

/// The contract that the settings describe: the year from 0 to the last
/// that the calendar has, the month from 1 to 12, a period of at least one
/// month, and a recovery ratio of at most a million millionths.
pub open spec fn contract_of(
    year: Option<i64>,
    month: Option<i64>,
    period: Option<i64>,
    ratio: Option<i64>,
) -> Result<Contract, ConfigError> {
    if year is None {
        Err(ConfigError::StartYearInvalid)
    } else if !(0 <= year->0 <= MAX_YEAR) {
        Err(ConfigError::StartYearImproper)
    } else if month is None {
        Err(ConfigError::StartMonthInvalid)
    } else if !(1 <= month->0 <= 12) {
        Err(ConfigError::StartMonthImproper)
    } else if period is None {
        Err(ConfigError::BillingPeriodInvalid)
    } else if !(1 <= period->0 <= u32::MAX) {
        Err(ConfigError::BillingPeriodImproper)
    } else if ratio is None {
        Err(ConfigError::RecoveryRatioInvalid)
    } else if !(0 <= ratio->0 <= 1_000_000) {
        Err(ConfigError::RecoveryRatioImproper)
    } else {
        Ok(
            Contract {
                start_year: year->0 as u32,
                start_month: month->0 as u32,
                billing_period: period->0 as u32,
                recovery_ratio: ratio->0 as u32,
            },
        )
    }
}

/// Takes the contract from the settings; the recovery ratio in millionths.
pub fn get_contract_data(
    year: Option<i64>,
    month: Option<i64>,
    period: Option<i64>,
    ratio: Option<i64>,
) -> (r: Result<Contract, ConfigError>)
    ensures
        r == contract_of(year, month, period, ratio),
        r is Ok ==> r->Ok_0.valid(),
{
    let year = match year {
        Some(v) => if 0 <= v && v <= MAX_YEAR as i64 {
            v as u32
        } else {
            return Err(ConfigError::StartYearImproper);
        },
        None => {
            return Err(ConfigError::StartYearInvalid);
        },
    };
    let month = match month {
        Some(v) => if 1 <= v && v <= 12 {
            v as u32
        } else {
            return Err(ConfigError::StartMonthImproper);
        },
        None => {
            return Err(ConfigError::StartMonthInvalid);
        },
    };
    let period = match period {
        Some(v) => if 1 <= v && v <= 4294967295 {
            v as u32
        } else {
            return Err(ConfigError::BillingPeriodImproper);
        },
        None => {
            return Err(ConfigError::BillingPeriodInvalid);
        },
    };
    let ratio = match ratio {
        Some(v) => if 0 <= v && v <= 1_000_000 {
            v as u32
        } else {
            return Err(ConfigError::RecoveryRatioImproper);
        },
        None => {
            return Err(ConfigError::RecoveryRatioInvalid);
        },
    };
    Ok(Contract { start_year: year, start_month: month, billing_period: period, recovery_ratio: ratio })
}

/// A letter or a digit of ASCII, a hyphen or a dot.
pub open spec fn hostname_char(c: char) -> bool {
    ('a' <= c && c <= 'z') || ('A' <= c && c <= 'Z') || ('0' <= c && c <= '9') || c == '-' || c
        == '.'
}

/// A label of a hostname: 1 to 63 characters, no hyphen at either end.
pub open spec fn hostname_label(label: Seq<char>) -> bool {
    1 <= label.len() <= 63 && label.first() != '-' && label.last() != '-'
}

/// A hostname: 1 to 253 letters, digits, hyphens and dots, the dots
/// parting it into labels.
pub open spec fn hostname_valid(host: Seq<char>) -> bool {
    &&& 1 <= host.len() <= 253
    &&& forall|i: int| 0 <= i < host.len() ==> hostname_char(#[trigger] host[i])
    &&& forall|k: int|
        0 <= k < segments(host, '.').len() ==> hostname_label(#[trigger] segments(host, '.')[k])
}

/// Tells whether a text is a hostname.
pub fn is_hostname(host: &str) -> (r: bool)
    ensures
        r == hostname_valid(host@),
{
    let chars = chars_of(host);
    if chars.len() == 0 || chars.len() > 253 {
        return false;
    }
    let mut i: usize = 0;
    while i < chars.len()
        invariant
            i <= chars.len(),
            chars@ == host@,
            forall|j: int| 0 <= j < i ==> hostname_char(#[trigger] host@[j]),
        decreases chars.len() - i,
    {
        let c = chars[i];
        if !((c >= 'a' && c <= 'z') || (c >= 'A' && c <= 'Z') || (c >= '0' && c <= '9') || c == '-'
            || c == '.') {
            assert(!hostname_char(host@[i as int]));
            return false;
        }
        i = i + 1;
    }
    let labels = split(host, '.');
    let mut k: usize = 0;
    while k < labels.len()
        invariant
            k <= labels.len(),
            labels@.len() == segments(host@, '.').len(),
            forall|j: int|
                0 <= j < labels@.len() ==> (#[trigger] labels@[j])@ == segments(host@, '.')[j],
            forall|j: int| 0 <= j < k ==> hostname_label(#[trigger] segments(host@, '.')[j]),
        decreases labels.len() - k,
    {
        let label = chars_of(labels[k].as_str());
        assert(label@ == segments(host@, '.')[k as int]);
        if label.len() == 0 || label.len() > 63 || label[0] == '-' || label[label.len() - 1] == '-' {
            assert(!hostname_label(segments(host@, '.')[k as int]));
            return false;
        }
        k = k + 1;
    }
    true
}

/// The port that a setting names.
pub open spec fn port_of(port: Option<i64>) -> Result<u16, ConfigError> {
    if port is None {
        Err(ConfigError::PortInvalid)
    } else if !(0 <= port->0 <= u16::MAX) {
        Err(ConfigError::PortImproper)
    } else {
        Ok(port->0 as u16)
    }
}

fn port_from(port: Option<i64>) -> (r: Result<u16, ConfigError>)
    ensures
        r == port_of(port),
{
    match port {
        Some(v) => if 0 <= v && v <= 65535 {
            Ok(v as u16)
        } else {
            Err(ConfigError::PortImproper)
        },
        None => Err(ConfigError::PortInvalid),
    }
}

/// What is wrong with the settings of the broker, if anything is: the
/// first of a missing host, a host that is no hostname, a port that is
/// missing or out of range, a missing user and a missing password.
pub open spec fn mqtt_fault(
    host: Option<String>,
    port: Option<i64>,
    user: Option<String>,
    password: Option<String>,
) -> Option<ConfigError> {
    if host is None {
        Some(ConfigError::HostMissing)
    } else if !hostname_valid(host->0@) {
        Some(ConfigError::HostInvalid)
    } else if port_of(port) is Err {
        Some(port_of(port)->Err_0)
    } else if user is None {
        Some(ConfigError::UserMissing)
    } else if password is None {
        Some(ConfigError::PasswordMissing)
    } else {
        None
    }
}

/// Takes the broker's settings.
pub fn get_mqtt_config(
    host: Option<String>,
    port: Option<i64>,
    user: Option<String>,
    password: Option<String>,
) -> (r: Result<MqttConfig, ConfigError>)
    ensures
        match mqtt_fault(host, port, user, password) {
            Some(e) => r == Err::<MqttConfig, ConfigError>(e),
            None => r == Ok::<MqttConfig, ConfigError>(
                MqttConfig {
                    host: host->0,
                    port: port->0 as u16,
                    user: user->0,
                    password: password->0,
                },
            ),
        },
{
    let host = match host {
        Some(h) => h,
        None => {
            return Err(ConfigError::HostMissing);
        },
    };
    if !is_hostname(host.as_str()) {
        return Err(ConfigError::HostInvalid);
    }
    let port = match port_from(port) {
        Ok(p) => p,
        Err(e) => {
            return Err(e);
        },
    };
    let user = match user {
        Some(u) => u,
        None => {
            return Err(ConfigError::UserMissing);
        },
    };
    let password = match password {
        Some(p) => p,
        None => {
            return Err(ConfigError::PasswordMissing);
        },
    };
    Ok(MqttConfig { host, port, user, password })
}

/// What is wrong with the settings of the database, if anything is: as
/// for the broker, with the database's name asked for after the port.
pub open spec fn db_fault(
    host: Option<String>,
    port: Option<i64>,
    db_name: Option<String>,
    user: Option<String>,
    password: Option<String>,
) -> Option<ConfigError> {
    if host is None {
        Some(ConfigError::HostMissing)
    } else if !hostname_valid(host->0@) {
        Some(ConfigError::HostInvalid)
    } else if port_of(port) is Err {
        Some(port_of(port)->Err_0)
    } else if db_name is None {
        Some(ConfigError::DatabaseNameMissing)
    } else if user is None {
        Some(ConfigError::UserMissing)
    } else if password is None {
        Some(ConfigError::PasswordMissing)
    } else {
        None
    }
}

/// Takes the database's settings.
pub fn get_db_config(
    host: Option<String>,
    port: Option<i64>,
    db_name: Option<String>,
    user: Option<String>,
    password: Option<String>,
) -> (r: Result<DbConfig, ConfigError>)
    ensures
        match db_fault(host, port, db_name, user, password) {
            Some(e) => r == Err::<DbConfig, ConfigError>(e),
            None => r == Ok::<DbConfig, ConfigError>(
                DbConfig {
                    host: host->0,
                    port: port->0 as u16,
                    db_name: db_name->0,
                    user: user->0,
                    password: password->0,
                },
            ),
        },
{
    let host = match host {
        Some(h) => h,
        None => {
            return Err(ConfigError::HostMissing);
        },
    };
    if !is_hostname(host.as_str()) {
        return Err(ConfigError::HostInvalid);
    }
    let port = match port_from(port) {
        Ok(p) => p,
        Err(e) => {
            return Err(e);
        },
    };
    let db_name = match db_name {
        Some(n) => n,
        None => {
            return Err(ConfigError::DatabaseNameMissing);
        },
    };
    let user = match user {
        Some(u) => u,
        None => {
            return Err(ConfigError::UserMissing);
        },
    };
    let password = match password {
        Some(p) => p,
        None => {
            return Err(ConfigError::PasswordMissing);
        },
    };
    Ok(DbConfig { host, port, db_name, user, password })
}

} // verus!
