//! The devices of an installation and the messages exchanged about them.
//!
//! Times are milliseconds since the Unix epoch, energy increments are watt
//! minutes, cumulative meter readings are watt hours and power is watts
//! unless a field says otherwise.

use vstd::prelude::*;
use crate::text::{ascii_lowercase, same_text, same_text_ignoring_case};

verus! {

/// The state of a switchboard, a guard or a plug.
#[derive(Clone, Copy, Debug, PartialEq, Eq, Structural)]
pub enum DeviceState {
    Available,
    ConfigExpired,
    Inaccessible,
    StartingUp,
}

#[allow(non_camel_case_types)]
#[derive(Clone, Copy, Debug, PartialEq, Eq, Structural)]
pub enum ShellyType {
    /// The three-phase energy meter.
    SHEM_3,
    /// The smart plug.
    SHPLG_S,
}

impl ShellyType {
    pub open spec fn parse(s: Seq<char>) -> Option<ShellyType> {
        if s == "SHEM-3"@ {
            Some(ShellyType::SHEM_3)
        } else if s == "SHPLG-S"@ {
            Some(ShellyType::SHPLG_S)
        } else {
            None
        }
    }

    /// Reads a model name as the devices announce it.
    pub fn from_str(s: &str) -> (res: Result<ShellyType, String>)
        ensures
            ShellyType::parse(s@) is Some ==> res == Ok::<ShellyType, String>(
                ShellyType::parse(s@)->0,
            ),
            ShellyType::parse(s@) is None ==> res is Err && res->Err_0@
                == "Unimplemented shelly device"@,
    {
        if same_text(s, "SHEM-3") {
            Ok(ShellyType::SHEM_3)
        } else if same_text(s, "SHPLG-S") {
            Ok(ShellyType::SHPLG_S)
        } else {
            Err(String::from_str("Unimplemented shelly device"))
        }
    }
}

#[derive(Clone, Copy, Debug, PartialEq, Eq, Structural)]
pub enum GuardType {
    ESP32,
}

impl GuardType {
    /// How many pinsets a board of this type has.
    pub open spec fn pinset_limit(self) -> nat {
        match self {
            GuardType::ESP32 => 4,
        }
    }

    pub open spec fn parse(s: Seq<char>) -> Option<GuardType> {
        if s == "ESP32"@ {
            Some(GuardType::ESP32)
        } else {
            None
        }
    }

    /// The number of pinsets of the board: a miner's pinset lies below it.
    pub fn get_pinset_limit(&self) -> (limit: u32)
        ensures
            limit == self.pinset_limit(),
    {
        match self {
            GuardType::ESP32 => 4,
        }
    }

    /// Reads a board type as the guards announce it.
    pub fn from_str(s: &str) -> (res: Result<GuardType, String>)
        ensures
            GuardType::parse(s@) is Some ==> res == Ok::<GuardType, String>(
                GuardType::parse(s@)->0,
            ),
            GuardType::parse(s@) is None ==> res is Err && res->Err_0@
                == "Unimplemented guard type"@,
    {
        if same_text(s, "ESP32") {
            Ok(GuardType::ESP32)
        } else {
            Err(String::from_str("Unimplemented guard type"))
        }
    }
}

#[derive(Clone, Copy, Debug, PartialEq, Eq, Structural)]
pub enum MinerState {
    Undefined,
    PoweredOff,
    Starting,
    Running,
    Stopping,
    HardStopping,
    Restarting,
    HardRestarting,
    Aborted,
    Unreachable,
}

impl MinerState {
    /// The name under which the guards report the state.
    pub open spec fn name(self) -> Seq<char> {
        match self {
            MinerState::Undefined => "Undefined"@,
            MinerState::PoweredOff => "PoweredOff"@,
            MinerState::Starting => "Starting"@,
            MinerState::Running => "Running"@,
            MinerState::Stopping => "Stopping"@,
            MinerState::HardStopping => "HardStopping"@,
            MinerState::Restarting => "Restarting"@,
            MinerState::HardRestarting => "HardRestarting"@,
            MinerState::Aborted => "Aborted"@,
            MinerState::Unreachable => "Unreachable"@,
        }
    }

    /// The state that a name denotes; capitals and small letters count alike.
    pub open spec fn parse(s: Seq<char>) -> Option<MinerState> {
        let l = ascii_lowercase(s);
        if l == "undefined"@ {
            Some(MinerState::Undefined)
        } else if l == "poweredoff"@ {
            Some(MinerState::PoweredOff)
        } else if l == "starting"@ {
            Some(MinerState::Starting)
        } else if l == "running"@ {
            Some(MinerState::Running)
        } else if l == "stopping"@ {
            Some(MinerState::Stopping)
        } else if l == "hardstopping"@ {
            Some(MinerState::HardStopping)
        } else if l == "restarting"@ {
            Some(MinerState::Restarting)
        } else if l == "hardrestarting"@ {
            Some(MinerState::HardRestarting)
        } else if l == "aborted"@ {
            Some(MinerState::Aborted)
        } else if l == "unreachable"@ {
            Some(MinerState::Unreachable)
        } else {
            None
        }
    }

    /// A state in which no command is under way.
    pub open spec fn is_steady(self) -> bool {
        self == MinerState::Running || self == MinerState::PoweredOff || self
            == MinerState::Aborted || self == MinerState::Unreachable
    }

    /// A state that ends the miner's service until someone intervenes.
    pub open spec fn is_terminal(self) -> bool {
        self == MinerState::Aborted || self == MinerState::Unreachable
    }

    pub fn steady(&self) -> (r: bool)
        ensures
            r == self.is_steady(),
    {
        match self {
            MinerState::Running | MinerState::PoweredOff | MinerState::Aborted
            | MinerState::Unreachable => true,
            _ => false,
        }
    }

    pub fn terminal(&self) -> (r: bool)
        ensures
            r == self.is_terminal(),
    {
        match self {
            MinerState::Aborted | MinerState::Unreachable => true,
            _ => false,
        }
    }

    pub fn from_str(s: &str) -> (res: Result<MinerState, String>)
        ensures
            MinerState::parse(s@) is Some ==> res == Ok::<MinerState, String>(
                MinerState::parse(s@)->0,
            ),
            MinerState::parse(s@) is None ==> res is Err && res->Err_0@
                == "Unimplemented miner state"@,
    {
        proof {
            lowercase_names_are_fixed();
        }
        if same_text_ignoring_case(s, "undefined") {
            Ok(MinerState::Undefined)
        } else if same_text_ignoring_case(s, "poweredoff") {
            Ok(MinerState::PoweredOff)
        } else if same_text_ignoring_case(s, "starting") {
            Ok(MinerState::Starting)
        } else if same_text_ignoring_case(s, "running") {
            Ok(MinerState::Running)
        } else if same_text_ignoring_case(s, "stopping") {
            Ok(MinerState::Stopping)
        } else if same_text_ignoring_case(s, "hardstopping") {
            Ok(MinerState::HardStopping)
        } else if same_text_ignoring_case(s, "restarting") {
            Ok(MinerState::Restarting)
        } else if same_text_ignoring_case(s, "hardrestarting") {
            Ok(MinerState::HardRestarting)
        } else if same_text_ignoring_case(s, "aborted") {
            Ok(MinerState::Aborted)
        } else if same_text_ignoring_case(s, "unreachable") {
            Ok(MinerState::Unreachable)
        } else {
            Err(String::from_str("Unimplemented miner state"))
        }
    }

    pub fn to_string(&self) -> (s: String)
        ensures
            s@ == self.name(),
    {
        String::from_str(
            match self {
                MinerState::Undefined => "Undefined",
                MinerState::PoweredOff => "PoweredOff",
                MinerState::Starting => "Starting",
                MinerState::Running => "Running",
                MinerState::Stopping => "Stopping",
                MinerState::HardStopping => "HardStopping",
                MinerState::Restarting => "Restarting",
                MinerState::HardRestarting => "HardRestarting",
                MinerState::Aborted => "Aborted",
                MinerState::Unreachable => "Unreachable",
            },
        )
    }
}

/// The lower-case names that the readers compare with hold no capital, so
/// lowering them changes nothing.
pub proof fn lowercase_names_are_fixed()
    ensures
        ascii_lowercase("undefined"@) == "undefined"@,
        ascii_lowercase("poweredoff"@) == "poweredoff"@,
        ascii_lowercase("starting"@) == "starting"@,
        ascii_lowercase("running"@) == "running"@,
        ascii_lowercase("stopping"@) == "stopping"@,
        ascii_lowercase("hardstopping"@) == "hardstopping"@,
        ascii_lowercase("restarting"@) == "restarting"@,
        ascii_lowercase("hardrestarting"@) == "hardrestarting"@,
        ascii_lowercase("aborted"@) == "aborted"@,
        ascii_lowercase("unreachable"@) == "unreachable"@,
        ascii_lowercase("busy"@) == "busy"@,
        ascii_lowercase("disallowed"@) == "disallowed"@,
        ascii_lowercase("done"@) == "done"@,
        ascii_lowercase("failed"@) == "failed"@,
        ascii_lowercase("poweredon"@) == "poweredon"@,
        ascii_lowercase("exclude"@) == "exclude"@,
        ascii_lowercase("include"@) == "include"@,
{
    reveal_strlit("undefined");
    reveal_strlit("poweredoff");
    reveal_strlit("starting");
    reveal_strlit("running");
    reveal_strlit("stopping");
    reveal_strlit("hardstopping");
    reveal_strlit("restarting");
    reveal_strlit("hardrestarting");
    reveal_strlit("aborted");
    reveal_strlit("unreachable");
    reveal_strlit("busy");
    reveal_strlit("disallowed");
    reveal_strlit("done");
    reveal_strlit("failed");
    reveal_strlit("poweredon");
    reveal_strlit("exclude");
    reveal_strlit("include");
    assert(ascii_lowercase("undefined"@) =~= "undefined"@);
    assert(ascii_lowercase("poweredoff"@) =~= "poweredoff"@);
    assert(ascii_lowercase("starting"@) =~= "starting"@);
    assert(ascii_lowercase("running"@) =~= "running"@);
    assert(ascii_lowercase("stopping"@) =~= "stopping"@);
    assert(ascii_lowercase("hardstopping"@) =~= "hardstopping"@);
    assert(ascii_lowercase("restarting"@) =~= "restarting"@);
    assert(ascii_lowercase("hardrestarting"@) =~= "hardrestarting"@);
    assert(ascii_lowercase("aborted"@) =~= "aborted"@);
    assert(ascii_lowercase("unreachable"@) =~= "unreachable"@);
    assert(ascii_lowercase("busy"@) =~= "busy"@);
    assert(ascii_lowercase("disallowed"@) =~= "disallowed"@);
    assert(ascii_lowercase("done"@) =~= "done"@);
    assert(ascii_lowercase("failed"@) =~= "failed"@);
    assert(ascii_lowercase("poweredon"@) =~= "poweredon"@);
    assert(ascii_lowercase("exclude"@) =~= "exclude"@);
    assert(ascii_lowercase("include"@) =~= "include"@);
}

/// A guard reads back the state that was written for it.
pub proof fn miner_state_name_round_trip(state: MinerState)
    ensures
        MinerState::parse(state.name()) == Some(state),
{
    reveal_strlit("undefined");
    reveal_strlit("poweredoff");
    reveal_strlit("starting");
    reveal_strlit("running");
    reveal_strlit("stopping");
    reveal_strlit("hardstopping");
    reveal_strlit("restarting");
    reveal_strlit("hardrestarting");
    reveal_strlit("aborted");
    reveal_strlit("unreachable");
    reveal_strlit("Undefined");
    reveal_strlit("PoweredOff");
    reveal_strlit("Starting");
    reveal_strlit("Running");
    reveal_strlit("Stopping");
    reveal_strlit("HardStopping");
    reveal_strlit("Restarting");
    reveal_strlit("HardRestarting");
    reveal_strlit("Aborted");
    reveal_strlit("Unreachable");
    let l = ascii_lowercase(state.name());
    match state {
        MinerState::Undefined => {
            assert(l =~= "undefined"@);
        },
        MinerState::PoweredOff => {
            assert(l =~= "poweredoff"@);
        },
        MinerState::Starting => {
            assert(l =~= "starting"@);
        },
        MinerState::Running => {
            assert(l =~= "running"@);
        },
        MinerState::Stopping => {
            assert(l =~= "stopping"@);
            assert("stopping"@[2] != "starting"@[2]);
        },
        MinerState::HardStopping => {
            assert(l =~= "hardstopping"@);
        },
        MinerState::Restarting => {
            assert(l =~= "restarting"@);
            assert("restarting"@[0] != "poweredoff"@[0]);
        },
        MinerState::HardRestarting => {
            assert(l =~= "hardrestarting"@);
        },
        MinerState::Aborted => {
            assert(l =~= "aborted"@);
            assert("aborted"@[0] != "running"@[0]);
        },
        MinerState::Unreachable => {
            assert(l =~= "unreachable"@);
        },
    }
}

/// How a guard answered a command.
#[derive(Clone, Copy, Debug, PartialEq, Eq, Structural)]
pub enum CommandStatus {
    Busy,
    Disallowed,
    Done,
    Failed,
    Undefined,
}

impl CommandStatus {
    pub open spec fn parse(s: Seq<char>) -> Option<CommandStatus> {
        let l = ascii_lowercase(s);
        if l == "busy"@ {
            Some(CommandStatus::Busy)
        } else if l == "disallowed"@ {
            Some(CommandStatus::Disallowed)
        } else if l == "done"@ {
            Some(CommandStatus::Done)
        } else if l == "failed"@ {
            Some(CommandStatus::Failed)
        } else if l == "undefined"@ {
            Some(CommandStatus::Undefined)
        } else {
            None
        }
    }

    pub fn from_str(s: &str) -> (res: Result<CommandStatus, String>)
        ensures
            CommandStatus::parse(s@) is Some ==> res == Ok::<CommandStatus, String>(
                CommandStatus::parse(s@)->0,
            ),
            CommandStatus::parse(s@) is None ==> res is Err && res->Err_0@
                == "Unimplemented command status"@,
    {
        proof {
            lowercase_names_are_fixed();
        }
        if same_text_ignoring_case(s, "busy") {
            Ok(CommandStatus::Busy)
        } else if same_text_ignoring_case(s, "disallowed") {
            Ok(CommandStatus::Disallowed)
        } else if same_text_ignoring_case(s, "done") {
            Ok(CommandStatus::Done)
        } else if same_text_ignoring_case(s, "failed") {
            Ok(CommandStatus::Failed)
        } else if same_text_ignoring_case(s, "undefined") {
            Ok(CommandStatus::Undefined)
        } else {
            Err(String::from_str("Unimplemented command status"))
        }
    }
}

/// What a guard reports when it finds a miner's power other than expected.
#[derive(Clone, Copy, Debug, PartialEq, Eq, Structural)]
pub enum MinerAlert {
    PoweredOn,
    PoweredOff,
}

impl MinerAlert {
    pub open spec fn parse(s: Seq<char>) -> Option<MinerAlert> {
        let l = ascii_lowercase(s);
        if l == "poweredon"@ {
            Some(MinerAlert::PoweredOn)
        } else if l == "poweredoff"@ {
            Some(MinerAlert::PoweredOff)
        } else {
            None
        }
    }

    pub fn from_str(s: &str) -> (res: Result<MinerAlert, String>)
        ensures
            MinerAlert::parse(s@) is Some ==> res == Ok::<MinerAlert, String>(
                MinerAlert::parse(s@)->0,
            ),
            MinerAlert::parse(s@) is None ==> res is Err && res->Err_0@
                == "Unimplemented miner alert"@,
    {
        proof {
            lowercase_names_are_fixed();
        }
        if same_text_ignoring_case(s, "poweredon") {
            Ok(MinerAlert::PoweredOn)
        } else if same_text_ignoring_case(s, "poweredoff") {
            Ok(MinerAlert::PoweredOff)
        } else {
            Err(String::from_str("Unimplemented miner alert"))
        }
    }
}

/// What a user may ask of a single miner.
#[derive(Clone, Copy, Debug, PartialEq, Eq, Structural)]
pub enum UserCommands {
    Exclude,
    Include,
}

impl UserCommands {
    pub open spec fn name(self) -> Seq<char> {
        match self {
            UserCommands::Exclude => "Exclude"@,
            UserCommands::Include => "Include"@,
        }
    }

    pub open spec fn parse(s: Seq<char>) -> Option<UserCommands> {
        let l = ascii_lowercase(s);
        if l == "exclude"@ {
            Some(UserCommands::Exclude)
        } else if l == "include"@ {
            Some(UserCommands::Include)
        } else {
            None
        }
    }

    pub fn from_str(s: &str) -> (res: Result<UserCommands, String>)
        ensures
            UserCommands::parse(s@) is Some ==> res == Ok::<UserCommands, String>(
                UserCommands::parse(s@)->0,
            ),
            UserCommands::parse(s@) is None ==> res is Err && res->Err_0@
                == "Unimplemented UserCommand"@,
    {
        proof {
            lowercase_names_are_fixed();
        }
        if same_text_ignoring_case(s, "exclude") {
            Ok(UserCommands::Exclude)
        } else if same_text_ignoring_case(s, "include") {
            Ok(UserCommands::Include)
        } else {
            Err(String::from_str("Unimplemented UserCommand"))
        }
    }

    pub fn to_string(&self) -> (s: String)
        ensures
            s@ == self.name(),
    {
        String::from_str(
            match self {
                UserCommands::Exclude => "Exclude",
                UserCommands::Include => "Include",
            },
        )
    }
}

/// A user command reads back as it was written.
pub proof fn user_command_name_round_trip(command: UserCommands)
    ensures
        UserCommands::parse(command.name()) == Some(command),
{
    reveal_strlit("exclude");
    reveal_strlit("include");
    reveal_strlit("Exclude");
    reveal_strlit("Include");
    let l = ascii_lowercase(command.name());
    match command {
        UserCommands::Exclude => {
            assert(l =~= "exclude"@);
        },
        UserCommands::Include => {
            assert(l =~= "include"@);
            assert("include"@[0] != "exclude"@[0]);
        },
    }
}

/// What the reconciler may tell a guard to do with one of its miners.
#[derive(Clone, Copy, Debug, PartialEq, Eq, Structural)]
pub enum MinerCommand {
    PowerOn,
    PowerOff,
    HardStop,
    StateReport,
    Restart,
    HardRestart,
}

impl MinerCommand {
    /// The payload that carries the command to the guard.
    pub open spec fn name(self) -> Seq<char> {
        match self {
            MinerCommand::PowerOn => "PowerOn"@,
            MinerCommand::PowerOff => "PowerOff"@,
            MinerCommand::HardStop => "HardStop"@,
            MinerCommand::StateReport => "StateReport"@,
            MinerCommand::Restart => "Restart"@,
            MinerCommand::HardRestart => "HardRestart"@,
        }
    }

    pub fn as_str(&self) -> (s: &'static str)
        ensures
            s@ == self.name(),
    {
        match self {
            MinerCommand::PowerOn => "PowerOn",
            MinerCommand::PowerOff => "PowerOff",
            MinerCommand::HardStop => "HardStop",
            MinerCommand::StateReport => "StateReport",
            MinerCommand::Restart => "Restart",
            MinerCommand::HardRestart => "HardRestart",
        }
    }
}

/// The three-phase meter at the grid connection.
#[derive(Debug)]
pub struct Switchboard {
    pub id: String,
    pub state: DeviceState,
    pub last_seen: i64,
}

/// A microcontroller that drives the power and reset lines of its miners.
#[derive(Debug)]
pub struct Guard {
    pub id: String,
    pub board_type: GuardType,
    pub state: DeviceState,
    pub last_seen: i64,
}

/// The smart relay in a miner's mains lead. The plug at some position of
/// the system's list belongs to the miner at the same position.
#[derive(Debug)]
pub struct Plug {
    pub id: String,
    pub state: DeviceState,
    /// The relay position that the plug reported last.
    pub is_enabled: bool,
    pub last_seen: i64,
}

#[derive(Debug)]
pub struct Miner {
    pub id: String,
    /// The position of the miner's guard in the system's list.
    pub guard: usize,
    pub pinset: u32,
    pub phase: u8,
    /// The draw in watts that the configuration expects.
    pub estimated_consumption: u32,
    /// The draw in watts that the plug measured last.
    pub power_consumption: Option<u32>,
    pub state: MinerState,
    pub target_state: Option<MinerState>,
    /// When the last command that changes the state was issued.
    pub command_ts: Option<i64>,
    pub included: bool,
}

impl Miner {
    /// The target is absent, `Running` or `PoweredOff`.
    pub open spec fn target_is_legal(&self) -> bool {
        self.target_state is None || self.target_state == Some(MinerState::Running)
            || self.target_state == Some(MinerState::PoweredOff)
    }

    /// What holds of a miner between any two steps of the reconciler: the
    /// target is legal, a terminal state has the target `PoweredOff`, and a
    /// command time is kept exactly while a command is under way.
    pub open spec fn consistent(&self) -> bool {
        &&& self.target_is_legal()
        &&& self.state.is_terminal() ==> self.target_state == Some(MinerState::PoweredOff)
        &&& self.state.is_steady() <==> self.command_ts is None
    }

    /// The same miner of the topology, whatever its state.
    pub open spec fn same_identity(&self, other: &Miner) -> bool {
        &&& self.id == other.id
        &&& self.guard == other.guard
        &&& self.pinset == other.pinset
        &&& self.phase == other.phase
        &&& self.estimated_consumption == other.estimated_consumption
    }

    /// The draw to plan with: the measured one, else the expected one.
    pub open spec fn planning_power(&self) -> u32 {
        match self.power_consumption {
            Some(p) => p,
            None => self.estimated_consumption,
        }
    }
}

/// What the plug listener remembers of one miner between two samples.
#[derive(Debug)]
pub struct MinerData {
    /// The listener's clock at the last energy sample, in milliseconds.
    pub last_received: Option<u64>,
    pub name: String,
    /// The plug's energy counter at the last sample, in watt minutes.
    pub energy_consumed: u64,
    pub phase: u8,
    /// The highest power seen in the current window, in milliwatts.
    pub power: u64,
}

/// An energy record, as it goes to the database and to the reconciler.
#[allow(inconsistent_fields)]
#[derive(Debug)]
pub enum EnergyData {
    Switchboard { ts: i64, ec: [u64; 3], er: [u64; 3], tc: [u64; 3], tr: [u64; 3] },
    Miner { ts: i64, name: String, ec: u64, phase: u8, power: u64 },
    MinersGrid { ts: i64, ec: u64, phase: u8 },
}

impl Clone for EnergyData {
    fn clone(&self) -> (copy: EnergyData)
        ensures
            copy == *self,
    {
        match self {
            EnergyData::Switchboard { ts, ec, er, tc, tr } => EnergyData::Switchboard {
                ts: *ts,
                ec: *ec,
                er: *er,
                tc: *tc,
                tr: *tr,
            },
            EnergyData::Miner { ts, name, ec, phase, power } => EnergyData::Miner {
                ts: *ts,
                name: name.clone(),
                ec: *ec,
                phase: *phase,
                power: *power,
            },
            EnergyData::MinersGrid { ts, ec, phase } => EnergyData::MinersGrid {
                ts: *ts,
                ec: *ec,
                phase: *phase,
            },
        }
    }
}

/// What a guard told the reconciler.
#[derive(Debug)]
pub enum GuardData {
    Alert { miner_id: String, alert: MinerAlert },
    Command { miner_id: String, command_status: CommandStatus, miner_state: MinerState },
    Configured,
    Ping,
    Started,
    State { miner_id: String, state: MinerState },
}

/// What the listeners hand to the reconciler.
#[derive(Debug)]
pub enum Message {
    Energy(EnergyData),
    Guard { guard_id: String, ts: i64, data: GuardData },
    Plug { plug_id: String, ts: i64, is_on: bool },
    User { miner_id: String, command: UserCommands },
}

} // verus!
