//! The listeners' side: what a message of the broker means. Each listener
//! reads the topic and the payload of a publication and hands on what the
//! reconciler and the database are to know of it.

use vstd::prelude::*;
use crate::structs::{
    CommandStatus,
    EnergyData,
    GuardData,
    Message,
    MinerAlert,
    MinerData,
    MinerState,
    UserCommands,
};
use crate::system::{plug_ids, position, position_of_prefix, System};
use crate::text::{
    chars_of,
    first_index,
    first_index_found,
    has_prefix,
    parse_milli,
    parse_thousandths,
    parse_u64,
    parse_unsigned,
    same_text,
    segments,
    split,
};

verus! {

/// The time within which two samples of a plug belong together, in
/// milliseconds.
pub const WINDOW: u64 = 90_000;

/// One of the four values that the switchboard reports of a phase.
#[derive(Clone, Copy, Debug, PartialEq, Eq, Structural)]
pub enum SwitchboardField {
    /// Consumed since the last report, in watt minutes.
    Energy,
    /// Returned since the last report, in watt minutes.
    ReturnedEnergy,
    /// Consumed in all, in kilowatt hours.
    Total,
    /// Returned in all, in kilowatt hours.
    TotalReturned,
}

/// The place of a value in a reading of the switchboard.
#[derive(Clone, Copy, Debug, PartialEq, Eq, Structural)]
pub struct Slot {
    pub phase: u8,
    pub field: SwitchboardField,
}

pub open spec fn phase_named(s: Seq<char>) -> Option<u8> {
    if s == "0"@ {
        Some(0u8)
    } else if s == "1"@ {
        Some(1u8)
    } else if s == "2"@ {
        Some(2u8)
    } else {
        None
    }
}

pub open spec fn field_named(s: Seq<char>) -> Option<SwitchboardField> {
    if s == "energy"@ {
        Some(SwitchboardField::Energy)
    } else if s == "returned_energy"@ {
        Some(SwitchboardField::ReturnedEnergy)
    } else if s == "total"@ {
        Some(SwitchboardField::Total)
    } else if s == "total_returned"@ {
        Some(SwitchboardField::TotalReturned)
    } else {
        None
    }
}

/// The slot that a topic of the form
/// `shellies/<meter>/emeter/<phase>/<field>` names.
pub open spec fn switchboard_slot(topic: Seq<char>) -> Option<Slot> {
    let s = segments(topic, '/');
    if s.len() == 5 && s[0] == "shellies"@ && s[1].len() > 0 && s[2] == "emeter"@ && phase_named(
        s[3],
    ) is Some && field_named(s[4]) is Some {
        Some(Slot { phase: phase_named(s[3])->0, field: field_named(s[4])->0 })
    } else {
        None
    }
}

/// Reads the topic of a publication of the switchboard.
pub fn parse_switchboard_topic(topic: &str) -> (slot: Option<Slot>)
    ensures
        slot == switchboard_slot(topic@),
        slot is Some ==> slot->0.phase < 3,
{
    let s = split(topic, '/');
    if s.len() != 5 {
        return None;
    }
    if !same_text(s[0].as_str(), "shellies") || s[1].as_str().unicode_len() == 0 || !same_text(
        s[2].as_str(),
        "emeter",
    ) {
        return None;
    }
    let phase: u8 = if same_text(s[3].as_str(), "0") {
        0
    } else if same_text(s[3].as_str(), "1") {
        1
    } else if same_text(s[3].as_str(), "2") {
        2
    } else {
        return None;
    };
    let field = if same_text(s[4].as_str(), "energy") {
        SwitchboardField::Energy
    } else if same_text(s[4].as_str(), "returned_energy") {
        SwitchboardField::ReturnedEnergy
    } else if same_text(s[4].as_str(), "total") {
        SwitchboardField::Total
    } else if same_text(s[4].as_str(), "total_returned") {
        SwitchboardField::TotalReturned
    } else {
        return None;
    };
    Some(Slot { phase, field })
}

/// The value of a slot as its payload gives it: watt minutes as they
/// stand, kilowatt hours as watt hours.
pub open spec fn slot_value(field: SwitchboardField, payload: Seq<char>) -> Option<u64> {
    match field {
        SwitchboardField::Energy | SwitchboardField::ReturnedEnergy => parse_unsigned(payload),
        SwitchboardField::Total | SwitchboardField::TotalReturned => parse_thousandths(payload),
    }
}

/// A complete reading of the switchboard.
#[derive(Clone, Copy, Debug)]
pub struct Reading {
    pub ec: [u64; 3],
    pub er: [u64; 3],
    pub tc: [u64; 3],
    pub tr: [u64; 3],
}

/// What the switchboard listener has gathered of the next reading.
#[derive(Clone, Copy, Debug)]
pub struct SwitchboardListener {
    /// Both increments of all three phases have come in.
    pub energy_collected: bool,
    pub ec: [Option<u64>; 3],
    pub er: [Option<u64>; 3],
    pub tc: [Option<u64>; 3],
    pub tr: [Option<u64>; 3],
}

pub open spec fn full(a: [Option<u64>; 3]) -> bool {
    a[0] is Some && a[1] is Some && a[2] is Some
}

pub open spec fn values(a: [Option<u64>; 3]) -> [u64; 3] {
    [a[0]->0, a[1]->0, a[2]->0]
}

pub open spec fn with_slot(a: [Option<u64>; 3], p: int, v: u64) -> [Option<u64>; 3] {
    [
        if p == 0 {
            Some(v)
        } else {
            a[0]
        },
        if p == 1 {
            Some(v)
        } else {
            a[1]
        },
        if p == 2 {
            Some(v)
        } else {
            a[2]
        },
    ]
}

impl SwitchboardListener {
    pub open spec fn empty() -> SwitchboardListener {
        SwitchboardListener {
            energy_collected: false,
            ec: [None, None, None],
            er: [None, None, None],
            tc: [None, None, None],
            tr: [None, None, None],
        }
    }

    /// The listener with `value` put into `slot`. A total is taken only
    /// once both increments of all phases are there.
    pub open spec fn stored(self, slot: Slot, value: u64) -> SwitchboardListener {
        let p = slot.phase as int;
        match slot.field {
            SwitchboardField::Energy => SwitchboardListener {
                ec: with_slot(self.ec, p, value),
                ..self
            },
            SwitchboardField::ReturnedEnergy => SwitchboardListener {
                er: with_slot(self.er, p, value),
                ..self
            },
            SwitchboardField::Total => if self.energy_collected {
                SwitchboardListener { tc: with_slot(self.tc, p, value), ..self }
            } else {
                self
            },
            SwitchboardField::TotalReturned => if self.energy_collected {
                SwitchboardListener { tr: with_slot(self.tr, p, value), ..self }
            } else {
                self
            },
        }
    }

    /// All twelve values of a reading are there.
    pub open spec fn complete(self) -> bool {
        self.energy_collected && full(self.ec) && full(self.er) && full(self.tc) && full(self.tr)
    }

    /// The reading that a value completes, if it completes one.
    pub open spec fn emitted(self, slot: Slot, value: u64) -> Option<Reading> {
        let s = self.stored(slot, value);
        if s.complete() {
            Some(Reading { ec: values(s.ec), er: values(s.er), tc: values(s.tc), tr: values(s.tr) })
        } else {
            None
        }
    }

    /// The listener after a value for `slot`: empty again once a reading
    /// is complete.
    pub open spec fn after(self, slot: Slot, value: u64) -> SwitchboardListener {
        let s = self.stored(slot, value);
        if s.complete() {
            SwitchboardListener::empty()
        } else if !s.energy_collected {
            SwitchboardListener { energy_collected: full(s.ec) && full(s.er), ..s }
        } else {
            s
        }
    }

    pub fn new() -> (l: SwitchboardListener)
        ensures
            l == SwitchboardListener::empty(),
    {
        SwitchboardListener {
            energy_collected: false,
            ec: [None, None, None],
            er: [None, None, None],
            tc: [None, None, None],
            tr: [None, None, None],
        }
    }

    /// Takes a value for `slot`; gives the reading that it completes.
    /// A reading is given only with all its twelve values there.
    pub fn on_value(&mut self, slot: Slot, value: u64) -> (reading: Option<Reading>)
        requires
            slot.phase < 3,
        ensures
            *final(self) == old(self).after(slot, value),
            reading == old(self).emitted(slot, value),
            reading is Some ==> old(self).stored(slot, value).complete(),
    {
        let p: usize = slot.phase as usize;
        match slot.field {
            SwitchboardField::Energy => {
                self.ec[p] = Some(value);
                assert(self.ec =~= with_slot(old(self).ec, p as int, value));
            },
            SwitchboardField::ReturnedEnergy => {
                self.er[p] = Some(value);
                assert(self.er =~= with_slot(old(self).er, p as int, value));
            },
            SwitchboardField::Total => {
                if self.energy_collected {
                    self.tc[p] = Some(value);
                    assert(self.tc =~= with_slot(old(self).tc, p as int, value));
                }
            },
            SwitchboardField::TotalReturned => {
                if self.energy_collected {
                    self.tr[p] = Some(value);
                    assert(self.tr =~= with_slot(old(self).tr, p as int, value));
                }
            },
        }
        assert(*self == old(self).stored(slot, value));
        if !self.energy_collected {
            self.energy_collected = is_full(&self.ec) && is_full(&self.er);
            None
        } else if is_full(&self.tc) && is_full(&self.tr) && is_full(&self.ec) && is_full(&self.er) {
            let reading = Reading {
                ec: values_of(&self.ec),
                er: values_of(&self.er),
                tc: values_of(&self.tc),
                tr: values_of(&self.tr),
            };
            *self = SwitchboardListener::new();
            Some(reading)
        } else {
            None
        }
    }

    /// The record that a publication of the switchboard completes, read at `ts`.
    pub open spec fn record(self, topic: Seq<char>, payload: Seq<char>, ts: i64) -> Option<
        EnergyData,
    > {
        match switchboard_slot(topic) {
            Some(slot) => match slot_value(slot.field, payload) {
                Some(value) => match self.emitted(slot, value) {
                    Some(r) => Some(
                        EnergyData::Switchboard { ts, ec: r.ec, er: r.er, tc: r.tc, tr: r.tr },
                    ),
                    None => None,
                },
                None => None,
            },
            None => None,
        }
    }

    /// The listener after a publication of the switchboard. A topic or a
    /// payload that cannot be read changes nothing.
    pub open spec fn after_publish(self, topic: Seq<char>, payload: Seq<char>) -> SwitchboardListener {
        match switchboard_slot(topic) {
            Some(slot) => match slot_value(slot.field, payload) {
                Some(value) => self.after(slot, value),
                None => self,
            },
            None => self,
        }
    }

    /// Takes a publication of the switchboard, received at `ts`; gives the
    /// record of the reading that it completes.
    pub fn on_publish(&mut self, topic: &str, payload: &str, ts: i64) -> (record: Option<EnergyData>)
        ensures
            *final(self) == old(self).after_publish(topic@, payload@),
            record == old(self).record(topic@, payload@, ts),
    {
        let slot = match parse_switchboard_topic(topic) {
            Some(slot) => slot,
            None => {
                return None;
            },
        };
        let value = match slot.field {
            SwitchboardField::Energy | SwitchboardField::ReturnedEnergy => parse_u64(payload),
            SwitchboardField::Total | SwitchboardField::TotalReturned => parse_milli(payload),
        };
        let value = match value {
            Some(value) => value,
            None => {
                return None;
            },
        };
        match self.on_value(slot, value) {
            Some(r) => Some(EnergyData::Switchboard { ts, ec: r.ec, er: r.er, tc: r.tc, tr: r.tr }),
            None => None,
        }
    }
}

fn is_full(a: &[Option<u64>; 3]) -> (r: bool)
    ensures
        r == full(*a),
{
    a[0].is_some() && a[1].is_some() && a[2].is_some()
}

fn values_of(a: &[Option<u64>; 3]) -> (r: [u64; 3])
    requires
        full(*a),
    ensures
        r == values(*a),
{
    let r = [a[0].unwrap(), a[1].unwrap(), a[2].unwrap()];
    assert(r =~= values(*a));
    r
}

/// What a plug reports of.
#[derive(Clone, Copy, Debug, PartialEq, Eq, Structural)]
pub enum PlugField {
    /// The present draw, in watts.
    Power,
    /// The plug's energy counter, in watt minutes.
    Energy,
    /// The position of the relay.
    Relay,
}

/// What a topic of the form `shellies/<plug>/relay/0...` reports of.
pub open spec fn plug_field(topic: Seq<char>) -> Option<PlugField> {
    let s = segments(topic, '/');
    if s.len() >= 4 && s[0] == "shellies"@ && s[1].len() > 0 && s[2] == "relay"@ && s[3] == "0"@ {
        if s.len() == 4 {
            Some(PlugField::Relay)
        } else if s.len() == 5 && s[4] == "power"@ {
            Some(PlugField::Power)
        } else if s.len() == 5 && s[4] == "energy"@ {
            Some(PlugField::Energy)
        } else {
            None
        }
    } else {
        None
    }
}

/// The plug that a topic of a plug names.
pub open spec fn plug_named(topic: Seq<char>) -> Seq<char> {
    segments(topic, '/')[1]
}

/// A plug's topic, read.
#[derive(Debug)]
pub struct PlugTopic {
    pub plug_id: String,
    pub field: PlugField,
}

/// Reads the topic of a publication of a plug.
pub fn parse_plug_topic(topic: &str) -> (t: Option<PlugTopic>)
    ensures
        match t {
            Some(t) => plug_field(topic@) == Some(t.field) && t.plug_id@ == plug_named(topic@),
            None => plug_field(topic@) is None,
        },
{
    let s = split(topic, '/');
    if s.len() < 4 {
        return None;
    }
    if !same_text(s[0].as_str(), "shellies") || s[1].as_str().unicode_len() == 0 || !same_text(
        s[2].as_str(),
        "relay",
    ) || !same_text(s[3].as_str(), "0") {
        return None;
    }
    let field = if s.len() == 4 {
        PlugField::Relay
    } else if s.len() == 5 && same_text(s[4].as_str(), "power") {
        PlugField::Power
    } else if s.len() == 5 && same_text(s[4].as_str(), "energy") {
        PlugField::Energy
    } else {
        return None;
    };
    Some(PlugTopic { plug_id: s[1].clone(), field })
}

/// The sample `last` and the instant `now` lie within one window.
pub open spec fn within_window(last: Option<u64>, now: u64) -> bool {
    last is Some && last->0 + WINDOW > now
}

pub open spec fn greater(a: u64, b: u64) -> u64 {
    if a < b {
        b
    } else {
        a
    }
}

impl MinerData {
    /// The data after the plug reported a draw of `power` milliwatts at
    /// `now`: within a window the highest draw is kept.
    pub open spec fn after_power(self, power: u64, now: u64) -> MinerData {
        MinerData {
            power: if within_window(self.last_received, now) {
                greater(self.power, power)
            } else {
                power
            },
            ..self
        }
    }

    /// What the miner consumed since the last sample, if the sample
    /// `counter` taken at `now` tells: it lies in one window with the last
    /// one, and the counter has grown.
    pub open spec fn energy_delta(self, counter: u64, now: u64) -> Option<u64> {
        if within_window(self.last_received, now) && self.energy_consumed < counter {
            Some((counter - self.energy_consumed) as u64)
        } else {
            None
        }
    }

    /// The data after the sample `counter` of the plug's energy counter
    /// taken at `now`.
    pub open spec fn after_energy(self, counter: u64, now: u64) -> MinerData {
        MinerData { energy_consumed: counter, last_received: Some(now), ..self }
    }

    fn in_window(&self, now: u64) -> (r: bool)
        ensures
            r == within_window(self.last_received, now),
    {
        match self.last_received {
            Some(last) => last as u128 + WINDOW as u128 > now as u128,
            None => false,
        }
    }

    pub fn on_power(&mut self, power: u64, now: u64)
        ensures
            *final(self) == old(self).after_power(power, now),
    {
        if self.in_window(now) {
            if self.power < power {
                self.power = power;
            }
        } else {
            self.power = power;
        }
    }

    /// Takes a sample of the plug's energy counter; gives what the miner
    /// consumed since the last one. What is given is more than nothing,
    /// and less than a window lies between the two samples.
    pub fn on_energy(&mut self, counter: u64, now: u64) -> (delta: Option<u64>)
        ensures
            *final(self) == old(self).after_energy(counter, now),
            delta == old(self).energy_delta(counter, now),
            delta is Some ==> delta->0 > 0 && old(self).last_received is Some && now - old(
                self,
            ).last_received->0 < WINDOW,
    {
        let delta = if self.in_window(now) && self.energy_consumed < counter {
            Some(counter - self.energy_consumed)
        } else {
            None
        };
        self.energy_consumed = counter;
        self.last_received = Some(now);
        delta
    }
}

/// The relay position that a payload names.
pub open spec fn relay_named(payload: Seq<char>) -> Option<bool> {
    if payload == "on"@ {
        Some(true)
    } else if payload == "off"@ {
        Some(false)
    } else {
        None
    }
}

/// What the plug listener keeps: for each plug of the system, in the
/// system's order, what it remembers of the plug's miner.
#[derive(Debug)]
pub struct PlugListener {
    pub(crate) plugs: Vec<String>,
    pub(crate) miners: Vec<MinerData>,
}

/// What a publication of a plug leaves to hand on.
#[derive(Debug)]
pub enum PlugNews {
    /// What a miner consumed; for the database and the reconciler.
    Energy { name: String, ec: u64, phase: u8, power: u64 },
    /// The position of a plug's relay; for the reconciler.
    Relay { plug_id: String, is_on: bool },
    Nothing,
}

impl PlugListener {
    pub closed spec fn plug_names(&self) -> Seq<Seq<char>> {
        Seq::new(self.plugs@.len(), |i: int| self.plugs@[i]@)
    }

    pub closed spec fn data(&self) -> Seq<MinerData> {
        self.miners@
    }

    pub closed spec fn wf(&self) -> bool {
        self.plugs@.len() == self.miners@.len()
    }

    /// A listener for the plugs of `system`, with nothing remembered.
    pub fn new(system: &System) -> (l: PlugListener)
        requires
            system.wf(),
        ensures
            l.wf(),
            l.plug_names() == plug_ids(system@.plugs),
            l.data().len() == system@.miners.len(),
            forall|i: int|
                0 <= i < l.data().len() ==> (#[trigger] l.data()[i]) == (MinerData {
                    last_received: None,
                    name: system@.miners[i].id,
                    energy_consumed: 0,
                    phase: system@.miners[i].phase,
                    power: 0,
                }),
    {
        let mut plugs: Vec<String> = Vec::new();
        let mut miners: Vec<MinerData> = Vec::new();
        let mut i: usize = 0;
        while i < system.miners.len()
            invariant
                i <= system.miners.len(),
                system.wf(),
                plugs@.len() == i,
                miners@.len() == i,
                forall|k: int| 0 <= k < i ==> (#[trigger] plugs@[k])@ == system@.plugs[k].id@,
                forall|k: int|
                    0 <= k < i ==> (#[trigger] miners@[k]) == (MinerData {
                        last_received: None,
                        name: system@.miners[k].id,
                        energy_consumed: 0,
                        phase: system@.miners[k].phase,
                        power: 0,
                    }),
            decreases system.miners.len() - i,
        {
            plugs.push(system.plugs[i].id.clone());
            miners.push(
                MinerData {
                    last_received: None,
                    name: system.miners[i].id.clone(),
                    energy_consumed: 0,
                    phase: system.miners[i].phase,
                    power: 0,
                },
            );
            i = i + 1;
        }
        let l = PlugListener { plugs, miners };
        assert(l.plug_names() =~= plug_ids(system@.plugs));
        l
    }

    fn find(&self, plug_id: &str) -> (found: Option<usize>)
        requires
            self.wf(),
        ensures
            match found {
                Some(i) => i < self.data().len() && position(self.plug_names(), plug_id@) == Some(
                    i as int,
                ),
                None => position(self.plug_names(), plug_id@) is None,
            },
    {
        let ghost ids = self.plug_names();
        let mut i: usize = 0;
        while i < self.plugs.len()
            invariant
                i <= self.plugs.len(),
                self.wf(),
                ids == self.plug_names(),
                position(ids.take(i as int), plug_id@) is None,
            decreases self.plugs.len() - i,
        {
            assert(ids.take(i + 1).drop_last() =~= ids.take(i as int));
            if same_text(self.plugs[i].as_str(), plug_id) {
                proof {
                    position_of_prefix(ids, plug_id@, i + 1);
                }
                return Some(i);
            }
            i = i + 1;
        }
        assert(ids.take(i as int) =~= ids);
        None
    }

    /// Takes a publication of a plug at the instant `now` of the
    /// listener's clock. A report of the draw or of the counter of a known
    /// plug is remembered; a counter that grew within the window gives the
    /// energy consumed; a relay's position is handed on. Anything else
    /// changes nothing and gives nothing.
    pub fn on_publish(&mut self, topic: &str, payload: &str, now: u64) -> (news: PlugNews)
        requires
            old(self).wf(),
        ensures
            final(self).wf(),
            final(self).plug_names() == old(self).plug_names(),
            final(self).data().len() == old(self).data().len(),
            match (plug_field(topic@), position(old(self).plug_names(), plug_named(topic@))) {
                (Some(PlugField::Power), Some(i)) => match parse_thousandths(payload@) {
                    Some(power) => final(self).data() == old(self).data().update(
                        i,
                        old(self).data()[i].after_power(power, now),
                    ) && news is Nothing,
                    None => final(self).data() == old(self).data() && news is Nothing,
                },
                (Some(PlugField::Energy), Some(i)) => match parse_unsigned(payload@) {
                    Some(counter) => final(self).data() == old(self).data().update(
                        i,
                        old(self).data()[i].after_energy(counter, now),
                    ) && match old(self).data()[i].energy_delta(counter, now) {
                        Some(delta) => news == (PlugNews::Energy {
                            name: old(self).data()[i].name,
                            ec: delta,
                            phase: old(self).data()[i].phase,
                            power: old(self).data()[i].power,
                        }),
                        None => news is Nothing,
                    },
                    None => final(self).data() == old(self).data() && news is Nothing,
                },
                (Some(PlugField::Relay), Some(i)) => final(self).data() == old(self).data()
                    && match relay_named(payload@) {
                    Some(is_on) => news is Relay && news->plug_id@ == plug_named(topic@)
                        && news->is_on == is_on,
                    None => news is Nothing,
                },
                _ => final(self).data() == old(self).data() && news is Nothing,
            },
    {
        let t = match parse_plug_topic(topic) {
            Some(t) => t,
            None => {
                return PlugNews::Nothing;
            },
        };
        let i = match self.find(t.plug_id.as_str()) {
            Some(i) => i,
            None => {
                return PlugNews::Nothing;
            },
        };
        match t.field {
            PlugField::Power => {
                match parse_milli(payload) {
                    Some(power) => {
                        self.miners[i].on_power(power, now);
                    },
                    None => {},
                }
                PlugNews::Nothing
            },
            PlugField::Energy => {
                match parse_u64(payload) {
                    Some(counter) => {
                        let power = self.miners[i].power;
                        match self.miners[i].on_energy(counter, now) {
                            Some(delta) => PlugNews::Energy {
                                name: self.miners[i].name.clone(),
                                ec: delta,
                                phase: self.miners[i].phase,
                                power,
                            },
                            None => PlugNews::Nothing,
                        }
                    },
                    None => PlugNews::Nothing,
                }
            },
            PlugField::Relay => {
                if same_text(payload, "on") {
                    PlugNews::Relay { plug_id: t.plug_id, is_on: true }
                } else if same_text(payload, "off") {
                    PlugNews::Relay { plug_id: t.plug_id, is_on: false }
                } else {
                    PlugNews::Nothing
                }
            },
        }
    }
}

/// What a guard says in one message.
#[derive(Clone, Copy, Debug, PartialEq, Eq, Structural)]
pub enum GuardNews {
    Alert(MinerAlert),
    Command(CommandStatus, MinerState),
    Configured,
    Ping,
    Started,
    State(MinerState),
}

/// A guard's message, read: who speaks, of which miner, and what.
pub struct GuardEvent {
    pub guard_id: Seq<char>,
    pub miner_id: Option<Seq<char>>,
    pub news: GuardNews,
}

/// A guard's answer to a command.
#[derive(Clone, Copy, Debug, PartialEq, Eq, Structural)]
pub struct Answer {
    pub status: CommandStatus,
    pub state: MinerState,
}

/// The answer that a payload of the form `command=<status>, state=<state>`
/// gives. The status ends at the first comma.
pub open spec fn command_answer(payload: Seq<char>) -> Option<Answer> {
    if has_prefix(payload, "command="@) {
        let body = payload.skip("command="@.len() as int);
        let k = first_index(body, ',');
        let rest = body.skip(k);
        if has_prefix(rest, ", state="@) {
            let status = CommandStatus::parse(body.take(k));
            let state = MinerState::parse(rest.skip(", state="@.len() as int));
            if status is Some && state is Some {
                Some(Answer { status: status->0, state: state->0 })
            } else {
                None
            }
        } else {
            None
        }
    } else {
        None
    }
}

/// What a publication of a guard says. `guards/started` carries the id of
/// a guard that started; `guards/<guard>/configured` and
/// `guards/<guard>/ping` speak of the guard; `guards/<guard>/miners/<miner>/`
/// with `alert`, `command` or `status` speaks of one of its miners. `None`
/// for any other topic and for a payload that cannot be read.
pub open spec fn guard_event(topic: Seq<char>, payload: Seq<char>) -> Option<GuardEvent> {
    let s = segments(topic, '/');
    if s.len() == 2 && s[0] == "guards"@ && s[1] == "started"@ {
        Some(GuardEvent { guard_id: payload, miner_id: None, news: GuardNews::Started })
    } else if s.len() == 3 && s[0] == "guards"@ && s[1].len() > 0 && s[2] == "configured"@ {
        Some(GuardEvent { guard_id: s[1], miner_id: None, news: GuardNews::Configured })
    } else if s.len() == 3 && s[0] == "guards"@ && s[1].len() > 0 && s[2] == "ping"@ {
        Some(GuardEvent { guard_id: s[1], miner_id: None, news: GuardNews::Ping })
    } else if s.len() == 5 && s[0] == "guards"@ && s[1].len() > 0 && s[2] == "miners"@
        && s[3].len() > 0 {
        if s[4] == "alert"@ {
            match MinerAlert::parse(payload) {
                Some(alert) => Some(
                    GuardEvent { guard_id: s[1], miner_id: Some(s[3]), news: GuardNews::Alert(alert) },
                ),
                None => None,
            }
        } else if s[4] == "command"@ {
            match command_answer(payload) {
                Some(a) => Some(
                    GuardEvent {
                        guard_id: s[1],
                        miner_id: Some(s[3]),
                        news: GuardNews::Command(a.status, a.state),
                    },
                ),
                None => None,
            }
        } else if s[4] == "status"@ {
            match MinerState::parse(payload) {
                Some(state) => Some(
                    GuardEvent { guard_id: s[1], miner_id: Some(s[3]), news: GuardNews::State(state) },
                ),
                None => None,
            }
        } else {
            None
        }
    } else {
        None
    }
}

/// The message says what the event says, and was received at `ts`.
pub open spec fn tells(msg: Message, e: GuardEvent, ts: i64) -> bool {
    match msg {
        Message::Guard { guard_id, ts: t, data } => guard_id@ == e.guard_id && t == ts && match data {
            GuardData::Alert { miner_id, alert } => e.miner_id == Some(miner_id@) && e.news
                == GuardNews::Alert(alert),
            GuardData::Command { miner_id, command_status, miner_state } => e.miner_id == Some(
                miner_id@,
            ) && e.news == GuardNews::Command(command_status, miner_state),
            GuardData::Configured => e.news == GuardNews::Configured,
            GuardData::Ping => e.news == GuardNews::Ping,
            GuardData::Started => e.news == GuardNews::Started,
            GuardData::State { miner_id, state } => e.miner_id == Some(miner_id@) && e.news
                == GuardNews::State(state),
        },
        _ => false,
    }
}

fn starts_with_at(chars: &Vec<char>, from: usize, prefix: &str) -> (r: bool)
    requires
        from <= chars.len(),
    ensures
        r == has_prefix(chars@.skip(from as int), prefix@),
{
    let p = chars_of(prefix);
    if p.len() > chars.len() - from {
        return false;
    }
    let ghost rest = chars@.skip(from as int);
    let mut i: usize = 0;
    while i < p.len()
        invariant
            i <= p.len(),
            from <= chars.len(),
            p.len() <= chars.len() - from,
            p@ == prefix@,
            rest == chars@.skip(from as int),
            forall|j: int| 0 <= j < i ==> rest[j] == p@[j],
        decreases p.len() - i,
    {
        if chars[from + i] != p[i] {
            assert(rest.take(p@.len() as int)[i as int] != p@[i as int]);
            return false;
        }
        i = i + 1;
    }
    assert(rest.take(p@.len() as int) =~= p@);
    true
}

/// Reads a guard's answer to a command.
pub fn parse_command_answer(payload: &str) -> (a: Option<Answer>)
    ensures
        a == command_answer(payload@),
{
    proof {
        reveal_strlit("command=");
        reveal_strlit(", state=");
    }
    let chars = chars_of(payload);
    if !starts_with_at(&chars, 0, "command=") {
        assert(chars@.skip(0) =~= payload@);
        return None;
    }
    assert(chars@.skip(0) =~= payload@);
    let ghost body = payload@.skip(8);
    let mut comma: usize = 8;
    while comma < chars.len() && chars[comma] != ','
        invariant
            8 <= comma <= chars.len(),
            chars@ == payload@,
            body == payload@.skip(8),
            forall|i: int| 0 <= i < comma - 8 ==> body[i] != ',',
        decreases chars.len() - comma,
    {
        comma = comma + 1;
    }
    proof {
        first_index_found(body, ',', comma - 8);
        assert(body.skip(comma - 8) =~= chars@.skip(comma as int));
    }
    if !starts_with_at(&chars, comma, ", state=") {
        return None;
    }
    let status_text = payload.substring_char(8, comma);
    let state_text = payload.substring_char(comma + 8, chars.len());
    assert(status_text@ =~= body.take(comma - 8));
    assert(state_text@ =~= body.skip(comma - 8).skip(8));
    match (CommandStatus::from_str(status_text), MinerState::from_str(state_text)) {
        (Ok(status), Ok(state)) => Some(Answer { status, state }),
        _ => None,
    }
}

/// Reads a publication of a guard, received at `ts`.
pub fn parse_guard_message(topic: &str, payload: &str, ts: i64) -> (msg: Option<Message>)
    ensures
        match (msg, guard_event(topic@, payload@)) {
            (Some(m), Some(e)) => tells(m, e, ts),
            (None, None) => true,
            _ => false,
        },
{
    let s = split(topic, '/');
    if s.len() < 2 || !same_text(s[0].as_str(), "guards") {
        return None;
    }
    if s.len() == 2 {
        if same_text(s[1].as_str(), "started") {
            return Some(
                Message::Guard { guard_id: String::from_str(payload), ts, data: GuardData::Started },
            );
        }
        return None;
    }
    if s[1].as_str().unicode_len() == 0 {
        return None;
    }
    if s.len() == 3 {
        if same_text(s[2].as_str(), "configured") {
            return Some(Message::Guard { guard_id: s[1].clone(), ts, data: GuardData::Configured });
        }
        if same_text(s[2].as_str(), "ping") {
            return Some(Message::Guard { guard_id: s[1].clone(), ts, data: GuardData::Ping });
        }
        return None;
    }
    if s.len() != 5 || !same_text(s[2].as_str(), "miners") || s[3].as_str().unicode_len() == 0 {
        return None;
    }
    let data = if same_text(s[4].as_str(), "alert") {
        match MinerAlert::from_str(payload) {
            Ok(alert) => GuardData::Alert { miner_id: s[3].clone(), alert },
            Err(_) => {
                return None;
            },
        }
    } else if same_text(s[4].as_str(), "command") {
        match parse_command_answer(payload) {
            Some(a) => GuardData::Command {
                miner_id: s[3].clone(),
                command_status: a.status,
                miner_state: a.state,
            },
            None => {
                return None;
            },
        }
    } else if same_text(s[4].as_str(), "status") {
        match MinerState::from_str(payload) {
            Ok(state) => GuardData::State { miner_id: s[3].clone(), state },
            Err(_) => {
                return None;
            },
        }
    } else {
        return None;
    };
    Some(Message::Guard { guard_id: s[1].clone(), ts, data })
}

/// The miner that a topic of the form `user/<miner>` names, and what the
/// payload asks of it.
pub open spec fn user_request(topic: Seq<char>, payload: Seq<char>) -> Option<UserCommands> {
    let s = segments(topic, '/');
    if s.len() == 2 && s[0] == "user"@ && s[1].len() > 0 {
        UserCommands::parse(payload)
    } else {
        None
    }
}

/// Reads a publication of a user.
pub fn parse_user_message(topic: &str, payload: &str) -> (msg: Option<Message>)
    ensures
        match (msg, user_request(topic@, payload@)) {
            (Some(Message::User { miner_id, command }), Some(c)) => miner_id@ == segments(
                topic@,
                '/',
            )[1] && command == c,
            (None, None) => true,
            _ => false,
        },
{
    let s = split(topic, '/');
    if s.len() != 2 || !same_text(s[0].as_str(), "user") || s[1].as_str().unicode_len() == 0 {
        return None;
    }
    match UserCommands::from_str(payload) {
        Ok(command) => Some(Message::User { miner_id: s[1].clone(), command }),
        Err(_) => None,
    }
}

/// The meter's totals, when the reconciler asks for them at its start.
#[derive(Clone, Copy, Debug)]
pub struct Totals {
    /// Watt hours drawn from the grid, per phase.
    pub consumed: [u64; 3],
    /// Watt hours returned to the grid, per phase.
    pub returned: [u64; 3],
}

/// What has come in of the meter's totals.
#[derive(Clone, Copy, Debug)]
pub struct TotalsCollector {
    pub consumed: [Option<u64>; 3],
    pub returned: [Option<u64>; 3],
}

impl TotalsCollector {
    /// The collector after a publication of the switchboard: a total that
    /// can be read takes its place, anything else changes nothing.
    pub open spec fn after(self, topic: Seq<char>, payload: Seq<char>) -> TotalsCollector {
        match switchboard_slot(topic) {
            Some(slot) => match (slot.field, parse_thousandths(payload)) {
                (SwitchboardField::Total, Some(v)) => TotalsCollector {
                    consumed: with_slot(self.consumed, slot.phase as int, v),
                    ..self
                },
                (SwitchboardField::TotalReturned, Some(v)) => TotalsCollector {
                    returned: with_slot(self.returned, slot.phase as int, v),
                    ..self
                },
                _ => self,
            },
            None => self,
        }
    }

    /// The totals, once all six have come in.
    pub open spec fn totals(self) -> Option<Totals> {
        if full(self.consumed) && full(self.returned) {
            Some(Totals { consumed: values(self.consumed), returned: values(self.returned) })
        } else {
            None
        }
    }

    pub fn new() -> (c: TotalsCollector)
        ensures
            c.consumed == [None::<u64>, None, None],
            c.returned == [None::<u64>, None, None],
            c.totals() is None,
    {
        TotalsCollector { consumed: [None, None, None], returned: [None, None, None] }
    }

    /// Takes a publication of the switchboard; gives the totals once all
    /// six have come in.
    pub fn on_publish(&mut self, topic: &str, payload: &str) -> (totals: Option<Totals>)
        ensures
            *final(self) == old(self).after(topic@, payload@),
            totals == final(self).totals(),
    {
        match parse_switchboard_topic(topic) {
            Some(slot) => {
                let p: usize = slot.phase as usize;
                match slot.field {
                    SwitchboardField::Total => {
                        match parse_milli(payload) {
                            Some(v) => {
                                self.consumed[p] = Some(v);
                                assert(self.consumed =~= with_slot(old(self).consumed, p as int, v));
                            },
                            None => {},
                        }
                    },
                    SwitchboardField::TotalReturned => {
                        match parse_milli(payload) {
                            Some(v) => {
                                self.returned[p] = Some(v);
                                assert(self.returned =~= with_slot(old(self).returned, p as int, v));
                            },
                            None => {},
                        }
                    },
                    _ => {},
                }
            },
            None => {},
        }
        if is_full(&self.consumed) && is_full(&self.returned) {
            Some(Totals { consumed: values_of(&self.consumed), returned: values_of(&self.returned) })
        } else {
            None
        }
    }
}

/// A reading of the switchboard is given only with all its twelve values
/// there, and it holds those values.
pub proof fn reading_is_given_only_when_complete(l: SwitchboardListener, slot: Slot, value: u64)
    requires
        l.emitted(slot, value) is Some,
    ensures
        ({
            let s = l.stored(slot, value);
            let r = l.emitted(slot, value)->0;
            &&& forall|p: int|
                0 <= p < 3 ==> s.ec[p] == Some(#[trigger] r.ec[p]) && s.er[p] == Some(r.er[p])
                    && s.tc[p] == Some(r.tc[p]) && s.tr[p] == Some(r.tr[p])
        }),
{
}

/// What a miner consumed is given only where it is more than nothing and
/// the two samples that it lies between are less than a window apart.
pub proof fn energy_is_given_only_within_the_window(m: MinerData, counter: u64, now: u64)
    requires
        m.energy_delta(counter, now) is Some,
    ensures
        m.energy_delta(counter, now)->0 > 0,
        m.energy_delta(counter, now)->0 == counter - m.energy_consumed,
        m.last_received is Some,
        now - m.last_received->0 < WINDOW,
{
}

} // verus!
