//! Discovery: what a device's answer to the call for announcements means
//! for the system.

use vstd::prelude::*;
use crate::structs::{DeviceState, Guard, GuardType, Plug, ShellyType, Switchboard};
use crate::system::{
    guard_ids,
    miner_ids,
    plug_ids,
    position,
    Devices,
    System,
};
use crate::text::same_text;

verus! {

/// A miner as a guard announces it.
#[derive(Debug)]
pub struct AnnouncedMiner {
    pub id: Option<String>,
    pub pinset: Option<u32>,
}

/// What a device announces of itself; what it leaves out is `None`.
#[derive(Debug)]
pub struct Announce {
    pub id: Option<String>,
    /// The model of a meter or a plug.
    pub model: Option<String>,
    /// The board type of a guard.
    pub board: Option<String>,
    /// The miners of a guard.
    pub miners: Option<Vec<AnnouncedMiner>>,
}

/// Why an announcement ends the start-up.
#[derive(Clone, Copy, Debug, PartialEq, Eq, Structural)]
pub enum AnnounceError {
    UnknownGuardType,
    BoardTypeMismatch,
    UnknownMiner,
    ImproperMiners,
}

/// What an announcement led to.
#[derive(Clone, Copy, Debug, PartialEq, Eq, Structural)]
pub enum Announced {
    /// Nothing: the device is not of this system, or its answer cannot be read.
    Ignored,
    Switchboard,
    Plug { plug: usize },
    /// The guard is known; `matches` tells whether it knows its miners as
    /// the configuration has them.
    Guard { guard: usize, matches: bool },
    Rejected(AnnounceError),
}

/// The longest payload that is read as JSON, in characters. The `json`
/// crate counts the digits of a fraction in sixteen bits; a payload of this
/// length cannot hold more of them than that count takes.
pub const MAX_PAYLOAD: usize = 32_767;

/// The text under `key` in the JSON object that `payload` holds, where
/// `payload` is JSON, an object, and has a text there.
pub uninterp spec fn json_text_of(payload: Seq<char>, key: Seq<char>) -> Option<Seq<char>>;

/// The number of members of the array under `key` in the JSON object that
/// `payload` holds, where there is an array.
pub uninterp spec fn json_array_len_of(payload: Seq<char>, key: Seq<char>) -> Option<usize>;

/// The text under `field` in member `i` of the array under `key`.
pub uninterp spec fn json_member_text_of(
    payload: Seq<char>,
    key: Seq<char>,
    i: usize,
    field: Seq<char>,
) -> Option<Seq<char>>;

/// The number under `field` in member `i` of the array under `key`, where
/// it is a whole number that is not negative and fits in 32 bits.
pub uninterp spec fn json_member_u32_of(
    payload: Seq<char>,
    key: Seq<char>,
    i: usize,
    field: Seq<char>,
) -> Option<u32>;

/// The `json` crate's `parse`, then indexing the value by `key` and
/// `JsonValue::as_str`: a function of the two texts alone. `None` where
/// `payload` is not JSON, and where the value has no text under `key`.
/// The payload is no longer than `MAX_PAYLOAD`: `parse` counts the digits
/// after a decimal point in an `i16` and fails on more than it can count.
#[verifier::external_body]
fn json_text(payload: &str, key: &str) -> (r: Option<String>)
    requires
        payload@.len() <= MAX_PAYLOAD,
    ensures
        match r {
            Some(text) => json_text_of(payload@, key@) == Some(text@),
            None => json_text_of(payload@, key@) is None,
        },
{
    match json::parse(payload) {
        Ok(value) => value[key].as_str().map(String::from),
        Err(_) => None,
    }
}

/// The `json` crate's `parse`, then indexing by `key` and telling the
/// variant `JsonValue::Array` from the others: the length of the array.
#[verifier::external_body]
fn json_array_len(payload: &str, key: &str) -> (r: Option<usize>)
    requires
        payload@.len() <= MAX_PAYLOAD,
    ensures
        r == json_array_len_of(payload@, key@),
{
    match json::parse(payload) {
        Ok(value) => match &value[key] {
            json::JsonValue::Array(members) => Some(members.len()),
            _ => None,
        },
        Err(_) => None,
    }
}

/// The `json` crate's `parse`, then indexing by `key`, by `i` and by
/// `field`, and `JsonValue::as_str`.
#[verifier::external_body]
fn json_member_text(payload: &str, key: &str, i: usize, field: &str) -> (r: Option<String>)
    requires
        payload@.len() <= MAX_PAYLOAD,
    ensures
        match r {
            Some(text) => json_member_text_of(payload@, key@, i, field@) == Some(text@),
            None => json_member_text_of(payload@, key@, i, field@) is None,
        },
{
    match json::parse(payload) {
        Ok(value) => value[key][i][field].as_str().map(String::from),
        Err(_) => None,
    }
}

/// The `json` crate's `parse`, then indexing by `key`, by `i` and by
/// `field`, and `JsonValue::as_u32`.
#[verifier::external_body]
fn json_member_u32(payload: &str, key: &str, i: usize, field: &str) -> (r: Option<u32>)
    requires
        payload@.len() <= MAX_PAYLOAD,
    ensures
        r == json_member_u32_of(payload@, key@, i, field@),
{
    match json::parse(payload) {
        Ok(value) => value[key][i][field].as_u32(),
        Err(_) => None,
    }
}

/// What the payload of an announcement holds. A payload longer than
/// `MAX_PAYLOAD` is not read: it holds nothing.
pub open spec fn announce_reads(a: Announce, payload: Seq<char>) -> bool {
    if payload.len() <= MAX_PAYLOAD {
        announce_holds(a, payload)
    } else {
        a.id is None && a.model is None && a.board is None && a.miners is None
    }
}

/// What a payload that is read as JSON holds of an announcement.
pub open spec fn announce_holds(a: Announce, payload: Seq<char>) -> bool {
    &&& match a.id {
        Some(t) => json_text_of(payload, "id"@) == Some(t@),
        None => json_text_of(payload, "id"@) is None,
    }
    &&& match a.model {
        Some(t) => json_text_of(payload, "model"@) == Some(t@),
        None => json_text_of(payload, "model"@) is None,
    }
    &&& match a.board {
        Some(t) => json_text_of(payload, "type"@) == Some(t@),
        None => json_text_of(payload, "type"@) is None,
    }
    &&& match a.miners {
        Some(list) => json_array_len_of(payload, "miners"@) == Some(list@.len() as usize)
            && forall|i: int|
            0 <= i < list@.len() ==> {
                &&& match (#[trigger] list@[i]).id {
                    Some(t) => json_member_text_of(payload, "miners"@, i as usize, "id"@) == Some(t@),
                    None => json_member_text_of(payload, "miners"@, i as usize, "id"@) is None,
                }
                &&& list@[i].pinset == json_member_u32_of(
                    payload,
                    "miners"@,
                    i as usize,
                    "pinset"@,
                )
            },
        None => json_array_len_of(payload, "miners"@) is None,
    }
}

/// Reads the payload of an announcement.
pub fn read_announce(payload: &str) -> (a: Announce)
    ensures
        announce_reads(a, payload@),
{
    if payload.unicode_len() > MAX_PAYLOAD {
        return Announce { id: None, model: None, board: None, miners: None };
    }
    let id = json_text(payload, "id");
    let model = json_text(payload, "model");
    let board = json_text(payload, "type");
    let miners = match json_array_len(payload, "miners") {
        Some(n) => {
            let mut list: Vec<AnnouncedMiner> = Vec::new();
            let mut i: usize = 0;
            while i < n
                invariant
                    i <= n,
                    payload@.len() <= MAX_PAYLOAD,
                    list@.len() == i,
                    forall|k: int|
                        0 <= k < i ==> {
                            &&& match (#[trigger] list@[k]).id {
                                Some(t) => json_member_text_of(
                                    payload@,
                                    "miners"@,
                                    k as usize,
                                    "id"@,
                                ) == Some(t@),
                                None => json_member_text_of(
                                    payload@,
                                    "miners"@,
                                    k as usize,
                                    "id"@,
                                ) is None,
                            }
                            &&& list@[k].pinset == json_member_u32_of(
                                payload@,
                                "miners"@,
                                k as usize,
                                "pinset"@,
                            )
                        },
                decreases n - i,
            {
                list.push(
                    AnnouncedMiner {
                        id: json_member_text(payload, "miners", i, "id"),
                        pinset: json_member_u32(payload, "miners", i, "pinset"),
                    },
                );
                i = i + 1;
            }
            Some(list)
        },
        None => None,
    };
    Announce { id, model, board, miners }
}

/// The announced miner is the miner at position `m`, on the guard at
/// position `g`, on its configured pinset.
pub open spec fn entry_fits(d: Devices, g: int, e: AnnouncedMiner) -> bool {
    e.id is Some && e.pinset is Some && match position(miner_ids(d.miners), e.id->0@) {
        Some(m) => d.miners[m].guard == g && d.miners[m].pinset == e.pinset->0,
        None => false,
    }
}

/// The announced miner names a miner that the system does not have.
pub open spec fn entry_unknown(d: Devices, e: AnnouncedMiner) -> bool {
    e.id is Some && position(miner_ids(d.miners), e.id->0@) is None
}

/// The miner at position `i` is among the announced ones.
pub open spec fn is_announced(d: Devices, i: int, list: Seq<AnnouncedMiner>) -> bool {
    exists|k: int| 0 <= k < list.len() && (#[trigger] list[k]).id is Some && list[k].id->0@
        == d.miners[i].id@
}

/// The guard at position `g` announces its miners as the configuration
/// has them: every announced miner sits on this guard on its configured
/// pinset, and every miner of this guard is announced.
pub open spec fn miners_match(d: Devices, g: int, list: Seq<AnnouncedMiner>) -> bool {
    &&& forall|k: int| 0 <= k < list.len() ==> entry_fits(d, g, #[trigger] list[k])
    &&& forall|i: int|
        0 <= i < d.miners.len() && (#[trigger] d.miners[i]).guard == g ==> is_announced(d, i, list)
}

impl Devices {
    /// What an announcement on `topic` leads to.
    pub open spec fn announced(self, topic: Seq<char>, a: Announce) -> Announced {
        if topic == "shellies/announce"@ {
            if a.id is Some && a.model is Some {
                match ShellyType::parse(a.model->0@) {
                    Some(ShellyType::SHEM_3) => if self.switchboard.id@ == a.id->0@ {
                        Announced::Switchboard
                    } else {
                        Announced::Ignored
                    },
                    Some(ShellyType::SHPLG_S) => match position(plug_ids(self.plugs), a.id->0@) {
                        Some(p) => Announced::Plug { plug: p as usize },
                        None => Announced::Ignored,
                    },
                    None => Announced::Ignored,
                }
            } else {
                Announced::Ignored
            }
        } else if topic == "guards/announce"@ {
            if a.id is Some && a.board is Some {
                match GuardType::parse(a.board->0@) {
                    None => Announced::Rejected(AnnounceError::UnknownGuardType),
                    Some(board) => match position(guard_ids(self.guards), a.id->0@) {
                        None => Announced::Ignored,
                        Some(g) => if self.guards[g].board_type != board {
                            Announced::Rejected(AnnounceError::BoardTypeMismatch)
                        } else if a.miners is None {
                            Announced::Rejected(AnnounceError::ImproperMiners)
                        } else if exists|k: int|
                            0 <= k < a.miners->0@.len() && entry_unknown(
                                self,
                                #[trigger] a.miners->0@[k],
                            ) {
                            Announced::Rejected(AnnounceError::UnknownMiner)
                        } else {
                            Announced::Guard {
                                guard: g as usize,
                                matches: miners_match(self, g, a.miners->0@),
                            }
                        },
                    },
                }
            } else {
                Announced::Ignored
            }
        } else {
            Announced::Ignored
        }
    }

    /// The devices after an announcement: the meter or the plug that
    /// announced itself is available; a guard is available if it knows its
    /// miners as the configuration has them, and else has a configuration
    /// that is out of date.
    pub open spec fn after_announce(self, topic: Seq<char>, a: Announce) -> Devices {
        match self.announced(topic, a) {
            Announced::Switchboard => Devices {
                switchboard: Switchboard { state: DeviceState::Available, ..self.switchboard },
                ..self
            },
            Announced::Plug { plug } => Devices {
                plugs: self.plugs.update(
                    plug as int,
                    Plug { state: DeviceState::Available, ..self.plugs[plug as int] },
                ),
                ..self
            },
            Announced::Guard { guard, matches } => Devices {
                guards: self.guards.update(
                    guard as int,
                    Guard {
                        state: if matches {
                            DeviceState::Available
                        } else {
                            DeviceState::ConfigExpired
                        },
                        ..self.guards[guard as int]
                    },
                ),
                ..self
            },
            _ => self,
        }
    }
}

impl System {
    fn has_unknown_entry(&self, list: &Vec<AnnouncedMiner>) -> (r: bool)
        ensures
            r == exists|k: int| 0 <= k < list@.len() && entry_unknown(self@, #[trigger] list@[k]),
    {
        let mut k: usize = 0;
        while k < list.len()
            invariant
                k <= list.len(),
                forall|j: int| 0 <= j < k ==> !entry_unknown(self@, #[trigger] list@[j]),
            decreases list.len() - k,
        {
            match &list[k].id {
                Some(id) => {
                    if self.find_miner(id.as_str()).is_none() {
                        return true;
                    }
                },
                None => {},
            }
            k = k + 1;
        }
        false
    }

    fn all_entries_fit(&self, g: usize, list: &Vec<AnnouncedMiner>) -> (r: bool)
        ensures
            r == forall|k: int| 0 <= k < list@.len() ==> entry_fits(self@, g as int, #[trigger] list@[k]),
    {
        let mut k: usize = 0;
        while k < list.len()
            invariant
                k <= list.len(),
                forall|j: int| 0 <= j < k ==> entry_fits(self@, g as int, #[trigger] list@[j]),
            decreases list.len() - k,
        {
            let fits = match (&list[k].id, list[k].pinset) {
                (Some(id), Some(pinset)) => match self.find_miner(id.as_str()) {
                    Some(m) => self.miners[m].guard == g && self.miners[m].pinset == pinset,
                    None => false,
                },
                _ => false,
            };
            if !fits {
                assert(!entry_fits(self@, g as int, list@[k as int]));
                return false;
            }
            k = k + 1;
        }
        true
    }

    fn announced_among(&self, i: usize, list: &Vec<AnnouncedMiner>) -> (r: bool)
        requires
            i < self.miners.len(),
        ensures
            r == is_announced(self@, i as int, list@),
    {
        let mut k: usize = 0;
        while k < list.len()
            invariant
                k <= list.len(),
                i < self.miners.len(),
                forall|j: int|
                    0 <= j < k ==> !((#[trigger] list@[j]).id is Some && list@[j].id->0@
                        == self@.miners[i as int].id@),
            decreases list.len() - k,
        {
            match &list[k].id {
                Some(id) => {
                    if same_text(id.as_str(), self.miners[i].id.as_str()) {
                        return true;
                    }
                },
                None => {},
            }
            k = k + 1;
        }
        false
    }

    fn miners_are_matched(&self, g: usize, list: &Vec<AnnouncedMiner>) -> (r: bool)
        ensures
            r == miners_match(self@, g as int, list@),
    {
        if !self.all_entries_fit(g, list) {
            return false;
        }
        let mut i: usize = 0;
        while i < self.miners.len()
            invariant
                i <= self.miners.len(),
                forall|j: int|
                    0 <= j < i && (#[trigger] self@.miners[j]).guard == g ==> is_announced(
                        self@,
                        j,
                        list@,
                    ),
            decreases self.miners.len() - i,
        {
            if self.miners[i].guard == g && !self.announced_among(i, list) {
                assert(self@.miners[i as int].guard == g);
                return false;
            }
            i = i + 1;
        }
        true
    }

    /// Takes what a device announced on `topic` into the system.
    pub fn take_announce(&mut self, topic: &str, a: &Announce) -> (outcome: Announced)
        requires
            old(self).wf(),
        ensures
            final(self).wf(),
            outcome == old(self)@.announced(topic@, *a),
            final(self)@ == old(self)@.after_announce(topic@, *a),
            final(self)@.same_topology(old(self)@),
    {
        if same_text(topic, "shellies/announce") {
            let (id, model) = match (&a.id, &a.model) {
                (Some(id), Some(model)) => (id, model),
                _ => {
                    return Announced::Ignored;
                },
            };
            match ShellyType::from_str(model.as_str()) {
                Ok(ShellyType::SHEM_3) => {
                    if same_text(self.switchboard.id.as_str(), id.as_str()) {
                        self.switchboard.state = DeviceState::Available;
                        Announced::Switchboard
                    } else {
                        Announced::Ignored
                    }
                },
                Ok(ShellyType::SHPLG_S) => {
                    match self.find_plug(id.as_str()) {
                        Some(p) => {
                            self.plugs[p].state = DeviceState::Available;
                            assert(self@.plugs =~= old(self)@.after_announce(topic@, *a).plugs);
                            Announced::Plug { plug: p }
                        },
                        None => Announced::Ignored,
                    }
                },
                Err(_) => Announced::Ignored,
            }
        } else if same_text(topic, "guards/announce") {
            proof {
                reveal_strlit("shellies/announce");
                reveal_strlit("guards/announce");
            }
            let (id, board) = match (&a.id, &a.board) {
                (Some(id), Some(board)) => (id, board),
                _ => {
                    return Announced::Ignored;
                },
            };
            let board = match GuardType::from_str(board.as_str()) {
                Ok(board) => board,
                Err(_) => {
                    return Announced::Rejected(AnnounceError::UnknownGuardType);
                },
            };
            let g = match self.find_guard(id.as_str()) {
                Some(g) => g,
                None => {
                    return Announced::Ignored;
                },
            };
            if self.guards[g].board_type != board {
                return Announced::Rejected(AnnounceError::BoardTypeMismatch);
            }
            let list = match &a.miners {
                Some(list) => list,
                None => {
                    return Announced::Rejected(AnnounceError::ImproperMiners);
                },
            };
            if self.has_unknown_entry(list) {
                return Announced::Rejected(AnnounceError::UnknownMiner);
            }
            let matches = self.miners_are_matched(g, list);
            self.guards[g].state = if matches {
                DeviceState::Available
            } else {
                DeviceState::ConfigExpired
            };
            assert(self@.guards =~= old(self)@.after_announce(topic@, *a).guards);
            Announced::Guard { guard: g, matches }
        } else {
            Announced::Ignored
        }
    }

    /// Takes the announcement that `payload` holds into the system.
    pub fn parse_announce(&mut self, topic: &str, payload: &str) -> (outcome: Announced)
        requires
            old(self).wf(),
        ensures
            final(self).wf(),
            final(self)@.same_topology(old(self)@),
            exists|a: Announce|
                announce_reads(a, payload@) && outcome == old(self)@.announced(topic@, a)
                    && final(self)@ == old(self)@.after_announce(topic@, a),
    {
        let a = read_announce(payload);
        self.take_announce(topic, &a)
    }
}

} // verus!
