//! The broker's side of the reconciler's actions: on which topic each is
//! published with which payload, and which topics a miner is heard on.

use vstd::prelude::*;
use crate::structs::Miner;
use crate::system::{Action, Devices, System};
use crate::text::{decimal, push_decimal, texts};

verus! {

/// A message for the broker.
#[derive(Debug)]
pub struct Publication {
    pub topic: String,
    pub payload: String,
}

/// The topic on which the commands for a miner go to its guard.
pub open spec fn miner_topic(guard_id: Seq<char>, miner_id: Seq<char>) -> Seq<char> {
    "guards/"@ + guard_id + "/miners/"@ + miner_id
}

/// The topic on which a guard is told to restart.
pub open spec fn guard_command_topic(guard_id: Seq<char>) -> Seq<char> {
    "guards/"@ + guard_id + "/command"@
}

/// The topic on which a guard is told its miners.
pub open spec fn guard_config_topic(guard_id: Seq<char>) -> Seq<char> {
    "guards/"@ + guard_id + "/config"@
}

/// The topic on which a plug is told to switch its relay.
pub open spec fn relay_command_topic(plug_id: Seq<char>) -> Seq<char> {
    "shellies/"@ + plug_id + "/relay/0/command"@
}

/// How many of the first `k` miners sit on the guard at position `g`.
pub open spec fn miners_on(miners: Seq<Miner>, g: int, k: int) -> nat
    decreases k,
{
    if k <= 0 {
        0
    } else if miners[k - 1].guard == g {
        miners_on(miners, g, k - 1) + 1
    } else {
        miners_on(miners, g, k - 1)
    }
}

/// For each of the first `k` miners that sits on the guard at position
/// `g`: a space, the miner's id, a space and the miner's pinset.
pub open spec fn assignments(miners: Seq<Miner>, g: int, k: int) -> Seq<char>
    decreases k,
{
    if k <= 0 {
        Seq::empty()
    } else if miners[k - 1].guard == g {
        assignments(miners, g, k - 1) + " "@ + miners[k - 1].id@ + " "@ + decimal(
            miners[k - 1].pinset as nat,
        )
    } else {
        assignments(miners, g, k - 1)
    }
}

/// The topics on which a miner's plug tells its power and its energy;
/// they are for the client that listens to the plugs.
pub open spec fn plug_topics_of(plug_id: Seq<char>) -> Seq<Seq<char>> {
    seq!["shellies/"@ + plug_id + "/relay/0/power"@, "shellies/"@ + plug_id + "/relay/0/energy"@]
}

/// The topics on which a miner's guard tells its alerts, its answers to
/// commands and its states; they are for the client that listens to the
/// guards.
pub open spec fn guard_topics_of(guard_id: Seq<char>, miner_id: Seq<char>) -> Seq<Seq<char>> {
    seq![
        miner_topic(guard_id, miner_id) + "/alert"@,
        miner_topic(guard_id, miner_id) + "/command"@,
        miner_topic(guard_id, miner_id) + "/status"@,
    ]
}

/// The topics on which a miner is heard, each list for the client that
/// listens to that kind of device.
#[derive(Debug)]
pub struct MinerTopics {
    /// For the client of the plugs.
    pub plug: Vec<String>,
    /// For the client of the guards.
    pub guard: Vec<String>,
}

impl Devices {
    /// What a guard is told of its miners: how many they are, then each
    /// one's id and pinset.
    pub open spec fn guard_config(self, g: int) -> Seq<char> {
        decimal(miners_on(self.miners, g, self.miners.len() as int)) + assignments(
            self.miners,
            g,
            self.miners.len() as int,
        )
    }

    /// The topic and the payload with which an action is published; `None`
    /// for an action that publishes nothing or names no device.
    pub open spec fn publication(self, action: Action) -> Option<(Seq<char>, Seq<char>)> {
        match action {
            Action::GuardCommand { miner, command } => if miner < self.miners.len() {
                Some(
                    (
                        miner_topic(
                            self.guards[self.miners[miner as int].guard as int].id@,
                            self.miners[miner as int].id@,
                        ),
                        command.name(),
                    ),
                )
            } else {
                None
            },
            Action::GuardReset { guard } => if guard < self.guards.len() {
                Some((guard_command_topic(self.guards[guard as int].id@), "reset"@))
            } else {
                None
            },
            Action::GuardConfig { guard } => if guard < self.guards.len() {
                Some(
                    (guard_config_topic(self.guards[guard as int].id@), self.guard_config(guard as int)),
                )
            } else {
                None
            },
            Action::PlugCutOff { plug } => if plug < self.plugs.len() {
                Some((relay_command_topic(self.plugs[plug as int].id@), "off"@))
            } else {
                None
            },
            Action::PlugEnable { plug } => if plug < self.plugs.len() {
                Some((relay_command_topic(self.plugs[plug as int].id@), "on"@))
            } else {
                None
            },
            _ => None,
        }
    }

    /// The miner that an action asks to listen to, or to listen to no
    /// longer, if it asks for that and names a miner of the system.
    pub open spec fn subscribed(self, action: Action) -> Option<int> {
        match action {
            Action::Subscribe { miner } | Action::Unsubscribe { miner } => if miner
                < self.miners.len() {
                Some(miner as int)
            } else {
                None
            },
            _ => None,
        }
    }

    /// The topics of the plugs' client that an action asks to listen to,
    /// or to listen to no longer.
    pub open spec fn plug_subscription(self, action: Action) -> Seq<Seq<char>> {
        match self.subscribed(action) {
            Some(m) => plug_topics_of(self.plugs[m].id@),
            None => Seq::empty(),
        }
    }

    /// The topics of the guards' client that an action asks to listen to,
    /// or to listen to no longer.
    pub open spec fn guard_subscription(self, action: Action) -> Seq<Seq<char>> {
        match self.subscribed(action) {
            Some(m) => guard_topics_of(self.guards[self.miners[m].guard as int].id@, self.miners[m].id@),
            None => Seq::empty(),
        }
    }
}

fn with_ending(a: &str, b: &str) -> (s: String)
    ensures
        s@ == a@ + b@,
{
    let mut s = String::from_str(a);
    s.append(b);
    s
}

fn joined(a: &str, b: &str, c: &str) -> (s: String)
    ensures
        s@ == a@ + b@ + c@,
{
    let mut s = String::from_str(a);
    s.append(b);
    s.append(c);
    s
}

impl System {
    fn miner_topic_of(&self, m: usize) -> (s: String)
        requires
            self.wf(),
            m < self.miners.len(),
        ensures
            s@ == miner_topic(
                self@.guards[self@.miners[m as int].guard as int].id@,
                self@.miners[m as int].id@,
            ),
    {
        let mut s = joined("guards/", self.guards[self.miners[m].guard].id.as_str(), "/miners/");
        s.append(self.miners[m].id.as_str());
        s
    }

    /// What the guard at position `g` is told of its miners.
    pub fn get_guard_config(&self, g: usize) -> (config: String)
        ensures
            config@ == self@.guard_config(g as int),
    {
        let mut count: u64 = 0;
        let mut rest = String::new();
        let mut i: usize = 0;
        while i < self.miners.len()
            invariant
                i <= self.miners.len(),
                count == miners_on(self@.miners, g as int, i as int),
                count <= i,
                rest@ == assignments(self@.miners, g as int, i as int),
            decreases self.miners.len() - i,
        {
            if self.miners[i].guard == g {
                count = count + 1;
                let ghost before = rest@;
                rest.append(" ");
                rest.append(self.miners[i].id.as_str());
                rest.append(" ");
                push_decimal(&mut rest, self.miners[i].pinset as u64);
                assert(rest@ =~= before + " "@ + self@.miners[i as int].id@ + " "@ + decimal(
                    self@.miners[i as int].pinset as nat,
                ));
            }
            i = i + 1;
        }
        let mut config = String::new();
        push_decimal(&mut config, count);
        config.append(rest.as_str());
        assert(config@ =~= self@.guard_config(g as int));
        config
    }

    /// The topic and the payload with which `action` is to be published.
    pub fn publication(&self, action: &Action) -> (p: Option<Publication>)
        requires
            self.wf(),
        ensures
            match (p, self@.publication(*action)) {
                (Some(p), Some((topic, payload))) => p.topic@ == topic && p.payload@ == payload,
                (None, None) => true,
                _ => false,
            },
    {
        match action {
            Action::GuardCommand { miner, command } => {
                if *miner < self.miners.len() {
                    Some(
                        Publication {
                            topic: self.miner_topic_of(*miner),
                            payload: String::from_str(command.as_str()),
                        },
                    )
                } else {
                    None
                }
            },
            Action::GuardReset { guard } => {
                if *guard < self.guards.len() {
                    Some(
                        Publication {
                            topic: joined("guards/", self.guards[*guard].id.as_str(), "/command"),
                            payload: String::from_str("reset"),
                        },
                    )
                } else {
                    None
                }
            },
            Action::GuardConfig { guard } => {
                if *guard < self.guards.len() {
                    Some(
                        Publication {
                            topic: joined("guards/", self.guards[*guard].id.as_str(), "/config"),
                            payload: self.get_guard_config(*guard),
                        },
                    )
                } else {
                    None
                }
            },
            Action::PlugCutOff { plug } => {
                if *plug < self.plugs.len() {
                    Some(
                        Publication {
                            topic: joined(
                                "shellies/",
                                self.plugs[*plug].id.as_str(),
                                "/relay/0/command",
                            ),
                            payload: String::from_str("off"),
                        },
                    )
                } else {
                    None
                }
            },
            Action::PlugEnable { plug } => {
                if *plug < self.plugs.len() {
                    Some(
                        Publication {
                            topic: joined(
                                "shellies/",
                                self.plugs[*plug].id.as_str(),
                                "/relay/0/command",
                            ),
                            payload: String::from_str("on"),
                        },
                    )
                } else {
                    None
                }
            },
            _ => None,
        }
    }

    /// The topics on which the miner at position `m` is heard.
    pub fn topics_of_miner(&self, m: usize) -> (topics: MinerTopics)
        requires
            self.wf(),
            m < self@.miners.len(),
        ensures
            texts(topics.plug@) == plug_topics_of(self@.plugs[m as int].id@),
            texts(topics.guard@) == guard_topics_of(
                self@.guards[self@.miners[m as int].guard as int].id@,
                self@.miners[m as int].id@,
            ),
    {
        let id = self.plugs[m].id.as_str();
        let mut plug: Vec<String> = Vec::new();
        plug.push(joined("shellies/", id, "/relay/0/power"));
        plug.push(joined("shellies/", id, "/relay/0/energy"));
        assert(texts(plug@) =~= plug_topics_of(self@.plugs[m as int].id@));
        let base = self.miner_topic_of(m);
        let mut guard: Vec<String> = Vec::new();
        guard.push(with_ending(base.as_str(), "/alert"));
        guard.push(with_ending(base.as_str(), "/command"));
        guard.push(with_ending(base.as_str(), "/status"));
        assert(texts(guard@) =~= guard_topics_of(
            self@.guards[self@.miners[m as int].guard as int].id@,
            self@.miners[m as int].id@,
        ));
        MinerTopics { plug, guard }
    }

    /// The topics that `action` asks to listen to, or to listen to no
    /// longer, each list for its client.
    pub fn subscription(&self, action: &Action) -> (topics: MinerTopics)
        requires
            self.wf(),
        ensures
            texts(topics.plug@) == self@.plug_subscription(*action),
            texts(topics.guard@) == self@.guard_subscription(*action),
    {
        let miner = match action {
            Action::Subscribe { miner } | Action::Unsubscribe { miner } => if *miner
                < self.miners.len() {
                Some(*miner)
            } else {
                None
            },
            _ => None,
        };
        match miner {
            Some(m) => self.topics_of_miner(m),
            None => {
                let topics = MinerTopics { plug: Vec::new(), guard: Vec::new() };
                assert(texts(topics.plug@) =~= self@.plug_subscription(*action));
                assert(texts(topics.guard@) =~= self@.guard_subscription(*action));
                topics
            },
        }
    }
}

} // verus!
