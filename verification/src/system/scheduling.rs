//! Where the system meets the scheduler: which miners the scheduler may
//! decide about, and how its decision becomes the miners' targets.

use vstd::prelude::*;
use crate::scheduler::knapsack::Candidate;
use crate::scheduler::{on_phase, CandidateLists, Candidates};
use crate::structs::{DeviceState, MinerState};
use crate::system::{Devices, System};

verus! {

/// How a miner stands with the scheduler.
#[derive(Clone, Copy, Debug, PartialEq, Eq, Structural)]
pub enum Standing {
    /// It runs, or is meant to.
    Running,
    /// It is off, or is meant to be, and could be started.
    Runnable,
}

impl Devices {
    /// How the miner at position `i` stands with the scheduler, if it can
    /// be decided about at all: its guard and its plug are available, the
    /// plug's relay is on, the miner is in service and not in a terminal
    /// state. Its target tells how it stands; without a target, its state.
    pub open spec fn standing(self, i: int) -> Option<Standing> {
        let m = self.miners[i];
        let plug = self.plugs[i];
        if self.guards[m.guard as int].state != DeviceState::Available || !m.included || plug.state
            != DeviceState::Available || !plug.is_enabled || m.state.is_terminal() {
            None
        } else {
            match m.target_state {
                Some(MinerState::Running) => Some(Standing::Running),
                Some(MinerState::PoweredOff) => Some(Standing::Runnable),
                Some(_) => None,
                None => match m.state {
                    MinerState::Running
                    | MinerState::Starting
                    | MinerState::Restarting
                    | MinerState::HardRestarting => Some(Standing::Running),
                    MinerState::PoweredOff
                    | MinerState::Stopping
                    | MinerState::HardStopping => Some(Standing::Runnable),
                    _ => None,
                },
            }
        }
    }

    /// The candidate that stands for the miner at position `i`.
    pub open spec fn candidate(self, i: int) -> Candidate {
        Candidate {
            miner: i as usize,
            phase: self.miners[i].phase,
            power: self.miners[i].planning_power(),
        }
    }

    /// Those of the first `k` miners that sit on phase `p` and stand as
    /// `standing` says, in the order of their positions.
    pub open spec fn collected(self, p: int, standing: Standing, k: int) -> Seq<Candidate>
        decreases k,
    {
        if k <= 0 {
            Seq::empty()
        } else if self.miners[k - 1].phase == p && self.standing(k - 1) == Some(standing) {
            self.collected(p, standing, k - 1).push(self.candidate(k - 1))
        } else {
            self.collected(p, standing, k - 1)
        }
    }

    /// The miners that the scheduler may decide about.
    pub open spec fn candidates(self) -> CandidateLists {
        let n = self.miners.len() as int;
        CandidateLists {
            running: seq![
                self.collected(0, Standing::Running, n),
                self.collected(1, Standing::Running, n),
                self.collected(2, Standing::Running, n),
            ],
            runnable: seq![
                self.collected(0, Standing::Runnable, n),
                self.collected(1, Standing::Runnable, n),
                self.collected(2, Standing::Runnable, n),
            ],
        }
    }

    /// The devices once the first `k` miners of `list` have the target
    /// that `run` tells. A position outside the system is passed over.
    pub open spec fn with_targets(self, list: Seq<usize>, run: bool, k: int) -> Devices
        decreases k,
    {
        if k <= 0 {
            self
        } else {
            let before = self.with_targets(list, run, k - 1);
            let m = list[k - 1] as int;
            if m < before.miners.len() {
                before.with_miner(m, before.miners[m].with_target(run))
            } else {
                before
            }
        }
    }

    /// The devices once the scheduler's decision has been taken over: the
    /// miners to run have the target `Running`, the miners to stop the
    /// target `PoweredOff`.
    pub open spec fn after_schedule(self, run: Seq<usize>, stop: Seq<usize>) -> Devices {
        self.with_targets(run, true, run.len() as int).with_targets(stop, false, stop.len() as int)
    }
}

/// Every collected candidate sits on the phase it was collected for.
pub proof fn collected_is_on_phase(d: Devices, p: int, standing: Standing, k: int)
    requires
        0 <= p < 3,
    ensures
        on_phase(d.collected(p, standing, k), p),
    decreases k,
{
    if k > 0 {
        collected_is_on_phase(d, p, standing, k - 1);
    }
}

impl System {
    fn standing_of(&self, i: usize) -> (s: Option<Standing>)
        requires
            self.wf(),
            i < self.miners.len(),
        ensures
            s == self@.standing(i as int),
    {
        let m = &self.miners[i];
        let plug = &self.plugs[i];
        if self.guards[m.guard].state != DeviceState::Available || !m.included || plug.state
            != DeviceState::Available || !plug.is_enabled || m.state.terminal() {
            return None;
        }
        match m.target_state {
            Some(MinerState::Running) => Some(Standing::Running),
            Some(MinerState::PoweredOff) => Some(Standing::Runnable),
            Some(_) => None,
            None => match m.state {
                MinerState::Running
                | MinerState::Starting
                | MinerState::Restarting
                | MinerState::HardRestarting => Some(Standing::Running),
                MinerState::PoweredOff | MinerState::Stopping | MinerState::HardStopping => Some(
                    Standing::Runnable,
                ),
                _ => None,
            },
        }
    }

    /// Gathers the miners that the scheduler may decide about.
    pub fn collect_miners(&self) -> (c: Candidates)
        requires
            self.wf(),
        ensures
            c.wf(),
            c@ == self@.candidates(),
    {
        let mut running: [Vec<Candidate>; 3] = [Vec::new(), Vec::new(), Vec::new()];
        let mut runnable: [Vec<Candidate>; 3] = [Vec::new(), Vec::new(), Vec::new()];
        let mut i: usize = 0;
        while i < self.miners.len()
            invariant
                i <= self.miners.len(),
                self.wf(),
                forall|p: int|
                    0 <= p < 3 ==> (#[trigger] running[p])@ == self@.collected(
                        p,
                        Standing::Running,
                        i as int,
                    ),
                forall|p: int|
                    0 <= p < 3 ==> (#[trigger] runnable[p])@ == self@.collected(
                        p,
                        Standing::Runnable,
                        i as int,
                    ),
            decreases self.miners.len() - i,
        {
            let m = &self.miners[i];
            let phase: usize = m.phase as usize;
            let power: u32 = match m.power_consumption {
                Some(p) => p,
                None => m.estimated_consumption,
            };
            let cand = Candidate { miner: i, phase: m.phase, power };
            match self.standing_of(i) {
                Some(Standing::Running) => {
                    running[phase].push(cand);
                },
                Some(Standing::Runnable) => {
                    runnable[phase].push(cand);
                },
                None => {},
            }
            i = i + 1;
        }
        proof {
            collected_is_on_phase(self@, 0, Standing::Running, i as int);
            collected_is_on_phase(self@, 1, Standing::Running, i as int);
            collected_is_on_phase(self@, 2, Standing::Running, i as int);
            collected_is_on_phase(self@, 0, Standing::Runnable, i as int);
            collected_is_on_phase(self@, 1, Standing::Runnable, i as int);
            collected_is_on_phase(self@, 2, Standing::Runnable, i as int);
        }
        let c = Candidates { running, runnable };
        assert(c@.running =~= self@.candidates().running);
        assert(c@.runnable =~= self@.candidates().runnable);
        c
    }

    fn set_targets(&mut self, list: &Vec<usize>, run: bool)
        requires
            old(self).wf(),
        ensures
            final(self).wf(),
            final(self)@ == old(self)@.with_targets(list@, run, list@.len() as int),
            final(self)@.same_topology(old(self)@),
    {
        let mut k: usize = 0;
        while k < list.len()
            invariant
                k <= list.len(),
                self.wf(),
                self@ == old(self)@.with_targets(list@, run, k as int),
                self@.same_topology(old(self)@),
            decreases list.len() - k,
        {
            let m = list[k];
            let ghost before = self@;
            if m < self.miners.len() {
                self.miners[m].set_target(run);
                assert(self@.miners =~= before.miners.update(
                    m as int,
                    before.miners[m as int].with_target(run),
                ));
            }
            k = k + 1;
        }
    }

    /// Takes the scheduler's decision over into the miners' targets.
    pub fn apply_schedule(&mut self, run: &Vec<usize>, stop: &Vec<usize>)
        requires
            old(self).wf(),
        ensures
            final(self).wf(),
            final(self)@ == old(self)@.after_schedule(run@, stop@),
            final(self)@.same_topology(old(self)@),
    {
        self.set_targets(run, true);
        self.set_targets(stop, false);
    }
}

} // verus!
