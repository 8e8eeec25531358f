//! The energy-aware scheduler: given the miners that can be run and what
//! the energy accounts allow, which of them are to run.

use vstd::prelude::*;
use crate::scheduler::knapsack::{dp_knapsack1, dp_knapsack2, Candidate};
use crate::scheduler::knapsack::{flat, limits, phases_valid, picked, selection, table_capacity};

pub mod knapsack;
pub mod laws;
pub mod outlook;

verus! {

/// The miners that the scheduler decides about, phase by phase: those that
/// run or are on their way to it, and those that could be started.
#[derive(Debug)]
pub struct Candidates {
    pub running: [Vec<Candidate>; 3],
    pub runnable: [Vec<Candidate>; 3],
}

/// What the energy accounts allow at the time of a decision.
#[derive(Clone, Copy, Debug)]
pub struct Outlook {
    /// More has been drawn from the grid in this billing period than may
    /// be drawn back.
    pub exhausted: bool,
    /// The power in watts that may be spent on miners until the period
    /// ends; 0 where it is less than one watt.
    pub effective_power: u64,
    /// The limit of each phase while the effective power is spent.
    pub phase_caps: [u64; 3],
    /// The share of each phase's latest production that miners may use.
    pub production: [u64; 3],
}

/// The miners of the candidates, in the order given.
pub open spec fn miners_of(c: Seq<Candidate>) -> Seq<usize> {
    Seq::new(c.len(), |i: int| c[i].miner)
}

/// What the candidates draw together.
pub open spec fn draw(c: Seq<Candidate>, k: int) -> int
    decreases k,
{
    if k <= 0 {
        0
    } else {
        draw(c, k - 1) + c[k - 1].power
    }
}

/// The lists of phase `p` hold candidates of phase `p`.
pub open spec fn on_phase(c: Seq<Candidate>, p: int) -> bool {
    forall|i: int| 0 <= i < c.len() ==> (#[trigger] c[i]).phase == p
}

/// The candidates as mathematical values: for each of the three
/// phases the running ones and the runnable ones.
pub struct CandidateLists {
    pub running: Seq<Seq<Candidate>>,
    pub runnable: Seq<Seq<Candidate>>,
}

impl View for Candidates {
    type V = CandidateLists;

    open spec fn view(&self) -> CandidateLists {
        CandidateLists {
            running: seq![self.running[0]@, self.running[1]@, self.running[2]@],
            runnable: seq![self.runnable[0]@, self.runnable[1]@, self.runnable[2]@],
        }
    }
}

impl CandidateLists {
    pub open spec fn wf(self) -> bool {
        &&& self.running.len() == 3
        &&& self.runnable.len() == 3
        &&& forall|p: int|
            0 <= p < 3 ==> on_phase(#[trigger] self.running[p], p) && on_phase(self.runnable[p], p)
    }

    /// All candidates, phase by phase, the running ones of a phase first.
    pub open spec fn all(self) -> Seq<Candidate> {
        self.running[0] + self.runnable[0] + self.running[1] + self.runnable[1] + self.running[2]
            + self.runnable[2]
    }

    /// All candidates, the running ones of every phase first.
    pub open spec fn all_running_first(self) -> Seq<Candidate> {
        self.running[0] + self.running[1] + self.running[2] + self.runnable[0] + self.runnable[1]
            + self.runnable[2]
    }
}

impl Candidates {
    pub open spec fn wf(&self) -> bool {
        self@.wf()
    }
}

/// The miners to run and the miners to stop.
pub struct Plan {
    pub run: Seq<usize>,
    pub stop: Seq<usize>,
}

/// The budget is exhausted: every candidate stops.
pub open spec fn plan_exhausted(c: CandidateLists) -> Plan {
    Plan { run: Seq::empty(), stop: miners_of(c.all_running_first()) }
}

/// A surplus lasts to the end of the period: the effective power is
/// shared out among all candidates, no phase above its limit.
pub open spec fn plan_surplus(c: CandidateLists, caps: [u64; 3], power: u64) -> Plan {
    let s = selection(c.all(), limits(caps), table_capacity(power));
    Plan {
        run: picked(c.all(), s, true, c.all().len() as int),
        stop: picked(c.all(), s, false, c.all().len() as int),
    }
}

/// One phase follows its production. While the running miners draw no more
/// than the production allows, they go on and runnable ones are added
/// under the same capacity; else some of the running ones are kept and
/// every runnable one stops.
pub open spec fn plan_phase(running: Seq<Candidate>, runnable: Seq<Candidate>, cap: u64) -> Plan {
    if draw(running, running.len() as int) <= cap {
        let s = selection(runnable, flat(cap), table_capacity(cap));
        Plan {
            run: picked(runnable, s, true, runnable.len() as int) + miners_of(running),
            stop: picked(runnable, s, false, runnable.len() as int),
        }
    } else {
        let s = selection(running, flat(cap), table_capacity(cap));
        Plan {
            run: picked(running, s, true, running.len() as int),
            stop: picked(running, s, false, running.len() as int) + miners_of(runnable),
        }
    }
}

/// Every phase follows its own production.
pub open spec fn plan_production(c: CandidateLists, production: [u64; 3]) -> Plan {
    let a = plan_phase(c.running[0], c.runnable[0], production[0]);
    let b = plan_phase(c.running[1], c.runnable[1], production[1]);
    let d = plan_phase(c.running[2], c.runnable[2], production[2]);
    Plan { run: a.run + b.run + d.run, stop: a.stop + b.stop + d.stop }
}

/// The scheduler's decision.
pub open spec fn plan(c: CandidateLists, outlook: Outlook) -> Plan {
    if outlook.exhausted {
        plan_exhausted(c)
    } else if outlook.effective_power >= 1 {
        plan_surplus(c, outlook.phase_caps, outlook.effective_power)
    } else {
        plan_production(c, outlook.production)
    }
}

fn push_miners(out: &mut Vec<usize>, c: &Vec<Candidate>)
    ensures
        final(out)@ == old(out)@ + miners_of(c@),
{
    let mut i: usize = 0;
    while i < c.len()
        invariant
            i <= c.len(),
            out@ == old(out)@ + miners_of(c@).take(i as int),
        decreases c.len() - i,
    {
        out.push(c[i].miner);
        assert(out@ =~= old(out)@ + miners_of(c@).take(i + 1));
        i = i + 1;
    }
    assert(miners_of(c@).take(c@.len() as int) =~= miners_of(c@));
}

fn push_all(out: &mut Vec<usize>, more: &Vec<usize>)
    ensures
        final(out)@ == old(out)@ + more@,
{
    let mut i: usize = 0;
    while i < more.len()
        invariant
            i <= more.len(),
            out@ == old(out)@ + more@.take(i as int),
        decreases more.len() - i,
    {
        out.push(more[i]);
        assert(out@ =~= old(out)@ + more@.take(i + 1));
        i = i + 1;
    }
    assert(more@.take(more@.len() as int) =~= more@);
}

fn push_candidates(out: &mut Vec<Candidate>, more: &Vec<Candidate>)
    ensures
        final(out)@ == old(out)@ + more@,
{
    let mut i: usize = 0;
    while i < more.len()
        invariant
            i <= more.len(),
            out@ == old(out)@ + more@.take(i as int),
        decreases more.len() - i,
    {
        out.push(more[i]);
        assert(out@ =~= old(out)@ + more@.take(i + 1));
        i = i + 1;
    }
    assert(more@.take(more@.len() as int) =~= more@);
}

/// Whether the candidates draw no more than `cap` together.
fn draws_at_most(c: &Vec<Candidate>, cap: u64) -> (r: bool)
    ensures
        r == (draw(c@, c@.len() as int) <= cap),
{
    let mut acc: u64 = 0;
    let mut i: usize = 0;
    while i < c.len()
        invariant
            i <= c.len(),
            acc == draw(c@, i as int),
            acc <= cap,
        decreases c.len() - i,
    {
        let p: u64 = c[i].power as u64;
        if p > cap - acc {
            proof {
                draw_grows(c@, i + 1, c@.len() as int);
            }
            return false;
        }
        acc = acc + p;
        i = i + 1;
    }
    true
}

/// More candidates draw no less.
pub proof fn draw_grows(c: Seq<Candidate>, k: int, n: int)
    requires
        0 <= k <= n,
    ensures
        draw(c, k) <= draw(c, n),
    decreases n - k,
{
    if k < n {
        draw_grows(c, k, n - 1);
    }
}

fn schedule_phase(
    running: &Vec<Candidate>,
    runnable: &Vec<Candidate>,
    cap: u64,
    run: &mut Vec<usize>,
    stop: &mut Vec<usize>,
)
    requires
        phases_valid(running@),
        phases_valid(runnable@),
    ensures
        final(run)@ == old(run)@ + plan_phase(running@, runnable@, cap).run,
        final(stop)@ == old(stop)@ + plan_phase(running@, runnable@, cap).stop,
{
    if draws_at_most(running, cap) {
        let (more, less) = dp_knapsack1(runnable, cap);
        push_all(run, &more);
        push_miners(run, running);
        push_all(stop, &less);
        assert(run@ =~= old(run)@ + plan_phase(running@, runnable@, cap).run);
    } else {
        let (more, less) = dp_knapsack1(running, cap);
        push_all(run, &more);
        push_all(stop, &less);
        push_miners(stop, runnable);
        assert(stop@ =~= old(stop)@ + plan_phase(running@, runnable@, cap).stop);
    }
}

/// Decides which of the candidates run and which stop. With the budget
/// exhausted, all stop. With power to spare until the period ends, that
/// power is shared out among all of them. Otherwise every phase follows
/// its own latest production.
pub fn schedule(c: &Candidates, outlook: &Outlook) -> (out: (Vec<usize>, Vec<usize>))
    requires
        c.wf(),
    ensures
        out.0@ == plan(c@, *outlook).run,
        out.1@ == plan(c@, *outlook).stop,
{
    let mut run: Vec<usize> = Vec::new();
    let mut stop: Vec<usize> = Vec::new();
    assert(on_phase(c@.running[0], 0) && on_phase(c@.runnable[0], 0));
    assert(on_phase(c@.running[1], 1) && on_phase(c@.runnable[1], 1));
    assert(on_phase(c@.running[2], 2) && on_phase(c@.runnable[2], 2));
    if outlook.exhausted {
        let mut all: Vec<Candidate> = Vec::new();
        push_candidates(&mut all, &c.running[0]);
        push_candidates(&mut all, &c.running[1]);
        push_candidates(&mut all, &c.running[2]);
        push_candidates(&mut all, &c.runnable[0]);
        push_candidates(&mut all, &c.runnable[1]);
        push_candidates(&mut all, &c.runnable[2]);
        assert(all@ =~= c@.all_running_first());
        push_miners(&mut stop, &all);
        assert(stop@ =~= plan_exhausted(c@).stop);
        assert(run@ =~= plan_exhausted(c@).run);
        (run, stop)
    } else if outlook.effective_power >= 1 {
        let mut all: Vec<Candidate> = Vec::new();
        push_candidates(&mut all, &c.running[0]);
        push_candidates(&mut all, &c.runnable[0]);
        push_candidates(&mut all, &c.running[1]);
        push_candidates(&mut all, &c.runnable[1]);
        push_candidates(&mut all, &c.running[2]);
        push_candidates(&mut all, &c.runnable[2]);
        assert(all@ =~= c@.all());
        dp_knapsack2(&all, &outlook.phase_caps, outlook.effective_power)
    } else {
        schedule_phase(&c.running[0], &c.runnable[0], outlook.production[0], &mut run, &mut stop);
        schedule_phase(&c.running[1], &c.runnable[1], outlook.production[1], &mut run, &mut stop);
        schedule_phase(&c.running[2], &c.runnable[2], outlook.production[2], &mut run, &mut stop);
        assert(run@ =~= plan_production(c@, outlook.production).run);
        assert(stop@ =~= plan_production(c@, outlook.production).stop);
        (run, stop)
    }
}

} // verus!
