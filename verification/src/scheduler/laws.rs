//! What holds of every decision of the scheduler.

use vstd::prelude::*;
use vstd::seq_lib::{lemma_multiset_commutative, to_multiset_build};
use crate::scheduler::knapsack::{
    fill,
    flat,
    fill_is_sound,
    highest_filled,
    limits,
    load,
    load_bounds,
    load_of_nothing,
    load_of_update,
    nothing,
    phase_load,
    phases_valid,
    picked,
    selection,
    selection_fits,
    table_capacity,
    Candidate,
};
use crate::scheduler::{
    draw,
    miners_of,
    on_phase,
    plan,
    plan_phase,
    plan_surplus,
    CandidateLists,
    Outlook,
};

verus! {

broadcast use {vstd::seq_lib::group_to_multiset_ensures, vstd::multiset::group_multiset_axioms};

/// The miners that a marking picks and those that it leaves are together
/// the miners of the candidates, each as often as it stands among them.
pub proof fn picked_and_left_are_all(c: Seq<Candidate>, s: Seq<bool>, k: int)
    requires
        0 <= k <= c.len(),
    ensures
        picked(c, s, true, k).to_multiset().add(picked(c, s, false, k).to_multiset()) == miners_of(
            c,
        ).take(k).to_multiset(),
    decreases k,
{
    if k == 0 {
        assert(miners_of(c).take(0) =~= Seq::<usize>::empty());
        assert(picked(c, s, true, 0).to_multiset().add(picked(c, s, false, 0).to_multiset())
            =~= miners_of(c).take(0).to_multiset());
    } else {
        picked_and_left_are_all(c, s, k - 1);
        let m = c[k - 1].miner;
        assert(miners_of(c).take(k) =~= miners_of(c).take(k - 1).push(m));
        to_multiset_build(miners_of(c).take(k - 1), m);
        to_multiset_build(picked(c, s, true, k - 1), m);
        to_multiset_build(picked(c, s, false, k - 1), m);
        assert(picked(c, s, true, k).to_multiset().add(picked(c, s, false, k).to_multiset())
            =~= miners_of(c).take(k).to_multiset());
    }
}

proof fn miners_of_concat(a: Seq<Candidate>, b: Seq<Candidate>)
    ensures
        miners_of(a + b) == miners_of(a) + miners_of(b),
        miners_of(a + b).to_multiset() == miners_of(a).to_multiset().add(miners_of(b).to_multiset()),
{
    assert(miners_of(a + b) =~= miners_of(a) + miners_of(b));
    lemma_multiset_commutative(miners_of(a), miners_of(b));
}

/// One phase that follows its production decides about each of its
/// candidates once.
pub proof fn phase_plan_covers_its_candidates(
    running: Seq<Candidate>,
    runnable: Seq<Candidate>,
    cap: u64,
)
    ensures
        plan_phase(running, runnable, cap).run.to_multiset().add(
            plan_phase(running, runnable, cap).stop.to_multiset(),
        ) == miners_of(running).to_multiset().add(miners_of(runnable).to_multiset()),
{
    let p = plan_phase(running, runnable, cap);
    if draw(running, running.len() as int) <= cap {
        let s = selection(runnable, flat(cap), table_capacity(cap));
        let more = picked(runnable, s, true, runnable.len() as int);
        let less = picked(runnable, s, false, runnable.len() as int);
        picked_and_left_are_all(runnable, s, runnable.len() as int);
        assert(miners_of(runnable).take(runnable.len() as int) =~= miners_of(runnable));
        lemma_multiset_commutative(more, miners_of(running));
        assert(p.run.to_multiset().add(p.stop.to_multiset()) =~= miners_of(
            running,
        ).to_multiset().add(miners_of(runnable).to_multiset()));
    } else {
        let s = selection(running, flat(cap), table_capacity(cap));
        let more = picked(running, s, true, running.len() as int);
        let less = picked(running, s, false, running.len() as int);
        picked_and_left_are_all(running, s, running.len() as int);
        assert(miners_of(running).take(running.len() as int) =~= miners_of(running));
        lemma_multiset_commutative(less, miners_of(runnable));
        assert(p.run.to_multiset().add(p.stop.to_multiset()) =~= miners_of(
            running,
        ).to_multiset().add(miners_of(runnable).to_multiset()));
    }
}

/// All candidates together are the candidates of the six lists, in
/// whatever order the lists are put.
pub proof fn all_as_multiset(c: CandidateLists)
    ensures
        miners_of(c.all()).to_multiset() == miners_of(c.running[0]).to_multiset().add(
            miners_of(c.runnable[0]).to_multiset(),
        ).add(miners_of(c.running[1]).to_multiset()).add(
            miners_of(c.runnable[1]).to_multiset(),
        ).add(miners_of(c.running[2]).to_multiset()).add(miners_of(c.runnable[2]).to_multiset()),
        miners_of(c.all_running_first()).to_multiset() == miners_of(c.all()).to_multiset(),
{
    let r0 = c.running[0];
    let r1 = c.running[1];
    let r2 = c.running[2];
    let u0 = c.runnable[0];
    let u1 = c.runnable[1];
    let u2 = c.runnable[2];
    miners_of_concat(r0, u0);
    miners_of_concat(r0 + u0, r1);
    miners_of_concat(r0 + u0 + r1, u1);
    miners_of_concat(r0 + u0 + r1 + u1, r2);
    miners_of_concat(r0 + u0 + r1 + u1 + r2, u2);
    miners_of_concat(r0, r1);
    miners_of_concat(r0 + r1, r2);
    miners_of_concat(r0 + r1 + r2, u0);
    miners_of_concat(r0 + r1 + r2 + u0, u1);
    miners_of_concat(r0 + r1 + r2 + u0 + u1, u2);
    assert(miners_of(c.all_running_first()).to_multiset() =~= miners_of(c.all()).to_multiset());
}

/// Every decision sorts the candidates into those to run and those to
/// stop: the two lists together hold the miner of each candidate as often
/// as the miner stands among the candidates, so a miner that stands there
/// once is in exactly one of the lists.
pub proof fn plan_decides_every_candidate_once(c: CandidateLists, o: Outlook)
    requires
        c.wf(),
    ensures
        plan(c, o).run.to_multiset().add(plan(c, o).stop.to_multiset()) == miners_of(
            c.all(),
        ).to_multiset(),
{
    all_as_multiset(c);
    if o.exhausted {
        assert(plan(c, o).run.to_multiset().add(plan(c, o).stop.to_multiset()) =~= miners_of(
            c.all(),
        ).to_multiset());
    } else if o.effective_power >= 1 {
        let s = selection(c.all(), limits(o.phase_caps), table_capacity(o.effective_power));
        picked_and_left_are_all(c.all(), s, c.all().len() as int);
        assert(miners_of(c.all()).take(c.all().len() as int) =~= miners_of(c.all()));
    } else {
        let a = plan_phase(c.running[0], c.runnable[0], o.production[0]);
        let b = plan_phase(c.running[1], c.runnable[1], o.production[1]);
        let d = plan_phase(c.running[2], c.runnable[2], o.production[2]);
        phase_plan_covers_its_candidates(c.running[0], c.runnable[0], o.production[0]);
        phase_plan_covers_its_candidates(c.running[1], c.runnable[1], o.production[1]);
        phase_plan_covers_its_candidates(c.running[2], c.runnable[2], o.production[2]);
        lemma_multiset_commutative(a.run, b.run);
        lemma_multiset_commutative(a.run + b.run, d.run);
        lemma_multiset_commutative(a.stop, b.stop);
        lemma_multiset_commutative(a.stop + b.stop, d.stop);
        let decided = plan(c, o).run.to_multiset().add(plan(c, o).stop.to_multiset());
        let given = miners_of(c.all()).to_multiset();
        assert forall|x: usize| decided.count(x) == given.count(x) by {
            assert(a.run.to_multiset().add(a.stop.to_multiset()).count(x) == miners_of(
                c.running[0],
            ).to_multiset().add(miners_of(c.runnable[0]).to_multiset()).count(x));
            assert(b.run.to_multiset().add(b.stop.to_multiset()).count(x) == miners_of(
                c.running[1],
            ).to_multiset().add(miners_of(c.runnable[1]).to_multiset()).count(x));
            assert(d.run.to_multiset().add(d.stop.to_multiset()).count(x) == miners_of(
                c.running[2],
            ).to_multiset().add(miners_of(c.runnable[2]).to_multiset()).count(x));
        }
        assert(decided =~= given);
    }
}

/// With the budget exhausted nothing runs, and every candidate is among
/// the miners to stop.
pub proof fn exhausted_budget_stops_every_candidate(c: CandidateLists, o: Outlook, i: int)
    requires
        c.wf(),
        o.exhausted,
        0 <= i < c.all().len(),
    ensures
        plan(c, o).run.len() == 0,
        plan(c, o).stop.contains(c.all()[i].miner),
{
    all_as_multiset(c);
    let x = c.all()[i].miner;
    assert(miners_of(c.all())[i] == x);
    assert(miners_of(c.all()).contains(x));
    assert(miners_of(c.all()).to_multiset().count(x) > 0);
    assert(plan(c, o).stop.to_multiset().count(x) > 0);
}

/// While a surplus is shared out, what runs draws no more than the
/// effective power in all, and on no phase more than the phase's limit.
pub proof fn surplus_plan_fits(c: CandidateLists, o: Outlook)
    requires
        c.wf(),
    ensures
        ({
            let s = selection(c.all(), limits(o.phase_caps), table_capacity(o.effective_power));
            &&& plan_surplus(c, o.phase_caps, o.effective_power).run == picked(
                c.all(),
                s,
                true,
                c.all().len() as int,
            )
            &&& load(c.all(), s) <= o.effective_power
            &&& phase_load(c.all(), s, 0) <= o.phase_caps[0]
            &&& phase_load(c.all(), s, 1) <= o.phase_caps[1]
            &&& phase_load(c.all(), s, 2) <= o.phase_caps[2]
        }),
{
    assert(phases_valid(c.all())) by {
        assert(on_phase(c.running[0], 0) && on_phase(c.runnable[0], 0));
        assert(on_phase(c.running[1], 1) && on_phase(c.runnable[1], 1));
        assert(on_phase(c.running[2], 2) && on_phase(c.runnable[2], 2));
    }
    selection_fits(c.all(), limits(o.phase_caps), table_capacity(o.effective_power));
}

/// While a phase follows its production, what is chosen by the table draws
/// no more than the production allows.
pub proof fn phase_choice_fits(list: Seq<Candidate>, cap: u64)
    requires
        phases_valid(list),
    ensures
        load(list, selection(list, flat(cap), table_capacity(cap))) <= cap,
{
    selection_fits(list, flat(cap), table_capacity(cap));
}

/// Under limits that no phase can reach, a set is recorded for every
/// total that some of the candidates considered draw together.
pub proof fn every_reachable_total_is_filled(
    c: Seq<Candidate>,
    caps: Seq<int>,
    top: int,
    k: int,
    w: int,
    s: Seq<bool>,
)
    requires
        phases_valid(c),
        caps.len() == 3,
        caps[0] >= top && caps[1] >= top && caps[2] >= top,
        0 <= k <= c.len(),
        s.len() == c.len(),
        forall|i: int| k <= i < c.len() ==> !s[i],
        load(c, s) == w,
        1 <= w <= top,
    ensures
        fill(c, caps, k, w) is Some,
    decreases k,
{
    let n = c.len() as int;
    if k == 0 {
        assert(s =~= nothing(c.len()));
        load_of_nothing(c, 0, n);
    } else {
        let j = k - 1;
        let p = c[j].power as int;
        let q = c[j].phase as int;
        if !s[j] {
            every_reachable_total_is_filled(c, caps, top, j, w, s);
        } else {
            let rest = s.update(j, false);
            assert(rest.update(j, true) =~= s);
            load_of_update(c, rest, j, q, n);
            if p == 0 {
                every_reachable_total_is_filled(c, caps, top, j, w, rest);
            } else if fill(c, caps, j, w) is None {
                load_bounds(c, rest, q, n);
                if w == p {
                    load_of_nothing(c, q, n);
                } else {
                    every_reachable_total_is_filled(c, caps, top, j, w - p, rest);
                    let below = fill(c, caps, j, w - p)->0;
                    fill_is_sound(c, caps, j, w - p);
                    load_bounds(c, below, q, n);
                }
            }
        }
    }
}

/// The highest recorded total is no lower than any recorded total within
/// the bound.
pub proof fn highest_filled_is_highest(c: Seq<Candidate>, caps: Seq<int>, top: int, w: int)
    requires
        1 <= w <= top,
        fill(c, caps, c.len() as int, w) is Some,
    ensures
        highest_filled(c, caps, top) >= w,
    decreases top,
{
    if top > w && fill(c, caps, c.len() as int, top) is None {
        highest_filled_is_highest(c, caps, top - 1, w);
    }
}

/// Under one capacity the choice is the best there is: no candidates
/// that draw no more than the capacity together draw more than the chosen
/// ones do.
pub proof fn one_capacity_choice_is_the_best(c: Seq<Candidate>, cap: u64, s: Seq<bool>)
    requires
        phases_valid(c),
        s.len() == c.len(),
        load(c, s) <= table_capacity(cap),
    ensures
        load(c, s) <= load(c, selection(c, flat(cap), table_capacity(cap))),
{
    let top = table_capacity(cap);
    let w = load(c, s);
    selection_fits(c, flat(cap), top);
    load_bounds(c, s, 0, c.len() as int);
    if w >= 1 {
        every_reachable_total_is_filled(c, flat(cap), top, c.len() as int, w, s);
        highest_filled_is_highest(c, flat(cap), top, w);
    }
}

} // verus!
