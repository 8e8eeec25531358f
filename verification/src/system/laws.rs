//! What holds of the devices in every state that the reconciler can reach.

use vstd::prelude::*;
use vstd::seq_lib::to_multiset_build;
use crate::billing::YearMonth;
use crate::reconciler::{outlook_of, State, MIN_READINGS};
use crate::scheduler::laws::{all_as_multiset, plan_decides_every_candidate_once};
use crate::scheduler::{miners_of, plan, Outlook};
use crate::structs::{
    CommandStatus,
    DeviceState,
    EnergyData,
    GuardData,
    Message,
    Miner,
    MinerAlert,
    MinerCommand,
    MinerState,
    UserCommands,
};
use crate::system::guards::effect_actions;
use crate::system::scheduling::{collected_is_on_phase, Standing};
use crate::system::watchdog::GuardWatch;
use crate::system::{guard_ids, miner_ids, plug_ids, position_is_first, Action, Devices};

verus! {

broadcast use {vstd::seq_lib::group_to_multiset_ensures, vstd::multiset::group_multiset_axioms};

/// A consistent miner has a target that is absent, `Running` or
/// `PoweredOff`; it keeps the time of its last command exactly while it is
/// not in one of the steady states; and in a terminal state its target is
/// `PoweredOff`.
pub proof fn consistent_miner_meets_the_invariants(m: Miner)
    requires
        m.consistent(),
    ensures
        m.target_state is None || m.target_state == Some(MinerState::Running) || m.target_state
            == Some(MinerState::PoweredOff),
        (m.state == MinerState::Running || m.state == MinerState::PoweredOff || m.state
            == MinerState::Aborted || m.state == MinerState::Unreachable) <==> m.command_ts is None,
        (m.state == MinerState::Aborted || m.state == MinerState::Unreachable) ==> m.target_state
            == Some(MinerState::PoweredOff),
{
}

/// Every step in a miner's life leaves a consistent miner consistent, and
/// leaves it the miner it was.
pub proof fn miner_steps_keep_consistency(
    m: Miner,
    alert: MinerAlert,
    status: CommandStatus,
    reported: MinerState,
    run: bool,
    watts: u32,
    now: i64,
)
    requires
        m.consistent(),
    ensures
        m.asked(now).consistent() && m.asked(now).same_identity(&m),
        m.after_alert(alert).consistent() && m.after_alert(alert).same_identity(&m),
        m.after_command(status, reported, now).consistent() && m.after_command(
            status,
            reported,
            now,
        ).same_identity(&m),
        m.after_state_report(reported, now).consistent() && m.after_state_report(
            reported,
            now,
        ).same_identity(&m),
        m.after_exclude(now).consistent() && m.after_exclude(now).same_identity(&m),
        m.after_include(now).consistent() && m.after_include(now).same_identity(&m),
        m.with_target(run).consistent() && m.with_target(run).same_identity(&m),
        m.with_power(watts).consistent() && m.with_power(watts).same_identity(&m),
        m.after_watchdog(now).consistent() && m.after_watchdog(now).same_identity(&m),
{
}

/// A message of a guard leaves well-formed devices well formed.
pub proof fn guard_message_keeps_devices_well_formed(
    d: Devices,
    guard_id: Seq<char>,
    ts: i64,
    data: GuardData,
    now: i64,
)
    requires
        d.wf(),
    ensures
        d.after_guard_msg(guard_id, ts, data, now).wf(),
        d.after_guard_msg(guard_id, ts, data, now).same_topology(d),
{
    let after = d.after_guard_msg(guard_id, ts, data, now);
    position_is_first(guard_ids(d.guards), guard_id);
    match data {
        GuardData::Alert { miner_id, .. } => {
            position_is_first(miner_ids(d.miners), miner_id@);
        },
        GuardData::Command { miner_id, .. } => {
            position_is_first(miner_ids(d.miners), miner_id@);
        },
        GuardData::State { miner_id, .. } => {
            position_is_first(miner_ids(d.miners), miner_id@);
        },
        _ => {},
    }
    assert forall|i: int| 0 <= i < after.miners.len() implies (#[trigger] after.miners[i]).guard
        < after.guards.len() && after.miners[i].phase < 3 && after.miners[i].consistent()
        && after.miners[i].same_identity(&d.miners[i]) by {
        assert(d.miners[i].consistent());
    }
}

/// A user's command leaves well-formed devices well formed.
pub proof fn user_command_keeps_devices_well_formed(
    d: Devices,
    miner_id: Seq<char>,
    command: UserCommands,
    now: i64,
)
    requires
        d.wf(),
    ensures
        d.after_user_command(miner_id, command, now).wf(),
        d.after_user_command(miner_id, command, now).same_topology(d),
{
    let after = d.after_user_command(miner_id, command, now);
    position_is_first(miner_ids(d.miners), miner_id);
    assert forall|i: int| 0 <= i < after.miners.len() implies (#[trigger] after.miners[i]).guard
        < after.guards.len() && after.miners[i].phase < 3 && after.miners[i].consistent()
        && after.miners[i].same_identity(&d.miners[i]) by {
        assert(d.miners[i].consistent());
    }
}

/// The watchdog pass leaves well-formed devices well formed.
pub proof fn watchdog_keeps_devices_well_formed(d: Devices, now: i64)
    requires
        d.wf(),
    ensures
        d.after_watchdog(now).wf(),
        d.after_watchdog(now).same_topology(d),
{
    let after = d.after_watchdog(now);
    assert forall|i: int| 0 <= i < after.miners.len() implies (#[trigger] after.miners[i]).guard
        < after.guards.len() && after.miners[i].phase < 3 && after.miners[i].consistent()
        && after.miners[i].same_identity(&d.miners[i]) by {
        assert(d.miners[i].consistent());
    }
}

/// Taking a decision of the scheduler over leaves well-formed devices well
/// formed, whatever the decision names.
pub proof fn targets_keep_devices_well_formed(d: Devices, list: Seq<usize>, run: bool, k: int)
    requires
        d.wf(),
        0 <= k <= list.len(),
    ensures
        d.with_targets(list, run, k).wf(),
        d.with_targets(list, run, k).same_topology(d),
    decreases k,
{
    if k > 0 {
        targets_keep_devices_well_formed(d, list, run, k - 1);
        let before = d.with_targets(list, run, k - 1);
        let after = d.with_targets(list, run, k);
        assert forall|i: int| 0 <= i < after.miners.len() implies (#[trigger] after.miners[i]).guard
            < after.guards.len() && after.miners[i].phase < 3 && after.miners[i].consistent()
            && after.miners[i].same_identity(&d.miners[i]) by {
            assert(before.miners[i].consistent());
            assert(before.miners[i].same_identity(&d.miners[i]));
        }
    }
}

/// Whatever message arrives, whenever: the reconciler's devices stay well
/// formed, so every miner stays consistent.
pub proof fn message_keeps_state_well_formed(s: State, msg: Message, now: i64)
    requires
        s.devices.wf(),
    ensures
        s.after_message(msg, now).devices.wf(),
        s.after_message(msg, now).devices.same_topology(s.devices),
{
    let d = s.devices;
    let after = s.after_message(msg, now).devices;
    match msg {
        Message::Guard { guard_id, ts, data } => {
            guard_message_keeps_devices_well_formed(d, guard_id@, ts, data, now);
        },
        Message::User { miner_id, command } => {
            user_command_keeps_devices_well_formed(d, miner_id@, command, now);
        },
        Message::Plug { plug_id, .. } => {
            position_is_first(plug_ids(d.plugs), plug_id@);
            assert forall|i: int| 0 <= i < after.miners.len() implies (
            #[trigger] after.miners[i]).same_identity(&d.miners[i]) by {}
        },
        Message::Energy(EnergyData::Miner { name, .. }) => {
            position_is_first(miner_ids(d.miners), name@);
            assert forall|i: int| 0 <= i < after.miners.len() implies (
            #[trigger] after.miners[i]).guard < after.guards.len() && after.miners[i].phase < 3
                && after.miners[i].consistent() && after.miners[i].same_identity(&d.miners[i]) by {
                assert(d.miners[i].consistent());
            }
        },
        _ => {
            assert forall|i: int| 0 <= i < after.miners.len() implies (
            #[trigger] after.miners[i]).same_identity(&d.miners[i]) by {}
        },
    }
}

/// Whenever the timeout strikes: the reconciler's devices stay well formed,
/// so every miner stays consistent.
pub proof fn timeout_keeps_state_well_formed(
    s: State,
    now: i64,
    monotonic: u64,
    workers_running: bool,
    month: Option<YearMonth>,
)
    requires
        s.devices.wf(),
    ensures
        s.after_timeout(now, monotonic, workers_running, month).state.devices.wf(),
        s.after_timeout(now, monotonic, workers_running, month).state.devices.same_topology(
            s.devices,
        ),
{
    let d = s.devices;
    let out = s.after_timeout(now, monotonic, workers_running, month);
    let after = out.state.devices;
    if workers_running {
        let watched = d.after_watchdog(now);
        watchdog_keeps_devices_well_formed(d, now);
        if watched.switchboard.state != DeviceState::Available {
            assert forall|i: int| 0 <= i < after.miners.len() implies (
            #[trigger] after.miners[i]).guard < after.guards.len() && after.miners[i].phase < 3
                && after.miners[i].consistent() && after.miners[i].same_identity(&d.miners[i]) by {
                assert(watched.miners[i].consistent());
                assert(watched.miners[i].same_identity(&d.miners[i]));
            }
        } else if s.counters.switchboard_received_msgs >= MIN_READINGS {
            let booked = s.counters.with_grid_share();
            let accounts = booked.accounts(
                s.period_start,
                s.period_end,
                now,
                monotonic,
                d.contract.recovery_ratio,
                month,
            );
            let decision = plan(watched.candidates(), outlook_of(accounts));
            let first = watched.with_targets(decision.run, true, decision.run.len() as int);
            targets_keep_devices_well_formed(watched, decision.run, true, decision.run.len() as int);
            targets_keep_devices_well_formed(first, decision.stop, false, decision.stop.len() as int);
            let decided = watched.after_schedule(decision.run, decision.stop);
            watchdog_keeps_devices_well_formed(decided, now);
            assert forall|i: int| 0 <= i < after.miners.len() implies (
            #[trigger] after.miners[i]).same_identity(&d.miners[i]) by {
                assert(after.miners[i].same_identity(&decided.miners[i]));
                assert(decided.miners[i].same_identity(&first.miners[i]));
                assert(first.miners[i].same_identity(&watched.miners[i]));
                assert(watched.miners[i].same_identity(&d.miners[i]));
            }
            assert forall|i: int| 0 <= i < after.guards.len() implies (#[trigger] after.guards[i]).id
                == d.guards[i].id && after.guards[i].board_type == d.guards[i].board_type by {
                assert(after.guards[i].id == decided.guards[i].id);
                assert(decided.guards[i].id == first.guards[i].id);
                assert(first.guards[i].id == watched.guards[i].id);
                assert(watched.guards[i].id == d.guards[i].id);
            }
            assert forall|i: int| 0 <= i < after.plugs.len() implies (#[trigger] after.plugs[i]).id
                == d.plugs[i].id by {
                assert(after.plugs[i].id == decided.plugs[i].id);
                assert(decided.plugs[i].id == first.plugs[i].id);
                assert(first.plugs[i].id == watched.plugs[i].id);
                assert(watched.plugs[i].id == d.plugs[i].id);
            }
        }
    } else {
        assert forall|i: int| 0 <= i < after.miners.len() implies (
        #[trigger] after.miners[i]).same_identity(&d.miners[i]) by {}
    }
}

/// A miner that the watchdog tells to power on is left in `Starting`, with
/// the time of that command kept.
pub proof fn power_on_leaves_the_miner_starting(d: Devices, now: i64, i: int)
    requires
        d.wf(),
        0 <= i < d.miners.len(),
        d.miner_watchdog_actions(i, now).contains(
            Action::GuardCommand { miner: i as usize, command: MinerCommand::PowerOn },
        ),
    ensures
        d.after_watchdog(now).miners[i].state == MinerState::Starting,
        d.after_watchdog(now).miners[i].command_ts is Some,
{
    let m = d.watched_miner(i, now);
    let wanted = Action::GuardCommand { miner: i as usize, command: MinerCommand::PowerOn };
    let actions = d.miner_watchdog_actions(i, now);
    let k = choose|k: int| 0 <= k < actions.len() && actions[k] == wanted;
    match d.watch_of(i, now) {
        GuardWatch::Live => {
            if m.included {
                let e = m.watchdog_effect(d.plugs[i].is_enabled, now);
                assert(actions == effect_actions(i, e));
                assert(e.command == Some(MinerCommand::PowerOn));
            }
        },
        _ => {},
    }
}

/// After every decision of the scheduler each candidate has a target: the
/// miners to run and the miners to stop are together the candidates.
pub proof fn decision_covers_the_candidates(d: Devices, o: Outlook)
    requires
        d.wf(),
    ensures
        plan(d.candidates(), o).run.to_multiset().add(plan(d.candidates(), o).stop.to_multiset())
            == miners_of(d.candidates().all()).to_multiset(),
{
    let n = d.miners.len() as int;
    collected_is_on_phase(d, 0, Standing::Running, n);
    collected_is_on_phase(d, 1, Standing::Running, n);
    collected_is_on_phase(d, 2, Standing::Running, n);
    collected_is_on_phase(d, 0, Standing::Runnable, n);
    collected_is_on_phase(d, 1, Standing::Runnable, n);
    collected_is_on_phase(d, 2, Standing::Runnable, n);
    plan_decides_every_candidate_once(d.candidates(), o);
}

/// A miner is collected for the phase it sits on and the standing it
/// has, once, and for no other.
pub proof fn miner_is_collected_once(d: Devices, p: int, standing: Standing, k: int, m: usize)
    requires
        0 <= k <= d.miners.len(),
        d.miners.len() <= usize::MAX,
    ensures
        miners_of(d.collected(p, standing, k)).to_multiset().count(m) == if m < k
            && d.miners[m as int].phase == p && d.standing(m as int) == Some(standing) {
            1nat
        } else {
            0nat
        },
    decreases k,
{
    if k <= 0 {
        assert(miners_of(d.collected(p, standing, k)) =~= Seq::<usize>::empty());
    } else {
        miner_is_collected_once(d, p, standing, k - 1, m);
        let before = d.collected(p, standing, k - 1);
        if d.miners[k - 1].phase == p && d.standing(k - 1) == Some(standing) {
            assert(miners_of(before.push(d.candidate(k - 1))) =~= miners_of(before).push(
                (k - 1) as usize,
            ));
            to_multiset_build(miners_of(before), (k - 1) as usize);
        }
    }
}

/// Every decision of the scheduler names each miner that it may decide
/// about exactly once, among the miners to run or among the miners to
/// stop, and names no other miner.
pub proof fn decision_names_each_candidate_once(d: Devices, o: Outlook, m: usize)
    requires
        d.wf(),
        d.miners.len() <= usize::MAX,
    ensures
        plan(d.candidates(), o).run.to_multiset().count(m) + plan(
            d.candidates(),
            o,
        ).stop.to_multiset().count(m) == if m < d.miners.len() && d.standing(m as int) is Some {
            1nat
        } else {
            0nat
        },
{
    let n = d.miners.len() as int;
    let c = d.candidates();
    decision_covers_the_candidates(d, o);
    collected_is_on_phase(d, 0, Standing::Running, n);
    collected_is_on_phase(d, 1, Standing::Running, n);
    collected_is_on_phase(d, 2, Standing::Running, n);
    collected_is_on_phase(d, 0, Standing::Runnable, n);
    collected_is_on_phase(d, 1, Standing::Runnable, n);
    collected_is_on_phase(d, 2, Standing::Runnable, n);
    all_as_multiset(c);
    miner_is_collected_once(d, 0, Standing::Running, n, m);
    miner_is_collected_once(d, 1, Standing::Running, n, m);
    miner_is_collected_once(d, 2, Standing::Running, n, m);
    miner_is_collected_once(d, 0, Standing::Runnable, n, m);
    miner_is_collected_once(d, 1, Standing::Runnable, n, m);
    miner_is_collected_once(d, 2, Standing::Runnable, n, m);
    if m < n {
        assert(d.miners[m as int].phase < 3);
    }
    let decided = plan(c, o).run.to_multiset().add(plan(c, o).stop.to_multiset());
    assert(decided.count(m) == miners_of(c.all()).to_multiset().count(m));
    assert(c.running[0] == d.collected(0, Standing::Running, n));
    assert(c.running[1] == d.collected(1, Standing::Running, n));
    assert(c.running[2] == d.collected(2, Standing::Running, n));
    assert(c.runnable[0] == d.collected(0, Standing::Runnable, n));
    assert(c.runnable[1] == d.collected(1, Standing::Runnable, n));
    assert(c.runnable[2] == d.collected(2, Standing::Runnable, n));
    assert(miners_of(c.all()).to_multiset().count(m) == miners_of(
        c.running[0],
    ).to_multiset().count(m) + miners_of(c.runnable[0]).to_multiset().count(m) + miners_of(
        c.running[1],
    ).to_multiset().count(m) + miners_of(c.runnable[1]).to_multiset().count(m) + miners_of(
        c.running[2],
    ).to_multiset().count(m) + miners_of(c.runnable[2]).to_multiset().count(m));
}

/// Once a decision is taken over, every miner that it stops has the
/// target `PoweredOff`.
pub proof fn stopped_miner_has_target_off(d: Devices, list: Seq<usize>, k: int, i: int)
    requires
        0 <= i < k <= list.len(),
        list[i] < d.miners.len(),
    ensures
        d.with_targets(list, false, k).miners.len() == d.miners.len(),
        d.with_targets(list, false, k).miners[list[i] as int].target_state == Some(
            MinerState::PoweredOff,
        ),
    decreases k,
{
    targets_keep_the_length(d, list, false, k - 1);
    if i < k - 1 {
        stopped_miner_has_target_off(d, list, k - 1, i);
    }
}

/// Taking targets over neither adds nor removes a miner.
pub proof fn targets_keep_the_length(d: Devices, list: Seq<usize>, run: bool, k: int)
    requires
        k <= list.len(),
    ensures
        d.with_targets(list, run, k).miners.len() == d.miners.len(),
    decreases k,
{
    if k > 0 {
        targets_keep_the_length(d, list, run, k - 1);
    }
}

/// Targets that are taken over leave alone every miner that they do not
/// name.
pub proof fn unnamed_miner_keeps_its_target(
    d: Devices,
    list: Seq<usize>,
    run: bool,
    k: int,
    m: int,
)
    requires
        0 <= k <= list.len(),
        0 <= m < d.miners.len(),
        forall|i: int| 0 <= i < k ==> list[i] != m,
    ensures
        d.with_targets(list, run, k).miners.len() == d.miners.len(),
        d.with_targets(list, run, k).miners[m] == d.miners[m],
    decreases k,
{
    targets_keep_the_length(d, list, run, k);
    if k > 0 {
        targets_keep_the_length(d, list, run, k - 1);
        unnamed_miner_keeps_its_target(d, list, run, k - 1, m);
    }
}

/// Once a decision is taken over, a miner that it runs and does not stop
/// has the target `Running`, unless it is in a terminal state.
pub proof fn run_miner_has_target_running(
    d: Devices,
    run: Seq<usize>,
    stop: Seq<usize>,
    i: int,
)
    requires
        0 <= i < run.len(),
        run[i] < d.miners.len(),
        !d.miners[run[i] as int].state.is_terminal(),
        forall|j: int| 0 <= j < stop.len() ==> stop[j] != run[i],
    ensures
        d.after_schedule(run, stop).miners[run[i] as int].target_state == Some(MinerState::Running),
{
    let m = run[i] as int;
    let first = d.with_targets(run, true, run.len() as int);
    run_target_is_set(d, run, run.len() as int, i);
    unnamed_miner_keeps_its_target(first, stop, false, stop.len() as int, m);
}

proof fn run_target_is_set(d: Devices, list: Seq<usize>, k: int, i: int)
    requires
        0 <= i < k <= list.len(),
        list[i] < d.miners.len(),
        !d.miners[list[i] as int].state.is_terminal(),
    ensures
        d.with_targets(list, true, k).miners.len() == d.miners.len(),
        d.with_targets(list, true, k).miners[list[i] as int].target_state == Some(
            MinerState::Running,
        ),
        d.with_targets(list, true, k).miners[list[i] as int].state == d.miners[list[i] as int].state,
    decreases k,
{
    targets_keep_the_length(d, list, true, k - 1);
    states_stay(d, list, true, k - 1, list[i] as int);
    if i < k - 1 {
        run_target_is_set(d, list, k - 1, i);
    }
}

proof fn states_stay(d: Devices, list: Seq<usize>, run: bool, k: int, m: int)
    requires
        k <= list.len(),
        0 <= m < d.miners.len(),
    ensures
        d.with_targets(list, run, k).miners.len() == d.miners.len(),
        d.with_targets(list, run, k).miners[m].state == d.miners[m].state,
    decreases k,
{
    targets_keep_the_length(d, list, run, k);
    if k > 0 {
        targets_keep_the_length(d, list, run, k - 1);
        states_stay(d, list, run, k - 1, m);
    }
}

} // verus!
