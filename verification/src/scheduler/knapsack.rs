//! The subset-sum table behind the scheduler: which miners to run so that
//! their total draw comes as close to a capacity as the table can tell,
//! without any phase carrying more than its own limit.
//!
//! Candidates are taken in the order given. For every total `w` the table
//! records the first set found that draws exactly `w`; a later candidate
//! never replaces a recorded set. The answer is the set recorded for the
//! highest total that is not above the capacity.

use vstd::prelude::*;

verus! {

/// A miner that the scheduler may run, with the draw to plan with.
#[derive(Clone, Copy, Debug, PartialEq, Eq, Structural)]
pub struct Candidate {
    /// The position of the miner in the system's list.
    pub miner: usize,
    pub phase: u8,
    /// Watts.
    pub power: u32,
}

/// Every candidate sits on one of the three phases.
pub open spec fn phases_valid(c: Seq<Candidate>) -> bool {
    forall|i: int| 0 <= i < c.len() ==> (#[trigger] c[i]).phase < 3
}

/// The draw of those of the first `k` candidates that `s` marks.
pub open spec fn load_upto(c: Seq<Candidate>, s: Seq<bool>, k: int) -> int
    decreases k,
{
    if k <= 0 {
        0
    } else {
        load_upto(c, s, k - 1) + if s[k - 1] {
            c[k - 1].power as int
        } else {
            0
        }
    }
}

/// The total draw of the candidates that `s` marks.
pub open spec fn load(c: Seq<Candidate>, s: Seq<bool>) -> int {
    load_upto(c, s, c.len() as int)
}

/// The draw on phase `q` of those of the first `k` candidates that `s` marks.
pub open spec fn phase_load_upto(c: Seq<Candidate>, s: Seq<bool>, q: int, k: int) -> int
    decreases k,
{
    if k <= 0 {
        0
    } else {
        phase_load_upto(c, s, q, k - 1) + if s[k - 1] && c[k - 1].phase == q {
            c[k - 1].power as int
        } else {
            0
        }
    }
}

/// The draw on phase `q` of the candidates that `s` marks.
pub open spec fn phase_load(c: Seq<Candidate>, s: Seq<bool>, q: int) -> int {
    phase_load_upto(c, s, q, c.len() as int)
}

/// The draw of all candidates together.
pub open spec fn total_power(c: Seq<Candidate>) -> int {
    load(c, Seq::new(c.len(), |i: int| true))
}

/// The marking that marks none of `n` candidates.
pub open spec fn nothing(n: nat) -> Seq<bool> {
    Seq::new(n, |i: int| false)
}

/// The set recorded for the total `w` once the first `k` candidates have
/// been considered, if there is one. Candidate `k - 1` is added to the set
/// recorded for `w` less its draw (the empty set where nothing is left),
/// provided that no set was recorded for `w` before, that it draws
/// anything at all, and that its phase stays within the phase's limit.
pub open spec fn fill(c: Seq<Candidate>, caps: Seq<int>, k: int, w: int) -> Option<Seq<bool>>
    decreases k,
{
    if k <= 0 {
        None
    } else {
        let j = k - 1;
        let p = c[j].power as int;
        let q = c[j].phase as int;
        match fill(c, caps, j, w) {
            Some(s) => Some(s),
            None => {
                let below = if w == p {
                    Some(nothing(c.len()))
                } else if w > p {
                    fill(c, caps, j, w - p)
                } else {
                    None
                };
                match below {
                    Some(s) => if p > 0 && phase_load(c, s, q) + p <= caps[q] {
                        Some(s.update(j, true))
                    } else {
                        None
                    },
                    None => None,
                }
            },
        }
    }
}

/// The highest total up to `w` for which a set is recorded; 0 if there is none.
pub open spec fn highest_filled(c: Seq<Candidate>, caps: Seq<int>, w: int) -> int
    decreases w,
{
    if w <= 0 {
        0
    } else if fill(c, caps, c.len() as int, w) is Some {
        w
    } else {
        highest_filled(c, caps, w - 1)
    }
}

/// The candidates to run under the capacity `cap` and the phase limits `caps`.
pub open spec fn selection(c: Seq<Candidate>, caps: Seq<int>, cap: int) -> Seq<bool> {
    let w = highest_filled(c, caps, cap);
    if w <= 0 {
        nothing(c.len())
    } else {
        fill(c, caps, c.len() as int, w)->0
    }
}

/// The miners of the candidates whose mark is `want`, in the order given.
pub open spec fn picked(c: Seq<Candidate>, s: Seq<bool>, want: bool, k: int) -> Seq<usize>
    decreases k,
{
    if k <= 0 {
        Seq::empty()
    } else if s[k - 1] == want {
        picked(c, s, want, k - 1).push(c[k - 1].miner)
    } else {
        picked(c, s, want, k - 1)
    }
}

pub proof fn load_of_nothing(c: Seq<Candidate>, q: int, k: int)
    requires
        k <= c.len(),
    ensures
        load_upto(c, nothing(c.len()), k) == 0,
        phase_load_upto(c, nothing(c.len()), q, k) == 0,
    decreases k,
{
    if k > 0 {
        load_of_nothing(c, q, k - 1);
    }
}

/// Marking one more candidate adds its draw, and adds it to its own phase.
pub proof fn load_of_update(c: Seq<Candidate>, s: Seq<bool>, j: int, q: int, k: int)
    requires
        s.len() == c.len(),
        0 <= j < c.len(),
        !s[j],
        k <= c.len(),
    ensures
        load_upto(c, s.update(j, true), k) == load_upto(c, s, k) + if j < k {
            c[j].power as int
        } else {
            0
        },
        phase_load_upto(c, s.update(j, true), q, k) == phase_load_upto(c, s, q, k) + if j < k
            && c[j].phase == q {
            c[j].power as int
        } else {
            0
        },
    decreases k,
{
    if k > 0 {
        load_of_update(c, s, j, q, k - 1);
    }
}

/// No marking draws more than all candidates together, and no phase more
/// than the marking as a whole.
pub proof fn load_bounds(c: Seq<Candidate>, s: Seq<bool>, q: int, k: int)
    requires
        k <= c.len(),
    ensures
        0 <= load_upto(c, s, k) <= load_upto(c, Seq::new(c.len(), |i: int| true), k),
        0 <= phase_load_upto(c, s, q, k) <= load_upto(c, s, k),
    decreases k,
{
    if k > 0 {
        load_bounds(c, s, q, k - 1);
    }
}

/// What holds of a recorded set: it marks only candidates that have been
/// considered, draws exactly the total it is recorded for, and keeps every
/// phase within its limit.
pub proof fn fill_is_sound(c: Seq<Candidate>, caps: Seq<int>, k: int, w: int)
    requires
        k <= c.len(),
        caps.len() == 3,
        phases_valid(c),
        forall|q: int| 0 <= q < 3 ==> caps[q] >= 0,
        fill(c, caps, k, w) is Some,
    ensures
        fill(c, caps, k, w)->0.len() == c.len(),
        forall|i: int| k <= i < c.len() ==> !(#[trigger] fill(c, caps, k, w)->0[i]),
        load(c, fill(c, caps, k, w)->0) == w,
        w > 0,
        phase_load(c, fill(c, caps, k, w)->0, 0) <= caps[0],
        phase_load(c, fill(c, caps, k, w)->0, 1) <= caps[1],
        phase_load(c, fill(c, caps, k, w)->0, 2) <= caps[2],
    decreases k,
{
    let j = k - 1;
    let p = c[j].power as int;
    if fill(c, caps, j, w) is Some {
        fill_is_sound(c, caps, j, w);
    } else {
        let below = if w == p {
            Some(nothing(c.len()))
        } else {
            fill(c, caps, j, w - p)
        };
        let s = below->0;
        if w == p {
            load_of_nothing(c, 0, c.len() as int);
            load_of_nothing(c, 1, c.len() as int);
            load_of_nothing(c, 2, c.len() as int);
        } else {
            fill_is_sound(c, caps, j, w - p);
        }
        load_of_update(c, s, j, 0, c.len() as int);
        load_of_update(c, s, j, 1, c.len() as int);
        load_of_update(c, s, j, 2, c.len() as int);
    }
}

/// A recorded set stays as it is while more candidates are considered.
pub proof fn fill_is_stable(c: Seq<Candidate>, caps: Seq<int>, k: int, later: int, w: int)
    requires
        0 <= k <= later,
        fill(c, caps, k, w) is Some,
    ensures
        fill(c, caps, later, w) == fill(c, caps, k, w),
    decreases later - k,
{
    if k < later {
        fill_is_stable(c, caps, k, later - 1, w);
    }
}

/// No set is recorded for a total above what all candidates draw together.
pub proof fn fill_is_bounded(c: Seq<Candidate>, caps: Seq<int>, w: int)
    requires
        caps.len() == 3,
        phases_valid(c),
        forall|q: int| 0 <= q < 3 ==> caps[q] >= 0,
        w > total_power(c),
    ensures
        fill(c, caps, c.len() as int, w) is None,
{
    if fill(c, caps, c.len() as int, w) is Some {
        fill_is_sound(c, caps, c.len() as int, w);
        load_bounds(c, fill(c, caps, c.len() as int, w)->0, 0, c.len() as int);
    }
}

/// The highest recorded total is not above the bound it was sought under,
/// and a set is recorded for it unless it is 0.
pub proof fn highest_filled_is_filled(c: Seq<Candidate>, caps: Seq<int>, w: int)
    ensures
        0 <= highest_filled(c, caps, w),
        w >= 0 ==> highest_filled(c, caps, w) <= w,
        highest_filled(c, caps, w) > 0 ==> fill(
            c,
            caps,
            c.len() as int,
            highest_filled(c, caps, w),
        ) is Some,
    decreases w,
{
    if w > 0 && !(fill(c, caps, c.len() as int, w) is Some) {
        highest_filled_is_filled(c, caps, w - 1);
    }
}

/// Totals above what all candidates draw together need not be looked at.
pub proof fn highest_filled_above_total(c: Seq<Candidate>, caps: Seq<int>, w: int)
    requires
        caps.len() == 3,
        phases_valid(c),
        forall|q: int| 0 <= q < 3 ==> caps[q] >= 0,
        w >= total_power(c),
    ensures
        highest_filled(c, caps, w) == highest_filled(c, caps, total_power(c)),
    decreases w,
{
    load_bounds(c, nothing(c.len()), 0, c.len() as int);
    if w > total_power(c) {
        fill_is_bounded(c, caps, w);
        highest_filled_above_total(c, caps, w - 1);
    }
}

/// The selection draws no more than the capacity and keeps every phase
/// within its limit.
pub proof fn selection_fits(c: Seq<Candidate>, caps: Seq<int>, cap: int)
    requires
        caps.len() == 3,
        phases_valid(c),
        forall|q: int| 0 <= q < 3 ==> caps[q] >= 0,
        cap >= 0,
    ensures
        selection(c, caps, cap).len() == c.len(),
        load(c, selection(c, caps, cap)) == highest_filled(c, caps, cap),
        0 <= load(c, selection(c, caps, cap)) <= cap,
        phase_load(c, selection(c, caps, cap), 0) <= caps[0],
        phase_load(c, selection(c, caps, cap), 1) <= caps[1],
        phase_load(c, selection(c, caps, cap), 2) <= caps[2],
{
    highest_filled_is_filled(c, caps, cap);
    let w = highest_filled(c, caps, cap);
    if w > 0 {
        fill_is_sound(c, caps, c.len() as int, w);
    } else {
        load_of_nothing(c, 0, c.len() as int);
        load_of_nothing(c, 1, c.len() as int);
        load_of_nothing(c, 2, c.len() as int);
    }
}

/// The three limits of a choice in which the phases play no part: each
/// is the capacity itself.
pub open spec fn flat(cap: u64) -> Seq<int> {
    seq![cap as int, cap as int, cap as int]
}

/// The phase limits as the table reads them.
pub open spec fn limits(caps: [u64; 3]) -> Seq<int> {
    seq![caps[0] as int, caps[1] as int, caps[2] as int]
}

/// The capacity that the table is laid out for: a table has no slot for a
/// total of `usize::MAX` or more, so a capacity that high is read as the
/// highest that has one.
pub open spec fn table_capacity(cap: u64) -> int {
    if cap < usize::MAX {
        cap as int
    } else {
        usize::MAX - 1
    }
}

/// One slot of the table: the candidate that completed the recorded set,
/// and what the set draws on each phase.
#[derive(Clone, Copy, Debug)]
pub struct Slot {
    pub last: usize,
    pub loads: [u64; 3],
}

pub open spec fn slot_matches(
    c: Seq<Candidate>,
    caps: Seq<int>,
    k: int,
    w: int,
    slot: Option<Slot>,
) -> bool {
    match fill(c, caps, k, w) {
        None => slot is None,
        Some(s) => {
            &&& slot is Some
            &&& 0 <= slot->0.last < k
            &&& fill(c, caps, slot->0.last as int, w) is None
            &&& fill(c, caps, slot->0.last + 1, w) == Some(s)
            &&& slot->0.loads[0] == phase_load(c, s, 0)
            &&& slot->0.loads[1] == phase_load(c, s, 1)
            &&& slot->0.loads[2] == phase_load(c, s, 2)
        },
    }
}

/// The capacity, or what all candidates draw together where that is less.
fn table_top(c: &Vec<Candidate>, cap: u64) -> (top: u64)
    ensures
        top == if cap <= total_power(c@) {
            cap as int
        } else {
            total_power(c@)
        },
{
    let ghost all = Seq::new(c@.len(), |i: int| true);
    let mut acc: u64 = 0;
    let mut i: usize = 0;
    while i < c.len()
        invariant
            i <= c.len(),
            all == Seq::new(c@.len(), |i: int| true),
            acc == if cap <= load_upto(c@, all, i as int) {
                cap as int
            } else {
                load_upto(c@, all, i as int)
            },
        decreases c.len() - i,
    {
        proof {
            load_bounds(c@, all, 0, i as int);
        }
        let p: u64 = c[i].power as u64;
        if p >= cap - acc {
            acc = cap;
        } else {
            acc = acc + p;
        }
        i = i + 1;
    }
    acc
}

fn build_table(c: &Vec<Candidate>, caps: &[u64; 3], top: usize) -> (table: Vec<Option<Slot>>)
    requires
        phases_valid(c@),
        top < usize::MAX,
    ensures
        table.len() == top + 1,
        forall|w: int|
            0 <= w <= top ==> slot_matches(
                c@,
                limits(*caps),
                c.len() as int,
                w,
                #[trigger] table@[w],
            ),
{
    let ghost lim = limits(*caps);
    let mut table: Vec<Option<Slot>> = Vec::new();
    let mut n: usize = 0;
    while n <= top
        invariant
            n <= top + 1,
            top < usize::MAX,
            table.len() == n,
            forall|w: int| 0 <= w < n ==> (#[trigger] table@[w]) is None,
        decreases top + 1 - n,
    {
        table.push(None);
        n = n + 1;
    }
    let mut k: usize = 0;
    while k < c.len()
        invariant
            k <= c.len(),
            phases_valid(c@),
            lim == limits(*caps),
            table.len() == top + 1,
            forall|w: int| 0 <= w <= top ==> slot_matches(c@, lim, k as int, w, #[trigger] table@[w]),
        decreases c.len() - k,
    {
        let cand = c[k];
        let p: usize = cand.power as usize;
        let q: usize = cand.phase as usize;
        let limit: u64 = caps[q];
        assert(limit == lim[q as int]);
        if p > 0 && p <= top && cand.power as u64 <= limit {
            let room: u64 = limit - cand.power as u64;
            let mut i: usize = top;
            while i > p
                invariant
                    p <= i <= top,
                    0 < p,
                    k < c.len(),
                    cand == c@[k as int],
                    p == cand.power,
                    q == cand.phase,
                    q < 3,
                    limit == lim[q as int],
                    room == limit - p,
                    lim == limits(*caps),
                    table.len() == top + 1,
                    forall|w: int|
                        i < w <= top ==> slot_matches(c@, lim, k + 1, w, #[trigger] table@[w]),
                    forall|w: int|
                        0 <= w <= i ==> slot_matches(c@, lim, k as int, w, #[trigger] table@[w]),
                decreases i,
            {
                if table[i].is_none() {
                    match table[i - p] {
                        Some(e) => {
                            assert(slot_matches(c@, lim, k as int, i - p, table@[i - p]));
                            if e.loads[q] <= room {
                                let mut loads = e.loads;
                                loads[q] = e.loads[q] + cand.power as u64;
                                proof {
                                    let s = fill(c@, lim, k as int, i - p)->0;
                                    fill_is_sound_unphased(c@, lim, k as int, i - p);
                                    load_of_update(c@, s, k as int, 0, c@.len() as int);
                                    load_of_update(c@, s, k as int, 1, c@.len() as int);
                                    load_of_update(c@, s, k as int, 2, c@.len() as int);
                                }
                                table.set(i, Some(Slot { last: k, loads }));
                            }
                        },
                        None => {
                            assert(slot_matches(c@, lim, k as int, i - p, table@[i - p]));
                        },
                    }
                }
                assert(slot_matches(c@, lim, k + 1, i as int, table@[i as int]));
                i = i - 1;
            }
            if table[p].is_none() {
                let mut loads = [0u64, 0u64, 0u64];
                loads[q] = cand.power as u64;
                proof {
                    let s = nothing(c@.len());
                    load_of_nothing(c@, 0, c@.len() as int);
                    load_of_nothing(c@, 1, c@.len() as int);
                    load_of_nothing(c@, 2, c@.len() as int);
                    load_of_update(c@, s, k as int, 0, c@.len() as int);
                    load_of_update(c@, s, k as int, 1, c@.len() as int);
                    load_of_update(c@, s, k as int, 2, c@.len() as int);
                }
                table.set(p, Some(Slot { last: k, loads }));
            }
            assert(slot_matches(c@, lim, k + 1, p as int, table@[p as int]));
            assert forall|w: int| 0 <= w <= top implies slot_matches(
                c@,
                lim,
                k + 1,
                w,
                #[trigger] table@[w],
            ) by {
                if w < p {
                    assert(slot_matches(c@, lim, k as int, w, table@[w]));
                }
            }
        } else {
            assert forall|w: int| 0 <= w <= top implies slot_matches(
                c@,
                lim,
                k + 1,
                w,
                #[trigger] table@[w],
            ) by {
                assert(slot_matches(c@, lim, k as int, w, table@[w]));
                if fill(c@, lim, k as int, w) is None && p > 0 && p <= top {
                    // the candidate alone is above its phase's limit
                    if w > p && fill(c@, lim, k as int, w - p) is Some {
                        load_bounds(c@, fill(c@, lim, k as int, w - p)->0, q as int, c@.len() as int);
                    }
                    if w == p {
                        load_of_nothing(c@, q as int, c@.len() as int);
                    }
                }
            }
        }
        k = k + 1;
    }
    table
}

/// What `fill_is_sound` says of the set's length and of the candidates not
/// yet considered, without asking for limits that are not negative.
proof fn fill_is_sound_unphased(c: Seq<Candidate>, caps: Seq<int>, k: int, w: int)
    requires
        k <= c.len(),
        fill(c, caps, k, w) is Some,
    ensures
        fill(c, caps, k, w)->0.len() == c.len(),
        forall|i: int| k <= i < c.len() ==> !(#[trigger] fill(c, caps, k, w)->0[i]),
    decreases k,
{
    let j = k - 1;
    let p = c[j].power as int;
    if fill(c, caps, j, w) is Some {
        fill_is_sound_unphased(c, caps, j, w);
    } else if w != p {
        fill_is_sound_unphased(c, caps, j, w - p);
    }
}

/// Marks the candidates of the selection.
fn mark_selection(c: &Vec<Candidate>, caps: &[u64; 3], max_power: u64) -> (flags: Vec<bool>)
    requires
        phases_valid(c@),
    ensures
        flags@ == selection(c@, limits(*caps), table_capacity(max_power)),
{
    let cap: u64 = if max_power < usize::MAX as u64 {
        max_power
    } else {
        usize::MAX as u64 - 1
    };
    let ghost lim = limits(*caps);
    let ghost n = c@.len() as int;
    let top: usize = table_top(c, cap) as usize;
    let table = build_table(c, caps, top);
    proof {
        if cap > total_power(c@) {
            highest_filled_above_total(c@, lim, cap as int);
        }
    }
    let mut w: usize = top;
    while w > 0 && table[w].is_none()
        invariant
            n == c@.len(),
            w <= top,
            table.len() == top + 1,
            forall|v: int| 0 <= v <= top ==> slot_matches(c@, lim, n, v, #[trigger] table@[v]),
            highest_filled(c@, lim, cap as int) == highest_filled(c@, lim, w as int),
        decreases w,
    {
        assert(slot_matches(c@, lim, n, w as int, table@[w as int]));
        w = w - 1;
    }
    let ghost target = selection(c@, lim, cap as int);
    let ghost mut rest = nothing(c@.len());
    proof {
        if w > 0 {
            assert(slot_matches(c@, lim, n, w as int, table@[w as int]));
            rest = fill(c@, lim, n, w as int)->0;
            fill_is_sound_unphased(c@, lim, n, w as int);
        }
    }
    let mut flags: Vec<bool> = Vec::new();
    let mut i: usize = 0;
    while i < c.len()
        invariant
            i <= c.len(),
            flags.len() == i,
            forall|j: int| 0 <= j < i ==> !(#[trigger] flags@[j]),
        decreases c.len() - i,
    {
        flags.push(false);
        i = i + 1;
    }
    while w > 0
        invariant
            n == c@.len(),
            lim == limits(*caps),
            flags.len() == n,
            rest.len() == n,
            target.len() == n,
            w <= top,
            table.len() == top + 1,
            forall|v: int| 0 <= v <= top ==> slot_matches(c@, lim, n, v, #[trigger] table@[v]),
            w > 0 ==> fill(c@, lim, n, w as int) == Some(rest),
            w == 0 ==> rest == nothing(c@.len()),
            forall|j: int| 0 <= j < n ==> target[j] == (flags@[j] || rest[j]),
        decreases w,
    {
        assert(slot_matches(c@, lim, n, w as int, table@[w as int]));
        let slot = table[w];
        let e = slot.unwrap();
        let j: usize = e.last;
        let p: usize = c[j].power as usize;
        let ghost below = if w == p {
            nothing(c@.len())
        } else {
            fill(c@, lim, j as int, w - p)->0
        };
        proof {
            assert(fill(c@, lim, j + 1, w as int) == Some(rest));
            assert(fill(c@, lim, j as int, w as int) is None);
            if w != p {
                fill_is_stable(c@, lim, j as int, n, w - p);
                fill_is_sound_unphased(c@, lim, j as int, w - p);
            }
            assert(rest == below.update(j as int, true));
        }
        flags.set(j, true);
        w = w - p;
        proof {
            rest = below;
        }
    }
    assert(flags@ =~= target);
    flags
}

/// Sorts the miners into those to run and those to stop.
fn split(c: &Vec<Candidate>, flags: &Vec<bool>) -> (out: (Vec<usize>, Vec<usize>))
    requires
        flags.len() == c.len(),
    ensures
        out.0@ == picked(c@, flags@, true, c@.len() as int),
        out.1@ == picked(c@, flags@, false, c@.len() as int),
{
    let mut run: Vec<usize> = Vec::new();
    let mut stop: Vec<usize> = Vec::new();
    let mut i: usize = 0;
    while i < c.len()
        invariant
            i <= c.len(),
            flags.len() == c.len(),
            run@ == picked(c@, flags@, true, i as int),
            stop@ == picked(c@, flags@, false, i as int),
        decreases c.len() - i,
    {
        if flags[i] {
            run.push(c[i].miner);
        } else {
            stop.push(c[i].miner);
        }
        i = i + 1;
    }
    (run, stop)
}

/// Chooses among `miners` on three phases: the miners to run, then the
/// miners to stop, each in the order given. What runs draws no more than
/// `max_power` in all and no more than `phase_caps` on any phase.
pub fn dp_knapsack2(miners: &Vec<Candidate>, phase_caps: &[u64; 3], max_power: u64) -> (out: (
    Vec<usize>,
    Vec<usize>,
))
    requires
        phases_valid(miners@),
    ensures
        out.0@ == picked(
            miners@,
            selection(miners@, limits(*phase_caps), table_capacity(max_power)),
            true,
            miners@.len() as int,
        ),
        out.1@ == picked(
            miners@,
            selection(miners@, limits(*phase_caps), table_capacity(max_power)),
            false,
            miners@.len() as int,
        ),
        load(miners@, selection(miners@, limits(*phase_caps), table_capacity(max_power))) <= max_power,
        phase_load(miners@, selection(miners@, limits(*phase_caps), table_capacity(max_power)), 0)
            <= phase_caps[0],
        phase_load(miners@, selection(miners@, limits(*phase_caps), table_capacity(max_power)), 1)
            <= phase_caps[1],
        phase_load(miners@, selection(miners@, limits(*phase_caps), table_capacity(max_power)), 2)
            <= phase_caps[2],
{
    proof {
        selection_fits(miners@, limits(*phase_caps), table_capacity(max_power));
    }
    let flags = mark_selection(miners, phase_caps, max_power);
    split(miners, &flags)
}

/// Chooses among `miners` under one capacity: the miners to run, then the
/// miners to stop, each in the order given. No phase is held to less than
/// the capacity, so the phases play no part.
pub fn dp_knapsack1(miners: &Vec<Candidate>, max_power: u64) -> (out: (Vec<usize>, Vec<usize>))
    requires
        phases_valid(miners@),
    ensures
        out.0@ == picked(
            miners@,
            selection(miners@, flat(max_power), table_capacity(max_power)),
            true,
            miners@.len() as int,
        ),
        out.1@ == picked(
            miners@,
            selection(miners@, flat(max_power), table_capacity(max_power)),
            false,
            miners@.len() as int,
        ),
        load(
            miners@,
            selection(miners@, flat(max_power), table_capacity(max_power)),
        ) <= max_power,
{
    let caps = [max_power, max_power, max_power];
    assert(limits(caps) =~= flat(max_power));
    dp_knapsack2(miners, &caps, max_power)
}

} // verus!
