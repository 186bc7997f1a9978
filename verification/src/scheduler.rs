//! The turn scheduler's ordering state.
//!
//! Actors are ordered by absolute scheduled time, an unsigned counter
//! advanced only by completed-action costs. Ties are broken by insertion
//! order: an entry re-inserted at a time other entries already hold goes
//! behind them, which keeps turn order deterministic. `start_entity_turn`
//! hands out the due actor (minimum time, earliest inserted) and removes its
//! entry; `end_entity_turn` re-inserts the actor, its time advanced by what
//! the resolved action cost.

use vstd::prelude::*;
use crate::actor::Entity;

verus! {

/// One actor's place in the turn order.
#[derive(Clone, Copy, Debug, PartialEq, Eq, Structural)]
pub struct ScheduleEntry {
    pub actor: Entity,
    pub time: u64,
}

/// Entries are ordered by non-decreasing scheduled time.
pub open spec fn sorted_by_time(s: Seq<ScheduleEntry>) -> bool {
    forall|i: int, j: int| 0 <= i <= j < s.len() ==> s[i].time <= s[j].time
}

/// How many leading entries of `s` have a time at or before `t`: in a
/// sorted sequence, where an entry of time `t` is inserted, behind its ties.
pub open spec fn first_after(s: Seq<ScheduleEntry>, t: u64) -> int
    decreases s.len(),
{
    if s.len() == 0 {
        0
    } else if s[0].time <= t {
        1 + first_after(s.drop_first(), t)
    } else {
        0
    }
}

/// A scheduled time advanced by a cost; the counter stops at its far end
/// rather than wrapping.
pub open spec fn spec_next_time(t: u64, cost: u32) -> u64 {
    if t + cost <= u64::MAX {
        (t + cost) as u64
    } else {
        u64::MAX
    }
}

/// In a sorted sequence, everything before `first_after(s, t)` is at or
/// before `t` and everything from it on is after `t`.
pub proof fn lemma_first_after_props(s: Seq<ScheduleEntry>, t: u64)
    requires
        sorted_by_time(s),
    ensures
        0 <= first_after(s, t) <= s.len(),
        forall|j: int| 0 <= j < first_after(s, t) ==> s[j].time <= t,
        forall|j: int| first_after(s, t) <= j < s.len() ==> s[j].time > t,
    decreases s.len(),
{
    if s.len() > 0 {
        let d = s.drop_first();
        assert(sorted_by_time(d)) by {
            assert(forall|i: int, j: int|
                0 <= i <= j < d.len() ==> d[i] == s[i + 1] && d[j] == s[j + 1]);
        }
        lemma_first_after_props(d, t);
        if s[0].time <= t {
            let f = first_after(s, t);
            assert forall|j: int| f <= j < s.len() implies s[j].time > t by {
                assert(s[j] == d[j - 1]);
            }
            assert forall|j: int| 0 <= j < f implies s[j].time <= t by {
                if j > 0 {
                    assert(s[j] == d[j - 1]);
                }
            }
        } else {
            assert forall|j: int| 0 <= j < s.len() implies s[j].time > t by {
                assert(s[0].time <= s[j].time);
            }
        }
    }
}

/// Where the exec scan stops is exactly `first_after`.
pub proof fn lemma_first_after_char(s: Seq<ScheduleEntry>, t: u64, i: int)
    requires
        0 <= i <= s.len(),
        forall|j: int| 0 <= j < i ==> s[j].time <= t,
        i < s.len() ==> s[i].time > t,
    ensures
        first_after(s, t) == i,
    decreases s.len(),
{
    if s.len() > 0 {
        let d = s.drop_first();
        if i == 0 {
        } else {
            assert(s[0].time <= t);
            assert forall|j: int| 0 <= j < i - 1 implies d[j].time <= t by {
                assert(d[j] == s[j + 1]);
            }
            if i - 1 < d.len() {
                assert(d[i - 1] == s[i]);
            }
            lemma_first_after_char(d, t, i - 1);
        }
    }
}

/// The turn order and the clock of the turn being taken.
pub struct TurnManager {
    entries: Vec<ScheduleEntry>,
    current_time: u64,
}

impl TurnManager {
    /// The pending entries, due first.
    pub closed spec fn spec_entries(&self) -> Seq<ScheduleEntry> {
        self.entries@
    }

    /// The time of the most recently started turn.
    pub closed spec fn spec_time(&self) -> u64 {
        self.current_time
    }

    /// Well-formedness: entries sorted by time, none scheduled before the
    /// turn being taken. Every constructor establishes it and every method
    /// preserves it.
    pub open spec fn wf(&self) -> bool {
        &&& sorted_by_time(self.spec_entries())
        &&& forall|i: int|
            0 <= i < self.spec_entries().len() ==> self.spec_entries()[i].time >= self.spec_time()
    }

    pub fn new() -> (r: TurnManager)
        ensures
            r.wf(),
            r.spec_entries() == Seq::<ScheduleEntry>::empty(),
            r.spec_time() == 0,
    {
        let r = TurnManager { entries: Vec::new(), current_time: 0 };
        proof {
            assert(r.spec_entries() =~= Seq::<ScheduleEntry>::empty());
        }
        r
    }

    /// How many actors await a turn.
    pub fn len(&self) -> (r: usize)
        ensures
            r == self.spec_entries().len(),
    {
        self.entries.len()
    }

    /// The actor that will be handed out next, without starting its turn.
    pub fn due_entity(&self) -> (r: Option<Entity>)
        ensures
            self.spec_entries().len() == 0 ==> r is None,
            self.spec_entries().len() > 0 ==> r == Some(self.spec_entries()[0].actor),
    {
        if self.entries.len() == 0 {
            None
        } else {
            Some(self.entries[0].actor)
        }
    }

    /// Insert an entry behind every entry scheduled at or before its time.
    fn insert_entry(&mut self, e: ScheduleEntry)
        requires
            old(self).wf(),
            e.time >= old(self).spec_time(),
        ensures
            final(self).wf(),
            final(self).spec_time() == old(self).spec_time(),
            final(self).spec_entries().len() == old(self).spec_entries().len() + 1,
            final(self).spec_entries() == old(self).spec_entries().insert(first_after(old(
                self).spec_entries(), e.time), e),
    {
        let n = self.entries.len();
        let mut i: usize = 0;
        while i < n && self.entries[i].time <= e.time
            invariant
                *self == *old(self),
                n == self.entries.len(),
                i <= n,
                forall|j: int| 0 <= j < i ==> self.entries[j].time <= e.time,
            decreases n - i,
        {
            i += 1;
        }
        proof {
            lemma_first_after_char(self.spec_entries(), e.time, i as int);
        }
        self.entries.insert(i, e);
        proof {
            let s = old(self).spec_entries();
            let f = i as int;
            let u = self.spec_entries();
            lemma_first_after_props(s, e.time);
            assert forall|a: int, b: int| 0 <= a <= b < u.len() implies u[a].time <= u[b].time by {
                if a < f {
                    assert(u[a] == s[a]);
                } else if a > f {
                    assert(u[a] == s[a - 1]);
                }
                if b < f {
                    assert(u[b] == s[b]);
                } else if b > f {
                    assert(u[b] == s[b - 1]);
                }
            }
            assert forall|k: int| 0 <= k < u.len() implies u[k].time >= self.spec_time() by {
                if k < f {
                    assert(u[k] == s[k]);
                } else if k > f {
                    assert(u[k] == s[k - 1]);
                }
            }
        }
    }

    /// Give an actor a place in the turn order, at the current time: it
    /// becomes due after everything already scheduled at that time.
    pub fn add_entity(&mut self, actor: Entity)
        requires
            old(self).wf(),
        ensures
            final(self).wf(),
            final(self).spec_time() == old(self).spec_time(),
            final(self).spec_entries().len() == old(self).spec_entries().len() + 1,
            final(self).spec_entries() == old(self).spec_entries().insert(first_after(old(
                self).spec_entries(), old(self).spec_time()), ScheduleEntry {
                actor,
                time: old(self).spec_time(),
            }),
    {
        let time = self.current_time;
        self.insert_entry(ScheduleEntry { actor, time });
    }

    /// Drop every entry of a despawned actor from the turn order.
    pub fn remove_entity(&mut self, actor: Entity)
        requires
            old(self).wf(),
        ensures
            final(self).wf(),
            final(self).spec_time() == old(self).spec_time(),
            final(self).spec_entries() == old(self).spec_entries().filter(
                |e: ScheduleEntry| e.actor != actor),
    {
        let n = self.entries.len();
        let mut kept: Vec<ScheduleEntry> = Vec::new();
        let mut i: usize = 0;
        while i < n
            invariant
                *self == *old(self),
                n == self.entries.len(),
                i <= n,
                kept@ == self.spec_entries().take(i as int).filter(
                    |e: ScheduleEntry| e.actor != actor),
            decreases n - i,
        {
            let e = self.entries[i];
            proof {
                assert(self.spec_entries().take(i + 1).drop_last() =~= self.spec_entries().take(
                    i as int));
                assert(self.spec_entries().take(i + 1).last() == e);
                reveal_with_fuel(Seq::filter, 2);
                self.spec_entries().take(i + 1).drop_last().lemma_filter_push(
                    self.spec_entries().take(i + 1).last(), |x: ScheduleEntry| x.actor != actor);
            }
            if e.actor.index != actor.index || e.actor.generation != actor.generation {
                kept.push(e);
            }
            i += 1;
        }
        proof {
            assert(self.spec_entries().take(n as int) =~= self.spec_entries());
        }
        self.entries = kept;
        proof {
            let s = old(self).spec_entries();
            let p = |e: ScheduleEntry| e.actor != actor;
            assert forall|a: int, b: int|
                0 <= a <= b < s.filter(p).len() implies s.filter(p)[a].time <= s.filter(
                p)[b].time by {
                lemma_filter_ordering(s, p, a, b);
            }
            assert forall|k: int| 0 <= k < s.filter(p).len() implies s.filter(p)[k].time
                >= self.spec_time() by {
                assert(s.filter(p).contains(s.filter(p)[k]));
                s.lemma_filter_contains_rev(p, s.filter(p)[k]);
                let j = choose|j: int| 0 <= j < s.len() && s[j] == s.filter(p)[k];
                assert(s[j].time >= self.spec_time());
            }
        }
    }

    /// Hand out the due actor — minimum scheduled time, earliest inserted
    /// among ties — removing its entry and advancing the clock to its time.
    /// Nothing to hand out means the schedule is empty.
    pub fn start_entity_turn(&mut self) -> (r: Option<Entity>)
        requires
            old(self).wf(),
        ensures
            final(self).wf(),
            old(self).spec_entries().len() == 0 ==> r is None && *final(self) == *old(self),
            old(self).spec_entries().len() > 0 ==> {
                &&& r == Some(old(self).spec_entries()[0].actor)
                &&& final(self).spec_entries() == old(self).spec_entries().drop_first()
                &&& final(self).spec_time() == old(self).spec_entries()[0].time
                &&& forall|i: int|
                    0 <= i < old(self).spec_entries().len() ==> old(self).spec_entries()[0].time
                        <= #[trigger] old(self).spec_entries()[i].time
            },
    {
        if self.entries.len() == 0 {
            return None;
        }
        let e = self.entries.remove(0);
        self.current_time = e.time;
        proof {
            assert(self.spec_entries() =~= old(self).spec_entries().drop_first());
            assert forall|i: int| 0 <= i < self.spec_entries().len() implies self.spec_entries()[
                i].time >= self.spec_time() by {
                assert(self.spec_entries()[i] == old(self).spec_entries()[i + 1]);
            }
            assert forall|a: int, b: int|
                0 <= a <= b < self.spec_entries().len() implies self.spec_entries()[a].time
                <= self.spec_entries()[b].time by {
                assert(self.spec_entries()[a] == old(self).spec_entries()[a + 1]);
                assert(self.spec_entries()[b] == old(self).spec_entries()[b + 1]);
            }
        }
        Some(e.actor)
    }

    /// Put a processed actor back in the turn order, its scheduled time
    /// advanced by exactly what its completed action cost (a zero cost makes
    /// it immediately re-eligible, behind its ties).
    pub fn end_entity_turn(&mut self, actor: Entity, cost: u32)
        requires
            old(self).wf(),
        ensures
            final(self).wf(),
            final(self).spec_time() == old(self).spec_time(),
            final(self).spec_entries().len() == old(self).spec_entries().len() + 1,
            final(self).spec_entries() == old(self).spec_entries().insert(first_after(old(
                self).spec_entries(), spec_next_time(old(self).spec_time(), cost)), ScheduleEntry {
                actor,
                time: spec_next_time(old(self).spec_time(), cost),
            }),
    {
        let time = if self.current_time <= u64::MAX - (cost as u64) {
            self.current_time + (cost as u64)
        } else {
            u64::MAX
        };
        self.insert_entry(ScheduleEntry { actor, time });
    }
}

/// Law: the scheduler is monotone. In a well-formed turn order the due
/// entry — the one `start_entity_turn` hands out — carries the minimum
/// scheduled time, so an actor rescheduled by `end_entity_turn` to its
/// prior time plus a positive cost is never selected again while any other
/// actor holds a strictly smaller scheduled time.
pub proof fn lemma_due_time_minimal(tm: &TurnManager)
    requires
        tm.wf(),
        tm.spec_entries().len() > 0,
    ensures
        forall|i: int|
            0 <= i < tm.spec_entries().len() ==> tm.spec_entries()[0].time <= #[trigger] tm.spec_entries()[i].time,
{
}

/// Law: an actor that completes an action is rescheduled to exactly its
/// prior scheduled time plus the action's cost, whenever that sum fits the
/// time counter.
pub proof fn lemma_reschedule_exact(t: u64, cost: u32)
    requires
        t + cost <= u64::MAX,
    ensures
        spec_next_time(t, cost) == t + cost,
{
}

/// Filtering a sorted sequence keeps it sorted: the law behind
/// `remove_entity` leaving the turn order intact.
pub proof fn lemma_filter_ordering(
    s: Seq<ScheduleEntry>,
    p: spec_fn(ScheduleEntry) -> bool,
    a: int,
    b: int,
)
    requires
        sorted_by_time(s),
        0 <= a <= b < s.filter(p).len(),
    ensures
        s.filter(p)[a].time <= s.filter(p)[b].time,
    decreases s.len(),
{
    reveal_with_fuel(Seq::filter, 2);
    if s.len() > 0 {
        let d = s.drop_last();
        assert(sorted_by_time(d)) by {
            assert(forall|i: int, j: int| 0 <= i <= j < d.len() ==> d[i] == s[i] && d[j] == s[j]);
        }
        d.lemma_filter_push(s.last(), p);
        assert(d.push(s.last()) =~= s);
        if p(s.last()) {
            if b < s.filter(p).len() - 1 {
                lemma_filter_ordering(d, p, a, b);
            } else {
                if a < s.filter(p).len() - 1 {
                    assert(d.filter(p)[a] == s.filter(p)[a]);
                    assert(d.filter(p).contains(d.filter(p)[a]));
                    d.lemma_filter_contains_rev(p, d.filter(p)[a]);
                    let j = choose|j: int| 0 <= j < d.len() && d[j] == d.filter(p)[a];
                    assert(s[j].time <= s.last().time);
                }
            }
        } else {
            lemma_filter_ordering(d, p, a, b);
        }
    }
}

} // verus!

