use crate::grid::Building;
use crate::upgrade_data::LevelStats;
use crate::items::ItemType;
use vstd::prelude::*;

verus! {

/// Nanoseconds in a second: timer periods are whole seconds, elapsed time is in nanoseconds.
pub const NANOS_PER_SEC: u64 = 1_000_000_000;

/// A repeating countdown: it fires once for every full period of elapsed time and carries
/// the remainder over to the next period.
#[derive(Clone, Copy, Debug)]
pub struct RepeatingTimer {
    /// Period, in nanoseconds.
    pub duration: u64,
    /// Time elapsed in the current period, in nanoseconds.
    pub elapsed: u64,
}

impl RepeatingTimer {
    /// Periods are at least one second long.
    pub open spec fn wf(&self) -> bool {
        self.duration >= NANOS_PER_SEC
    }

    /// Number of times the timer fires when `delta` nanoseconds pass.
    pub open spec fn fires(&self, delta: int) -> int {
        (self.elapsed + delta) / (self.duration as int)
    }

    /// The timer after `delta` nanoseconds pass.
    pub open spec fn advanced(&self, delta: int) -> RepeatingTimer {
        RepeatingTimer {
            duration: self.duration,
            elapsed: ((self.elapsed + delta) % (self.duration as int)) as u64,
        }
    }

    /// A timer with a period of `speed` seconds, set one second short of its first firing.
    pub fn new(speed: u8) -> (r: Self)
        requires
            speed >= 1,
        ensures
            r.wf(),
            r.duration == speed * NANOS_PER_SEC,
            r.elapsed == (speed - 1) * NANOS_PER_SEC,
    {
        RepeatingTimer {
            duration: speed as u64 * NANOS_PER_SEC,
            elapsed: (speed - 1) as u64 * NANOS_PER_SEC,
        }
    }

    /// Changes the period to `speed` seconds; elapsed time is kept.
    pub fn set_duration(&mut self, speed: u8)
        requires
            speed >= 1,
        ensures
            final(self).wf(),
            final(self).duration == speed * NANOS_PER_SEC,
            final(self).elapsed == old(self).elapsed,
    {
        self.duration = speed as u64 * NANOS_PER_SEC;
    }

    /// Lets `delta` nanoseconds pass and returns how many times the timer fired.
    pub fn tick(&mut self, delta: u64) -> (r: u64)
        requires
            old(self).wf(),
        ensures
            final(self).wf(),
            r == old(self).fires(delta as int),
            *final(self) == old(self).advanced(delta as int),
    {
        let total: u128 = self.elapsed as u128 + delta as u128;
        let d: u128 = self.duration as u128;
        let fired: u128 = total / d;
        let rest: u128 = total % d;
        proof {
            assert(total / d <= total / 1_000_000_000) by (nonlinear_arith)
                requires
                    d >= 1_000_000_000,
                    total >= 0,
            {
                vstd::arithmetic::div_mod::lemma_div_is_ordered_by_denominator(total as int, 1_000_000_000, d as int);
            }
            assert(total / 1_000_000_000 <= u64::MAX) by (nonlinear_arith)
                requires
                    total <= 2 * u64::MAX,
            ;
            assert(rest < d);
        }
        self.elapsed = rest as u64;
        fired as u64
    }
}

/// The repeating timers of the buildings that act over time, keyed by building id, in the
/// order in which they were registered.
pub struct Timers {
    pub map: Vec<(usize, RepeatingTimer)>,
}

impl Timers {
    /// Every timer is well formed and no building has two.
    pub open spec fn wf(&self) -> bool {
        &&& forall|i: int| 0 <= i < self.map@.len() ==> (#[trigger] self.map@[i]).1.wf()
        &&& forall|i: int, j: int|
            0 <= i < j < self.map@.len() ==> (#[trigger] self.map@[i]).0 != (#[trigger] self.map@[j]).0
    }

    /// Whether building `entity` has a timer.
    pub open spec fn has(&self, entity: usize) -> bool {
        exists|i: int| 0 <= i < self.map@.len() && (#[trigger] self.map@[i]).0 == entity
    }

    pub fn new() -> (r: Self)
        ensures
            r.wf(),
            r.map@.len() == 0,
    {
        Timers { map: Vec::new() }
    }

    /// Position of the timer of `entity`, if it has one.
    pub fn find(&self, entity: usize) -> (r: Option<usize>)
        ensures
            r matches Some(i) ==> i < self.map@.len() && self.map@[i as int].0 == entity,
            r.is_none() ==> !self.has(entity),
    {
        let mut i: usize = 0;
        while i < self.map.len()
            invariant
                0 <= i <= self.map@.len(),
                forall|j: int| 0 <= j < i ==> (#[trigger] self.map@[j]).0 != entity,
            decreases self.map@.len() - i,
        {
            if self.map[i].0 == entity {
                return Some(i);
            }
            i = i + 1;
        }
        None
    }

    /// Registers a timer of `speed` seconds for `entity`, set to fire on its first check;
    /// a timer it already had is replaced.
    pub fn add_timer(&mut self, entity: usize, speed: u8)
        requires
            old(self).wf(),
            speed >= 1,
        ensures
            final(self).wf(),
            final(self).has(entity),
            old(self).has(entity) ==> final(self).map@.len() == old(self).map@.len(),
            !old(self).has(entity) ==> final(self).map@ == old(self).map@.push(
                (entity, RepeatingTimer::new_spec(speed)),
            ),
            forall|i: int|
                0 <= i < old(self).map@.len() && old(self).map@[i].0 != entity
                    ==> #[trigger] final(self).map@[i] == old(self).map@[i],
            forall|i: int|
                0 <= i < final(self).map@.len() && final(self).map@[i].0 == entity
                    ==> #[trigger] final(self).map@[i].1 == RepeatingTimer::new_spec(speed),
    {
        let timer = RepeatingTimer::new(speed);
        match self.find(entity) {
            Some(i) => {
                self.map.set(i, (entity, timer));
                proof {
                    assert(self.map@[i as int].0 == entity);
                }
            },
            None => {
                self.map.push((entity, timer));
                proof {
                    assert(self.map@[self.map@.len() - 1].0 == entity);
                }
            },
        }
    }

    /// Gives the timer of `entity` a period of `speed` seconds, keeping its elapsed time.
    pub fn update_timer_speed(&mut self, entity: usize, speed: u8)
        requires
            old(self).wf(),
            old(self).has(entity),
            speed >= 1,
        ensures
            final(self).wf(),
            final(self).map@.len() == old(self).map@.len(),
            forall|i: int|
                0 <= i < old(self).map@.len() ==> #[trigger] final(self).map@[i] == if old(self).map@[i].0
                    == entity {
                    (
                        entity,
                        RepeatingTimer {
                            duration: (speed * NANOS_PER_SEC) as u64,
                            elapsed: old(self).map@[i].1.elapsed,
                        },
                    )
                } else {
                    old(self).map@[i]
                },
    {
        match self.find(entity) {
            Some(i) => {
                let mut timer = self.map[i].1;
                timer.set_duration(speed);
                self.map.set(i, (entity, timer));
                proof {
                    assert forall|j: int| 0 <= j < self.map@.len() && j != i implies self.map@[j].0 != entity by {
                        if self.map@[j].0 == entity {
                            if j < i {
                                assert(old(self).map@[j].0 != old(self).map@[i as int].0);
                            } else {
                                assert(old(self).map@[i as int].0 != old(self).map@[j].0);
                            }
                        }
                    }
                }
            },
            None => {},
        }
    }

    /// Lets `delta` nanoseconds pass on every timer; returns each building with the number
    /// of times its timer fired, in registration order.
    pub fn tick(&mut self, delta: u64) -> (r: Vec<(usize, u64)>)
        requires
            old(self).wf(),
        ensures
            final(self).wf(),
            r@.len() == old(self).map@.len(),
            final(self).map@.len() == old(self).map@.len(),
            forall|i: int|
                0 <= i < old(self).map@.len() ==> (#[trigger] r@[i]).0 == old(self).map@[i].0
                    && r@[i].1 == old(self).map@[i].1.fires(delta as int),
            forall|i: int|
                0 <= i < old(self).map@.len() ==> #[trigger] final(self).map@[i] == (
                    old(self).map@[i].0,
                    old(self).map@[i].1.advanced(delta as int),
                ),
    {
        let mut fired: Vec<(usize, u64)> = Vec::new();
        let n = self.map.len();
        let mut i: usize = 0;
        while i < n
            invariant
                n == self.map@.len(),
                n == old(self).map@.len(),
                0 <= i <= n,
                fired@.len() == i,
                self.wf(),
                forall|j: int|
                    0 <= j < i ==> (#[trigger] fired@[j]).0 == old(self).map@[j].0 && fired@[j].1
                        == old(self).map@[j].1.fires(delta as int),
                forall|j: int|
                    0 <= j < i ==> #[trigger] self.map@[j] == (
                        old(self).map@[j].0,
                        old(self).map@[j].1.advanced(delta as int),
                    ),
                forall|j: int| i <= j < n ==> #[trigger] self.map@[j] == old(self).map@[j],
            decreases n - i,
        {
            let (entity, mut timer) = self.map[i];
            let count = timer.tick(delta);
            self.map.set(i, (entity, timer));
            fired.push((entity, count));
            i = i + 1;
        }
        fired
    }
}

impl RepeatingTimer {
    /// The timer `new(speed)` returns.
    pub open spec fn new_spec(speed: u8) -> RepeatingTimer {
        RepeatingTimer {
            duration: (speed * NANOS_PER_SEC) as u64,
            elapsed: ((speed - 1) * NANOS_PER_SEC) as u64,
        }
    }
}

/// Seconds between two autosaves.
pub const AUTOSAVE_SECS: u8 = 5;

/// Decides when the game state is due to be saved.
pub struct AutoSaver {
    pub save_timer: RepeatingTimer,
}

impl AutoSaver {
    /// An autosaver whose first save comes after a full period.
    pub fn new() -> (r: Self)
        ensures
            r.save_timer.wf(),
            r.save_timer.duration == AUTOSAVE_SECS * NANOS_PER_SEC,
            r.save_timer.elapsed == 0,
    {
        AutoSaver { save_timer: RepeatingTimer { duration: AUTOSAVE_SECS as u64 * NANOS_PER_SEC, elapsed: 0 } }
    }

    /// Lets `delta` nanoseconds pass; true when a save is due.
    pub fn auto_save(&mut self, delta: u64) -> (r: bool)
        requires
            old(self).save_timer.wf(),
        ensures
            final(self).save_timer.wf(),
            final(self).save_timer == old(self).save_timer.advanced(delta as int),
            r == (old(self).save_timer.fires(delta as int) > 0),
    {
        self.save_timer.tick(delta) > 0
    }
}

/// Units of kind `t` that one production tick of a catalog row adds.
pub open spec fn yield_rate(s: LevelStats, t: ItemType) -> int {
    (if s.yields[0].0 == t { s.yields[0].1 as int } else { 0 }) + (if s.yields[1].0 == t {
        s.yields[1].1 as int
    } else {
        0
    }) + (if s.yields[2].0 == t { s.yields[2].1 as int } else { 0 })
}

/// An accumulated amount after `fires` ticks of `rate` units, held at the largest `u32`.
pub open spec fn produced(acc: u32, fires: int, rate: int) -> u32 {
    if acc + fires * rate > u32::MAX {
        u32::MAX
    } else {
        (acc + fires * rate) as u32
    }
}

/// Units of kind `t` per tick of row `s`.
fn rate_of(s: &LevelStats, t: ItemType) -> (r: u32)
    ensures
        r == yield_rate(*s, t),
{
    let mut r: u32 = 0;
    if s.yields[0].0 == t {
        r = r + s.yields[0].1 as u32;
    }
    if s.yields[1].0 == t {
        r = r + s.yields[1].1 as u32;
    }
    if s.yields[2].0 == t {
        r = r + s.yields[2].1 as u32;
    }
    r
}

/// Adds `fires` production ticks of catalog row `stats` to each yield slot of a building:
/// each slot gains the row's per-tick amount of its kind, once per tick.
pub fn produce(building: &mut Building, stats: &LevelStats, fires: u64)
    requires
        old(building).wf(),
    ensures
        final(building).wf(),
        final(building).building_type == old(building).building_type,
        final(building).level == old(building).level,
        final(building).speed == old(building).speed,
        final(building).yields@.len() == old(building).yields@.len(),
        forall|j: int|
            0 <= j < old(building).yields@.len() ==> #[trigger] final(building).yields@[j] == (
                old(building).yields@[j].0,
                produced(
                    old(building).yields@[j].1,
                    fires as int,
                    yield_rate(*stats, old(building).yields@[j].0),
                ),
            ),
{
    let n = building.yields.len();
    let mut j: usize = 0;
    while j < n
        invariant
            n == building.yields@.len(),
            n == old(building).yields@.len(),
            0 <= j <= n,
            building.building_type == old(building).building_type,
            building.level == old(building).level,
            building.speed == old(building).speed,
            forall|i: int|
                0 <= i < j ==> #[trigger] building.yields@[i] == (
                    old(building).yields@[i].0,
                    produced(
                        old(building).yields@[i].1,
                        fires as int,
                        yield_rate(*stats, old(building).yields@[i].0),
                    ),
                ),
            forall|i: int| j <= i < n ==> #[trigger] building.yields@[i] == old(building).yields@[i],
        decreases n - j,
    {
        let (t, acc) = building.yields[j];
        let rate = rate_of(stats, t);
        proof {
            assert(fires * rate <= u64::MAX * u32::MAX) by (nonlinear_arith)
                requires
                    fires <= u64::MAX,
                    rate <= u32::MAX,
            ;
        }
        let total: u128 = acc as u128 + fires as u128 * rate as u128;
        let next: u32 = if total > u32::MAX as u128 {
            u32::MAX
        } else {
            total as u32
        };
        building.yields.set(j, (t, next));
        j = j + 1;
    }
    proof {
        assert forall|a: int, b: int| 0 <= a < b < n implies building.yields@[a].0 != building.yields@[b].0 by {
            assert(building.yields@[a].0 == old(building).yields@[a].0);
            assert(building.yields@[b].0 == old(building).yields@[b].0);
        }
    }
}

} // verus!
