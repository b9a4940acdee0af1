//! Timed modifiers on the player: damage and healing over time, speed changes and stun.
use vstd::prelude::*;
use crate::geometry::valid_delta;

verus! {

/// Longest duration or tick interval of a status, in microseconds.
pub const TIME_LIMIT: i64 = 1_000_000_000_000;

/// Largest damage or healing of one tick.
pub const AMOUNT_LIMIT: i32 = 1_000_000;

/// A speed multiplier of one, in thousandths.
pub const PER_MILLE: i64 = 1000;

/// Largest speed multiplier, in thousandths.
pub const MULTIPLIER_LIMIT: i64 = 100_000;

#[derive(Clone, Copy, Debug, PartialEq, Eq, Structural)]
pub struct PoisonStatus {
    pub damage_per_tick: i32,
    pub tick_interval: i64,
    pub remaining_duration: i64,
    pub time_since_last_tick: i64,
}

#[derive(Clone, Copy, Debug, PartialEq, Eq, Structural)]
pub struct BurnStatus {
    pub damage_per_tick: i32,
    pub tick_interval: i64,
    pub remaining_duration: i64,
    pub time_since_last_tick: i64,
}

#[derive(Clone, Copy, Debug, PartialEq, Eq, Structural)]
pub struct SlowStatus {
    /// In thousandths.
    pub speed_multiplier: i64,
    pub remaining_duration: i64,
}

#[derive(Clone, Copy, Debug, PartialEq, Eq, Structural)]
pub struct StunStatus {
    pub remaining_duration: i64,
}

#[derive(Clone, Copy, Debug, PartialEq, Eq, Structural)]
pub struct RegenerationStatus {
    pub heal_per_tick: i32,
    pub tick_interval: i64,
    pub remaining_duration: i64,
    pub time_since_last_tick: i64,
}

#[derive(Clone, Copy, Debug, PartialEq, Eq, Structural)]
pub struct SpeedBoostStatus {
    /// In thousandths.
    pub speed_multiplier: i64,
    pub remaining_duration: i64,
}

/// One active effect; the player holds at most one of each kind.
#[derive(Clone, Copy, Debug, PartialEq, Eq, Structural)]
pub enum Status {
    Poison(PoisonStatus),
    Burn(BurnStatus),
    Slow(SlowStatus),
    Stun(StunStatus),
    Regeneration(RegenerationStatus),
    SpeedBoost(SpeedBoostStatus),
}

pub open spec fn valid_duration(t: int) -> bool {
    -TIME_LIMIT <= t <= TIME_LIMIT
}

pub open spec fn valid_timer(interval: int, since: int) -> bool {
    0 <= interval <= TIME_LIMIT && 0 <= since <= TIME_LIMIT
}

pub open spec fn valid_amount(a: int) -> bool {
    0 <= a <= AMOUNT_LIMIT
}

pub open spec fn valid_multiplier(m: int) -> bool {
    0 <= m <= MULTIPLIER_LIMIT
}

/// What is left of a duration after `delta`; never below zero.
pub open spec fn countdown(remaining: int, delta: int) -> int {
    if remaining > delta {
        remaining - delta
    } else {
        0
    }
}

/// A periodic effect fires in this frame.
pub open spec fn tick_due(since: int, interval: int, delta: int) -> bool {
    since + delta >= interval
}

/// The time since the last firing after this frame.
pub open spec fn since_after(since: int, interval: int, delta: int) -> int {
    if tick_due(since, interval, delta) {
        0
    } else {
        since + delta
    }
}

/// Two statuses are of the same kind.
pub open spec fn same_kind_spec(a: Status, b: Status) -> bool {
    a.kind_index() == b.kind_index()
}

/// A status list holds at most one status of each kind.
pub open spec fn distinct_kinds(s: Seq<Status>) -> bool {
    forall|i: int, j: int| 0 <= i < j < s.len() ==> #[trigger] s[i].kind_index() != #[trigger] s[j].kind_index()
}

impl Status {
    /// The position of the status's kind in the list of kinds.
    pub open spec fn kind_index(&self) -> int {
        match *self {
            Status::Poison(_) => 0,
            Status::Burn(_) => 1,
            Status::Slow(_) => 2,
            Status::Stun(_) => 3,
            Status::Regeneration(_) => 4,
            Status::SpeedBoost(_) => 5,
        }
    }

    pub open spec fn wf(&self) -> bool {
        match *self {
            Status::Poison(d) => valid_amount(d.damage_per_tick as int) && valid_timer(
                d.tick_interval as int,
                d.time_since_last_tick as int,
            ) && valid_duration(d.remaining_duration as int),
            Status::Burn(d) => valid_amount(d.damage_per_tick as int) && valid_timer(
                d.tick_interval as int,
                d.time_since_last_tick as int,
            ) && valid_duration(d.remaining_duration as int),
            Status::Slow(d) => valid_multiplier(d.speed_multiplier as int) && valid_duration(
                d.remaining_duration as int,
            ),
            Status::Stun(d) => valid_duration(d.remaining_duration as int),
            Status::Regeneration(d) => valid_amount(d.heal_per_tick as int) && valid_timer(
                d.tick_interval as int,
                d.time_since_last_tick as int,
            ) && valid_duration(d.remaining_duration as int),
            Status::SpeedBoost(d) => valid_multiplier(d.speed_multiplier as int)
                && valid_duration(d.remaining_duration as int),
        }
    }

    pub open spec fn remaining_spec(&self) -> i64 {
        match *self {
            Status::Poison(d) => d.remaining_duration,
            Status::Burn(d) => d.remaining_duration,
            Status::Slow(d) => d.remaining_duration,
            Status::Stun(d) => d.remaining_duration,
            Status::Regeneration(d) => d.remaining_duration,
            Status::SpeedBoost(d) => d.remaining_duration,
        }
    }

    pub open spec fn expired_spec(&self) -> bool {
        self.remaining_spec() <= 0
    }

    /// The status after `delta`: timers advanced, a due tick reset, the duration counted down.
    pub open spec fn ticked(&self, delta: int) -> Status {
        match *self {
            Status::Poison(d) => Status::Poison(
                PoisonStatus {
                    time_since_last_tick: since_after(
                        d.time_since_last_tick as int,
                        d.tick_interval as int,
                        delta,
                    ) as i64,
                    remaining_duration: countdown(d.remaining_duration as int, delta) as i64,
                    ..d
                },
            ),
            Status::Burn(d) => Status::Burn(
                BurnStatus {
                    time_since_last_tick: since_after(
                        d.time_since_last_tick as int,
                        d.tick_interval as int,
                        delta,
                    ) as i64,
                    remaining_duration: countdown(d.remaining_duration as int, delta) as i64,
                    ..d
                },
            ),
            Status::Slow(d) => Status::Slow(
                SlowStatus {
                    remaining_duration: countdown(d.remaining_duration as int, delta) as i64,
                    ..d
                },
            ),
            Status::Stun(d) => Status::Stun(
                StunStatus {
                    remaining_duration: countdown(d.remaining_duration as int, delta) as i64,
                },
            ),
            Status::Regeneration(d) => Status::Regeneration(
                RegenerationStatus {
                    time_since_last_tick: since_after(
                        d.time_since_last_tick as int,
                        d.tick_interval as int,
                        delta,
                    ) as i64,
                    remaining_duration: countdown(d.remaining_duration as int, delta) as i64,
                    ..d
                },
            ),
            Status::SpeedBoost(d) => Status::SpeedBoost(
                SpeedBoostStatus {
                    remaining_duration: countdown(d.remaining_duration as int, delta) as i64,
                    ..d
                },
            ),
        }
    }

    /// The change of health that this status causes over `delta`.
    pub open spec fn health_change(&self, delta: int) -> int {
        match *self {
            Status::Poison(d) => if tick_due(
                d.time_since_last_tick as int,
                d.tick_interval as int,
                delta,
            ) {
                -d.damage_per_tick
            } else {
                0
            },
            Status::Burn(d) => if tick_due(
                d.time_since_last_tick as int,
                d.tick_interval as int,
                delta,
            ) {
                -d.damage_per_tick
            } else {
                0
            },
            Status::Regeneration(d) => if tick_due(
                d.time_since_last_tick as int,
                d.tick_interval as int,
                delta,
            ) {
                d.heal_per_tick as int
            } else {
                0
            },
            _ => 0,
        }
    }

    pub open spec fn display_name_spec(&self) -> Seq<char> {
        match *self {
            Status::Poison(_) => "Poison"@,
            Status::Burn(_) => "Burn"@,
            Status::Slow(_) => "Slow"@,
            Status::Stun(_) => "Stun"@,
            Status::Regeneration(_) => "Regeneration"@,
            Status::SpeedBoost(_) => "Speed Boost"@,
        }
    }

    /// Whether the status has run out.
    pub fn is_expired(&self) -> (r: bool)
        ensures
            r == self.expired_spec(),
    {
        self.get_remaining_duration() <= 0
    }

    /// Time left before the status ends, in microseconds.
    pub fn get_remaining_duration(&self) -> (r: i64)
        ensures
            r == self.remaining_spec(),
    {
        match self {
            Status::Poison(data) => data.remaining_duration,
            Status::Burn(data) => data.remaining_duration,
            Status::Slow(data) => data.remaining_duration,
            Status::Stun(data) => data.remaining_duration,
            Status::Regeneration(data) => data.remaining_duration,
            Status::SpeedBoost(data) => data.remaining_duration,
        }
    }

    /// The name shown to the player.
    pub fn get_display_name(&self) -> (r: &'static str)
        ensures
            r@ == self.display_name_spec(),
    {
        match self {
            Status::Poison(_) => "Poison",
            Status::Burn(_) => "Burn",
            Status::Slow(_) => "Slow",
            Status::Stun(_) => "Stun",
            Status::Regeneration(_) => "Regeneration",
            Status::SpeedBoost(_) => "Speed Boost",
        }
    }

    /// Whether `other` is of the same kind as this status.
    pub fn same_kind(&self, other: &Status) -> (r: bool)
        ensures
            r == same_kind_spec(*self, *other),
    {
        match (self, other) {
            (Status::Poison(_), Status::Poison(_)) => true,
            (Status::Burn(_), Status::Burn(_)) => true,
            (Status::Slow(_), Status::Slow(_)) => true,
            (Status::Stun(_), Status::Stun(_)) => true,
            (Status::Regeneration(_), Status::Regeneration(_)) => true,
            (Status::SpeedBoost(_), Status::SpeedBoost(_)) => true,
            _ => false,
        }
    }

    /// Advances the status by `delta` and returns the change of health it causes.
    pub fn tick(&mut self, delta: i64) -> (change: i64)
        requires
            old(self).wf(),
            valid_delta(delta as int),
        ensures
            *final(self) == old(self).ticked(delta as int),
            change == old(self).health_change(delta as int),
            final(self).wf(),
            -AMOUNT_LIMIT <= change <= AMOUNT_LIMIT,
    {
        match self {
            Status::Poison(data) => {
                let due = advance_timer(&mut data.time_since_last_tick, data.tick_interval, delta);
                data.remaining_duration = count_down(data.remaining_duration, delta);
                if due {
                    -(data.damage_per_tick as i64)
                } else {
                    0
                }
            },
            Status::Burn(data) => {
                let due = advance_timer(&mut data.time_since_last_tick, data.tick_interval, delta);
                data.remaining_duration = count_down(data.remaining_duration, delta);
                if due {
                    -(data.damage_per_tick as i64)
                } else {
                    0
                }
            },
            Status::Slow(data) => {
                data.remaining_duration = count_down(data.remaining_duration, delta);
                0
            },
            Status::Stun(data) => {
                data.remaining_duration = count_down(data.remaining_duration, delta);
                0
            },
            Status::Regeneration(data) => {
                let due = advance_timer(&mut data.time_since_last_tick, data.tick_interval, delta);
                data.remaining_duration = count_down(data.remaining_duration, delta);
                if due {
                    data.heal_per_tick as i64
                } else {
                    0
                }
            },
            Status::SpeedBoost(data) => {
                data.remaining_duration = count_down(data.remaining_duration, delta);
                0
            },
        }
    }
}

/// Counts a duration down by `delta`, stopping at zero.
pub fn count_down(remaining: i64, delta: i64) -> (r: i64)
    requires
        valid_duration(remaining as int),
        valid_delta(delta as int),
    ensures
        r == countdown(remaining as int, delta as int),
        valid_duration(r as int),
{
    if remaining > delta {
        remaining - delta
    } else {
        0
    }
}

/// Adds `delta` to a periodic timer; when it reaches `interval` the timer restarts and
/// the result is `true`.
pub fn advance_timer(since: &mut i64, interval: i64, delta: i64) -> (due: bool)
    requires
        valid_timer(interval as int, *old(since) as int),
        valid_delta(delta as int),
    ensures
        due == tick_due(*old(since) as int, interval as int, delta as int),
        *final(since) == since_after(*old(since) as int, interval as int, delta as int),
        valid_timer(interval as int, *final(since) as int),
{
    let t = *since + delta;
    if t >= interval {
        *since = 0;
        true
    } else {
        *since = t;
        false
    }
}

} // verus!
