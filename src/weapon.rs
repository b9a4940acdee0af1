//! Weapons held in the player's slots: cadence, stacking, and the shape of each volley.
use vstd::prelude::*;
use crate::geometry::{valid_delta, Direction};
use crate::status::{advance_timer, since_after, tick_due, valid_amount, valid_timer};

verus! {

/// Number of weapon slots a player has.
pub const WEAPON_SLOTS: usize = 3;

/// Cosine and sine of ten and twenty degrees, scaled to `UNIT`.
pub const COS_10: i64 = 984_808;

pub const SIN_10: i64 = 173_648;

pub const COS_20: i64 = 939_693;

pub const SIN_20: i64 = 342_020;

/// State shared by every weapon kind.
#[derive(Clone, Copy, Debug, PartialEq, Eq, Structural)]
pub struct WeaponData {
    pub damage: i32,
    pub tick_interval: i64,
    pub time_since_last_tick: i64,
    /// How many times this weapon has been acquired.
    pub stack_count: u32,
}

/// The data a bolter carries.
pub type BolterData = WeaponData;

/// A weapon of one kind with its state.
#[derive(Clone, Copy, Debug, PartialEq, Eq, Structural)]
pub enum Weapon {
    Bolter(WeaponData),
    Shotgun(WeaponData),
    PowerSword(WeaponData),
    MultiMelta(WeaponData),
}

impl WeaponData {
    pub open spec fn wf(&self) -> bool {
        valid_amount(self.damage as int) && valid_timer(
            self.tick_interval as int,
            self.time_since_last_tick as int,
        ) && self.stack_count >= 1
    }

    /// The data after `delta`: the timer advanced, restarted when the weapon fires.
    pub open spec fn advanced(&self, delta: int) -> WeaponData {
        WeaponData {
            time_since_last_tick: since_after(
                self.time_since_last_tick as int,
                self.tick_interval as int,
                delta,
            ) as i64,
            ..*self
        }
    }

    /// The weapon fires in a frame of `delta`.
    pub open spec fn fires(&self, delta: int) -> bool {
        tick_due(self.time_since_last_tick as int, self.tick_interval as int, delta)
    }

    /// The data after acquiring the weapon once more.
    pub open spec fn stacked(&self) -> WeaponData {
        WeaponData {
            stack_count: if self.stack_count < u32::MAX {
                (self.stack_count + 1) as u32
            } else {
                self.stack_count
            },
            ..*self
        }
    }

    /// Fresh data for a weapon dealing `damage` every `tick_interval`.
    pub fn new(damage: i32, tick_interval: i64) -> (d: WeaponData)
        requires
            valid_timer(tick_interval as int, 0),
            valid_amount(damage as int),
        ensures
            d == (WeaponData { damage, tick_interval, time_since_last_tick: 0, stack_count: 1 }),
            d.wf(),
    {
        WeaponData { damage, tick_interval, time_since_last_tick: 0, stack_count: 1 }
    }
}

/// Two weapons are of the same kind.
pub open spec fn same_weapon_kind(a: Weapon, b: Weapon) -> bool {
    a.kind_index() == b.kind_index()
}

impl Weapon {
    /// The position of the weapon's kind in the list of kinds.
    pub open spec fn kind_index(&self) -> int {
        match *self {
            Weapon::Bolter(_) => 0,
            Weapon::Shotgun(_) => 1,
            Weapon::PowerSword(_) => 2,
            Weapon::MultiMelta(_) => 3,
        }
    }

    pub open spec fn data_spec(&self) -> WeaponData {
        match *self {
            Weapon::Bolter(d) => d,
            Weapon::Shotgun(d) => d,
            Weapon::PowerSword(d) => d,
            Weapon::MultiMelta(d) => d,
        }
    }

    /// The same kind of weapon holding `d`.
    pub open spec fn with_data(&self, d: WeaponData) -> Weapon {
        match *self {
            Weapon::Bolter(_) => Weapon::Bolter(d),
            Weapon::Shotgun(_) => Weapon::Shotgun(d),
            Weapon::PowerSword(_) => Weapon::PowerSword(d),
            Weapon::MultiMelta(_) => Weapon::MultiMelta(d),
        }
    }

    pub open spec fn wf(&self) -> bool {
        self.data_spec().wf()
    }

    pub open spec fn bolter_spec() -> Weapon {
        Weapon::Bolter(WeaponData { damage: 10, tick_interval: 1_000_000, time_since_last_tick: 0, stack_count: 1 })
    }

    /// The bolter the player starts with.
    pub fn bolter() -> (w: Weapon)
        ensures
            w == Weapon::bolter_spec(),
            w.wf(),
    {
        Weapon::Bolter(WeaponData::new(10, 1_000_000))
    }

    pub fn power_sword() -> (w: Weapon)
        ensures
            w == Weapon::PowerSword(WeaponData { damage: 24, tick_interval: 600_000, time_since_last_tick: 0, stack_count: 1 }),
            w.wf(),
    {
        Weapon::PowerSword(WeaponData::new(24, 600_000))
    }

    pub fn shotgun() -> (w: Weapon)
        ensures
            w == Weapon::Shotgun(WeaponData { damage: 8, tick_interval: 1_200_000, time_since_last_tick: 0, stack_count: 1 }),
            w.wf(),
    {
        Weapon::Shotgun(WeaponData::new(8, 1_200_000))
    }

    pub fn multi_melta() -> (w: Weapon)
        ensures
            w == Weapon::MultiMelta(WeaponData { damage: 18, tick_interval: 1_800_000, time_since_last_tick: 0, stack_count: 1 }),
            w.wf(),
    {
        Weapon::MultiMelta(WeaponData::new(18, 1_800_000))
    }

    /// The weapon's shared state.
    pub fn data(&self) -> (d: WeaponData)
        ensures
            d == self.data_spec(),
    {
        match self {
            Weapon::Bolter(d) => *d,
            Weapon::Shotgun(d) => *d,
            Weapon::PowerSword(d) => *d,
            Weapon::MultiMelta(d) => *d,
        }
    }

    /// Whether `other` is of the same kind.
    pub fn same_kind(&self, other: &Weapon) -> (r: bool)
        ensures
            r == same_weapon_kind(*self, *other),
    {
        match (self, other) {
            (Weapon::Bolter(_), Weapon::Bolter(_)) => true,
            (Weapon::Shotgun(_), Weapon::Shotgun(_)) => true,
            (Weapon::PowerSword(_), Weapon::PowerSword(_)) => true,
            (Weapon::MultiMelta(_), Weapon::MultiMelta(_)) => true,
            _ => false,
        }
    }

    /// Replaces the weapon's shared state, keeping its kind.
    pub fn set_data(&mut self, d: WeaponData)
        ensures
            *final(self) == old(self).with_data(d),
    {
        match self {
            Weapon::Bolter(x) => *x = d,
            Weapon::Shotgun(x) => *x = d,
            Weapon::PowerSword(x) => *x = d,
            Weapon::MultiMelta(x) => *x = d,
        }
    }

    /// Advances the weapon's timer by `delta`; returns whether it fires in this frame.
    pub fn advance(&mut self, delta: i64) -> (fired: bool)
        requires
            old(self).wf(),
            valid_delta(delta as int),
        ensures
            fired == old(self).data_spec().fires(delta as int),
            *final(self) == old(self).with_data(old(self).data_spec().advanced(delta as int)),
            final(self).wf(),
    {
        let mut d = self.data();
        let fired = advance_timer(&mut d.time_since_last_tick, d.tick_interval, delta);
        self.set_data(d);
        fired
    }

    /// Acquires the weapon once more.
    pub fn stack(&mut self)
        requires
            old(self).wf(),
        ensures
            *final(self) == old(self).with_data(old(self).data_spec().stacked()),
            final(self).wf(),
    {
        let mut d = self.data();
        if d.stack_count < u32::MAX {
            d.stack_count = d.stack_count + 1;
        }
        self.set_data(d);
    }
}

/// The direction of the `k`-th of five pellets, fanned at -20, -10, 0, 10 and 20 degrees
/// around `facing`.
pub open spec fn spread_spec(facing: Direction, k: int) -> (i64, i64) {
    let (c, s): (int, int) = if k == 0 {
        (COS_20 as int, -SIN_20)
    } else if k == 1 {
        (COS_10 as int, -SIN_10)
    } else if k == 2 {
        (1_000_000, 0)
    } else if k == 3 {
        (COS_10 as int, SIN_10 as int)
    } else {
        (COS_20 as int, SIN_20 as int)
    };
    match facing {
        Direction::Right => (c as i64, s as i64),
        Direction::Down => ((-s) as i64, c as i64),
        Direction::Left => ((-c) as i64, (-s) as i64),
        Direction::Up => (s as i64, (-c) as i64),
    }
}

/// The direction of the `k`-th pellet of a shotgun volley toward `facing`.
pub fn spread_direction(facing: Direction, k: usize) -> (r: (i64, i64))
    requires
        k < 5,
    ensures
        r == spread_spec(facing, k as int),
        -1_000_000 <= r.0 <= 1_000_000,
        -1_000_000 <= r.1 <= 1_000_000,
{
    let (c, s): (i64, i64) = if k == 0 {
        (COS_20, -SIN_20)
    } else if k == 1 {
        (COS_10, -SIN_10)
    } else if k == 2 {
        (1_000_000, 0)
    } else if k == 3 {
        (COS_10, SIN_10)
    } else {
        (COS_20, SIN_20)
    };
    match facing {
        Direction::Right => (c, s),
        Direction::Down => (-s, c),
        Direction::Left => (-c, -s),
        Direction::Up => (s, -c),
    }
}

} // verus!
