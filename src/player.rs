//! The player: movement, status effects, weapon slots and the volleys they fire, and
//! contact with enemies.
use vstd::prelude::*;
use crate::enemy::{contact_total, enemy_step, AllEnemies, HEALTH_LIMIT};
use crate::geometry::{
    clamp, clamp_world, displacement, displacement_of, trunc_div, unit_of, unit_toward,
    valid_delta, valid_size, Direction, Position, SPEED_LIMIT, UNIT, WORLD_LIMIT,
};
use crate::projectile::{
    scale_unit, sword_anchor, valid_unit, BolterProjectile, MultiMeltaProjectile,
    PowerSwordProjectile, Projectile, ShotgunProjectile, BOLTER_SIZE, BOLTER_SPEED, MELTA_LENGTH,
    MELTA_RANGE, MELTA_SPEED, MELTA_WIDTH_END, MELTA_WIDTH_START, SHOTGUN_HEIGHT, SHOTGUN_SPEED,
    SHOTGUN_TAIL, SHOTGUN_WIDTH, SWORD_HEIGHT, SWORD_LIFETIME, SWORD_SLASH_DISTANCE, SWORD_WIDTH,
};
use crate::status::{distinct_kinds, same_kind_spec, Status, MULTIPLIER_LIMIT, PER_MILLE};
use crate::weapon::{same_weapon_kind, spread_direction, spread_spec, Weapon, WEAPON_SLOTS};

verus! {

/// Fastest base movement speed of the player.
pub const MOVE_SPEED_LIMIT: i64 = 100_000_000;

/// Largest product of one slow and one speed boost, in thousandths.
pub const COMBINED_MULTIPLIER_LIMIT: i64 = 10_000_000;

/// Directional intent for one frame.
#[derive(Clone, Copy, Debug, PartialEq, Eq, Structural)]
pub struct MoveInput {
    pub up: bool,
    pub down: bool,
    pub left: bool,
    pub right: bool,
}

/// The player: position, health, active statuses and weapon slots.
pub struct Player {
    pub position: Position,
    /// Base movement speed, per second.
    pub move_speed: i64,
    pub health: i32,
    pub max_health: i32,
    pub statuses: Vec<Status>,
    /// Fixed slots, each empty or holding one weapon.
    pub weapons: Vec<Option<Weapon>>,
    /// Aim direction, a vector of length about `UNIT`.
    pub aim_x: i64,
    pub aim_y: i64,
    /// Direction of the last movement input.
    pub moving_direction: Direction,
    pub collision_radius: i64,
    /// Number of frames in which the weapons were updated; names the sword swings.
    pub volley_count: u64,
}

/// The speed multiplier of a status list, in thousandths: stun stops movement, slow and
/// speed boost multiply.
pub open spec fn speed_multiplier_spec(s: Seq<Status>) -> int
    decreases s.len(),
{
    if s.len() == 0 {
        PER_MILLE as int
    } else {
        let m = speed_multiplier_spec(s.drop_last());
        match s.last() {
            Status::Stun(_) => 0,
            Status::Slow(d) => m * d.speed_multiplier / PER_MILLE as int,
            Status::SpeedBoost(d) => m * d.speed_multiplier / PER_MILLE as int,
            _ => m,
        }
    }
}

/// A stun anywhere in the list stops movement, whatever else is active.
pub proof fn lemma_stun_stops(s: Seq<Status>, i: int)
    requires
        0 <= i < s.len(),
        s[i] is Stun,
    ensures
        speed_multiplier_spec(s) == 0,
    decreases s.len(),
{
    if i < s.len() - 1 {
        assert(s.drop_last()[i] == s[i]);
        lemma_stun_stops(s.drop_last(), i);
    }
}

/// The sum of the health changes of a status list over `delta`.
pub open spec fn total_change(s: Seq<Status>, delta: int) -> int
    decreases s.len(),
{
    if s.len() == 0 {
        0
    } else {
        total_change(s.drop_last(), delta) + s.last().health_change(delta)
    }
}

/// A status list after one frame: every status advanced, the expired ones dropped.
pub open spec fn statuses_after(s: Seq<Status>, delta: int) -> Seq<Status> {
    s.map_values(|x: Status| x.ticked(delta)).filter(|x: Status| !x.expired_spec())
}

/// A status list after adding `st`: any status of its kind is replaced.
pub open spec fn with_status(s: Seq<Status>, st: Status) -> Seq<Status> {
    s.filter(|x: Status| !same_kind_spec(x, st)).push(st)
}

/// Slot `i` holds a weapon of the kind of `w`.
pub open spec fn holds_kind(slots: Seq<Option<Weapon>>, i: int, w: Weapon) -> bool {
    match slots[i] {
        Some(x) => same_weapon_kind(x, w),
        None => false,
    }
}

/// No two slots hold weapons of one kind.
pub open spec fn distinct_slots(slots: Seq<Option<Weapon>>) -> bool {
    forall|i: int, j: int|
        0 <= i < j < slots.len() && #[trigger] slots[i] is Some && #[trigger] slots[j] is Some
            ==> slots[i]->Some_0.kind_index() != slots[j]->Some_0.kind_index()
}

/// The first slot holding a weapon of the kind of `w`, or -1.
pub open spec fn held_slot(slots: Seq<Option<Weapon>>, w: Weapon) -> int {
    if holds_kind(slots, 0, w) {
        0
    } else if holds_kind(slots, 1, w) {
        1
    } else if holds_kind(slots, 2, w) {
        2
    } else {
        -1
    }
}

/// The first empty slot, or -1.
pub open spec fn empty_slot(slots: Seq<Option<Weapon>>) -> int {
    if slots[0] is None {
        0
    } else if slots[1] is None {
        1
    } else if slots[2] is None {
        2
    } else {
        -1
    }
}

/// The slots after acquiring `w`, and whether it was taken: a kind already held gains a
/// stack, a new kind takes the first empty slot, and with every slot taken nothing changes.
pub open spec fn with_weapon(slots: Seq<Option<Weapon>>, w: Weapon) -> (Seq<Option<Weapon>>, bool) {
    let h = held_slot(slots, w);
    let e = empty_slot(slots);
    if h >= 0 {
        (slots.update(h, Some(slots[h]->Some_0.with_data(slots[h]->Some_0.data_spec().stacked()))), true)
    } else if e >= 0 {
        (slots.update(e, Some(w)), true)
    } else {
        (slots, false)
    }
}

/// A slot after its weapon's timer advanced by `delta`.
pub open spec fn slot_advanced(slot: Option<Weapon>, delta: int) -> Option<Weapon> {
    match slot {
        Some(w) => Some(w.with_data(w.data_spec().advanced(delta))),
        None => None,
    }
}

/// The number that names the sword swings of the next volley.
pub open spec fn next_volley(count: u64) -> u64 {
    if count < u64::MAX {
        (count + 1) as u64
    } else {
        count
    }
}

impl Player {
    pub open spec fn wf(&self) -> bool {
        &&& self.position.wf()
        &&& 0 <= self.move_speed <= MOVE_SPEED_LIMIT
        &&& 0 <= self.health <= self.max_health <= HEALTH_LIMIT
        &&& forall|i: int| 0 <= i < self.statuses.len() ==> (#[trigger] self.statuses@[i]).wf()
        &&& distinct_kinds(self.statuses@)
        &&& self.weapons.len() == WEAPON_SLOTS
        &&& distinct_slots(self.weapons@)
        &&& forall|i: int| 0 <= i < self.weapons.len() ==> match #[trigger] self.weapons@[i] {
            Some(w) => w.wf(),
            None => true,
        }
        &&& valid_unit(self.aim_x as int, self.aim_y as int)
        &&& valid_size(self.collision_radius as int)
    }

    /// Where aimed shots leave the player: on its edge along the aim.
    pub open spec fn muzzle(&self) -> Position {
        Position {
            x: clamp(
                self.position.x + trunc_div(self.aim_x * self.collision_radius, UNIT as int),
                -WORLD_LIMIT as int,
                WORLD_LIMIT as int,
            ) as i64,
            y: clamp(
                self.position.y + trunc_div(self.aim_y * self.collision_radius, UNIT as int),
                -WORLD_LIMIT as int,
                WORLD_LIMIT as int,
            ) as i64,
        }
    }

    /// The projectiles that weapon `w` fires from this player, with `swing` naming a slash.
    pub open spec fn volley_spec(&self, w: Weapon, swing: u64) -> Seq<Projectile> {
        match w {
            Weapon::Bolter(d) => seq![
                Projectile::Bolter(
                    BolterProjectile {
                        speed: BOLTER_SPEED,
                        damage: d.damage,
                        hits: 0,
                        position: self.muzzle(),
                        direction_x: self.aim_x,
                        direction_y: self.aim_y,
                        width: BOLTER_SIZE,
                        height: BOLTER_SIZE,
                    },
                ),
            ],
            Weapon::MultiMelta(d) => seq![
                Projectile::MultiMelta(
                    MultiMeltaProjectile {
                        speed: MELTA_SPEED,
                        damage: d.damage,
                        position: self.muzzle(),
                        direction_x: self.aim_x,
                        direction_y: self.aim_y,
                        distance_traveled: 0,
                        max_range: MELTA_RANGE,
                        width_start: MELTA_WIDTH_START,
                        width_end: MELTA_WIDTH_END,
                        length: MELTA_LENGTH,
                    },
                ),
            ],
            Weapon::Shotgun(d) => Seq::new(
                5,
                |k: int|
                    Projectile::Shotgun(
                        ShotgunProjectile {
                            speed: SHOTGUN_SPEED,
                            damage: d.damage,
                            hits: 0,
                            position: self.position,
                            direction_x: spread_spec(self.moving_direction, k).0,
                            direction_y: spread_spec(self.moving_direction, k).1,
                            width: SHOTGUN_WIDTH,
                            height: SHOTGUN_HEIGHT,
                            tail_length: SHOTGUN_TAIL,
                        },
                    ),
            ),
            Weapon::PowerSword(d) => seq![
                Projectile::PowerSword(
                    PowerSwordProjectile {
                        damage: d.damage,
                        position: sword_anchor(
                            self.position,
                            self.moving_direction,
                            self.collision_radius as int,
                        ),
                        direction: self.moving_direction,
                        lifetime: SWORD_LIFETIME,
                        max_lifetime: SWORD_LIFETIME,
                        width: SWORD_WIDTH,
                        height: SWORD_HEIGHT,
                        slash_distance: SWORD_SLASH_DISTANCE,
                        swing,
                    },
                ),
            ],
        }
    }

    /// What a slot fires in a frame of `delta`.
    pub open spec fn slot_volley(&self, slot: Option<Weapon>, delta: int, swing: u64) -> Seq<Projectile> {
        match slot {
            Some(w) => if w.data_spec().fires(delta) {
                self.volley_spec(w, swing)
            } else {
                Seq::empty()
            },
            None => Seq::empty(),
        }
    }

    /// A player at `position` with full health, no statuses and a bolter.
    pub fn new(position: Position) -> (p: Player)
        requires
            position.wf(),
        ensures
            p.wf(),
            p.position == position,
            p.health == 100,
            p.max_health == 100,
            p.statuses@.len() == 0,
            p.weapons@ == seq![Some(Weapon::bolter_spec()), None::<Weapon>, None::<Weapon>],
            p.move_speed == 300_000,
            p.aim_x == UNIT && p.aim_y == 0,
            p.moving_direction == Direction::Right,
            p.collision_radius == 32_000,
            p.volley_count == 0,
    {
        let mut weapons: Vec<Option<Weapon>> = Vec::new();
        weapons.push(Some(Weapon::bolter()));
        weapons.push(None);
        weapons.push(None);
        Player {
            position,
            move_speed: 300_000,
            health: 100,
            max_health: 100,
            statuses: Vec::new(),
            weapons,
            aim_x: UNIT,
            aim_y: 0,
            moving_direction: Direction::Right,
            collision_radius: 32_000,
            volley_count: 0,
        }
    }

    /// Whether the player still has health.
    pub fn is_alive(&self) -> (r: bool)
        ensures
            r == (self.health > 0),
    {
        self.health > 0
    }

    /// Points the aim at `target`; a target on the player leaves the aim as it was.
    pub fn aim_at(&mut self, target: Position)
        requires
            old(self).wf(),
            target.wf(),
        ensures
            final(self).wf(),
            match unit_of(target.x - old(self).position.x, target.y - old(self).position.y) {
                Some((ux, uy)) => final(self).aim_x == ux && final(self).aim_y == uy,
                None => final(self).aim_x == old(self).aim_x && final(self).aim_y == old(self).aim_y,
            },
            final(self).position == old(self).position,
            final(self).move_speed == old(self).move_speed,
            final(self).health == old(self).health,
            final(self).max_health == old(self).max_health,
            final(self).statuses@ == old(self).statuses@,
            final(self).weapons@ == old(self).weapons@,
            final(self).moving_direction == old(self).moving_direction,
            final(self).collision_radius == old(self).collision_radius,
            final(self).volley_count == old(self).volley_count,
    {
        match unit_toward(self.position, target) {
            Some((ux, uy)) => {
                self.aim_x = ux;
                self.aim_y = uy;
            },
            None => {},
        }
    }

    /// Moves the player for `delta` along the pressed directions at its speed times the
    /// status multiplier; the last pressed of up, down, left, right sets the direction.
    pub fn handle_user_input(&mut self, input: MoveInput, delta: i64)
        requires
            old(self).wf(),
            valid_delta(delta as int),
        ensures
            final(self).wf(),
            ({
                let d = displacement_of(
                    trunc_div(old(self).move_speed * speed_multiplier_spec(old(self).statuses@), PER_MILLE as int),
                    delta as int,
                );
                let dx = (if input.right { d } else { 0 }) - (if input.left { d } else { 0 });
                let dy = (if input.down { d } else { 0 }) - (if input.up { d } else { 0 });
                &&& final(self).position.x == clamp(old(self).position.x + dx, -WORLD_LIMIT as int, WORLD_LIMIT as int)
                &&& final(self).position.y == clamp(old(self).position.y + dy, -WORLD_LIMIT as int, WORLD_LIMIT as int)
            }),
            final(self).moving_direction == (if input.right {
                Direction::Right
            } else if input.left {
                Direction::Left
            } else if input.down {
                Direction::Down
            } else if input.up {
                Direction::Up
            } else {
                old(self).moving_direction
            }),
            final(self).health == old(self).health,
            final(self).max_health == old(self).max_health,
            final(self).statuses@ == old(self).statuses@,
            final(self).weapons@ == old(self).weapons@,
            final(self).aim_x == old(self).aim_x,
            final(self).aim_y == old(self).aim_y,
            final(self).move_speed == old(self).move_speed,
            final(self).collision_radius == old(self).collision_radius,
            final(self).volley_count == old(self).volley_count,
    {
        let m = self.calculate_speed_multiplier();
        proof {
            assert(0 <= self.move_speed * m <= MOVE_SPEED_LIMIT * COMBINED_MULTIPLIER_LIMIT) by (nonlinear_arith)
                requires
                    0 <= self.move_speed <= MOVE_SPEED_LIMIT,
                    0 <= m <= COMBINED_MULTIPLIER_LIMIT,
            ;
        }
        let speed = ((self.move_speed as i128 * m as i128) / PER_MILLE as i128) as i64;
        proof {
            assert(speed <= SPEED_LIMIT) by (nonlinear_arith)
                requires
                    speed == (self.move_speed * m) / 1000,
                    0 <= self.move_speed * m <= MOVE_SPEED_LIMIT * COMBINED_MULTIPLIER_LIMIT,
            ;
            assert(speed >= 0) by (nonlinear_arith)
                requires
                    speed == (self.move_speed * m) / 1000,
                    0 <= self.move_speed * m,
            ;
        }
        let d = displacement(speed, delta) as i128;
        let mut dx: i128 = 0;
        let mut dy: i128 = 0;
        if input.up {
            dy = dy - d;
            self.moving_direction = Direction::Up;
        }
        if input.down {
            dy = dy + d;
            self.moving_direction = Direction::Down;
        }
        if input.left {
            dx = dx - d;
            self.moving_direction = Direction::Left;
        }
        if input.right {
            dx = dx + d;
            self.moving_direction = Direction::Right;
        }
        self.position = Position {
            x: clamp_world(self.position.x as i128 + dx),
            y: clamp_world(self.position.y as i128 + dy),
        };
    }

    /// The movement multiplier of the active statuses, in thousandths.
    pub fn calculate_speed_multiplier(&self) -> (m: i64)
        requires
            forall|i: int| 0 <= i < self.statuses.len() ==> (#[trigger] self.statuses@[i]).wf(),
            distinct_kinds(self.statuses@),
        ensures
            m == speed_multiplier_spec(self.statuses@),
            0 <= m <= COMBINED_MULTIPLIER_LIMIT,
            (exists|i: int| 0 <= i < self.statuses.len() && #[trigger] self.statuses@[i] is Stun) ==> m == 0,
    {
        proof {
            if exists|i: int| 0 <= i < self.statuses.len() && #[trigger] self.statuses@[i] is Stun {
                let i = choose|i: int| 0 <= i < self.statuses.len() && #[trigger] self.statuses@[i] is Stun;
                lemma_stun_stops(self.statuses@, i);
            }
        }
        let mut multiplier: i64 = PER_MILLE;
        let n = self.statuses.len();
        let ghost s0 = self.statuses@;
        let ghost mut slow_seen: bool = false;
        let ghost mut boost_seen: bool = false;
        let mut i: usize = 0;
        while i < n
            invariant
                0 <= i <= n,
                n == self.statuses.len(),
                s0 == self.statuses@,
                forall|j: int| 0 <= j < n ==> (#[trigger] s0[j]).wf(),
                distinct_kinds(s0),
                multiplier == speed_multiplier_spec(s0.take(i as int)),
                slow_seen ==> exists|j: int| 0 <= j < i && (#[trigger] s0[j]).kind_index() == 2,
                boost_seen ==> exists|j: int| 0 <= j < i && (#[trigger] s0[j]).kind_index() == 5,
                0 <= multiplier <= if slow_seen && boost_seen {
                    COMBINED_MULTIPLIER_LIMIT as int
                } else if slow_seen || boost_seen {
                    MULTIPLIER_LIMIT as int
                } else {
                    PER_MILLE as int
                },
            decreases n - i,
        {
            let s = self.statuses[i];
            assert(s0.take(i + 1).drop_last() == s0.take(i as int));
            assert(s0.take(i + 1).last() == s);
            match s {
                Status::Stun(_) => {
                    multiplier = 0;
                },
                Status::Slow(d) => {
                    proof {
                        if slow_seen {
                            let j = choose|j: int| 0 <= j < i && (#[trigger] s0[j]).kind_index() == 2;
                            assert(s0[j].kind_index() != s0[i as int].kind_index());
                        }
                    }
                    let ghost before = multiplier;
                    multiplier = scale_multiplier(multiplier, d.speed_multiplier);
                    proof {
                        assert(before * d.speed_multiplier <= before * MULTIPLIER_LIMIT) by (nonlinear_arith)
                            requires
                                0 <= before,
                                d.speed_multiplier <= MULTIPLIER_LIMIT,
                        ;
                        assert(before * d.speed_multiplier >= 0) by (nonlinear_arith)
                            requires
                                0 <= before,
                                0 <= d.speed_multiplier,
                        ;
                        slow_seen = true;
                        assert(s0[i as int].kind_index() == 2);
                    }
                },
                Status::SpeedBoost(d) => {
                    proof {
                        if boost_seen {
                            let j = choose|j: int| 0 <= j < i && (#[trigger] s0[j]).kind_index() == 5;
                            assert(s0[j].kind_index() != s0[i as int].kind_index());
                        }
                    }
                    let ghost before = multiplier;
                    multiplier = scale_multiplier(multiplier, d.speed_multiplier);
                    proof {
                        assert(before * d.speed_multiplier <= before * MULTIPLIER_LIMIT) by (nonlinear_arith)
                            requires
                                0 <= before,
                                d.speed_multiplier <= MULTIPLIER_LIMIT,
                        ;
                        assert(before * d.speed_multiplier >= 0) by (nonlinear_arith)
                            requires
                                0 <= before,
                                0 <= d.speed_multiplier,
                        ;
                        boost_seen = true;
                        assert(s0[i as int].kind_index() == 5);
                    }
                },
                _ => {},
            }
            i += 1;
        }
        assert(s0.take(n as int) == s0);
        multiplier
    }

    /// Advances every status by `delta`, applies their damage and healing, clamps health to
    /// `[0, max_health]` and drops the expired statuses.
    pub fn handle_status_effects(&mut self, delta: i64)
        requires
            old(self).wf(),
            valid_delta(delta as int),
        ensures
            final(self).wf(),
            final(self).health == clamp(
                old(self).health + total_change(old(self).statuses@, delta as int),
                0,
                old(self).max_health as int,
            ),
            0 <= final(self).health <= final(self).max_health,
            final(self).statuses@ == statuses_after(old(self).statuses@, delta as int),
            final(self).max_health == old(self).max_health,
            final(self).position == old(self).position,
            final(self).weapons@ == old(self).weapons@,
            final(self).aim_x == old(self).aim_x,
            final(self).aim_y == old(self).aim_y,
            final(self).moving_direction == old(self).moving_direction,
            final(self).move_speed == old(self).move_speed,
            final(self).collision_radius == old(self).collision_radius,
            final(self).volley_count == old(self).volley_count,
    {
        let ghost s0 = self.statuses@;
        let n = self.statuses.len();
        let mut change: i128 = 0;
        let mut kept: Vec<Status> = Vec::new();
        let mut i: usize = 0;
        while i < n
            invariant
                0 <= i <= n,
                n == s0.len(),
                self.statuses@ == s0,
                s0 == old(self).statuses@,
                valid_delta(delta as int),
                forall|j: int| 0 <= j < n ==> (#[trigger] s0[j]).wf(),
                change == total_change(s0.take(i as int), delta as int),
                -1_000_000 * i <= change <= 1_000_000 * i,
                kept@ == s0.take(i as int).map_values(|x: Status| x.ticked(delta as int)).filter(
                    |x: Status| !x.expired_spec(),
                ),
                forall|j: int| 0 <= j < kept.len() ==> (#[trigger] kept@[j]).wf(),
                distinct_kinds(s0),
                distinct_kinds(kept@),
                forall|k: int, j: int|
                    0 <= k < kept.len() && i <= j < n ==> #[trigger] kept@[k].kind_index() != #[trigger] s0[j].kind_index(),
            decreases n - i,
        {
            let mut s = self.statuses[i];
            assert(s0.take(i + 1).drop_last() == s0.take(i as int));
            assert(s0.take(i + 1).last() == s);
            assert(s0.take(i + 1).map_values(|x: Status| x.ticked(delta as int)).drop_last()
                == s0.take(i as int).map_values(|x: Status| x.ticked(delta as int)));
            reveal_with_fuel(Seq::filter, 1);
            let c = s.tick(delta);
            assert(s.kind_index() == s0[i as int].kind_index());
            change = change + c as i128;
            if !s.is_expired() {
                kept.push(s);
            }
            i += 1;
        }
        assert(s0.take(n as int) == s0);
        let h = self.health as i128 + change;
        if h < 0 {
            self.health = 0;
        } else if h > self.max_health as i128 {
            self.health = self.max_health;
        } else {
            self.health = h as i32;
        }
        self.statuses = kept;
    }

    /// Adds `status`, replacing any active status of the same kind.
    pub fn add_status(&mut self, status: Status)
        requires
            old(self).wf(),
            status.wf(),
        ensures
            final(self).wf(),
            final(self).statuses@ == with_status(old(self).statuses@, status),
            final(self).health == old(self).health,
            final(self).max_health == old(self).max_health,
            final(self).position == old(self).position,
            final(self).weapons@ == old(self).weapons@,
            final(self).aim_x == old(self).aim_x,
            final(self).aim_y == old(self).aim_y,
            final(self).moving_direction == old(self).moving_direction,
            final(self).move_speed == old(self).move_speed,
            final(self).collision_radius == old(self).collision_radius,
            final(self).volley_count == old(self).volley_count,
    {
        let ghost s0 = self.statuses@;
        let n = self.statuses.len();
        let mut kept: Vec<Status> = Vec::new();
        let mut i: usize = 0;
        while i < n
            invariant
                0 <= i <= n,
                n == s0.len(),
                self.statuses@ == s0,
                forall|j: int| 0 <= j < n ==> (#[trigger] s0[j]).wf(),
                kept@ == s0.take(i as int).filter(|x: Status| !same_kind_spec(x, status)),
                forall|j: int| 0 <= j < kept.len() ==> (#[trigger] kept@[j]).wf(),
                distinct_kinds(s0),
                distinct_kinds(kept@),
                forall|k: int| 0 <= k < kept.len() ==> (#[trigger] kept@[k]).kind_index() != status.kind_index(),
                forall|k: int, j: int|
                    0 <= k < kept.len() && i <= j < n ==> #[trigger] kept@[k].kind_index() != #[trigger] s0[j].kind_index(),
            decreases n - i,
        {
            let s = self.statuses[i];
            assert(s0.take(i + 1).drop_last() == s0.take(i as int));
            assert(s0.take(i + 1).last() == s);
            reveal_with_fuel(Seq::filter, 1);
            if !s.same_kind(&status) {
                kept.push(s);
            }
            i += 1;
        }
        assert(s0.take(n as int) == s0);
        kept.push(status);
        self.statuses = kept;
    }

    /// The name and remaining time of each active status, in order.
    pub fn get_active_status_names(&self) -> (r: Vec<(String, i64)>)
        ensures
            r@.len() == self.statuses@.len(),
            forall|i: int| 0 <= i < r@.len() ==> (#[trigger] r@[i]).0@ == self.statuses@[i].display_name_spec()
                && r@[i].1 == self.statuses@[i].remaining_spec(),
    {
        let mut r: Vec<(String, i64)> = Vec::new();
        let n = self.statuses.len();
        let mut i: usize = 0;
        while i < n
            invariant
                0 <= i <= n,
                n == self.statuses.len(),
                r@.len() == i,
                forall|j: int| 0 <= j < i ==> (#[trigger] r@[j]).0@ == self.statuses@[j].display_name_spec()
                    && r@[j].1 == self.statuses@[j].remaining_spec(),
            decreases n - i,
        {
            let s = self.statuses[i];
            let name = s.get_display_name().to_owned();
            r.push((name, s.get_remaining_duration()));
            i += 1;
        }
        r
    }

    /// Whether every weapon slot is taken.
    pub fn has_full_weapon_slots(&self) -> (r: bool)
        requires
            self.weapons.len() == WEAPON_SLOTS,
        ensures
            r == (self.weapons@[0] is Some && self.weapons@[1] is Some && self.weapons@[2] is Some),
    {
        self.weapons[0].is_some() && self.weapons[1].is_some() && self.weapons[2].is_some()
    }

    /// Acquires `weapon`: a kind already held gains a stack, a new kind takes the first
    /// empty slot. Returns whether the weapon was taken.
    pub fn add_weapon(&mut self, weapon: Weapon) -> (taken: bool)
        requires
            old(self).wf(),
            weapon.wf(),
        ensures
            final(self).wf(),
            (final(self).weapons@, taken) == with_weapon(old(self).weapons@, weapon),
            final(self).collision_radius == old(self).collision_radius,
            final(self).position == old(self).position,
            final(self).health == old(self).health,
            final(self).max_health == old(self).max_health,
            final(self).statuses@ == old(self).statuses@,
    {
        let mut i: usize = 0;
        while i < WEAPON_SLOTS
            invariant
                0 <= i <= WEAPON_SLOTS,
                self.weapons@ == old(self).weapons@,
                self.weapons.len() == WEAPON_SLOTS,
                self.wf(),
                weapon.wf(),
                self.collision_radius == old(self).collision_radius,
                self.position == old(self).position,
                self.health == old(self).health,
                self.max_health == old(self).max_health,
                self.statuses@ == old(self).statuses@,
                forall|j: int| 0 <= j < i ==> !holds_kind(self.weapons@, j, weapon),
            decreases WEAPON_SLOTS - i,
        {
            let slot = self.weapons[i];
            assert(slot == self.weapons@[i as int]);
            match slot {
                Some(w) => {
                    if w.same_kind(&weapon) {
                        let mut w2 = w;
                        w2.stack();
                        self.weapons.set(i, Some(w2));
                        return true;
                    }
                },
                None => {},
            }
            i += 1;
        }
        let mut k: usize = 0;
        while k < WEAPON_SLOTS
            invariant
                0 <= k <= WEAPON_SLOTS,
                self.weapons@ == old(self).weapons@,
                self.weapons.len() == WEAPON_SLOTS,
                self.wf(),
                weapon.wf(),
                self.collision_radius == old(self).collision_radius,
                self.position == old(self).position,
                self.health == old(self).health,
                self.max_health == old(self).max_health,
                self.statuses@ == old(self).statuses@,
                forall|j: int| 0 <= j < WEAPON_SLOTS ==> !holds_kind(self.weapons@, j, weapon),
                forall|j: int| 0 <= j < k ==> self.weapons@[j] is Some,
            decreases WEAPON_SLOTS - k,
        {
            if self.weapons[k].is_none() {
                let ghost before = self.weapons@;
                self.weapons.set(k, Some(weapon));
                assert forall|i: int, j: int|
                    0 <= i < j < self.weapons@.len() && #[trigger] self.weapons@[i] is Some
                        && #[trigger] self.weapons@[j] is Some implies self.weapons@[i]->Some_0.kind_index()
                        != self.weapons@[j]->Some_0.kind_index() by {
                    assert(!holds_kind(before, i, weapon));
                    assert(!holds_kind(before, j, weapon));
                }
                return true;
            }
            k += 1;
        }
        false
    }

    /// Appends the projectiles that `w` fires from this player to `out`.
    pub fn fire(&self, w: Weapon, swing: u64, out: &mut Vec<Projectile>)
        requires
            self.wf(),
            w.wf(),
            swing > 0,
        ensures
            final(out)@ == old(out)@ + self.volley_spec(w, swing),
            forall|j: int| 0 <= j < old(out)@.len() ==> #[trigger] final(out)@[j] == old(out)@[j],
            forall|j: int| 0 <= j < self.volley_spec(w, swing).len() ==> (#[trigger] self.volley_spec(w, swing)[j]).wf(),
    {
        let ox = scale_unit(self.aim_x, self.collision_radius);
        let oy = scale_unit(self.aim_y, self.collision_radius);
        let muzzle = Position {
            x: clamp_world(self.position.x as i128 + ox as i128),
            y: clamp_world(self.position.y as i128 + oy as i128),
        };
        match w {
            Weapon::Bolter(d) => {
                out.push(Projectile::Bolter(BolterProjectile::new(muzzle, self.aim_x, self.aim_y, d.damage)));
                assert(out@ =~= old(out)@ + self.volley_spec(w, swing));
            },
            Weapon::MultiMelta(d) => {
                out.push(Projectile::MultiMelta(MultiMeltaProjectile::new(muzzle, self.aim_x, self.aim_y, d.damage)));
                assert(out@ =~= old(out)@ + self.volley_spec(w, swing));
            },
            Weapon::PowerSword(d) => {
                let x = if self.moving_direction == Direction::Left {
                    clamp_world(self.position.x as i128 - self.collision_radius as i128)
                } else {
                    clamp_world(self.position.x as i128 + self.collision_radius as i128)
                };
                let anchor = Position { x, y: self.position.y };
                out.push(Projectile::PowerSword(PowerSwordProjectile::new(anchor, self.moving_direction, d.damage, swing)));
                assert(out@ =~= old(out)@ + self.volley_spec(w, swing));
            },
            Weapon::Shotgun(d) => {
                let mut k: usize = 0;
                while k < 5
                    invariant
                        0 <= k <= 5,
                        self.wf(),
                        w == Weapon::Shotgun(d),
                        d.wf(),
                        out@ == old(out)@ + self.volley_spec(w, swing).take(k as int),
                    decreases 5 - k,
                {
                    let (ux, uy) = spread_direction(self.moving_direction, k);
                    out.push(Projectile::Shotgun(ShotgunProjectile::new(self.position, ux, uy, d.damage)));
                    assert(self.volley_spec(w, swing).take(k + 1) =~= self.volley_spec(w, swing).take(k as int).push(
                        self.volley_spec(w, swing)[k as int],
                    ));
                    assert(out@ =~= old(out)@ + self.volley_spec(w, swing).take(k + 1));
                    k += 1;
                }
                assert(self.volley_spec(w, swing).take(5) =~= self.volley_spec(w, swing));
            },
        }
    }

    /// Advances every weapon by `delta` and returns the projectiles fired in this frame,
    /// slot by slot.
    pub fn handle_weapons(&mut self, delta: i64) -> (fired: Vec<Projectile>)
        requires
            old(self).wf(),
            valid_delta(delta as int),
        ensures
            final(self).wf(),
            final(self).volley_count == next_volley(old(self).volley_count),
            final(self).weapons@ == old(self).weapons@.map_values(|s: Option<Weapon>| slot_advanced(s, delta as int)),
            fired@ == old(self).slot_volley(old(self).weapons@[0], delta as int, next_volley(old(self).volley_count))
                + old(self).slot_volley(old(self).weapons@[1], delta as int, next_volley(old(self).volley_count))
                + old(self).slot_volley(old(self).weapons@[2], delta as int, next_volley(old(self).volley_count)),
            forall|j: int| 0 <= j < fired@.len() ==> (#[trigger] fired@[j]).wf(),
            final(self).position == old(self).position,
            final(self).health == old(self).health,
            final(self).max_health == old(self).max_health,
            final(self).statuses@ == old(self).statuses@,
            final(self).aim_x == old(self).aim_x,
            final(self).aim_y == old(self).aim_y,
            final(self).moving_direction == old(self).moving_direction,
            final(self).collision_radius == old(self).collision_radius,
    {
        if self.volley_count < u64::MAX {
            self.volley_count = self.volley_count + 1;
        }
        let swing = self.volley_count;
        let ghost before = *self;
        let mut res: Vec<Projectile> = Vec::new();
        let mut i: usize = 0;
        while i < WEAPON_SLOTS
            invariant
                0 <= i <= WEAPON_SLOTS,
                self.wf(),
                swing > 0,
                swing == next_volley(old(self).volley_count),
                self.volley_count == swing,
                valid_delta(delta as int),
                self.position == old(self).position,
                self.health == old(self).health,
                self.max_health == old(self).max_health,
                self.statuses@ == old(self).statuses@,
                self.aim_x == old(self).aim_x,
                self.aim_y == old(self).aim_y,
                self.moving_direction == old(self).moving_direction,
                self.collision_radius == old(self).collision_radius,
                self.weapons.len() == WEAPON_SLOTS,
                forall|j: int| 0 <= j < i ==> #[trigger] self.weapons@[j] == slot_advanced(old(self).weapons@[j], delta as int),
                forall|j: int| i <= j < WEAPON_SLOTS ==> #[trigger] self.weapons@[j] == old(self).weapons@[j],
                res@ == (if i == 0 {
                    Seq::empty()
                } else if i == 1 {
                    old(self).slot_volley(old(self).weapons@[0], delta as int, swing)
                } else if i == 2 {
                    old(self).slot_volley(old(self).weapons@[0], delta as int, swing)
                        + old(self).slot_volley(old(self).weapons@[1], delta as int, swing)
                } else {
                    old(self).slot_volley(old(self).weapons@[0], delta as int, swing)
                        + old(self).slot_volley(old(self).weapons@[1], delta as int, swing)
                        + old(self).slot_volley(old(self).weapons@[2], delta as int, swing)
                }),
                forall|j: int| 0 <= j < res@.len() ==> (#[trigger] res@[j]).wf(),
            decreases WEAPON_SLOTS - i,
        {
            match self.weapons[i] {
                Some(w) => {
                    let mut w2 = w;
                    let due = w2.advance(delta);
                    self.weapons.set(i, Some(w2));
                    if due {
                        let ghost r0 = res@;
                        self.fire(w, swing, &mut res);
                        assert(self.volley_spec(w, swing) == old(self).volley_spec(w, swing));
                    }
                },
                None => {},
            }
            i += 1;
        }
        assert(self.weapons@ =~= old(self).weapons@.map_values(|s: Option<Weapon>| slot_advanced(s, delta as int)));
        res
    }

    /// Moves every enemy, resolves its contact with the player and applies the damage
    /// dealt; health stops at zero.
    pub fn handle_enemies(&mut self, enemies: &mut AllEnemies, delta: i64)
        requires
            old(self).wf(),
            old(enemies).wf(),
            valid_delta(delta as int),
        ensures
            final(self).wf(),
            final(enemies).wf(),
            final(enemies).enemies@.len() == old(enemies).enemies@.len(),
            forall|j: int| 0 <= j < old(enemies).enemies@.len() ==> #[trigger] final(enemies).enemies@[j] == enemy_step(
                old(enemies).enemies@[j],
                old(self).position,
                old(self).collision_radius as int,
                delta as int,
                old(enemies).tuning,
            ),
            final(self).health == clamp(
                old(self).health - contact_total(old(enemies).enemies@, old(self).position, old(self).collision_radius as int, delta as int, old(enemies).tuning),
                0,
                old(self).max_health as int,
            ),
            final(self).position == old(self).position,
            final(self).max_health == old(self).max_health,
            final(self).statuses@ == old(self).statuses@,
            final(self).weapons@ == old(self).weapons@,
            final(self).collision_radius == old(self).collision_radius,
            final(self).moving_direction == old(self).moving_direction,
            final(self).aim_x == old(self).aim_x,
            final(self).aim_y == old(self).aim_y,
            final(self).volley_count == old(self).volley_count,
            final(enemies).time_since_spawn == old(enemies).time_since_spawn,
            final(enemies).elapsed == old(enemies).elapsed,
            final(enemies).next_id == old(enemies).next_id,
            final(enemies).tuning == old(enemies).tuning,
    {
        let dealt = enemies.tick(self.position, self.collision_radius, delta);
        if dealt >= self.health {
            self.health = 0;
        } else {
            self.health = self.health - dealt;
        }
    }
}

/// Multiplies a multiplier by `factor`, both in thousandths.
pub fn scale_multiplier(m: i64, factor: i64) -> (r: i64)
    requires
        0 <= m <= COMBINED_MULTIPLIER_LIMIT,
        0 <= factor <= MULTIPLIER_LIMIT,
    ensures
        r == m * factor / PER_MILLE as int,
{
    assert(0 <= m * factor <= COMBINED_MULTIPLIER_LIMIT * MULTIPLIER_LIMIT) by (nonlinear_arith)
        requires
            0 <= m <= COMBINED_MULTIPLIER_LIMIT,
            0 <= factor <= MULTIPLIER_LIMIT,
    ;
    m * factor / PER_MILLE
}

} // verus!
