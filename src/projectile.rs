//! Projectiles in flight: their motion, the culling window around the player, and
//! collision against enemies.
use vstd::prelude::*;
use crate::enemy::{AllEnemies, Enemy};
use crate::player::Player;
use crate::geometry::{
    abs, centered, centered_rect, circle_meets_rect, circle_meets_rect_spec, clamp, clamp_world,
    displacement, displacement_of, div_toward_zero, rects_overlap, rects_overlap_spec, step_coord,
    step_of, trunc_div, valid_delta, valid_size, Direction, Position, Rect, SIZE_LIMIT,
    DELTA_LIMIT, SPEED_LIMIT, UNIT, WORLD_LIMIT,
};
use crate::status::{valid_amount, TIME_LIMIT};

verus! {

pub const BOLTER_SPEED: i64 = 1_000_000;

pub const BOLTER_SIZE: i64 = 14_000;

pub const SHOTGUN_SPEED: i64 = 900_000;

pub const SHOTGUN_WIDTH: i64 = 12_000;

pub const SHOTGUN_HEIGHT: i64 = 6_000;

pub const SHOTGUN_TAIL: i64 = 14_000;

pub const MELTA_SPEED: i64 = 1_000_000;

pub const MELTA_RANGE: i64 = 350_000;

pub const MELTA_WIDTH_START: i64 = 28_000;

pub const MELTA_WIDTH_END: i64 = 140_000;

pub const MELTA_LENGTH: i64 = 50_000;

pub const SWORD_LIFETIME: i64 = 250_000;

pub const SWORD_WIDTH: i64 = 120_000;

pub const SWORD_HEIGHT: i64 = 20_000;

pub const SWORD_SLASH_DISTANCE: i64 = 250_000;

/// Largest distance a beam counts; it is spent long before.
pub const TRAVEL_LIMIT: i64 = 4_000_000_000_000_000_000;

/// Half extents of the viewport.
pub const SCREEN_HALF_WIDTH: i64 = 1_240_000;

pub const SCREEN_HALF_HEIGHT: i64 = 720_000;

/// Margin beyond the viewport before a projectile is dropped.
pub const CULL_BUFFER: i64 = 200_000;

/// A single-target bolt travelling in a straight line; its hit rectangle has its top-left
/// corner at `position`.
#[derive(Clone, Copy, Debug, PartialEq, Eq, Structural)]
pub struct BolterProjectile {
    pub speed: i64,
    pub damage: i32,
    pub hits: u32,
    pub position: Position,
    pub direction_x: i64,
    pub direction_y: i64,
    pub width: i64,
    pub height: i64,
}

/// A single-target pellet travelling in a straight line.
#[derive(Clone, Copy, Debug, PartialEq, Eq, Structural)]
pub struct ShotgunProjectile {
    pub speed: i64,
    pub damage: i32,
    pub hits: u32,
    pub position: Position,
    pub direction_x: i64,
    pub direction_y: i64,
    pub width: i64,
    pub height: i64,
    pub tail_length: i64,
}

/// A beam that widens as it travels, up to its range.
#[derive(Clone, Copy, Debug, PartialEq, Eq, Structural)]
pub struct MultiMeltaProjectile {
    pub speed: i64,
    pub damage: i32,
    pub position: Position,
    pub direction_x: i64,
    pub direction_y: i64,
    pub distance_traveled: i64,
    pub max_range: i64,
    pub width_start: i64,
    pub width_end: i64,
    pub length: i64,
}

/// A melee slash that follows the player and strikes each enemy at most once.
#[derive(Clone, Copy, Debug, PartialEq, Eq, Structural)]
pub struct PowerSwordProjectile {
    pub damage: i32,
    pub position: Position,
    pub direction: Direction,
    pub lifetime: i64,
    pub max_lifetime: i64,
    pub width: i64,
    pub height: i64,
    pub slash_distance: i64,
    /// Identifies this swing; never zero, and later swings have larger numbers. A slash
    /// strikes only enemies last struck by an earlier swing, so no swing strikes an enemy
    /// twice even while two slashes are live.
    pub swing: u64,
}

/// A projectile of any kind.
#[derive(Clone, Copy, Debug, PartialEq, Eq, Structural)]
pub enum Projectile {
    Bolter(BolterProjectile),
    PowerSword(PowerSwordProjectile),
    Shotgun(ShotgunProjectile),
    MultiMelta(MultiMeltaProjectile),
}

pub open spec fn valid_unit(ux: int, uy: int) -> bool {
    abs(ux) <= UNIT && abs(uy) <= UNIT
}

/// The velocity component of a projectile moving at `speed` along the unit component `u`.
pub open spec fn velocity_of(u: int, speed: int) -> int {
    trunc_div(u * speed, UNIT as int)
}

/// Largest magnitude of a slash's offset.
pub const OFFSET_LIMIT: i64 = 2_000_000_001_000_000_000;

/// A share of at most `m * k` split over `2 * m` is at most `k`.
pub proof fn lemma_half_share_bound(x: int, m: int, k: int)
    requires
        0 < m,
        0 <= k,
        0 <= x <= m * k,
    ensures
        0 <= x / (2 * m) <= k,
{
    vstd::arithmetic::div_mod::lemma_div_is_ordered(x, m * k, 2 * m);
    vstd::arithmetic::div_mod::lemma_div_is_ordered_by_denominator(m * k, m, 2 * m);
    assert((m * k) / m == k) by (nonlinear_arith)
        requires
            0 < m,
    ;
    assert(x / (2 * m) >= 0) by (nonlinear_arith)
        requires
            0 <= x,
            0 < m,
    ;
    assert(m * k >= 0) by (nonlinear_arith)
        requires
            0 < m,
            0 <= k,
    ;
}

/// A beam's travelled distance after moving at `speed` for `delta`, counted up to the
/// bound that keeps it representable.
pub open spec fn travelled_after(distance: int, speed: int, delta: int) -> int {
    let d = distance + displacement_of(speed, delta);
    if d > TRAVEL_LIMIT {
        TRAVEL_LIMIT as int
    } else {
        d
    }
}

/// A slash's lifetime after `delta`, counted down to the bound that keeps it representable.
pub open spec fn lifetime_after(lifetime: int, delta: int) -> int {
    if lifetime - delta >= -DELTA_LIMIT {
        lifetime - delta
    } else {
        -DELTA_LIMIT as int
    }
}

/// Where a slash is anchored relative to the player.
pub open spec fn sword_anchor(player: Position, facing: Direction, radius: int) -> Position {
    Position {
        x: clamp(
            if facing == Direction::Left {
                player.x - radius
            } else {
                player.x + radius
            },
            -WORLD_LIMIT as int,
            WORLD_LIMIT as int,
        ) as i64,
        y: player.y,
    }
}

/// The window around the player inside which projectiles are kept.
pub open spec fn in_cull_window(pos: Position, player: Position) -> bool {
    &&& player.x - SCREEN_HALF_WIDTH - CULL_BUFFER <= pos.x
    &&& pos.x <= player.x + SCREEN_HALF_WIDTH + CULL_BUFFER
    &&& player.y - SCREEN_HALF_HEIGHT - CULL_BUFFER <= pos.y
    &&& pos.y <= player.y + SCREEN_HALF_HEIGHT + CULL_BUFFER
}

impl BolterProjectile {
    pub open spec fn wf(&self) -> bool {
        &&& self.position.wf()
        &&& 0 <= self.speed <= SPEED_LIMIT
        &&& valid_amount(self.damage as int)
        &&& valid_unit(self.direction_x as int, self.direction_y as int)
        &&& valid_size(self.width as int)
        &&& valid_size(self.height as int)
    }

    /// A bolt leaving `position` along the unit vector `(direction_x, direction_y)`.
    pub fn new(position: Position, direction_x: i64, direction_y: i64, damage: i32) -> (p: Self)
        requires
            position.wf(),
            valid_unit(direction_x as int, direction_y as int),
            valid_amount(damage as int),
        ensures
            p.wf(),
            p == (BolterProjectile {
                speed: BOLTER_SPEED,
                damage,
                hits: 0,
                position,
                direction_x,
                direction_y,
                width: BOLTER_SIZE,
                height: BOLTER_SIZE,
            }),
    {
        BolterProjectile {
            speed: BOLTER_SPEED,
            damage,
            hits: 0,
            position,
            direction_x,
            direction_y,
            width: BOLTER_SIZE,
            height: BOLTER_SIZE,
        }
    }

    /// Moves the bolt along its direction for `delta`.
    pub fn handle_move(&mut self, delta: i64)
        requires
            old(self).wf(),
            valid_delta(delta as int),
        ensures
            *final(self) == (BolterProjectile {
                position: straight_step(old(self).position, old(self).direction_x as int, old(self).direction_y as int, old(self).speed as int, delta as int),
                ..*old(self)
            }),
            final(self).wf(),
    {
        self.position = move_straight(self.position, self.direction_x, self.direction_y, self.speed, delta);
    }

    /// Strikes every enemy it overlaps and counts the hits.
    pub fn handle_collision(&mut self, all_enemies: &mut AllEnemies)
        requires
            old(self).wf(),
            old(all_enemies).wf(),
        ensures
            Projectile::Bolter(*final(self)) == Projectile::Bolter(*old(self)).recorded(old(all_enemies).enemies@),
            final(all_enemies).enemies@ == Projectile::Bolter(*old(self)).strike_each(old(all_enemies).enemies@),
            final(all_enemies).wf(),
            final(all_enemies).time_since_spawn == old(all_enemies).time_since_spawn,
            final(all_enemies).elapsed == old(all_enemies).elapsed,
            final(all_enemies).next_id == old(all_enemies).next_id,
            final(all_enemies).tuning == old(all_enemies).tuning,
    {
        let mut p = Projectile::Bolter(*self);
        p.strike(&mut all_enemies.enemies);
        match p {
            Projectile::Bolter(b) => {
                *self = b;
            },
            _ => {},
        }
    }
}

impl ShotgunProjectile {
    pub open spec fn wf(&self) -> bool {
        &&& self.position.wf()
        &&& 0 <= self.speed <= SPEED_LIMIT
        &&& valid_amount(self.damage as int)
        &&& valid_unit(self.direction_x as int, self.direction_y as int)
        &&& valid_size(self.width as int)
        &&& valid_size(self.height as int)
        &&& valid_size(self.tail_length as int)
    }

    /// A pellet leaving `position` along the unit vector `(direction_x, direction_y)`.
    pub fn new(position: Position, direction_x: i64, direction_y: i64, damage: i32) -> (p: Self)
        requires
            position.wf(),
            valid_unit(direction_x as int, direction_y as int),
            valid_amount(damage as int),
        ensures
            p.wf(),
            p == (ShotgunProjectile {
                speed: SHOTGUN_SPEED,
                damage,
                hits: 0,
                position,
                direction_x,
                direction_y,
                width: SHOTGUN_WIDTH,
                height: SHOTGUN_HEIGHT,
                tail_length: SHOTGUN_TAIL,
            }),
    {
        ShotgunProjectile {
            speed: SHOTGUN_SPEED,
            damage,
            hits: 0,
            position,
            direction_x,
            direction_y,
            width: SHOTGUN_WIDTH,
            height: SHOTGUN_HEIGHT,
            tail_length: SHOTGUN_TAIL,
        }
    }

    /// Moves the pellet along its direction for `delta`.
    pub fn handle_move(&mut self, delta: i64)
        requires
            old(self).wf(),
            valid_delta(delta as int),
        ensures
            *final(self) == (ShotgunProjectile {
                position: straight_step(old(self).position, old(self).direction_x as int, old(self).direction_y as int, old(self).speed as int, delta as int),
                ..*old(self)
            }),
            final(self).wf(),
    {
        self.position = move_straight(self.position, self.direction_x, self.direction_y, self.speed, delta);
    }

    /// Strikes every enemy it overlaps and counts the hits.
    pub fn handle_collision(&mut self, all_enemies: &mut AllEnemies)
        requires
            old(self).wf(),
            old(all_enemies).wf(),
        ensures
            Projectile::Shotgun(*final(self)) == Projectile::Shotgun(*old(self)).recorded(old(all_enemies).enemies@),
            final(all_enemies).enemies@ == Projectile::Shotgun(*old(self)).strike_each(old(all_enemies).enemies@),
            final(all_enemies).wf(),
            final(all_enemies).time_since_spawn == old(all_enemies).time_since_spawn,
            final(all_enemies).elapsed == old(all_enemies).elapsed,
            final(all_enemies).next_id == old(all_enemies).next_id,
            final(all_enemies).tuning == old(all_enemies).tuning,
    {
        let mut p = Projectile::Shotgun(*self);
        p.strike(&mut all_enemies.enemies);
        match p {
            Projectile::Shotgun(b) => {
                *self = b;
            },
            _ => {},
        }
    }
}

impl MultiMeltaProjectile {
    pub open spec fn wf(&self) -> bool {
        &&& self.position.wf()
        &&& 0 <= self.speed <= SPEED_LIMIT
        &&& valid_amount(self.damage as int)
        &&& valid_unit(self.direction_x as int, self.direction_y as int)
        &&& 0 < self.max_range <= SIZE_LIMIT
        &&& 0 <= self.distance_traveled <= TRAVEL_LIMIT
        &&& 0 <= self.width_start <= self.width_end <= SIZE_LIMIT
        &&& valid_size(self.length as int)
    }

    /// The distance travelled, counted up to the range.
    pub open spec fn reach_spec(&self) -> int {
        if self.distance_traveled < self.max_range {
            self.distance_traveled as int
        } else {
            self.max_range as int
        }
    }

    /// The beam's width after travelling `distance_traveled`, growing linearly over its range
    /// and constant beyond.
    pub open spec fn width_spec(&self) -> int {
        self.width_start + (self.width_end - self.width_start) * self.reach_spec() / self.max_range as int
    }

    /// Centres of the three discs that make up the beam: rear, middle and front.
    pub open spec fn centers_spec(&self) -> Seq<(int, int)> {
        let half = self.length / 2;
        let ox = trunc_div(self.direction_x * half, UNIT as int);
        let oy = trunc_div(self.direction_y * half, UNIT as int);
        seq![
            (self.position.x - ox, self.position.y - oy),
            (self.position.x as int, self.position.y as int),
            (self.position.x + ox, self.position.y + oy),
        ]
    }

    /// The `k`-th disc of the beam meets the enemy's body.
    pub open spec fn disc_meets(&self, k: int, e: Enemy) -> bool {
        circle_meets_rect_spec(
            self.centers_spec()[k].0,
            self.centers_spec()[k].1,
            self.width_spec() / 2,
            e.body_spec(),
        )
    }

    /// A beam leaving `position` along the unit vector `(direction_x, direction_y)`.
    pub fn new(position: Position, direction_x: i64, direction_y: i64, damage: i32) -> (p: Self)
        requires
            position.wf(),
            valid_unit(direction_x as int, direction_y as int),
            valid_amount(damage as int),
        ensures
            p.wf(),
            p == (MultiMeltaProjectile {
                speed: MELTA_SPEED,
                damage,
                position,
                direction_x,
                direction_y,
                distance_traveled: 0,
                max_range: MELTA_RANGE,
                width_start: MELTA_WIDTH_START,
                width_end: MELTA_WIDTH_END,
                length: MELTA_LENGTH,
            }),
    {
        MultiMeltaProjectile {
            speed: MELTA_SPEED,
            damage,
            position,
            direction_x,
            direction_y,
            distance_traveled: 0,
            max_range: MELTA_RANGE,
            width_start: MELTA_WIDTH_START,
            width_end: MELTA_WIDTH_END,
            length: MELTA_LENGTH,
        }
    }

    /// Moves the beam along its direction for `delta` and adds to the distance travelled,
    /// which stops at the range.
    pub fn handle_move(&mut self, delta: i64)
        requires
            old(self).wf(),
            valid_delta(delta as int),
        ensures
            *final(self) == (MultiMeltaProjectile {
                position: straight_step(old(self).position, old(self).direction_x as int, old(self).direction_y as int, old(self).speed as int, delta as int),
                distance_traveled: travelled_after(old(self).distance_traveled as int, old(self).speed as int, delta as int) as i64,
                ..*old(self)
            }),
            final(self).wf(),
    {
        self.position = move_straight(self.position, self.direction_x, self.direction_y, self.speed, delta);
        let step = displacement(self.speed, delta);
        proof {
            assert(step >= 0) by (nonlinear_arith)
                requires
                    step == displacement_of(self.speed as int, delta as int),
                    self.speed >= 0,
                    delta >= 0,
            ;
        }
        if step > TRAVEL_LIMIT - self.distance_traveled {
            self.distance_traveled = TRAVEL_LIMIT;
        } else {
            self.distance_traveled = self.distance_traveled + step;
        }
    }

    /// The beam's current width.
    pub fn current_width(&self) -> (w: i64)
        requires
            self.wf(),
        ensures
            w == self.width_spec(),
            self.width_start <= w <= self.width_end,
    {
        let span = self.width_end - self.width_start;
        let reach = if self.distance_traveled < self.max_range {
            self.distance_traveled
        } else {
            self.max_range
        };
        proof {
            assert(0 <= span * reach <= span * self.max_range) by (nonlinear_arith)
                requires
                    0 <= span,
                    0 <= reach <= self.max_range,
            ;
            assert(span * self.max_range <= SIZE_LIMIT * SIZE_LIMIT) by (nonlinear_arith)
                requires
                    0 <= span <= SIZE_LIMIT,
                    0 < self.max_range <= SIZE_LIMIT,
            ;
            assert((span * reach) / (self.max_range as int) <= span) by (nonlinear_arith)
                requires
                    0 <= span * reach <= span * self.max_range,
                    0 < self.max_range,
            ;
            assert((span * reach) / (self.max_range as int) >= 0) by (nonlinear_arith)
                requires
                    0 <= span * reach,
                    0 < self.max_range,
            ;
        }
        self.width_start + span * reach / self.max_range
    }

    /// The three disc centres along the beam.
    pub fn collision_centers(&self) -> (c: [(i64, i64); 3])
        requires
            self.wf(),
        ensures
            forall|k: int| 0 <= k < 3 ==> (c@[k].0 as int, c@[k].1 as int) == #[trigger] self.centers_spec()[k],
            forall|k: int| 0 <= k < 3 ==> -2 * WORLD_LIMIT <= #[trigger] c@[k].0 <= 2 * WORLD_LIMIT && -2 * WORLD_LIMIT <= c@[k].1 <= 2 * WORLD_LIMIT,
    {
        let half = self.length / 2;
        let ox = scale_unit(self.direction_x, half);
        let oy = scale_unit(self.direction_y, half);
        [
            (self.position.x - ox, self.position.y - oy),
            (self.position.x, self.position.y),
            (self.position.x + ox, self.position.y + oy),
        ]
    }

    /// Strikes every enemy that one of its discs meets.
    pub fn handle_collision(&mut self, all_enemies: &mut AllEnemies)
        requires
            old(self).wf(),
            old(all_enemies).wf(),
        ensures
            Projectile::MultiMelta(*final(self)) == Projectile::MultiMelta(*old(self)).recorded(old(all_enemies).enemies@),
            final(all_enemies).enemies@ == Projectile::MultiMelta(*old(self)).strike_each(old(all_enemies).enemies@),
            final(all_enemies).wf(),
            final(all_enemies).time_since_spawn == old(all_enemies).time_since_spawn,
            final(all_enemies).elapsed == old(all_enemies).elapsed,
            final(all_enemies).next_id == old(all_enemies).next_id,
            final(all_enemies).tuning == old(all_enemies).tuning,
    {
        let mut p = Projectile::MultiMelta(*self);
        p.strike(&mut all_enemies.enemies);
        match p {
            Projectile::MultiMelta(b) => {
                *self = b;
            },
            _ => {},
        }
    }
}

impl PowerSwordProjectile {
    pub open spec fn wf(&self) -> bool {
        &&& self.position.wf()
        &&& valid_amount(self.damage as int)
        &&& 0 < self.max_lifetime <= TIME_LIMIT
        &&& -DELTA_LIMIT <= self.lifetime <= self.max_lifetime
        &&& valid_size(self.width as int)
        &&& valid_size(self.height as int)
        &&& valid_size(self.slash_distance as int)
        &&& self.swing > 0
    }

    /// How far the slash has swept, in thousandths.
    pub open spec fn progress_spec(&self) -> int {
        (self.max_lifetime - self.lifetime) * 1000 / self.max_lifetime as int
    }

    /// Offset of the slash across its direction: from minus half the slash distance at
    /// the start to plus half at the end.
    pub open spec fn offset_spec(&self) -> int {
        trunc_div(
            (self.max_lifetime - 2 * self.lifetime) * self.slash_distance,
            2 * self.max_lifetime,
        )
    }

    /// The rectangle the slash covers now.
    pub open spec fn rect_spec(&self) -> Rect {
        let o = self.offset_spec();
        let px = self.position.x as int;
        let py = self.position.y as int;
        let w = self.width as int;
        let h = self.height as int;
        match self.direction {
            Direction::Up => Rect { x: (px - h / 2 + o) as i64, y: (py - w) as i64, width: h as i64, height: w as i64 },
            Direction::Down => Rect { x: (px - h / 2 - o) as i64, y: py as i64, width: h as i64, height: w as i64 },
            Direction::Left => Rect { x: (px - w) as i64, y: (py - h / 2 - o) as i64, width: w as i64, height: h as i64 },
            Direction::Right => Rect { x: px as i64, y: (py - h / 2 + o) as i64, width: w as i64, height: h as i64 },
        }
    }

    /// A slash of swing `swing` starting at `position` toward `direction`.
    pub fn new(position: Position, direction: Direction, damage: i32, swing: u64) -> (p: Self)
        requires
            position.wf(),
            valid_amount(damage as int),
            swing > 0,
        ensures
            p.wf(),
            p == (PowerSwordProjectile {
                damage,
                position,
                direction,
                lifetime: SWORD_LIFETIME,
                max_lifetime: SWORD_LIFETIME,
                width: SWORD_WIDTH,
                height: SWORD_HEIGHT,
                slash_distance: SWORD_SLASH_DISTANCE,
                swing,
            }),
    {
        PowerSwordProjectile {
            damage,
            position,
            direction,
            lifetime: SWORD_LIFETIME,
            max_lifetime: SWORD_LIFETIME,
            width: SWORD_WIDTH,
            height: SWORD_HEIGHT,
            slash_distance: SWORD_SLASH_DISTANCE,
            swing,
        }
    }

    /// How far the slash has swept, in thousandths.
    pub fn get_slash_progress(&self) -> (r: i64)
        requires
            self.wf(),
        ensures
            r == self.progress_spec(),
            0 <= r,
            self.lifetime >= 0 ==> r <= 1000,
    {
        let done = self.max_lifetime - self.lifetime;
        proof {
            assert(0 <= done * 1000) by (nonlinear_arith)
                requires
                    0 <= done,
            ;
            if self.lifetime >= 0 {
                assert((done * 1000) / (self.max_lifetime as int) <= 1000) by (nonlinear_arith)
                    requires
                        0 <= done * 1000 <= self.max_lifetime * 1000,
                        0 < self.max_lifetime,
                ;
            }
            assert((done * 1000) / (self.max_lifetime as int) >= 0) by (nonlinear_arith)
                requires
                    0 <= done * 1000,
                    0 < self.max_lifetime,
            ;
        }
        done * 1000 / self.max_lifetime
    }

    /// Offset of the slash across its direction.
    pub fn get_slash_offset(&self) -> (r: i64)
        requires
            self.wf(),
        ensures
            r == self.offset_spec(),
            abs(r as int) <= OFFSET_LIMIT,
            self.lifetime >= 0 ==> abs(r as int) <= self.slash_distance,
    {
        let a = (self.max_lifetime - 2 * self.lifetime) as i128;
        let ghost m = self.max_lifetime as int;
        let ghost sd = self.slash_distance as int;
        let ghost k = (1 + 2 * DELTA_LIMIT) * sd;
        proof {
            assert(abs(a as int) <= m * (1 + 2 * DELTA_LIMIT)) by (nonlinear_arith)
                requires
                    -m <= a <= m + 2 * DELTA_LIMIT,
                    1 <= m,
            ;
            assert(abs(a * sd) <= m * k) by (nonlinear_arith)
                requires
                    abs(a as int) <= m * (1 + 2 * DELTA_LIMIT),
                    0 <= sd,
                    k == (1 + 2 * DELTA_LIMIT) * sd,
            ;
            assert(m * k <= 1_000_000_000_000 * 2_000_000_001 * 1_000_000_000) by (nonlinear_arith)
                requires
                    1 <= m <= 1_000_000_000_000,
                    0 <= sd <= 1_000_000_000,
                    k == 2_000_000_001 * sd,
            ;
            assert(k <= OFFSET_LIMIT) by (nonlinear_arith)
                requires
                    0 <= sd <= 1_000_000_000,
                    k == 2_000_000_001 * sd,
            ;
            if self.lifetime >= 0 {
                assert(abs(a * sd) <= m * sd) by (nonlinear_arith)
                    requires
                        abs(a as int) <= m,
                        0 <= sd,
                ;
            }
        }
        let p = a * self.slash_distance as i128;
        let d = 2 * self.max_lifetime as i128;
        let r = div_toward_zero(p, d);
        proof {
            let x = abs(p as int);
            lemma_half_share_bound(x, m, k);
            if self.lifetime >= 0 {
                lemma_half_share_bound(x, m, sd);
            }
            assert(abs(r as int) == x / (2 * m));
        }
        r as i64
    }

    /// The rectangle the slash covers now.
    pub fn get_collision_rect(&self) -> (r: Rect)
        requires
            self.wf(),
        ensures
            r == self.rect_spec(),
            r.wf(),
    {
        let slash_offset = self.get_slash_offset();
        match self.direction {
            Direction::Up => Rect {
                x: self.position.x - self.height / 2 + slash_offset,
                y: self.position.y - self.width,
                width: self.height,
                height: self.width,
            },
            Direction::Down => Rect {
                x: self.position.x - self.height / 2 - slash_offset,
                y: self.position.y,
                width: self.height,
                height: self.width,
            },
            Direction::Left => Rect {
                x: self.position.x - self.width,
                y: self.position.y - self.height / 2 - slash_offset,
                width: self.width,
                height: self.height,
            },
            Direction::Right => Rect {
                x: self.position.x,
                y: self.position.y - self.height / 2 + slash_offset,
                width: self.width,
                height: self.height,
            },
        }
    }

    /// Re-anchors the slash to the player's edge on the side it faces, takes the player's
    /// direction, and counts its lifetime down.
    pub fn handle_move(&mut self, player: &Player, delta: i64)
        requires
            old(self).wf(),
            player.wf(),
            valid_delta(delta as int),
        ensures
            *final(self) == (PowerSwordProjectile {
                position: sword_anchor(player.position, player.moving_direction, player.collision_radius as int),
                direction: player.moving_direction,
                lifetime: lifetime_after(old(self).lifetime as int, delta as int) as i64,
                ..*old(self)
            }),
            final(self).wf(),
    {
        let radius = player.collision_radius;
        let x = if player.moving_direction == Direction::Left {
            clamp_world(player.position.x as i128 - radius as i128)
        } else {
            clamp_world(player.position.x as i128 + radius as i128)
        };
        self.position = Position { x, y: player.position.y };
        self.direction = player.moving_direction;
        if self.lifetime - delta >= -DELTA_LIMIT {
            self.lifetime = self.lifetime - delta;
        } else {
            self.lifetime = -DELTA_LIMIT;
        }
    }

    /// Strikes every enemy that the slash covers and that this swing has not struck yet.
    pub fn handle_collision(&mut self, all_enemies: &mut AllEnemies)
        requires
            old(self).wf(),
            old(all_enemies).wf(),
        ensures
            Projectile::PowerSword(*final(self)) == Projectile::PowerSword(*old(self)).recorded(old(all_enemies).enemies@),
            final(all_enemies).enemies@ == Projectile::PowerSword(*old(self)).strike_each(old(all_enemies).enemies@),
            final(all_enemies).wf(),
            final(all_enemies).time_since_spawn == old(all_enemies).time_since_spawn,
            final(all_enemies).elapsed == old(all_enemies).elapsed,
            final(all_enemies).next_id == old(all_enemies).next_id,
            final(all_enemies).tuning == old(all_enemies).tuning,
    {
        let mut p = Projectile::PowerSword(*self);
        p.strike(&mut all_enemies.enemies);
        match p {
            Projectile::PowerSword(b) => {
                *self = b;
            },
            _ => {},
        }
    }
}

/// A position advanced along a unit direction at `speed` for `delta`.
pub open spec fn straight_step(pos: Position, ux: int, uy: int, speed: int, delta: int) -> Position {
    Position {
        x: step_of(pos.x as int, velocity_of(ux, speed), delta) as i64,
        y: step_of(pos.y as int, velocity_of(uy, speed), delta) as i64,
    }
}

/// Scales a unit component by `len`.
pub fn scale_unit(u: i64, len: i64) -> (r: i64)
    requires
        abs(u as int) <= UNIT,
        0 <= len <= SPEED_LIMIT,
    ensures
        r == trunc_div(u * len, UNIT as int),
        abs(r as int) <= len,
{
    assert(abs(u * len) <= UNIT * len) by (nonlinear_arith)
        requires
            abs(u as int) <= UNIT,
            0 <= len,
    ;
    assert(UNIT * len <= UNIT * SPEED_LIMIT) by (nonlinear_arith)
        requires
            0 <= len <= SPEED_LIMIT,
    ;
    let p = u as i128 * len as i128;
    let r = div_toward_zero(p, UNIT as i128);
    proof {
        let pi = p as int;
        if pi >= 0 {
            assert(pi / 1_000_000 <= len) by (nonlinear_arith)
                requires
                    0 <= pi <= 1_000_000 * len,
            ;
            assert(pi / 1_000_000 >= 0) by (nonlinear_arith)
                requires
                    0 <= pi,
            ;
        } else {
            assert((-pi) / 1_000_000 <= len) by (nonlinear_arith)
                requires
                    0 <= -pi <= 1_000_000 * len,
            ;
            assert((-pi) / 1_000_000 >= 0) by (nonlinear_arith)
                requires
                    0 <= -pi,
            ;
        }
    }
    r as i64
}

/// Advances a position along a unit direction at `speed` for `delta`.
pub fn move_straight(pos: Position, ux: i64, uy: i64, speed: i64, delta: i64) -> (r: Position)
    requires
        pos.wf(),
        valid_unit(ux as int, uy as int),
        0 <= speed <= SPEED_LIMIT,
        valid_delta(delta as int),
    ensures
        r == straight_step(pos, ux as int, uy as int, speed as int, delta as int),
        r.wf(),
{
    let vx = scale_unit(ux, speed);
    let vy = scale_unit(uy, speed);
    Position { x: step_coord(pos.x, vx, delta), y: step_coord(pos.y, vy, delta) }
}

impl Projectile {
    pub open spec fn wf(&self) -> bool {
        match *self {
            Projectile::Bolter(p) => p.wf(),
            Projectile::PowerSword(p) => p.wf(),
            Projectile::Shotgun(p) => p.wf(),
            Projectile::MultiMelta(p) => p.wf(),
        }
    }

    pub open spec fn position_spec(&self) -> Position {
        match *self {
            Projectile::Bolter(p) => p.position,
            Projectile::PowerSword(p) => p.position,
            Projectile::Shotgun(p) => p.position,
            Projectile::MultiMelta(p) => p.position,
        }
    }

    pub open spec fn damage_spec(&self) -> i32 {
        match *self {
            Projectile::Bolter(p) => p.damage,
            Projectile::PowerSword(p) => p.damage,
            Projectile::Shotgun(p) => p.damage,
            Projectile::MultiMelta(p) => p.damage,
        }
    }

    /// The projectile meets the enemy and may strike it.
    pub open spec fn hits_spec(&self, e: Enemy) -> bool {
        match *self {
            Projectile::Bolter(p) => rects_overlap_spec(
                Rect { x: p.position.x, y: p.position.y, width: p.width, height: p.height },
                e.body_spec(),
            ),
            Projectile::Shotgun(p) => rects_overlap_spec(
                centered_rect(p.position, p.width / 2, p.height / 2),
                e.body_spec(),
            ),
            Projectile::MultiMelta(p) => p.disc_meets(0, e) || p.disc_meets(1, e) || p.disc_meets(2, e),
            Projectile::PowerSword(p) => e.last_swing < p.swing && rects_overlap_spec(
                p.rect_spec(),
                e.body_spec(),
            ),
        }
    }

    /// The enemy after this projectile's pass over it.
    pub open spec fn struck(&self, e: Enemy) -> Enemy {
        if self.hits_spec(e) {
            match *self {
                Projectile::PowerSword(p) => Enemy { last_swing: p.swing, ..e.damaged(p.damage as int) },
                _ => e.damaged(self.damage_spec() as int),
            }
        } else {
            e
        }
    }

    /// All enemies after this projectile's pass.
    pub open spec fn strike_each(&self, es: Seq<Enemy>) -> Seq<Enemy> {
        es.map_values(|e: Enemy| self.struck(e))
    }

    /// How many of `es` the projectile hits.
    pub open spec fn count_hits(&self, es: Seq<Enemy>) -> nat
        decreases es.len(),
    {
        if es.len() == 0 {
            0
        } else {
            self.count_hits(es.drop_last()) + if self.hits_spec(es.last()) {
                1nat
            } else {
                0nat
            }
        }
    }

    /// The projectile after its pass over `es`: single-target kinds count their hits.
    pub open spec fn recorded(&self, es: Seq<Enemy>) -> Projectile {
        match *self {
            Projectile::Bolter(p) => Projectile::Bolter(
                BolterProjectile { hits: saturating_hits(p.hits as int, self.count_hits(es) as int), ..p },
            ),
            Projectile::Shotgun(p) => Projectile::Shotgun(
                ShotgunProjectile { hits: saturating_hits(p.hits as int, self.count_hits(es) as int), ..p },
            ),
            _ => *self,
        }
    }

    /// The projectile has done its work and leaves the field.
    pub open spec fn spent_spec(&self) -> bool {
        match *self {
            Projectile::Bolter(p) => p.hits > 0,
            Projectile::Shotgun(p) => p.hits > 0,
            Projectile::PowerSword(p) => p.lifetime <= 0,
            Projectile::MultiMelta(p) => p.distance_traveled >= p.max_range,
        }
    }

    /// Whether the projectile meets the enemy and may strike it.
    pub fn hits(&self, e: &Enemy) -> (r: bool)
        requires
            self.wf(),
            e.wf(),
        ensures
            r == self.hits_spec(*e),
    {
        let body = e.body();
        match self {
            Projectile::Bolter(p) => {
                let r = Rect { x: p.position.x, y: p.position.y, width: p.width, height: p.height };
                rects_overlap(&r, &body)
            },
            Projectile::Shotgun(p) => {
                let r = centered(p.position, p.width / 2, p.height / 2);
                rects_overlap(&r, &body)
            },
            Projectile::MultiMelta(p) => {
                let radius = p.current_width() / 2;
                let centers = p.collision_centers();
                let (x0, y0) = centers[0];
                let (x1, y1) = centers[1];
                let (x2, y2) = centers[2];
                assert((x0 as int, y0 as int) == p.centers_spec()[0]);
                assert((x1 as int, y1 as int) == p.centers_spec()[1]);
                assert((x2 as int, y2 as int) == p.centers_spec()[2]);
                circle_meets_rect(x0, y0, radius, &body) || circle_meets_rect(x1, y1, radius, &body)
                    || circle_meets_rect(x2, y2, radius, &body)
            },
            Projectile::PowerSword(p) => {
                if e.last_swing >= p.swing {
                    false
                } else {
                    let r = p.get_collision_rect();
                    rects_overlap(&r, &body)
                }
            },
        }
    }

    /// Whether the projectile has done its work.
    pub fn is_spent(&self) -> (r: bool)
        ensures
            r == self.spent_spec(),
    {
        match self {
            Projectile::Bolter(p) => p.hits > 0,
            Projectile::Shotgun(p) => p.hits > 0,
            Projectile::PowerSword(p) => p.lifetime <= 0,
            Projectile::MultiMelta(p) => p.distance_traveled >= p.max_range,
        }
    }

    /// Strikes each enemy this projectile meets, once, and records the hits.
    pub fn strike(&mut self, enemies: &mut Vec<Enemy>)
        requires
            old(self).wf(),
            forall|j: int| 0 <= j < old(enemies).len() ==> (#[trigger] old(enemies)@[j]).wf(),
        ensures
            *final(self) == old(self).recorded(old(enemies)@),
            final(enemies)@ == old(self).strike_each(old(enemies)@),
            final(self).wf(),
            forall|j: int| 0 <= j < final(enemies).len() ==> (#[trigger] final(enemies)@[j]).wf(),
    {
        let p = *self;
        let ghost es = enemies@;
        let n = enemies.len();
        let mut count: u32 = 0;
        let mut i: usize = 0;
        while i < n
            invariant
                p == *old(self),
                p.wf(),
                es == old(enemies)@,
                n == es.len(),
                enemies.len() == n,
                0 <= i <= n,
                forall|j: int| 0 <= j < i ==> #[trigger] enemies@[j] == p.struck(es[j]),
                forall|j: int| i <= j < n ==> #[trigger] enemies@[j] == es[j],
                forall|j: int| 0 <= j < n ==> (#[trigger] enemies@[j]).wf(),
                forall|j: int| 0 <= j < n ==> (#[trigger] es[j]).wf(),
                count as int == clamp(p.count_hits(es.take(i as int)) as int, 0, u32::MAX as int),
            decreases n - i,
        {
            let mut e = enemies[i];
            assert(es.take(i + 1).drop_last() == es.take(i as int));
            if p.hits(&e) {
                e.take_damage(p.damage());
                match p {
                    Projectile::PowerSword(s) => {
                        e.last_swing = s.swing;
                    },
                    _ => {},
                }
                if count < u32::MAX {
                    count = count + 1;
                }
            }
            enemies.set(i, e);
            i += 1;
        }
        assert(es.take(n as int) == es);
        assert(enemies@ =~= p.strike_each(es));
        match self {
            Projectile::Bolter(b) => {
                b.hits = add_hits(b.hits, count);
            },
            Projectile::Shotgun(s) => {
                s.hits = add_hits(s.hits, count);
            },
            _ => {},
        }
    }

    /// Damage dealt by one strike.
    pub fn damage(&self) -> (d: i32)
        requires
            self.wf(),
        ensures
            d == self.damage_spec(),
            valid_amount(d as int),
    {
        match self {
            Projectile::Bolter(p) => p.damage,
            Projectile::PowerSword(p) => p.damage,
            Projectile::Shotgun(p) => p.damage,
            Projectile::MultiMelta(p) => p.damage,
        }
    }
}

/// A hit counter after `n` more hits, stopping at its largest value.
pub open spec fn saturating_hits(hits: int, n: int) -> u32 {
    clamp(hits + n, 0, u32::MAX as int) as u32
}

fn add_hits(hits: u32, n: u32) -> (r: u32)
    ensures
        forall|c: int| c >= 0 && n == clamp(c, 0, u32::MAX as int) ==> r == saturating_hits(hits as int, c),
{
    if hits as u64 + n as u64 > u32::MAX as u64 {
        u32::MAX
    } else {
        hits + n
    }
}

} // verus!

verus! {

/// The enemies after every projectile of `ps`, in order, has made its pass over them.
pub open spec fn strike_all(ps: Seq<Projectile>, es: Seq<Enemy>) -> Seq<Enemy>
    decreases ps.len(),
{
    if ps.len() == 0 {
        es
    } else {
        ps.last().strike_each(strike_all(ps.drop_last(), es))
    }
}

/// The first `n` projectiles of `ps` after their passes: each meets the enemies as the
/// projectiles before it left them.
pub open spec fn recorded_all(ps: Seq<Projectile>, es: Seq<Enemy>, n: int) -> Seq<Projectile> {
    Seq::new(n as nat, |j: int| ps[j].recorded(strike_all(ps.take(j), es)))
}

/// The projectiles that stay in flight after a collision pass.
pub open spec fn survivors(ps: Seq<Projectile>, es: Seq<Enemy>) -> Seq<Projectile> {
    recorded_all(ps, es, ps.len() as int).filter(|p: Projectile| !p.spent_spec())
}

impl Projectile {
    /// The projectile after one frame of motion; a slash follows a player of radius
    /// `radius` at `player` facing `facing`.
    pub open spec fn moved(&self, player: Position, facing: Direction, radius: int, delta: int) -> Projectile {
        match *self {
            Projectile::Bolter(p) => Projectile::Bolter(
                BolterProjectile {
                    position: straight_step(p.position, p.direction_x as int, p.direction_y as int, p.speed as int, delta),
                    ..p
                },
            ),
            Projectile::Shotgun(p) => Projectile::Shotgun(
                ShotgunProjectile {
                    position: straight_step(p.position, p.direction_x as int, p.direction_y as int, p.speed as int, delta),
                    ..p
                },
            ),
            Projectile::MultiMelta(p) => Projectile::MultiMelta(
                MultiMeltaProjectile {
                    position: straight_step(p.position, p.direction_x as int, p.direction_y as int, p.speed as int, delta),
                    distance_traveled: travelled_after(p.distance_traveled as int, p.speed as int, delta) as i64,
                    ..p
                },
            ),
            Projectile::PowerSword(p) => Projectile::PowerSword(
                PowerSwordProjectile {
                    position: sword_anchor(player, facing, radius),
                    direction: facing,
                    lifetime: lifetime_after(p.lifetime as int, delta) as i64,
                    ..p
                },
            ),
        }
    }

    /// Moves the projectile for `delta`; a slash follows `player`.
    pub fn handle_move(&mut self, player: &Player, delta: i64)
        requires
            old(self).wf(),
            player.wf(),
            valid_delta(delta as int),
        ensures
            *final(self) == old(self).moved(player.position, player.moving_direction, player.collision_radius as int, delta as int),
            final(self).wf(),
    {
        match self {
            Projectile::Bolter(p) => p.handle_move(delta),
            Projectile::Shotgun(p) => p.handle_move(delta),
            Projectile::MultiMelta(p) => p.handle_move(delta),
            Projectile::PowerSword(p) => p.handle_move(player, delta),
        }
    }

    /// The projectile's position.
    pub fn position(&self) -> (p: Position)
        ensures
            p == self.position_spec(),
    {
        match self {
            Projectile::Bolter(p) => p.position,
            Projectile::PowerSword(p) => p.position,
            Projectile::Shotgun(p) => p.position,
            Projectile::MultiMelta(p) => p.position,
        }
    }
}

/// Whether `pos` lies in the window kept around a player at `player`.
pub fn is_in_cull_window(pos: Position, player: Position) -> (r: bool)
    requires
        pos.wf(),
        player.wf(),
    ensures
        r == in_cull_window(pos, player),
{
    player.x - SCREEN_HALF_WIDTH - CULL_BUFFER <= pos.x && pos.x <= player.x + SCREEN_HALF_WIDTH
        + CULL_BUFFER && player.y - SCREEN_HALF_HEIGHT - CULL_BUFFER <= pos.y && pos.y <= player.y
        + SCREEN_HALF_HEIGHT + CULL_BUFFER
}

/// Every projectile in flight.
pub struct AllProjectiles {
    pub projectiles: Vec<Projectile>,
}

impl AllProjectiles {
    pub open spec fn wf(&self) -> bool {
        forall|j: int| 0 <= j < self.projectiles.len() ==> (#[trigger] self.projectiles@[j]).wf()
    }

    /// No projectiles.
    pub fn new() -> (r: AllProjectiles)
        ensures
            r.wf(),
            r.projectiles@.len() == 0,
    {
        AllProjectiles { projectiles: Vec::new() }
    }

    /// Moves the projectiles of `new` to the end of the list, in order.
    pub fn append(&mut self, new: &mut Vec<Projectile>)
        requires
            old(self).wf(),
            forall|j: int| 0 <= j < old(new).len() ==> (#[trigger] old(new)@[j]).wf(),
        ensures
            final(self).wf(),
            final(self).projectiles@ == old(self).projectiles@ + old(new)@,
            final(new)@.len() == 0,
    {
        self.projectiles.append(new);
    }

    /// Moves every projectile for `delta`, then drops those outside the window around the
    /// player: the viewport's half extents plus a buffer on each side.
    pub fn move_projectiles(&mut self, player: &Player, delta: i64)
        requires
            old(self).wf(),
            player.wf(),
            valid_delta(delta as int),
        ensures
            final(self).wf(),
            final(self).projectiles@ == old(self).projectiles@.map_values(
                |p: Projectile| p.moved(player.position, player.moving_direction, player.collision_radius as int, delta as int),
            ).filter(|p: Projectile| in_cull_window(p.position_spec(), player.position)),
    {
        let ghost ps = self.projectiles@;
        let ghost moved = ps.map_values(
            |p: Projectile| p.moved(player.position, player.moving_direction, player.collision_radius as int, delta as int),
        );
        let n = self.projectiles.len();
        let mut kept: Vec<Projectile> = Vec::new();
        let mut i: usize = 0;
        while i < n
            invariant
                0 <= i <= n,
                n == ps.len(),
                self.projectiles@ == ps,
                ps == old(self).projectiles@,
                player.wf(),
                valid_delta(delta as int),
                moved == ps.map_values(
                    |p: Projectile| p.moved(player.position, player.moving_direction, player.collision_radius as int, delta as int),
                ),
                forall|j: int| 0 <= j < n ==> (#[trigger] ps[j]).wf(),
                kept@ == moved.take(i as int).filter(|p: Projectile| in_cull_window(p.position_spec(), player.position)),
                forall|j: int| 0 <= j < kept.len() ==> (#[trigger] kept@[j]).wf(),
            decreases n - i,
        {
            let mut p = self.projectiles[i];
            assert(moved.take(i + 1).drop_last() == moved.take(i as int));
            assert(moved.take(i + 1).last() == moved[i as int]);
            reveal_with_fuel(Seq::filter, 1);
            p.handle_move(player, delta);
            if is_in_cull_window(p.position(), player.position) {
                kept.push(p);
            }
            i += 1;
        }
        assert(moved.take(n as int) == moved);
        self.projectiles = kept;
    }

    /// Lets every projectile, in order, strike the enemies it meets, then drops the
    /// projectiles that are spent. Dead enemies stay until the registry removes them.
    pub fn handle_collision(&mut self, all_enemies: &mut AllEnemies)
        requires
            old(self).wf(),
            old(all_enemies).wf(),
        ensures
            final(self).wf(),
            final(all_enemies).wf(),
            final(all_enemies).enemies@ == strike_all(old(self).projectiles@, old(all_enemies).enemies@),
            final(self).projectiles@ == survivors(old(self).projectiles@, old(all_enemies).enemies@),
            final(all_enemies).time_since_spawn == old(all_enemies).time_since_spawn,
            final(all_enemies).elapsed == old(all_enemies).elapsed,
            final(all_enemies).next_id == old(all_enemies).next_id,
            final(all_enemies).tuning == old(all_enemies).tuning,
    {
        let ghost ps = self.projectiles@;
        let ghost es = all_enemies.enemies@;
        let n = self.projectiles.len();
        let mut kept: Vec<Projectile> = Vec::new();
        let mut i: usize = 0;
        while i < n
            invariant
                0 <= i <= n,
                n == ps.len(),
                self.projectiles@ == ps,
                ps == old(self).projectiles@,
                es == old(all_enemies).enemies@,
                forall|j: int| 0 <= j < n ==> (#[trigger] ps[j]).wf(),
                all_enemies.wf(),
                all_enemies.time_since_spawn == old(all_enemies).time_since_spawn,
                all_enemies.elapsed == old(all_enemies).elapsed,
                all_enemies.next_id == old(all_enemies).next_id,
                all_enemies.tuning == old(all_enemies).tuning,
                all_enemies.enemies@ == strike_all(ps.take(i as int), es),
                kept@ == recorded_all(ps, es, i as int).filter(|p: Projectile| !p.spent_spec()),
                forall|j: int| 0 <= j < kept.len() ==> (#[trigger] kept@[j]).wf(),
            decreases n - i,
        {
            let mut p = self.projectiles[i];
            assert(ps.take(i + 1).drop_last() == ps.take(i as int));
            assert(ps.take(i + 1).last() == p);
            assert(recorded_all(ps, es, i + 1).drop_last() == recorded_all(ps, es, i as int));
            reveal_with_fuel(Seq::filter, 1);
            p.strike(&mut all_enemies.enemies);
            assert(p == recorded_all(ps, es, i + 1).last());
            if !p.is_spent() {
                kept.push(p);
            }
            i += 1;
        }
        assert(ps.take(n as int) == ps);
        self.projectiles = kept;
    }
}

} // verus!
