//! Enemies: the seek-and-knockback integrator, contact damage against the player,
//! and the registry with its spawn policy.
use vstd::prelude::*;
use crate::geometry::{
    abs, centered, clamp_world, centered_rect, circle_meets_rect, circle_meets_rect_spec, clamp,
    displacement, displacement_of, div_toward_zero, step_coord, step_of, trunc_div,
    unit_of, unit_toward, valid_delta, valid_size, valid_speed, Direction, Position, Rect,
    DELTA_LIMIT, SIZE_LIMIT, SPEED_LIMIT, UNIT, WORLD_LIMIT,
};
use crate::dice::random_below;
use crate::status::{
    advance_timer, since_after, tick_due, valid_amount, valid_timer,
    PER_MILLE, TIME_LIMIT,
};

verus! {

/// Largest health of any creature.
pub const HEALTH_LIMIT: i32 = 1_000_000_000;

/// The sprite an enemy is drawn with; all kinds behave alike.
#[derive(Clone, Copy, Debug, PartialEq, Eq, Structural)]
pub enum EnemyKind {
    Fighter,
    Brute,
}

/// Fixed parameters of enemy movement, contact and spawning.
#[derive(Clone, Copy, Debug, PartialEq, Eq, Structural)]
pub struct EnemyTuning {
    /// Velocity kept each frame, in thousandths.
    pub friction: i64,
    /// Seek acceleration, per second squared.
    pub acceleration: i64,
    /// Bound on each velocity component while seeking.
    pub max_speed: i64,
    /// Knockback acceleration, per second squared.
    pub knockback_strength: i64,
    /// How long a knockback suspends seeking.
    pub knockback_duration: i64,
    /// Horizontal speed below which the facing is kept.
    pub facing_deadzone: i64,
    /// Spawn interval at the start of a game.
    pub spawn_base_interval: i64,
    /// Shortest spawn interval.
    pub spawn_min_interval: i64,
    /// Elapsed game time over which the spawn rate doubles.
    pub spawn_scaling: i64,
    /// Half extents of the viewport.
    pub view_half_width: i64,
    pub view_half_height: i64,
    /// Distance beyond the viewport at which enemies appear.
    pub spawn_buffer: i64,
    /// Half extents of an enemy's body.
    pub body_half_width: i64,
    pub body_half_height: i64,
    /// Health, contact damage and attack interval of a new enemy.
    pub health: i32,
    pub damage: i32,
    pub attack_interval: i64,
}

/// One enemy: its body, motion, health and attack timer.
#[derive(Clone, Copy, Debug, PartialEq, Eq, Structural)]
pub struct Enemy {
    pub id: u64,
    pub kind: EnemyKind,
    pub health: i32,
    pub max_health: i32,
    pub position: Position,
    pub direction: Direction,
    pub velocity_x: i64,
    pub velocity_y: i64,
    pub damage: i32,
    pub attack_interval: i64,
    pub time_since_last_attack: i64,
    pub knockback_cooldown: i64,
    pub half_width: i64,
    pub half_height: i64,
    /// The last sword swing that struck this enemy; zero for none.
    pub last_swing: u64,
}

impl EnemyTuning {
    pub open spec fn wf(&self) -> bool {
        &&& 0 <= self.friction <= PER_MILLE
        &&& 0 <= self.acceleration <= SPEED_LIMIT
        &&& 0 <= self.max_speed <= SPEED_LIMIT
        &&& 0 <= self.knockback_strength <= SPEED_LIMIT
        &&& 0 <= self.knockback_duration <= TIME_LIMIT
        &&& 0 <= self.facing_deadzone
        &&& 0 < self.spawn_min_interval <= self.spawn_base_interval <= TIME_LIMIT
        &&& 0 < self.spawn_scaling <= TIME_LIMIT
        &&& valid_size(self.view_half_width as int)
        &&& valid_size(self.view_half_height as int)
        &&& valid_size(self.spawn_buffer as int)
        &&& valid_size(self.body_half_width as int)
        &&& valid_size(self.body_half_height as int)
        &&& 0 < self.health <= HEALTH_LIMIT
        &&& valid_amount(self.damage as int)
        &&& 0 <= self.attack_interval <= TIME_LIMIT
    }

    pub open spec fn standard_spec() -> EnemyTuning {
        EnemyTuning {
            friction: 960,
            acceleration: 1_500_000,
            max_speed: 150_000,
            knockback_strength: 20_000_000,
            knockback_duration: 200_000,
            facing_deadzone: 5_000,
            spawn_base_interval: 1_000_000,
            spawn_min_interval: 200_000,
            spawn_scaling: 60_000_000,
            view_half_width: 1_240_000,
            view_half_height: 720_000,
            spawn_buffer: 100_000,
            body_half_width: 32_000,
            body_half_height: 32_000,
            health: 30,
            damage: 10,
            attack_interval: 1_000_000,
        }
    }

    /// The parameters the game ships with.
    pub fn standard() -> (t: EnemyTuning)
        ensures
            t.wf(),
            t == EnemyTuning::standard_spec(),
    {
        EnemyTuning {
            friction: 960,
            acceleration: 1_500_000,
            max_speed: 150_000,
            knockback_strength: 20_000_000,
            knockback_duration: 200_000,
            facing_deadzone: 5_000,
            spawn_base_interval: 1_000_000,
            spawn_min_interval: 200_000,
            spawn_scaling: 60_000_000,
            view_half_width: 1_240_000,
            view_half_height: 720_000,
            spawn_buffer: 100_000,
            body_half_width: 32_000,
            body_half_height: 32_000,
            health: 30,
            damage: 10,
            attack_interval: 1_000_000,
        }
    }
}

/// The knockback cooldown after `delta`: it runs down while positive.
pub open spec fn cooldown_after(cooldown: int, delta: int) -> int {
    if cooldown > 0 {
        cooldown - delta
    } else {
        cooldown
    }
}

/// A velocity component after friction.
pub open spec fn with_friction(v: int, friction: int) -> int {
    trunc_div(v * friction, PER_MILLE as int)
}

/// The change of velocity that an acceleration of `strength` along the unit component `u`
/// gives over `delta`.
pub open spec fn impulse(u: int, strength: int, delta: int) -> int {
    displacement_of(trunc_div(u * strength, UNIT as int), delta)
}

/// Facing taken from the horizontal velocity, kept inside the deadzone.
pub open spec fn facing_after(d: Direction, vx: int, deadzone: int) -> Direction {
    if vx > deadzone {
        Direction::Right
    } else if vx < -deadzone {
        Direction::Left
    } else {
        d
    }
}

impl Enemy {
    pub open spec fn wf(&self) -> bool {
        &&& self.position.wf()
        &&& -HEALTH_LIMIT <= self.health <= self.max_health <= HEALTH_LIMIT
        &&& valid_speed(self.velocity_x as int)
        &&& valid_speed(self.velocity_y as int)
        &&& valid_size(self.half_width as int)
        &&& valid_size(self.half_height as int)
        &&& valid_amount(self.damage as int)
        &&& valid_timer(self.attack_interval as int, self.time_since_last_attack as int)
        &&& -DELTA_LIMIT <= self.knockback_cooldown <= TIME_LIMIT
    }

    /// The rectangle the enemy occupies, centred on its position.
    pub open spec fn body_spec(&self) -> Rect {
        centered_rect(self.position, self.half_width as int, self.half_height as int)
    }

    pub open spec fn alive_spec(&self) -> bool {
        self.health > 0
    }

    /// One integration step toward `target`: cooldown, friction, seeking unless knocked
    /// back, position from the new velocity, facing.
    pub open spec fn integrated(&self, target: Position, delta: int, t: EnemyTuning) -> Enemy {
        let cooldown = cooldown_after(self.knockback_cooldown as int, delta);
        let fx = with_friction(self.velocity_x as int, t.friction as int);
        let fy = with_friction(self.velocity_y as int, t.friction as int);
        let m = t.max_speed as int;
        let vx = if cooldown > 0 {
            fx
        } else {
            match unit_of(target.x - self.position.x, target.y - self.position.y) {
                Some((ux, uy)) => clamp(fx + impulse(ux as int, t.acceleration as int, delta), -m, m),
                None => clamp(fx, -m, m),
            }
        };
        let vy = if cooldown > 0 {
            fy
        } else {
            match unit_of(target.x - self.position.x, target.y - self.position.y) {
                Some((ux, uy)) => clamp(fy + impulse(uy as int, t.acceleration as int, delta), -m, m),
                None => clamp(fy, -m, m),
            }
        };
        Enemy {
            knockback_cooldown: cooldown as i64,
            velocity_x: vx as i64,
            velocity_y: vy as i64,
            position: Position {
                x: step_of(self.position.x as int, vx, delta) as i64,
                y: step_of(self.position.y as int, vy, delta) as i64,
            },
            direction: facing_after(self.direction, vx, t.facing_deadzone as int),
            ..*self
        }
    }

    /// The enemy's body meets the disc of radius `radius` around `target`.
    pub open spec fn touches(&self, target: Position, radius: int) -> bool {
        circle_meets_rect_spec(target.x as int, target.y as int, radius, self.body_spec())
    }

    /// Damage dealt to a player at `target` in this frame.
    pub open spec fn contact_damage(&self, target: Position, radius: int, delta: int) -> int {
        if self.touches(target, radius) && tick_due(
            self.time_since_last_attack as int,
            self.attack_interval as int,
            delta,
        ) {
            self.damage as int
        } else {
            0
        }
    }

    /// The enemy after contact with a player at `target`: the attack timer runs, the
    /// enemy is pushed away from the player and its seeking is suspended.
    pub open spec fn after_contact(&self, target: Position, radius: int, delta: int, t: EnemyTuning) -> Enemy {
        if !self.touches(target, radius) {
            *self
        } else {
            let since = since_after(
                self.time_since_last_attack as int,
                self.attack_interval as int,
                delta,
            );
            let s = t.knockback_strength as int;
            let l = SPEED_LIMIT as int;
            match unit_of(self.position.x - target.x, self.position.y - target.y) {
                Some((ux, uy)) => Enemy {
                    time_since_last_attack: since as i64,
                    knockback_cooldown: t.knockback_duration,
                    velocity_x: clamp(self.velocity_x + impulse(ux as int, s, delta), -l, l) as i64,
                    velocity_y: clamp(self.velocity_y + impulse(uy as int, s, delta), -l, l) as i64,
                    ..*self
                },
                None => Enemy {
                    time_since_last_attack: since as i64,
                    knockback_cooldown: t.knockback_duration,
                    ..*self
                },
            }
        }
    }

    /// The enemy after losing `amount` health; health goes below zero, down to the
    /// bound that keeps it representable.
    pub open spec fn damaged(&self, amount: int) -> Enemy {
        Enemy {
            health: (if self.health - amount >= -HEALTH_LIMIT {
                self.health - amount
            } else {
                -HEALTH_LIMIT as int
            }) as i32,
            ..*self
        }
    }

    /// A new enemy of `kind` at `position`, at rest and at full health.
    pub open spec fn fresh(id: u64, kind: EnemyKind, position: Position, t: EnemyTuning) -> Enemy {
        Enemy {
            id,
            kind,
            health: t.health,
            max_health: t.health,
            position,
            direction: Direction::Down,
            velocity_x: 0,
            velocity_y: 0,
            damage: t.damage,
            attack_interval: t.attack_interval,
            time_since_last_attack: 0,
            knockback_cooldown: 0,
            half_width: t.body_half_width,
            half_height: t.body_half_height,
            last_swing: 0,
        }
    }

    /// A new enemy of `kind` at `position`, at rest and at full health.
    pub fn new(id: u64, kind: EnemyKind, position: Position, t: &EnemyTuning) -> (e: Enemy)
        requires
            position.wf(),
            t.wf(),
        ensures
            e.wf(),
            e == Enemy::fresh(id, kind, position, *t),
    {
        Enemy {
            id,
            kind,
            health: t.health,
            max_health: t.health,
            position,
            direction: Direction::Down,
            velocity_x: 0,
            velocity_y: 0,
            damage: t.damage,
            attack_interval: t.attack_interval,
            time_since_last_attack: 0,
            knockback_cooldown: 0,
            half_width: t.body_half_width,
            half_height: t.body_half_height,
            last_swing: 0,
        }
    }

    /// Whether the enemy still has health.
    pub fn is_alive(&self) -> (r: bool)
        ensures
            r == self.alive_spec(),
    {
        self.health > 0
    }

    /// The rectangle the enemy occupies.
    pub fn body(&self) -> (r: Rect)
        requires
            self.wf(),
        ensures
            r == self.body_spec(),
            r.wf(),
    {
        centered(self.position, self.half_width, self.half_height)
    }

    /// Takes `amount` of damage.
    pub fn take_damage(&mut self, amount: i32)
        requires
            old(self).wf(),
            valid_amount(amount as int),
        ensures
            *final(self) == old(self).damaged(amount as int),
            final(self).wf(),
    {
        if self.health as i64 - amount as i64 >= -(HEALTH_LIMIT as i64) {
            self.health = self.health - amount;
        } else {
            self.health = -HEALTH_LIMIT;
        }
    }

    /// Advances movement by `delta` toward `target` (steps one to five of the integrator).
    pub fn integrate(&mut self, target: Position, delta: i64, t: &EnemyTuning)
        requires
            old(self).wf(),
            target.wf(),
            t.wf(),
            valid_delta(delta as int),
        ensures
            *final(self) == old(self).integrated(target, delta as int, *t),
            final(self).wf(),
    {
        let cooldown = if self.knockback_cooldown > 0 {
            self.knockback_cooldown - delta
        } else {
            self.knockback_cooldown
        };
        self.knockback_cooldown = cooldown;
        let fx = apply_friction(self.velocity_x, t.friction);
        let fy = apply_friction(self.velocity_y, t.friction);
        let mut vx = fx;
        let mut vy = fy;
        if cooldown <= 0 {
            match unit_toward(self.position, target) {
                Some((ux, uy)) => {
                    vx = clamp_speed(fx as i128 + impulse_of(ux, t.acceleration, delta) as i128, t.max_speed);
                    vy = clamp_speed(fy as i128 + impulse_of(uy, t.acceleration, delta) as i128, t.max_speed);
                },
                None => {
                    vx = clamp_speed(fx as i128, t.max_speed);
                    vy = clamp_speed(fy as i128, t.max_speed);
                },
            }
        }
        self.velocity_x = vx;
        self.velocity_y = vy;
        self.position = Position {
            x: step_coord(self.position.x, vx, delta),
            y: step_coord(self.position.y, vy, delta),
        };
        if vx > t.facing_deadzone {
            self.direction = Direction::Right;
        } else if vx < -t.facing_deadzone {
            self.direction = Direction::Left;
        }
    }

    /// Resolves contact with a player of radius `radius` at `target` (step six of the
    /// integrator) and returns the damage dealt to the player.
    pub fn resolve_contact(&mut self, target: Position, radius: i64, delta: i64, t: &EnemyTuning) -> (dealt: i32)
        requires
            old(self).wf(),
            target.wf(),
            valid_size(radius as int),
            t.wf(),
            valid_delta(delta as int),
        ensures
            *final(self) == old(self).after_contact(target, radius as int, delta as int, *t),
            dealt == old(self).contact_damage(target, radius as int, delta as int),
            final(self).wf(),
    {
        let body = self.body();
        if !circle_meets_rect(target.x, target.y, radius, &body) {
            return 0;
        }
        let due = advance_timer(&mut self.time_since_last_attack, self.attack_interval, delta);
        self.knockback_cooldown = t.knockback_duration;
        match unit_toward(target, self.position) {
            Some((ux, uy)) => {
                self.velocity_x = clamp_speed(
                    self.velocity_x as i128 + impulse_of(ux, t.knockback_strength, delta) as i128,
                    SPEED_LIMIT,
                );
                self.velocity_y = clamp_speed(
                    self.velocity_y as i128 + impulse_of(uy, t.knockback_strength, delta) as i128,
                    SPEED_LIMIT,
                );
            },
            None => {},
        }
        if due {
            self.damage
        } else {
            0
        }
    }
}

/// Longest elapsed game time that the registry counts.
pub const ELAPSED_LIMIT: i64 = 1_000_000_000_000_000;

/// The live enemies and the spawn timer.
pub struct AllEnemies {
    pub enemies: Vec<Enemy>,
    /// Time since the last spawn.
    pub time_since_spawn: i64,
    /// Game time elapsed, which drives the spawn rate.
    pub elapsed: i64,
    /// Identifier of the next enemy to spawn.
    pub next_id: u64,
    pub tuning: EnemyTuning,
}

/// The interval between spawns after `elapsed` of game time:
/// `max(min, base / (1 + elapsed / scaling))`.
pub open spec fn spawn_interval_spec(elapsed: int, t: EnemyTuning) -> int {
    let i = (t.spawn_base_interval * t.spawn_scaling) / (t.spawn_scaling + elapsed);
    if i < t.spawn_min_interval {
        t.spawn_min_interval as int
    } else {
        i
    }
}

/// Length of the spawn edge `edge` (top, bottom, left, right): the viewport's span along it.
pub open spec fn edge_span_spec(edge: int, t: EnemyTuning) -> int {
    if edge < 2 {
        2 * t.view_half_width
    } else {
        2 * t.view_half_height
    }
}

/// The point `along` the edge `edge` of the viewport around `player`, pushed out by the
/// spawn buffer.
pub open spec fn spawn_point_spec(player: Position, edge: int, along: int, t: EnemyTuning) -> Position {
    let ow = t.view_half_width + t.spawn_buffer;
    let oh = t.view_half_height + t.spawn_buffer;
    let lo = -WORLD_LIMIT as int;
    let hi = WORLD_LIMIT as int;
    if edge == 0 {
        Position { x: clamp(player.x - t.view_half_width + along, lo, hi) as i64, y: clamp(player.y - oh, lo, hi) as i64 }
    } else if edge == 1 {
        Position { x: clamp(player.x - t.view_half_width + along, lo, hi) as i64, y: clamp(player.y + oh, lo, hi) as i64 }
    } else if edge == 2 {
        Position { x: clamp(player.x - ow, lo, hi) as i64, y: clamp(player.y - t.view_half_height + along, lo, hi) as i64 }
    } else {
        Position { x: clamp(player.x + ow, lo, hi) as i64, y: clamp(player.y - t.view_half_height + along, lo, hi) as i64 }
    }
}

/// Kinds are drawn three fighters to one brute.
pub open spec fn kind_of_roll(roll: int) -> EnemyKind {
    if roll == 3 {
        EnemyKind::Brute
    } else {
        EnemyKind::Fighter
    }
}

/// Total contact damage that the enemies deal, in order, after each has moved.
pub open spec fn contact_total(es: Seq<Enemy>, target: Position, radius: int, delta: int, t: EnemyTuning) -> int
    decreases es.len(),
{
    if es.len() == 0 {
        0
    } else {
        contact_total(es.drop_last(), target, radius, delta, t) + es.last().integrated(
            target,
            delta,
            t,
        ).contact_damage(target, radius, delta)
    }
}

/// An enemy after its full step: movement, then contact.
pub open spec fn enemy_step(e: Enemy, target: Position, radius: int, delta: int, t: EnemyTuning) -> Enemy {
    e.integrated(target, delta, t).after_contact(target, radius, delta, t)
}

impl AllEnemies {
    pub open spec fn wf(&self) -> bool {
        &&& self.tuning.wf()
        &&& forall|j: int| 0 <= j < self.enemies.len() ==> (#[trigger] self.enemies@[j]).wf()
        &&& 0 <= self.time_since_spawn <= TIME_LIMIT
        &&& 0 <= self.elapsed <= ELAPSED_LIMIT
    }

    /// The registry after a spawn step with the given rolls.
    pub open spec fn spawn_outcome(
        &self,
        after: &AllEnemies,
        player: Position,
        delta: int,
        edge: int,
        along: int,
        kind_roll: int,
    ) -> bool {
        let elapsed = clamp(self.elapsed + delta, 0, ELAPSED_LIMIT as int);
        let since = self.time_since_spawn + delta;
        &&& after.elapsed == elapsed
        &&& after.tuning == self.tuning
        &&& if since >= spawn_interval_spec(elapsed, self.tuning) {
            &&& after.time_since_spawn == 0
            &&& after.enemies@ == self.enemies@.push(
                Enemy::fresh(
                    self.next_id,
                    kind_of_roll(kind_roll),
                    spawn_point_spec(player, edge, along, self.tuning),
                    self.tuning,
                ),
            )
            &&& after.next_id == (if self.next_id < u64::MAX {
                self.next_id + 1
            } else {
                self.next_id as int
            })
        } else {
            &&& after.time_since_spawn == since
            &&& after.enemies@ == self.enemies@
            &&& after.next_id == self.next_id
        }
    }

    /// An empty registry with the standard tuning.
    pub fn new() -> (r: AllEnemies)
        ensures
            r.wf(),
            r.enemies@.len() == 0,
            r.time_since_spawn == 0,
            r.elapsed == 0,
            r.next_id == 1,
            r.tuning == EnemyTuning::standard_spec(),
    {
        AllEnemies::with_tuning(EnemyTuning::standard())
    }

    /// An empty registry with the given tuning.
    pub fn with_tuning(tuning: EnemyTuning) -> (r: AllEnemies)
        requires
            tuning.wf(),
        ensures
            r.wf(),
            r.enemies@.len() == 0,
            r.time_since_spawn == 0,
            r.elapsed == 0,
            r.next_id == 1,
            r.tuning == tuning,
    {
        AllEnemies { enemies: Vec::new(), time_since_spawn: 0, elapsed: 0, next_id: 1, tuning }
    }

    /// The spawn interval after `elapsed` of game time.
    pub fn spawn_interval(&self, elapsed: i64) -> (r: i64)
        requires
            self.tuning.wf(),
            0 <= elapsed <= ELAPSED_LIMIT,
        ensures
            r == spawn_interval_spec(elapsed as int, self.tuning),
            self.tuning.spawn_min_interval <= r <= self.tuning.spawn_base_interval,
    {
        let t = self.tuning;
        proof {
            assert(t.spawn_base_interval * t.spawn_scaling <= TIME_LIMIT * TIME_LIMIT) by (nonlinear_arith)
                requires
                    0 < t.spawn_base_interval <= TIME_LIMIT,
                    0 < t.spawn_scaling <= TIME_LIMIT,
            ;
            assert(t.spawn_base_interval * t.spawn_scaling >= 0) by (nonlinear_arith)
                requires
                    0 < t.spawn_base_interval,
                    0 < t.spawn_scaling,
            ;
            let n = t.spawn_base_interval * t.spawn_scaling;
            vstd::arithmetic::div_mod::lemma_div_is_ordered_by_denominator(n, t.spawn_scaling as int, t.spawn_scaling + elapsed);
            assert(n / (t.spawn_scaling as int) == t.spawn_base_interval as int) by (nonlinear_arith)
                requires
                    n == t.spawn_base_interval * t.spawn_scaling,
                    0 < t.spawn_scaling,
            ;
        }
        let i = (t.spawn_base_interval as i128 * t.spawn_scaling as i128) / (t.spawn_scaling as i128 + elapsed as i128);
        if i < t.spawn_min_interval as i128 {
            t.spawn_min_interval
        } else {
            i as i64
        }
    }

    /// The length of spawn edge `edge`.
    pub fn edge_span(&self, edge: u64) -> (r: u64)
        requires
            self.tuning.wf(),
        ensures
            r == edge_span_spec(edge as int, self.tuning),
    {
        if edge < 2 {
            2 * self.tuning.view_half_width as u64
        } else {
            2 * self.tuning.view_half_height as u64
        }
    }

    /// Advances the spawn timer by `delta`; when the spawn interval has passed, adds one
    /// enemy at the point `along` the edge `edge` around `player`, of the kind that
    /// `kind_roll` draws.
    pub fn spawn_enemies_with(&mut self, player: Position, delta: i64, edge: u64, along: u64, kind_roll: u64)
        requires
            old(self).wf(),
            player.wf(),
            valid_delta(delta as int),
            edge < 4,
            along <= edge_span_spec(edge as int, old(self).tuning),
            kind_roll < 4,
        ensures
            final(self).wf(),
            old(self).spawn_outcome(final(self), player, delta as int, edge as int, along as int, kind_roll as int),
    {
        if self.elapsed > ELAPSED_LIMIT - delta {
            self.elapsed = ELAPSED_LIMIT;
        } else {
            self.elapsed = self.elapsed + delta;
        }
        let since = self.time_since_spawn + delta;
        let interval = self.spawn_interval(self.elapsed);
        if since >= interval {
            let t = self.tuning;
            let pos = spawn_point(player, edge, along as i64, &t);
            let kind = if kind_roll == 3 {
                EnemyKind::Brute
            } else {
                EnemyKind::Fighter
            };
            let e = Enemy::new(self.next_id, kind, pos, &t);
            self.enemies.push(e);
            if self.next_id < u64::MAX {
                self.next_id = self.next_id + 1;
            }
            self.time_since_spawn = 0;
        } else {
            self.time_since_spawn = since;
        }
    }

    /// Advances the spawn timer by `delta` and, when the spawn interval has passed, adds one
    /// enemy at a random point of the spawn ring around `player`: the edge, the point along
    /// it and the kind are drawn uniformly.
    pub fn spawn_enemies(&mut self, player: Position, delta: i64)
        requires
            old(self).wf(),
            player.wf(),
            valid_delta(delta as int),
        ensures
            final(self).wf(),
            exists|edge: int, along: int, kind_roll: int|
                0 <= edge < 4 && 0 <= along <= edge_span_spec(edge, old(self).tuning) && 0 <= kind_roll < 4
                    && #[trigger] old(self).spawn_outcome(final(self), player, delta as int, edge, along, kind_roll),
    {
        let edge = random_below(4);
        let span = self.edge_span(edge);
        let along = random_below(span + 1);
        let kind_roll = random_below(4);
        self.spawn_enemies_with(player, delta, edge, along, kind_roll);
    }

    /// Removes every enemy whose health has run out.
    pub fn remove_dead(&mut self)
        requires
            old(self).wf(),
        ensures
            final(self).wf(),
            final(self).enemies@ == old(self).enemies@.filter(|e: Enemy| e.alive_spec()),
            final(self).time_since_spawn == old(self).time_since_spawn,
            final(self).elapsed == old(self).elapsed,
            final(self).next_id == old(self).next_id,
            final(self).tuning == old(self).tuning,
    {
        let ghost es = self.enemies@;
        let mut kept: Vec<Enemy> = Vec::new();
        let n = self.enemies.len();
        let mut i: usize = 0;
        while i < n
            invariant
                0 <= i <= n,
                n == es.len(),
                self.enemies@ == es,
                kept@ == es.take(i as int).filter(|e: Enemy| e.alive_spec()),
                forall|j: int| 0 <= j < es.len() ==> (#[trigger] es[j]).wf(),
                forall|j: int| 0 <= j < kept.len() ==> (#[trigger] kept@[j]).wf(),
            decreases n - i,
        {
            let e = self.enemies[i];
            assert(es.take(i + 1).drop_last() == es.take(i as int));
            assert(es.take(i + 1).last() == e);
            reveal_with_fuel(Seq::filter, 1);
            if e.is_alive() {
                kept.push(e);
            }
            i += 1;
        }
        assert(es.take(n as int) == es);
        self.enemies = kept;
    }

    /// Moves every enemy toward `player_position` for `delta`, without contact.
    pub fn follow_player(&mut self, player_position: Position, delta: i64)
        requires
            old(self).wf(),
            player_position.wf(),
            valid_delta(delta as int),
        ensures
            final(self).wf(),
            final(self).enemies@ == old(self).enemies@.map_values(
                |e: Enemy| e.integrated(player_position, delta as int, old(self).tuning),
            ),
            final(self).time_since_spawn == old(self).time_since_spawn,
            final(self).elapsed == old(self).elapsed,
            final(self).next_id == old(self).next_id,
            final(self).tuning == old(self).tuning,
    {
        let ghost es = self.enemies@;
        let t = self.tuning;
        let n = self.enemies.len();
        let mut i: usize = 0;
        while i < n
            invariant
                0 <= i <= n,
                n == es.len(),
                self.enemies@.len() == n,
                self.wf(),
                player_position.wf(),
                valid_delta(delta as int),
                es == old(self).enemies@,
                t == self.tuning,
                t == old(self).tuning,
                self.time_since_spawn == old(self).time_since_spawn,
                self.elapsed == old(self).elapsed,
                self.next_id == old(self).next_id,
                forall|j: int| 0 <= j < i ==> #[trigger] self.enemies@[j] == es[j].integrated(player_position, delta as int, t),
                forall|j: int| i <= j < n ==> #[trigger] self.enemies@[j] == es[j],
            decreases n - i,
        {
            let mut e = self.enemies[i];
            e.integrate(player_position, delta, &t);
            self.enemies.set(i, e);
            i += 1;
        }
        assert(self.enemies@ =~= es.map_values(|e: Enemy| e.integrated(player_position, delta as int, t)));
    }

    /// Moves every enemy toward `target` and resolves its contact with a player of radius
    /// `radius` there; returns the damage dealt, capped at the largest health.
    pub fn tick(&mut self, target: Position, radius: i64, delta: i64) -> (dealt: i32)
        requires
            old(self).wf(),
            target.wf(),
            valid_size(radius as int),
            valid_delta(delta as int),
        ensures
            final(self).wf(),
            final(self).enemies@.len() == old(self).enemies@.len(),
            forall|j: int| 0 <= j < old(self).enemies@.len() ==> #[trigger] final(self).enemies@[j] == enemy_step(old(self).enemies@[j], target, radius as int, delta as int, old(self).tuning),
            dealt == clamp(contact_total(old(self).enemies@, target, radius as int, delta as int, old(self).tuning), 0, HEALTH_LIMIT as int),
            contact_total(old(self).enemies@, target, radius as int, delta as int, old(self).tuning) >= 0,
            final(self).time_since_spawn == old(self).time_since_spawn,
            final(self).elapsed == old(self).elapsed,
            final(self).next_id == old(self).next_id,
            final(self).tuning == old(self).tuning,
    {
        let ghost es = self.enemies@;
        let t = self.tuning;
        let n = self.enemies.len();
        let mut dealt: i32 = 0;
        let mut i: usize = 0;
        while i < n
            invariant
                0 <= i <= n,
                n == es.len(),
                self.enemies@.len() == n,
                t == self.tuning,
                self.wf(),
                target.wf(),
                valid_size(radius as int),
                valid_delta(delta as int),
                es == old(self).enemies@,
                t == old(self).tuning,
                self.time_since_spawn == old(self).time_since_spawn,
                self.elapsed == old(self).elapsed,
                self.next_id == old(self).next_id,
                forall|j: int| 0 <= j < i ==> #[trigger] self.enemies@[j] == enemy_step(es[j], target, radius as int, delta as int, t),
                forall|j: int| i <= j < n ==> #[trigger] self.enemies@[j] == es[j],
                0 <= contact_total(es.take(i as int), target, radius as int, delta as int, t),
                dealt == clamp(contact_total(es.take(i as int), target, radius as int, delta as int, t), 0, HEALTH_LIMIT as int),
            decreases n - i,
        {
            let mut e = self.enemies[i];
            assert(es.take(i + 1).drop_last() == es.take(i as int));
            e.integrate(target, delta, &t);
            let d = e.resolve_contact(target, radius, delta, &t);
            self.enemies.set(i, e);
            if d as i64 + dealt as i64 > HEALTH_LIMIT as i64 {
                dealt = HEALTH_LIMIT;
            } else {
                dealt = dealt + d;
            }
            i += 1;
        }
        assert(es.take(n as int) == es);
        dealt
    }
}

/// The point `along` the edge `edge` around `player`.
pub fn spawn_point(player: Position, edge: u64, along: i64, t: &EnemyTuning) -> (p: Position)
    requires
        player.wf(),
        t.wf(),
        0 <= along <= 2 * SIZE_LIMIT,
    ensures
        p == spawn_point_spec(player, edge as int, along as int, *t),
        p.wf(),
{
    let ow = t.view_half_width as i128 + t.spawn_buffer as i128;
    let oh = t.view_half_height as i128 + t.spawn_buffer as i128;
    let px = player.x as i128;
    let py = player.y as i128;
    if edge == 0 {
        Position { x: clamp_world(px - t.view_half_width as i128 + along as i128), y: clamp_world(py - oh) }
    } else if edge == 1 {
        Position { x: clamp_world(px - t.view_half_width as i128 + along as i128), y: clamp_world(py + oh) }
    } else if edge == 2 {
        Position { x: clamp_world(px - ow), y: clamp_world(py - t.view_half_height as i128 + along as i128) }
    } else {
        Position { x: clamp_world(px + ow), y: clamp_world(py - t.view_half_height as i128 + along as i128) }
    }
}

/// Friction never makes a velocity component larger.
pub proof fn lemma_friction_bound(v: int, friction: int)
    requires
        valid_speed(v),
        0 <= friction <= PER_MILLE,
    ensures
        abs(with_friction(v, friction)) <= abs(v),
        valid_speed(with_friction(v, friction)),
{
    let p = v * friction;
    if p >= 0 {
        assert(p <= abs(v) * 1000) by (nonlinear_arith)
            requires
                p == v * friction,
                0 <= friction <= 1000,
        ;
        assert(p / 1000 <= abs(v)) by (nonlinear_arith)
            requires
                0 <= p <= abs(v) * 1000,
        ;
        assert(p / 1000 >= 0) by (nonlinear_arith)
            requires
                0 <= p,
        ;
    } else {
        assert(-p <= abs(v) * 1000) by (nonlinear_arith)
            requires
                p == v * friction,
                0 <= friction <= 1000,
        ;
        assert((-p) / 1000 <= abs(v)) by (nonlinear_arith)
            requires
                0 <= -p <= abs(v) * 1000,
        ;
        assert((-p) / 1000 >= 0) by (nonlinear_arith)
            requires
                0 <= -p,
        ;
    }
}

/// A velocity component after friction.
pub fn apply_friction(v: i64, friction: i64) -> (r: i64)
    requires
        valid_speed(v as int),
        0 <= friction <= PER_MILLE,
    ensures
        r == with_friction(v as int, friction as int),
        valid_speed(r as int),
{
    assert(abs(v * friction) <= abs(v as int) * PER_MILLE) by (nonlinear_arith)
        requires
            0 <= friction <= PER_MILLE,
    ;
    assert(abs(v as int) * PER_MILLE <= SPEED_LIMIT * PER_MILLE) by (nonlinear_arith)
        requires
            abs(v as int) <= SPEED_LIMIT,
    ;
    let p = v as i128 * friction as i128;
    let r = div_toward_zero(p, PER_MILLE as i128);
    proof {
        let pi = p as int;
        if pi >= 0 {
            assert(pi / 1000 <= abs(v as int)) by (nonlinear_arith)
                requires
                    0 <= pi <= abs(v as int) * 1000,
            ;
            assert(pi / 1000 >= 0) by (nonlinear_arith)
                requires
                    0 <= pi,
            ;
        } else {
            assert((-pi) / 1000 <= abs(v as int)) by (nonlinear_arith)
                requires
                    0 <= -pi <= abs(v as int) * 1000,
            ;
            assert((-pi) / 1000 >= 0) by (nonlinear_arith)
                requires
                    0 <= -pi,
            ;
        }
    }
    r as i64
}

/// The change of velocity from an acceleration of `strength` along the unit component `u`.
pub fn impulse_of(u: i64, strength: i64, delta: i64) -> (r: i64)
    requires
        abs(u as int) <= UNIT,
        0 <= strength <= SPEED_LIMIT,
        valid_delta(delta as int),
    ensures
        r == impulse(u as int, strength as int, delta as int),
        abs(r as int) <= 1_000_000_000_000_000,
{
    assert(abs(u * strength) <= UNIT * SPEED_LIMIT) by (nonlinear_arith)
        requires
            abs(u as int) <= UNIT,
            0 <= strength <= SPEED_LIMIT,
    ;
    let p = u as i128 * strength as i128;
    let a = div_toward_zero(p, UNIT as i128);
    proof {
        let pi = p as int;
        if pi >= 0 {
            assert(pi / 1_000_000 <= 1_000_000_000_000) by (nonlinear_arith)
                requires
                    0 <= pi <= 1_000_000_000_000_000_000,
            ;
            assert(pi / 1_000_000 >= 0) by (nonlinear_arith)
                requires
                    0 <= pi,
            ;
        } else {
            assert((-pi) / 1_000_000 <= 1_000_000_000_000) by (nonlinear_arith)
                requires
                    0 <= -pi <= 1_000_000_000_000_000_000,
            ;
            assert((-pi) / 1_000_000 >= 0) by (nonlinear_arith)
                requires
                    0 <= -pi,
            ;
        }
    }
    displacement(a as i64, delta)
}

/// Bounds a velocity component to `[-limit, limit]`.
pub fn clamp_speed(v: i128, limit: i64) -> (r: i64)
    requires
        0 <= limit <= SPEED_LIMIT,
    ensures
        r == clamp(v as int, -limit as int, limit as int),
        valid_speed(r as int),
{
    if v < -(limit as i128) {
        -limit
    } else if v > limit as i128 {
        limit
    } else {
        v as i64
    }
}

} // verus!
