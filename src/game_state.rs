//! The per-frame tick that composes the player, the enemies and the projectiles.
use vstd::prelude::*;
use crate::enemy::{
    contact_total, edge_span_spec, enemy_step, kind_of_roll, spawn_interval_spec, spawn_point_spec,
    AllEnemies, Enemy, ELAPSED_LIMIT,
};
use crate::geometry::{
    clamp, displacement_of, trunc_div, unit_of, valid_delta, Direction, Position, WORLD_LIMIT,
};
use crate::player::{
    slot_advanced, speed_multiplier_spec, statuses_after, total_change, MoveInput, Player,
};
use crate::status::PER_MILLE;
use crate::weapon::Weapon;
use crate::projectile::{in_cull_window, strike_all, survivors, AllProjectiles, Projectile};

verus! {

/// The whole simulated world.
pub struct GameState {
    pub player: Player,
    pub projectiles: AllProjectiles,
    pub enemies: AllEnemies,
}

impl GameState {
    pub open spec fn wf(&self) -> bool {
        self.player.wf() && self.projectiles.wf() && self.enemies.wf()
    }

    /// A world with `player`, no projectiles and no enemies.
    pub fn new(player: Player) -> (g: GameState)
        requires
            player.wf(),
        ensures
            g.wf(),
            g.player == player,
            g.projectiles.projectiles@.len() == 0,
            g.enemies.enemies@.len() == 0,
    {
        GameState { player, projectiles: AllProjectiles::new(), enemies: AllEnemies::new() }
    }

    /// Whether the player still has health.
    pub fn player_alive(&self) -> (r: bool)
        ensures
            r == (self.player.health > 0),
    {
        self.player.is_alive()
    }

    /// Runs one frame of `delta`, in this order: dead enemies leave; the player aims at
    /// `aim_target`, moves by `input` and has its statuses applied; enemies move and strike
    /// the player; a new enemy may spawn; the weapons fire; projectiles move and are culled;
    /// projectiles strike enemies. Enemies move before the projectiles strike, so the
    /// knockback of this frame stands until the next.
    pub fn game_tick(&mut self, input: MoveInput, aim_target: Position, delta: i64)
        requires
            old(self).wf(),
            aim_target.wf(),
            valid_delta(delta as int),
        ensures
            final(self).wf(),
            0 <= final(self).player.health <= final(self).player.max_health,
            final(self).player.max_health == old(self).player.max_health,
            final(self).player.statuses@ == statuses_after(old(self).player.statuses@, delta as int),
            final(self).player.weapons@ == old(self).player.weapons@.map_values(
                |s: Option<Weapon>| slot_advanced(s, delta as int),
            ),
            final(self).enemies.tuning == old(self).enemies.tuning,
            ({
                let pl = final(self).player;
                let max = old(self).player.max_health as int;
                let after_statuses = clamp(
                    old(self).player.health + total_change(old(self).player.statuses@, delta as int),
                    0,
                    max,
                );
                let swept = old(self).enemies.enemies@.filter(|e: Enemy| e.alive_spec());
                pl.health == clamp(
                    after_statuses - contact_total(swept, pl.position, pl.collision_radius as int, delta as int, old(self).enemies.tuning),
                    0,
                    max,
                )
            }),
            ({
                let pl = final(self).player;
                let swing = pl.volley_count;
                let fired = pl.slot_volley(old(self).player.weapons@[0], delta as int, swing)
                    + pl.slot_volley(old(self).player.weapons@[1], delta as int, swing)
                    + pl.slot_volley(old(self).player.weapons@[2], delta as int, swing);
                let flying = (old(self).projectiles.projectiles@ + fired).map_values(
                    |q: Projectile| q.moved(pl.position, pl.moving_direction, pl.collision_radius as int, delta as int),
                ).filter(|q: Projectile| in_cull_window(q.position_spec(), pl.position));
                let survivors_of_sweep = old(self).enemies.enemies@.filter(|e: Enemy| e.alive_spec());
                let stepped = survivors_of_sweep.map_values(
                    |e: Enemy| enemy_step(e, pl.position, pl.collision_radius as int, delta as int, old(self).enemies.tuning),
                );
                let t = old(self).enemies.tuning;
                let elapsed = clamp(old(self).enemies.elapsed + delta, 0, ELAPSED_LIMIT as int);
                let due = old(self).enemies.time_since_spawn + delta >= spawn_interval_spec(elapsed, t);
                &&& final(self).enemies.elapsed == elapsed
                &&& final(self).enemies.time_since_spawn == (if due {
                    0
                } else {
                    old(self).enemies.time_since_spawn + delta
                })
                &&& exists|edge: int, along: int, kind_roll: int|
                    #![trigger spawn_point_spec(pl.position, edge, along, t), kind_of_roll(kind_roll)]
                    0 <= edge < 4 && 0 <= along <= edge_span_spec(edge, t) && 0 <= kind_roll < 4 && {
                        let present = if due {
                            stepped.push(
                                Enemy::fresh(
                                    old(self).enemies.next_id,
                                    kind_of_roll(kind_roll),
                                    spawn_point_spec(pl.position, edge, along, t),
                                    t,
                                ),
                            )
                        } else {
                            stepped
                        };
                        &&& final(self).enemies.enemies@ == strike_all(flying, present)
                        &&& final(self).projectiles.projectiles@ == survivors(flying, present)
                    }
            }),
            match unit_of(aim_target.x - old(self).player.position.x, aim_target.y - old(self).player.position.y) {
                Some((ux, uy)) => final(self).player.aim_x == ux && final(self).player.aim_y == uy,
                None => final(self).player.aim_x == old(self).player.aim_x
                    && final(self).player.aim_y == old(self).player.aim_y,
            },
            final(self).player.moving_direction == (if input.right {
                Direction::Right
            } else if input.left {
                Direction::Left
            } else if input.down {
                Direction::Down
            } else if input.up {
                Direction::Up
            } else {
                old(self).player.moving_direction
            }),
            ({
                let p = old(self).player;
                let d = displacement_of(
                    trunc_div(p.move_speed * speed_multiplier_spec(p.statuses@), PER_MILLE as int),
                    delta as int,
                );
                let dx = (if input.right { d } else { 0 }) - (if input.left { d } else { 0 });
                let dy = (if input.down { d } else { 0 }) - (if input.up { d } else { 0 });
                &&& final(self).player.position.x == clamp(p.position.x + dx, -WORLD_LIMIT as int, WORLD_LIMIT as int)
                &&& final(self).player.position.y == clamp(p.position.y + dy, -WORLD_LIMIT as int, WORLD_LIMIT as int)
            }),
    {
        self.enemies.remove_dead();
        self.player.aim_at(aim_target);
        self.player.handle_user_input(input, delta);
        self.player.handle_status_effects(delta);
        let ghost swept = self.enemies.enemies@;
        self.player.handle_enemies(&mut self.enemies, delta);
        let ghost stepped = self.enemies.enemies@;
        assert(stepped =~= swept.map_values(
            |e: Enemy| enemy_step(e, self.player.position, self.player.collision_radius as int, delta as int, self.enemies.tuning),
        ));
        let ghost moved = self.enemies;
        self.enemies.spawn_enemies(self.player.position, delta);
        let ghost present = self.enemies.enemies@;
        let ghost (edge, along, kind_roll) = choose|edge: int, along: int, kind_roll: int|
            0 <= edge < 4 && 0 <= along <= edge_span_spec(edge, moved.tuning) && 0 <= kind_roll < 4
                && #[trigger] moved.spawn_outcome(&self.enemies, self.player.position, delta as int, edge, along, kind_roll);
        let ghost armed = self.player;
        let mut fired = self.player.handle_weapons(delta);
        proof {
            let pl = self.player;
            let swing = pl.volley_count;
            let w = old(self).player.weapons@;
            assert(armed.slot_volley(w[0], delta as int, swing) =~= pl.slot_volley(w[0], delta as int, swing));
            assert(armed.slot_volley(w[1], delta as int, swing) =~= pl.slot_volley(w[1], delta as int, swing));
            assert(armed.slot_volley(w[2], delta as int, swing) =~= pl.slot_volley(w[2], delta as int, swing));
        }
        self.projectiles.append(&mut fired);
        self.projectiles.move_projectiles(&self.player, delta);
        let ghost flying = self.projectiles.projectiles@;
        self.projectiles.handle_collision(&mut self.enemies);
        assert(self.enemies.enemies@ == strike_all(flying, present));
    }
}

} // verus!
