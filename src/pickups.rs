//! Weapon pickups scattered around the player, collected by walking over them.
use vstd::prelude::*;
use crate::geometry::{clamp, clamp_world, trunc_div, valid_size, Position, SIZE_LIMIT, WORLD_LIMIT};
use crate::dice::random_below;
use crate::player::{with_weapon, Player};
use crate::weapon::Weapon;

verus! {

pub const PICKUP_RADIUS: i64 = 24_000;

/// Pickups appear within this distance of the player.
pub const SPAWN_RADIUS: i64 = 2_500_000;

/// Pickups kept around the player while a slot is free.
pub const TARGET_PICKUP_COUNT: usize = 6;

/// Largest number of pickups kept around the player.
pub const PICKUP_COUNT_LIMIT: usize = 1000;

/// A weapon lying in the world.
#[derive(Clone, Copy, Debug, PartialEq, Eq, Structural)]
pub struct WeaponPickup {
    pub weapon: Weapon,
    pub position: Position,
    pub radius: i64,
}

/// The pickups around the player.
pub struct AllWeaponPickups {
    pub pickups: Vec<WeaponPickup>,
    pub spawn_radius: i64,
    pub target_count: usize,
}

impl WeaponPickup {
    pub open spec fn wf(&self) -> bool {
        self.weapon.wf() && self.position.wf() && valid_size(self.radius as int)
    }
}

/// The weapon that a roll below four draws: bolter, power sword, shotgun, multi-melta.
pub open spec fn weapon_of_roll(roll: int) -> Weapon {
    if roll == 0 {
        Weapon::bolter_spec()
    } else if roll == 1 {
        Weapon::PowerSword(crate::weapon::WeaponData { damage: 24, tick_interval: 600_000, time_since_last_tick: 0, stack_count: 1 })
    } else if roll == 2 {
        Weapon::Shotgun(crate::weapon::WeaponData { damage: 8, tick_interval: 1_200_000, time_since_last_tick: 0, stack_count: 1 })
    } else {
        Weapon::MultiMelta(crate::weapon::WeaponData { damage: 18, tick_interval: 1_800_000, time_since_last_tick: 0, stack_count: 1 })
    }
}

/// The point that two rolls in `[0, 2 * radius]` pick in the disc of `radius` around
/// `center`: the offset `(ax - radius, ay - radius)`, halved when it falls outside the disc.
pub open spec fn disc_point_spec(center: Position, radius: int, ax: int, ay: int) -> Position {
    let dx = ax - radius;
    let dy = ay - radius;
    let (ox, oy) = if dx * dx + dy * dy > radius * radius {
        (trunc_div(dx, 2), trunc_div(dy, 2))
    } else {
        (dx, dy)
    };
    Position {
        x: clamp(center.x + ox, -WORLD_LIMIT as int, WORLD_LIMIT as int) as i64,
        y: clamp(center.y + oy, -WORLD_LIMIT as int, WORLD_LIMIT as int) as i64,
    }
}

/// `p` is a pickup that some rolls place in the disc of `radius` around `center`.
pub open spec fn spawned_pickup(p: WeaponPickup, center: Position, radius: int) -> bool {
    exists|ax: int, ay: int, roll: int|
        #![trigger weapon_of_roll(roll), disc_point_spec(center, radius, ax, ay)]
        0 <= ax <= 2 * radius && 0 <= ay <= 2 * radius && 0 <= roll < 4 && p == (WeaponPickup {
            weapon: weapon_of_roll(roll),
            position: disc_point_spec(center, radius, ax, ay),
            radius: PICKUP_RADIUS,
        })
}

/// The player's body touches the pickup.
pub open spec fn in_range_spec(player: Position, player_radius: int, p: WeaponPickup) -> bool {
    let dx = player.x - p.position.x;
    let dy = player.y - p.position.y;
    let r = player_radius + p.radius;
    dx * dx + dy * dy <= r * r
}

/// Every slot holds a weapon.
pub open spec fn slots_full(slots: Seq<Option<Weapon>>) -> bool {
    slots[0] is Some && slots[1] is Some && slots[2] is Some
}

/// The slots and the pickups left after walking over the first `k` pickups of `ps` in
/// order: while a slot is free, a pickup in range whose weapon is taken disappears.
pub open spec fn collect(
    slots: Seq<Option<Weapon>>,
    ps: Seq<WeaponPickup>,
    player: Position,
    radius: int,
    k: int,
) -> (Seq<Option<Weapon>>, Seq<WeaponPickup>)
    decreases k,
{
    if k <= 0 {
        (slots, Seq::empty())
    } else {
        let (s, kept) = collect(slots, ps, player, radius, k - 1);
        let p = ps[k - 1];
        if !slots_full(s) && in_range_spec(player, radius, p) && with_weapon(s, p.weapon).1 {
            (with_weapon(s, p.weapon).0, kept)
        } else {
            (s, kept.push(p))
        }
    }
}

/// The weapon that `roll` draws.
pub fn random_weapon(roll: u64) -> (w: Weapon)
    ensures
        w == weapon_of_roll(roll as int),
        w.wf(),
{
    if roll == 0 {
        Weapon::bolter()
    } else if roll == 1 {
        Weapon::power_sword()
    } else if roll == 2 {
        Weapon::shotgun()
    } else {
        Weapon::multi_melta()
    }
}

/// The point of the disc of `radius` around `center` that the rolls `ax` and `ay` pick.
pub fn random_position_within_radius(center: Position, radius: i64, ax: i64, ay: i64) -> (p: Position)
    requires
        center.wf(),
        valid_size(radius as int),
        0 <= ax <= 2 * radius,
        0 <= ay <= 2 * radius,
    ensures
        p == disc_point_spec(center, radius as int, ax as int, ay as int),
        p.wf(),
{
    let dx = (ax - radius) as i128;
    let dy = (ay - radius) as i128;
    assert(0 <= dx * dx <= SIZE_LIMIT * SIZE_LIMIT) by (nonlinear_arith)
        requires
            -SIZE_LIMIT <= dx <= SIZE_LIMIT,
    ;
    assert(0 <= dy * dy <= SIZE_LIMIT * SIZE_LIMIT) by (nonlinear_arith)
        requires
            -SIZE_LIMIT <= dy <= SIZE_LIMIT,
    ;
    assert(radius * radius <= SIZE_LIMIT * SIZE_LIMIT) by (nonlinear_arith)
        requires
            0 <= radius <= SIZE_LIMIT,
    ;
    let (ox, oy) = if dx * dx + dy * dy > radius as i128 * radius as i128 {
        (half_toward_zero(dx), half_toward_zero(dy))
    } else {
        (dx, dy)
    };
    Position { x: clamp_world(center.x as i128 + ox), y: clamp_world(center.y as i128 + oy) }
}

fn half_toward_zero(v: i128) -> (r: i128)
    requires
        -SIZE_LIMIT <= v <= SIZE_LIMIT,
    ensures
        r == trunc_div(v as int, 2),
        -SIZE_LIMIT <= r <= SIZE_LIMIT,
{
    if v >= 0 {
        v / 2
    } else {
        -((-v) / 2)
    }
}

/// Attempts at drawing a point inside the disc before the last draw is taken as it is.
pub const DISC_DRAWS: u32 = 16;

/// The rolls `ax` and `ay` fall inside the disc of `radius` around `(radius, radius)`.
pub open spec fn rolls_in_disc(radius: int, ax: int, ay: int) -> bool {
    (ax - radius) * (ax - radius) + (ay - radius) * (ay - radius) <= radius * radius
}

/// Whether the rolls `ax` and `ay` fall inside the disc of `radius`.
pub fn in_disc(radius: i64, ax: u64, ay: u64) -> (b: bool)
    requires
        valid_size(radius as int),
        ax <= 2 * radius,
        ay <= 2 * radius,
    ensures
        b == rolls_in_disc(radius as int, ax as int, ay as int),
{
    let dx = ax as i128 - radius as i128;
    let dy = ay as i128 - radius as i128;
    assert(0 <= dx * dx <= SIZE_LIMIT * SIZE_LIMIT) by (nonlinear_arith)
        requires
            -SIZE_LIMIT <= dx <= SIZE_LIMIT,
    ;
    assert(0 <= dy * dy <= SIZE_LIMIT * SIZE_LIMIT) by (nonlinear_arith)
        requires
            -SIZE_LIMIT <= dy <= SIZE_LIMIT,
    ;
    assert(radius * radius <= SIZE_LIMIT * SIZE_LIMIT) by (nonlinear_arith)
        requires
            0 <= radius <= SIZE_LIMIT,
    ;
    dx * dx + dy * dy <= radius as i128 * radius as i128
}

/// Draws two rolls in `[0, 2 * radius]`, drawing again while they fall outside the disc of
/// `radius`, at most `DISC_DRAWS` times; accepted points are uniform over the disc.
fn draw_disc_rolls(radius: i64) -> (r: (u64, u64))
    requires
        valid_size(radius as int),
    ensures
        r.0 <= 2 * radius,
        r.1 <= 2 * radius,
{
    let span = 2 * radius as u64 + 1;
    let mut ax = random_below(span);
    let mut ay = random_below(span);
    let mut draws: u32 = 1;
    while draws < DISC_DRAWS && !in_disc(radius, ax, ay)
        invariant
            valid_size(radius as int),
            span == 2 * radius + 1,
            ax <= 2 * radius,
            ay <= 2 * radius,
        decreases DISC_DRAWS - draws,
    {
        ax = random_below(span);
        ay = random_below(span);
        draws = draws + 1;
    }
    (ax, ay)
}

/// Whether the player's body touches the pickup.
pub fn is_pickup_in_range(player: &Player, pickup: &WeaponPickup) -> (r: bool)
    requires
        player.wf(),
        pickup.wf(),
    ensures
        r == in_range_spec(player.position, player.collision_radius as int, *pickup),
{
    let dx = player.position.x as i128 - pickup.position.x as i128;
    let dy = player.position.y as i128 - pickup.position.y as i128;
    let rr = player.collision_radius as i128 + pickup.radius as i128;
    assert(0 <= dx * dx <= 4 * WORLD_LIMIT * WORLD_LIMIT) by (nonlinear_arith)
        requires
            -2 * WORLD_LIMIT <= dx <= 2 * WORLD_LIMIT,
    ;
    assert(0 <= dy * dy <= 4 * WORLD_LIMIT * WORLD_LIMIT) by (nonlinear_arith)
        requires
            -2 * WORLD_LIMIT <= dy <= 2 * WORLD_LIMIT,
    ;
    assert(rr * rr <= 4 * SIZE_LIMIT * SIZE_LIMIT) by (nonlinear_arith)
        requires
            0 <= rr <= 2 * SIZE_LIMIT,
    ;
    dx * dx + dy * dy <= rr * rr
}

impl AllWeaponPickups {
    pub open spec fn wf(&self) -> bool {
        &&& forall|j: int| 0 <= j < self.pickups.len() ==> (#[trigger] self.pickups@[j]).wf()
        &&& valid_size(self.spawn_radius as int)
        &&& self.target_count <= PICKUP_COUNT_LIMIT
    }

    /// Pickups scattered around `player_pos` up to the target count.
    pub fn new(player_pos: Position) -> (r: AllWeaponPickups)
        requires
            player_pos.wf(),
        ensures
            r.wf(),
            r.pickups@.len() == TARGET_PICKUP_COUNT,
            r.spawn_radius == SPAWN_RADIUS,
    {
        let mut pickups = AllWeaponPickups {
            pickups: Vec::new(),
            spawn_radius: SPAWN_RADIUS,
            target_count: TARGET_PICKUP_COUNT,
        };
        pickups.spawn_around_player(player_pos);
        pickups
    }

    /// Tops the pickups up to the target count with random weapons at random points within
    /// the spawn radius of `player_pos`; the pickups already there stay.
    pub fn spawn_around_player(&mut self, player_pos: Position)
        requires
            old(self).wf(),
            player_pos.wf(),
        ensures
            final(self).wf(),
            final(self).spawn_radius == old(self).spawn_radius,
            final(self).target_count == old(self).target_count,
            final(self).pickups@.len() == if old(self).pickups@.len() < old(self).target_count {
                old(self).target_count as int
            } else {
                old(self).pickups@.len() as int
            },
            forall|j: int| 0 <= j < old(self).pickups@.len() ==> #[trigger] final(self).pickups@[j] == old(self).pickups@[j],
            forall|j: int| old(self).pickups@.len() <= j < final(self).pickups@.len() ==> spawned_pickup(
                #[trigger] final(self).pickups@[j],
                player_pos,
                old(self).spawn_radius as int,
            ),
    {
        let r = self.spawn_radius;
        while self.pickups.len() < self.target_count
            invariant
                self.wf(),
                player_pos.wf(),
                r == old(self).spawn_radius,
                self.spawn_radius == old(self).spawn_radius,
                self.target_count == old(self).target_count,
                old(self).pickups@.len() <= self.pickups@.len(),
                self.pickups@.len() <= if old(self).pickups@.len() < old(self).target_count {
                    old(self).target_count as int
                } else {
                    old(self).pickups@.len() as int
                },
                forall|j: int| 0 <= j < old(self).pickups@.len() ==> #[trigger] self.pickups@[j] == old(self).pickups@[j],
                forall|j: int| old(self).pickups@.len() <= j < self.pickups@.len() ==> spawned_pickup(
                    #[trigger] self.pickups@[j],
                    player_pos,
                    old(self).spawn_radius as int,
                ),
            decreases self.target_count - self.pickups.len(),
        {
            let (ax, ay) = draw_disc_rolls(r);
            let roll = random_below(4);
            let position = random_position_within_radius(player_pos, r, ax as i64, ay as i64);
            let weapon = random_weapon(roll);
            let p = WeaponPickup { weapon, position, radius: PICKUP_RADIUS };
            self.pickups.push(p);
            assert(p.weapon == weapon_of_roll(roll as int));
            assert(p.position == disc_point_spec(player_pos, r as int, ax as int, ay as int));
            assert(spawned_pickup(p, player_pos, r as int));
        }
    }

    /// Walks the player over the pickups in order: while a slot is free, each pickup in
    /// range whose weapon the player takes disappears.
    pub fn handle_pickups(&mut self, player: &mut Player)
        requires
            old(self).wf(),
            old(player).wf(),
        ensures
            final(self).wf(),
            final(player).wf(),
            ({
                let (slots, kept) = collect(
                    old(player).weapons@,
                    old(self).pickups@,
                    old(player).position,
                    old(player).collision_radius as int,
                    old(self).pickups@.len() as int,
                );
                final(player).weapons@ == slots && final(self).pickups@ == kept
            }),
            final(player).position == old(player).position,
            final(player).health == old(player).health,
            final(player).max_health == old(player).max_health,
            final(player).statuses@ == old(player).statuses@,
            final(player).collision_radius == old(player).collision_radius,
            final(self).spawn_radius == old(self).spawn_radius,
            final(self).target_count == old(self).target_count,
    {
        let ghost ps = self.pickups@;
        let n = self.pickups.len();
        let mut kept: Vec<WeaponPickup> = Vec::new();
        let mut i: usize = 0;
        while i < n
            invariant
                0 <= i <= n,
                n == ps.len(),
                self.pickups@ == ps,
                ps == old(self).pickups@,
                self.wf(),
                player.wf(),
                player.position == old(player).position,
                player.health == old(player).health,
                player.max_health == old(player).max_health,
                player.statuses@ == old(player).statuses@,
                player.collision_radius == old(player).collision_radius,
                (player.weapons@, kept@) == collect(
                    old(player).weapons@,
                    ps,
                    old(player).position,
                    old(player).collision_radius as int,
                    i as int,
                ),
                forall|j: int| 0 <= j < kept.len() ==> (#[trigger] kept@[j]).wf(),
            decreases n - i,
        {
            let p = self.pickups[i];
            let mut taken = false;
            if !player.has_full_weapon_slots() && is_pickup_in_range(player, &p) {
                taken = player.add_weapon(p.weapon);
            }
            if !taken {
                kept.push(p);
            }
            i += 1;
        }
        self.pickups = kept;
    }

    /// Collects what the player walks over and keeps the pickups topped up while a slot is
    /// free; once every slot is taken, the pickups are cleared.
    pub fn update(&mut self, player: &mut Player)
        requires
            old(self).wf(),
            old(player).wf(),
        ensures
            final(self).wf(),
            final(player).wf(),
            final(player).position == old(player).position,
            final(player).health == old(player).health,
            final(player).statuses@ == old(player).statuses@,
            final(self).spawn_radius == old(self).spawn_radius,
            final(self).target_count == old(self).target_count,
            slots_full(old(player).weapons@) ==> final(player).weapons@ == old(player).weapons@
                && final(self).pickups@.len() == 0,
            !slots_full(old(player).weapons@) ==> ({
                let (slots, kept) = collect(
                    old(player).weapons@,
                    old(self).pickups@,
                    old(player).position,
                    old(player).collision_radius as int,
                    old(self).pickups@.len() as int,
                );
                &&& final(player).weapons@ == slots
                &&& slots_full(slots) ==> final(self).pickups@.len() == 0
                &&& !slots_full(slots) ==> {
                    &&& final(self).pickups@.len() == if kept.len() < old(self).target_count {
                        old(self).target_count as int
                    } else {
                        kept.len() as int
                    }
                    &&& forall|j: int| 0 <= j < kept.len() ==> #[trigger] final(self).pickups@[j] == kept[j]
                    &&& forall|j: int| kept.len() <= j < final(self).pickups@.len() ==> spawned_pickup(
                        #[trigger] final(self).pickups@[j],
                        old(player).position,
                        old(self).spawn_radius as int,
                    )
                }
            }),
    {
        if player.has_full_weapon_slots() {
            self.pickups.clear();
            return;
        }
        self.handle_pickups(player);
        if !player.has_full_weapon_slots() {
            self.spawn_around_player(player.position);
        } else {
            self.pickups.clear();
        }
    }
}

} // verus!
