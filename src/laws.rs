//! Properties that relate several operations of the simulation, proved over their
//! specifications.
use vstd::prelude::*;
use crate::enemy::{spawn_interval_spec, with_friction, Enemy, EnemyTuning};
use crate::geometry::{displacement_of, in_world, step_of, valid_delta, Position};
use crate::player::with_status;
use crate::projectile::{
    in_cull_window, recorded_all, strike_all, survivors, BolterProjectile, Projectile,
    CULL_BUFFER, SCREEN_HALF_HEIGHT, SCREEN_HALF_WIDTH,
};
use crate::status::{same_kind_spec, Status};

verus! {

/// Adding two statuses of one kind in sequence leaves exactly one status of that kind,
/// the second, at the end of the list.
pub proof fn lemma_status_single_instance(s: Seq<Status>, first: Status, second: Status)
    requires
        same_kind_spec(first, second),
    ensures
        ({
            let r = with_status(with_status(s, first), second);
            &&& r.last() == second
            &&& forall|i: int| 0 <= i < r.len() - 1 ==> !same_kind_spec(#[trigger] r[i], second)
        }),
{
    let s1 = with_status(s, first);
    let pred = |x: Status| !same_kind_spec(x, second);
    let f = s1.filter(pred);
    let r = with_status(s1, second);
    assert(r == f.push(second));
    assert forall|i: int| 0 <= i < r.len() - 1 implies !same_kind_spec(#[trigger] r[i], second) by {
        assert(r[i] == f[i]);
        s1.lemma_filter_pred(pred, i);
    }
}

/// Later in the game the spawn interval is never longer, and never below its floor.
pub proof fn lemma_spawn_interval_monotonic(t: EnemyTuning, earlier: int, later: int)
    requires
        t.wf(),
        0 <= earlier <= later,
    ensures
        spawn_interval_spec(later, t) <= spawn_interval_spec(earlier, t),
        spawn_interval_spec(later, t) >= t.spawn_min_interval,
{
    let n = t.spawn_base_interval * t.spawn_scaling;
    assert(n >= 0) by (nonlinear_arith)
        requires
            n == t.spawn_base_interval * t.spawn_scaling,
            0 < t.spawn_base_interval,
            0 < t.spawn_scaling,
    ;
    vstd::arithmetic::div_mod::lemma_div_is_ordered_by_denominator(
        n,
        t.spawn_scaling + earlier,
        t.spawn_scaling + later,
    );
}

/// While knocked back for longer than the step, an enemy does not seek: its velocity
/// changes by friction alone, and its position still follows that velocity (away from the
/// world's edge, where it stops).
pub proof fn lemma_knockback_suspends_seeking(e: Enemy, target: Position, delta: int, t: EnemyTuning)
    requires
        e.wf(),
        t.wf(),
        valid_delta(delta),
        e.knockback_cooldown > delta,
    ensures
        ({
            let n = e.integrated(target, delta, t);
            &&& n.velocity_x == with_friction(e.velocity_x as int, t.friction as int)
            &&& n.velocity_y == with_friction(e.velocity_y as int, t.friction as int)
            &&& n.position.x == step_of(e.position.x as int, n.velocity_x as int, delta)
            &&& n.position.y == step_of(e.position.y as int, n.velocity_y as int, delta)
            &&& n.knockback_cooldown == e.knockback_cooldown - delta
            &&& in_world(e.position.x + displacement_of(n.velocity_x as int, delta))
                ==> n.position.x == e.position.x + displacement_of(n.velocity_x as int, delta)
            &&& in_world(e.position.y + displacement_of(n.velocity_y as int, delta))
                ==> n.position.y == e.position.y + displacement_of(n.velocity_y as int, delta)
        }),
{
    crate::enemy::lemma_friction_bound(e.velocity_x as int, t.friction as int);
    crate::enemy::lemma_friction_bound(e.velocity_y as int, t.friction as int);
}

/// A point exactly on the edge of the culling window is kept; one unit beyond is not.
pub proof fn lemma_cull_boundary(player: Position)
    requires
        player.wf(),
    ensures
        in_cull_window(Position { x: (player.x + SCREEN_HALF_WIDTH + CULL_BUFFER) as i64, y: player.y }, player),
        !in_cull_window(Position { x: (player.x + SCREEN_HALF_WIDTH + CULL_BUFFER + 1) as i64, y: player.y }, player),
        in_cull_window(Position { x: (player.x - SCREEN_HALF_WIDTH - CULL_BUFFER) as i64, y: player.y }, player),
        !in_cull_window(Position { x: (player.x - SCREEN_HALF_WIDTH - CULL_BUFFER - 1) as i64, y: player.y }, player),
        in_cull_window(Position { x: player.x, y: (player.y + SCREEN_HALF_HEIGHT + CULL_BUFFER) as i64 }, player),
        !in_cull_window(Position { x: player.x, y: (player.y + SCREEN_HALF_HEIGHT + CULL_BUFFER + 1) as i64 }, player),
        in_cull_window(Position { x: player.x, y: (player.y - SCREEN_HALF_HEIGHT - CULL_BUFFER) as i64 }, player),
        !in_cull_window(Position { x: player.x, y: (player.y - SCREEN_HALF_HEIGHT - CULL_BUFFER - 1) as i64 }, player),
{
}

/// A projectile that hits at least one of `es` counts a hit.
pub proof fn lemma_count_hits_positive(p: Projectile, es: Seq<Enemy>, j: int)
    requires
        0 <= j < es.len(),
        p.hits_spec(es[j]),
    ensures
        p.count_hits(es) > 0,
    decreases es.len(),
{
    if j < es.len() - 1 {
        assert(es.drop_last()[j] == es[j]);
        lemma_count_hits_positive(p, es.drop_last(), j);
    }
}

/// A fresh bolt that meets enemies in a collision pass strikes every one of them, and
/// leaves the field after that pass.
pub proof fn lemma_bolter_hits_once(b: BolterProjectile, es: Seq<Enemy>, j: int)
    requires
        b.hits == 0,
        0 <= j < es.len(),
        Projectile::Bolter(b).hits_spec(es[j]),
    ensures
        ({
            let p = Projectile::Bolter(b);
            &&& forall|k: int| 0 <= k < es.len() && #[trigger] p.hits_spec(es[k])
                ==> strike_all(seq![p], es)[k] == es[k].damaged(b.damage as int)
            &&& forall|k: int| 0 <= k < es.len() && !#[trigger] p.hits_spec(es[k])
                ==> strike_all(seq![p], es)[k] == es[k]
            &&& survivors(seq![p], es).len() == 0
        }),
{
    let p = Projectile::Bolter(b);
    let ps = seq![p];
    assert(ps.drop_last() =~= Seq::<Projectile>::empty());
    assert(ps.take(0) =~= Seq::<Projectile>::empty());
    assert(strike_all(Seq::<Projectile>::empty(), es) == es);
    assert(strike_all(ps.drop_last(), es) == es);
    assert(ps.last() == p);
    assert(strike_all(ps, es) == p.strike_each(es));
    lemma_count_hits_positive(p, es, j);
    let r = recorded_all(ps, es, 1);
    assert(r[0] == p.recorded(es));
    assert(r[0].spent_spec());
    reveal_with_fuel(Seq::filter, 2);
    assert(r.drop_last() =~= Seq::<Projectile>::empty());
}

/// Strikes change health and the swing mark only: every enemy keeps its body.
pub proof fn lemma_strikes_keep_bodies(ps: Seq<Projectile>, es: Seq<Enemy>)
    ensures
        strike_all(ps, es).len() == es.len(),
        forall|k: int| 0 <= k < es.len() ==> (#[trigger] strike_all(ps, es)[k]).body_spec() == es[k].body_spec(),
    decreases ps.len(),
{
    if ps.len() > 0 {
        lemma_strikes_keep_bodies(ps.drop_last(), es);
        let before = strike_all(ps.drop_last(), es);
        assert forall|k: int| 0 <= k < es.len() implies (#[trigger] strike_all(ps, es)[k]).body_spec()
            == es[k].body_spec() by {
            assert(strike_all(ps, es)[k] == ps.last().struck(before[k]));
            assert(before[k].body_spec() == es[k].body_spec());
        }
    }
}

/// In a collision pass over any list of projectiles, a bolt that meets an enemy is spent
/// and does not stay in flight, so it strikes nothing on a later frame.
pub proof fn lemma_hit_bolt_leaves(ps: Seq<Projectile>, es: Seq<Enemy>, i: int, j: int)
    requires
        0 <= i < ps.len(),
        ps[i] is Bolter,
        0 <= j < es.len(),
        ps[i].hits_spec(es[j]),
    ensures
        recorded_all(ps, es, ps.len() as int)[i].spent_spec(),
        forall|k: int| 0 <= k < survivors(ps, es).len() ==> !(#[trigger] survivors(ps, es)[k]).spent_spec(),
        !survivors(ps, es).contains(recorded_all(ps, es, ps.len() as int)[i]),
{
    let before = strike_all(ps.take(i), es);
    lemma_strikes_keep_bodies(ps.take(i), es);
    assert(before[j].body_spec() == es[j].body_spec());
    assert(ps[i].hits_spec(before[j]));
    lemma_count_hits_positive(ps[i], before, j);
    let all = recorded_all(ps, es, ps.len() as int);
    assert(all[i] == ps[i].recorded(before));
    let pred = |q: Projectile| !q.spent_spec();
    assert forall|k: int| 0 <= k < survivors(ps, es).len() implies !(#[trigger] survivors(ps, es)[k]).spent_spec() by {
        all.lemma_filter_pred(pred, k);
    }
    if survivors(ps, es).contains(all[i]) {
        let k = choose|k: int| 0 <= k < survivors(ps, es).len() && survivors(ps, es)[k] == all[i];
        assert(!survivors(ps, es)[k].spent_spec());
    }
}

} // verus!
