use vstd::prelude::*;
use crate::game::{new_beam, pressed};
use crate::geometry::{travel, HEIGHT, KEY_LEFT, KEY_RIGHT, KEY_SPACE, SPEED};
use crate::sprite::Sprite;
use crate::world::{shifted, spawn_due, stepped, updated, valid_draws, AppState};

verus! {

/// Holding the right arrow alone, each update moves the ship right by the
/// travel of its step: after n updates of `dt` microseconds it has moved by
/// `SPEED * n * dt`, and its row and the held keys are unchanged.
pub proof fn lemma_ship_motion_linear(states: Seq<AppState>, dt: u64)
    requires
        states.len() >= 1,
        states[0].keys@ == set![KEY_RIGHT],
        forall|k: int| 0 <= k < states.len() - 1 ==> #[trigger] updated(states[k], states[k + 1], dt),
    ensures
        states.last().spaceship.position.x == states[0].spaceship.position.x + SPEED * (
        states.len() - 1) * dt,
        states.last().spaceship.position.y == states[0].spaceship.position.y,
        states.last().keys@ == states[0].keys@,
    decreases states.len(),
{
    let n = states.len() as int;
    if n > 1 {
        let prefix = states.drop_last();
        assert forall|k: int| 0 <= k < prefix.len() - 1 implies #[trigger] updated(
            prefix[k],
            prefix[k + 1],
            dt,
        ) by {
            assert(updated(states[k], states[k + 1], dt));
        }
        lemma_ship_motion_linear(prefix, dt);
        let m = n - 2;
        assert(updated(states[m], states[m + 1], dt));
        let (xs, ax) = choose|xs: Seq<i64>, ax: i64|
            valid_draws(xs, ax) && #[trigger] stepped(states[m], states[m + 1], dt, xs, ax);
        assert(prefix.last() == states[m] && prefix[0] == states[0]);
        assert(!set![KEY_RIGHT].contains(KEY_LEFT));
        assert(states[m + 1].spaceship.position.x == states[m].spaceship.position.x + SPEED * dt);
        assert(SPEED * (n - 1) * dt == SPEED * (n - 2) * dt + SPEED * dt) by (nonlinear_arith);
    } else {
        assert(SPEED * (n - 1) * dt == 0) by (nonlinear_arith)
            requires
                n == 1,
        ;
    }
}

/// Holding both arrows, an update leaves the ship where it was.
pub proof fn lemma_left_right_cancel(pre: AppState, post: AppState, dt: u64)
    requires
        pre.keys@.contains(KEY_LEFT),
        pre.keys@.contains(KEY_RIGHT),
        updated(pre, post, dt),
    ensures
        post.spaceship == pre.spaceship,
{
    let (xs, ax) = choose|xs: Seq<i64>, ax: i64|
        valid_draws(xs, ax) && #[trigger] stepped(pre, post, dt, xs, ax);
}

/// K presses of the space bar in a row add exactly K beams, each where the
/// ship stood at its press, after the beams there were.
pub proof fn lemma_fire_count(states: Seq<AppState>)
    requires
        states.len() >= 1,
        forall|k: int|
            0 <= k < states.len() - 1 ==> #[trigger] pressed(states[k], states[k + 1], KEY_SPACE),
    ensures
        states.last().spaceship == states[0].spaceship,
        states.last().beams@ == states[0].beams@ + Seq::new(
            (states.len() - 1) as nat,
            |i: int| new_beam(states[0]),
        ),
    decreases states.len(),
{
    let n = states.len() as int;
    if n > 1 {
        let prefix = states.drop_last();
        assert forall|k: int| 0 <= k < prefix.len() - 1 implies #[trigger] pressed(
            prefix[k],
            prefix[k + 1],
            KEY_SPACE,
        ) by {
            assert(pressed(states[k], states[k + 1], KEY_SPACE));
        }
        lemma_fire_count(prefix);
        let m = n - 2;
        assert(pressed(states[m], states[m + 1], KEY_SPACE));
        assert(states.last().beams@ =~= states[0].beams@ + Seq::new(
            (n - 1) as nat,
            |i: int| new_beam(states[0]),
        ));
    }
}

/// Over a run of updates of `dt` in which no asteroid has spawned yet, the
/// clock advances by `dt` per update and the spawn time stays put.
proof fn lemma_quiet_run(states: Seq<AppState>, dt: u64)
    requires
        states.len() >= 1,
        forall|k: int| 0 <= k < states.len() - 1 ==> #[trigger] updated(states[k], states[k + 1], dt),
        forall|k: int| 0 <= k < states.len() - 1 ==> !#[trigger] spawn_due(states[k]),
    ensures
        states.last().total_time == states[0].total_time + (states.len() - 1) * dt,
        states.last().last_asteroid == states[0].last_asteroid,
        states.last().asteroid_interval == states[0].asteroid_interval,
    decreases states.len(),
{
    let n = states.len() as int;
    if n > 1 {
        let prefix = states.drop_last();
        assert forall|k: int| 0 <= k < prefix.len() - 1 implies #[trigger] updated(
            prefix[k],
            prefix[k + 1],
            dt,
        ) by {
            assert(updated(states[k], states[k + 1], dt));
        }
        assert forall|k: int| 0 <= k < prefix.len() - 1 implies !#[trigger] spawn_due(
            prefix[k],
        ) by {
            assert(!spawn_due(states[k]));
        }
        lemma_quiet_run(prefix, dt);
        let m = n - 2;
        assert(updated(states[m], states[m + 1], dt));
        assert(!spawn_due(states[n - 2]));
        let (xs, ax) = choose|xs: Seq<i64>, ax: i64|
            valid_draws(xs, ax) && #[trigger] stepped(states[n - 2], states[n - 1], dt, xs, ax);
        assert((n - 1) * dt == (n - 2) * dt + dt) by (nonlinear_arith);
    }
}

/// Spawn cadence: after n updates of `dt` in which no asteroid spawned, the
/// next update spawns one exactly when the latest spawn time plus the
/// interval lies before the starting clock plus `n * dt`.
pub proof fn lemma_spawn_cadence(states: Seq<AppState>, dt: u64)
    requires
        states.len() >= 1,
        forall|k: int| 0 <= k < states.len() - 1 ==> #[trigger] updated(states[k], states[k + 1], dt),
        forall|k: int| 0 <= k < states.len() - 1 ==> !#[trigger] spawn_due(states[k]),
    ensures
        spawn_due(states.last()) <==> states[0].last_asteroid + states[0].asteroid_interval
            < states[0].total_time + (states.len() - 1) * dt,
{
    lemma_quiet_run(states, dt);
}

/// A sequence all of whose items pass `keep` is its own filter.
proof fn lemma_filter_all<A>(s: Seq<A>, keep: spec_fn(A) -> bool)
    requires
        forall|i: int| 0 <= i < s.len() ==> keep(#[trigger] s[i]),
    ensures
        s.filter(keep) == s,
    decreases s.len(),
{
    if s.len() > 0 {
        let rest = s.drop_last();
        lemma_filter_all(rest, keep);
        assert(rest.push(s.last()) =~= s);
        rest.lemma_filter_push(s.last(), keep);
    }
}

/// An update of zero duration changes nothing when no asteroid is due and
/// every beam is below the top edge.
pub proof fn lemma_zero_step(pre: AppState, post: AppState)
    requires
        pre.wf(),
        updated(pre, post, 0),
        !spawn_due(pre),
        forall|i: int| 0 <= i < pre.beams@.len() ==> #[trigger] pre.beams@[i].position.y > 0,
    ensures
        post.assets == pre.assets,
        post.spaceship == pre.spaceship,
        post.keys@ == pre.keys@,
        post.stars@ == pre.stars@,
        post.beams@ == pre.beams@,
        post.asteroids@ == pre.asteroids@,
        post.asteroid_interval == pre.asteroid_interval,
        post.total_time == pre.total_time,
        post.last_asteroid == pre.last_asteroid,
{
    let (xs, ax) = choose|xs: Seq<i64>, ax: i64|
        valid_draws(xs, ax) && #[trigger] stepped(pre, post, 0, xs, ax);
    let still = |b: Sprite| shifted(b, -travel(0));
    let fall = |b: Sprite| shifted(b, travel(0));
    assert(pre.beams@.map_values(still) =~= pre.beams@);
    lemma_filter_all(pre.beams@, |b: Sprite| b.position.y > 0);
    assert(pre.asteroids@.map_values(fall) =~= pre.asteroids@);
    assert forall|i: int| 0 <= i < pre.asteroids@.len() implies (#[trigger] pre.asteroids@[i]).position.y
        < HEIGHT by {
        assert(crate::world::asteroid_ok(pre.asteroids@[i]));
    }
    lemma_filter_all(pre.asteroids@, |b: Sprite| b.position.y < HEIGHT);
    assert forall|i: int| 0 <= i < pre.stars@.len() implies post.stars@[i] == pre.stars@[i] by {
        assert(crate::world::star_ok(pre.stars@[i]));
    }
    assert(post.stars@ =~= pre.stars@);
}

} // verus!
