use vstd::prelude::*;
use std::collections::HashSet;
use crate::geometry::{
    travel, Point, ASTEROID_INTERVAL, HALF_UNIT, HEIGHT, KEY_LEFT, KEY_RIGHT, MAX_DT,
    STAR_COUNT, WIDTH,
};
use crate::sprite::{AssetId, Assets, Sprite};

verus! {

broadcast use vstd::std_specs::hash::group_hash_axioms;

/// The whole mutable state of a running game.
pub struct AppState {
    pub assets: Assets,
    pub spaceship: Sprite,
    /// Codes of the keys held down right now.
    pub keys: HashSet<u32>,
    pub stars: Vec<Point>,
    pub beams: Vec<Sprite>,
    pub asteroids: Vec<Sprite>,
    /// Microseconds between two asteroid spawns.
    pub asteroid_interval: u64,
    /// Simulated time so far, in microseconds.
    pub total_time: u64,
    /// Simulated time of the latest asteroid spawn.
    pub last_asteroid: u64,
}

/// Vertical position of the ship: the bottom of its image touches the
/// bottom edge of the field.
pub open spec fn ship_y(assets: Assets) -> int {
    HEIGHT - assets.spaceship.height * HALF_UNIT
}

pub open spec fn star_ok(p: Point) -> bool {
    0 <= p.x < WIDTH && 0 <= p.y <= HEIGHT
}

/// A beam is still below the top edge of the field, or was just fired
/// from the ship.
pub open spec fn beam_ok(b: Sprite, ship: Sprite) -> bool {
    b.asset == AssetId::Beam && (b.position.y > 0 || b.position.y == ship.position.y)
}

pub open spec fn asteroid_ok(a: Sprite) -> bool {
    a.asset == AssetId::Lutetia && 0 <= a.position.x < WIDTH && 0 <= a.position.y < HEIGHT
}

impl AppState {
    pub open spec fn wf(&self) -> bool {
        &&& self.assets.wf()
        &&& self.spaceship.asset == AssetId::Spaceship
        &&& self.spaceship.position.y == ship_y(self.assets)
        &&& self.stars@.len() == STAR_COUNT
        &&& forall|i: int| 0 <= i < self.stars@.len() ==> star_ok(#[trigger] self.stars@[i])
        &&& forall|i: int|
            0 <= i < self.beams@.len() ==> beam_ok(#[trigger] self.beams@[i], self.spaceship)
        &&& forall|i: int| 0 <= i < self.asteroids@.len() ==> asteroid_ok(#[trigger] self.asteroids@[i])
        &&& self.last_asteroid <= self.total_time
    }

    /// The state is far enough from the machine's integer limits to advance
    /// by `dt` microseconds.
    pub open spec fn step_fits(&self, dt: u64) -> bool {
        &&& dt <= MAX_DT
        &&& self.total_time + dt <= u64::MAX
        &&& i64::MIN <= self.spaceship.position.x - travel(dt)
        &&& self.spaceship.position.x + travel(dt) <= i64::MAX
    }
}

/// The state right after construction, stars aside.
pub open spec fn fresh(s: AppState, assets: Assets) -> bool {
    &&& s.assets == assets
    &&& s.spaceship == Sprite {
        position: Point { x: (WIDTH / 2) as i64, y: ship_y(assets) as i64 },
        asset: AssetId::Spaceship,
    }
    &&& s.keys@ == Set::<u32>::empty()
    &&& s.beams@.len() == 0
    &&& s.asteroids@.len() == 0
    &&& s.asteroid_interval == ASTEROID_INTERVAL
    &&& s.total_time == 0
    &&& s.last_asteroid == 0
}

impl AppState {
    /// A fresh game over the given starfield.
    pub fn new(assets: Assets, stars: Vec<Point>) -> (r: AppState)
        requires
            assets.wf(),
            stars@.len() == STAR_COUNT,
            forall|i: int| 0 <= i < stars@.len() ==> star_ok(#[trigger] stars@[i]),
        ensures
            r.wf(),
            fresh(r, assets),
            r.stars@ == stars@,
    {
        let y = HEIGHT - (assets.spaceship.height as i64) * HALF_UNIT;
        AppState {
            assets,
            spaceship: Sprite { position: Point { x: WIDTH / 2, y }, asset: AssetId::Spaceship },
            keys: HashSet::new(),
            stars,
            beams: Vec::new(),
            asteroids: Vec::new(),
            asteroid_interval: ASTEROID_INTERVAL,
            total_time: 0,
            last_asteroid: 0,
        }
    }
}

/// The ship's column after `dt` microseconds: the left arrow pulls it left,
/// the right arrow pushes it right, and both together cancel.
pub open spec fn ship_x_after(s: AppState, dt: u64) -> int {
    let left = if s.keys@.contains(KEY_LEFT) { travel(dt) } else { 0 };
    let right = if s.keys@.contains(KEY_RIGHT) { travel(dt) } else { 0 };
    s.spaceship.position.x - left + right
}

/// A sprite moved by `d` micropixels downward (upward when `d` is negative).
pub open spec fn shifted(b: Sprite, d: int) -> Sprite {
    Sprite { position: Point { x: b.position.x, y: (b.position.y + d) as i64 }, asset: b.asset }
}

/// Beams rise by the travel of `dt`; those that reach the top edge go.
pub open spec fn beams_after(bs: Seq<Sprite>, dt: u64) -> Seq<Sprite> {
    bs.map_values(|b: Sprite| shifted(b, -travel(dt))).filter(|b: Sprite| b.position.y > 0)
}

/// A star falls by the travel of `dt`; one that passes the bottom edge comes
/// back at the top, at column `x`.
pub open spec fn star_after(p: Point, dt: u64, x: i64) -> Point {
    if p.y + travel(dt) > HEIGHT {
        Point { x, y: 0 }
    } else {
        Point { x: p.x, y: (p.y + travel(dt)) as i64 }
    }
}

/// Each star after `dt`, the one in slot `i` respawning at column `xs[i]`.
pub open spec fn stars_after(ps: Seq<Point>, dt: u64, xs: Seq<i64>) -> Seq<Point> {
    Seq::new(ps.len(), |i: int| star_after(ps[i], dt, xs[i]))
}

/// Asteroids fall by the travel of `dt`; those that reach the bottom edge go.
pub open spec fn asteroids_moved(a: Seq<Sprite>, dt: u64) -> Seq<Sprite> {
    a.map_values(|b: Sprite| shifted(b, travel(dt))).filter(|b: Sprite| b.position.y < HEIGHT)
}

/// More than one interval has passed since the latest spawn, on the clock as
/// it stands before the step advances it.
pub open spec fn spawn_due(s: AppState) -> bool {
    s.last_asteroid < s.total_time - s.asteroid_interval
}

/// A new asteroid at the top edge, at column `x`.
pub open spec fn new_asteroid(x: i64) -> Sprite {
    Sprite { position: Point { x, y: 0 }, asset: AssetId::Lutetia }
}

/// The asteroids after the step, with the one spawned at column `ax` if due.
pub open spec fn asteroids_after(s: AppState, dt: u64, ax: i64) -> Seq<Sprite> {
    if spawn_due(s) {
        asteroids_moved(s.asteroids@, dt).push(new_asteroid(ax))
    } else {
        asteroids_moved(s.asteroids@, dt)
    }
}

/// Columns drawn for respawning stars (one per slot) and for a new asteroid.
pub open spec fn valid_draws(xs: Seq<i64>, ax: i64) -> bool {
    &&& xs.len() == STAR_COUNT
    &&& forall|i: int| 0 <= i < xs.len() ==> 0 <= #[trigger] xs[i] < WIDTH
    &&& 0 <= ax < WIDTH
}

/// `post` is `pre` advanced by `dt` microseconds with the columns `xs` and
/// `ax` for whatever respawns or spawns.
pub open spec fn stepped(pre: AppState, post: AppState, dt: u64, xs: Seq<i64>, ax: i64) -> bool {
    &&& post.assets == pre.assets
    &&& post.keys@ == pre.keys@
    &&& post.spaceship.position.x == ship_x_after(pre, dt)
    &&& post.spaceship.position.y == pre.spaceship.position.y
    &&& post.spaceship.asset == pre.spaceship.asset
    &&& post.beams@ == beams_after(pre.beams@, dt)
    &&& post.stars@ == stars_after(pre.stars@, dt, xs)
    &&& post.asteroids@ == asteroids_after(pre, dt, ax)
    &&& post.asteroid_interval == pre.asteroid_interval
    &&& post.total_time == pre.total_time + dt
    &&& post.last_asteroid == if spawn_due(pre) {
        pre.total_time
    } else {
        pre.last_asteroid
    }
}

/// `post` is `pre` advanced by `dt` microseconds, with some valid draws.
pub open spec fn updated(pre: AppState, post: AppState, dt: u64) -> bool {
    exists|xs: Seq<i64>, ax: i64| valid_draws(xs, ax) && #[trigger] stepped(pre, post, dt, xs, ax)
}

/// The beams of `bs` after rising by `t`, keeping those below the top edge.
pub(crate) fn rise_beams(bs: &Vec<Sprite>, dt: u64, t: i64, low: i64) -> (r: Vec<Sprite>)
    requires
        t == travel(dt),
        0 <= t <= i64::MAX / 2,
        i64::MIN / 2 <= low,
        forall|i: int| 0 <= i < bs@.len() ==> #[trigger] bs@[i].position.y >= low,
        forall|i: int| 0 <= i < bs@.len() ==> #[trigger] bs@[i].asset == AssetId::Beam,
    ensures
        r@ == beams_after(bs@, dt),
        forall|i: int|
            0 <= i < r@.len() ==> #[trigger] r@[i].position.y > 0 && r@[i].asset == AssetId::Beam,
{
    let ghost f = |b: Sprite| shifted(b, -travel(dt));
    let ghost keep = |b: Sprite| b.position.y > 0;
    let mut r: Vec<Sprite> = Vec::new();
    let mut i: usize = 0;
    while i < bs.len()
        invariant
            0 <= i <= bs@.len(),
            t == travel(dt),
            0 <= t <= i64::MAX / 2,
            i64::MIN / 2 <= low,
            forall|k: int| 0 <= k < bs@.len() ==> #[trigger] bs@[k].position.y >= low,
            forall|k: int| 0 <= k < bs@.len() ==> #[trigger] bs@[k].asset == AssetId::Beam,
            forall|k: int|
                0 <= k < r@.len() ==> #[trigger] r@[k].position.y > 0 && r@[k].asset
                    == AssetId::Beam,
            f == (|b: Sprite| shifted(b, -travel(dt))),
            keep == (|b: Sprite| b.position.y > 0),
            r@ == bs@.subrange(0, i as int).map_values(f).filter(keep),
        decreases bs@.len() - i,
    {
        let b = bs[i];
        assert(bs@[i as int].position.y >= low);
        assert(bs@[i as int].asset == AssetId::Beam);
        let y = b.position.y - t;
        let moved = Sprite { position: Point { x: b.position.x, y }, asset: b.asset };
        proof {
            let pre = bs@.subrange(0, i as int);
            assert(bs@.subrange(0, i + 1) =~= pre.push(b));
            assert(pre.push(b).map_values(f) =~= pre.map_values(f).push(f(b)));
            assert(f(b) == moved);
            pre.map_values(f).lemma_filter_push(moved, keep);
        }
        if y > 0 {
            r.push(moved);
        }
        i += 1;
    }
    proof {
        assert(bs@.subrange(0, bs@.len() as int) =~= bs@);
    }
    r
}

/// The asteroids of `a` after falling by `t`, keeping those above the
/// bottom edge.
pub(crate) fn fall_asteroids(a: &Vec<Sprite>, dt: u64, t: i64) -> (r: Vec<Sprite>)
    requires
        t == travel(dt),
        0 <= t <= i64::MAX / 2,
        forall|i: int| 0 <= i < a@.len() ==> asteroid_ok(#[trigger] a@[i]),
    ensures
        r@ == asteroids_moved(a@, dt),
        forall|i: int| 0 <= i < r@.len() ==> asteroid_ok(#[trigger] r@[i]),
{
    let ghost f = |b: Sprite| shifted(b, travel(dt));
    let ghost keep = |b: Sprite| b.position.y < HEIGHT;
    let mut r: Vec<Sprite> = Vec::new();
    let mut i: usize = 0;
    while i < a.len()
        invariant
            0 <= i <= a@.len(),
            t == travel(dt),
            0 <= t <= i64::MAX / 2,
            forall|k: int| 0 <= k < a@.len() ==> asteroid_ok(#[trigger] a@[k]),
            forall|k: int| 0 <= k < r@.len() ==> asteroid_ok(#[trigger] r@[k]),
            f == (|b: Sprite| shifted(b, travel(dt))),
            keep == (|b: Sprite| b.position.y < HEIGHT),
            r@ == a@.subrange(0, i as int).map_values(f).filter(keep),
        decreases a@.len() - i,
    {
        let b = a[i];
        assert(asteroid_ok(a@[i as int]));
        let y = b.position.y + t;
        let moved = Sprite { position: Point { x: b.position.x, y }, asset: b.asset };
        proof {
            let pre = a@.subrange(0, i as int);
            assert(a@.subrange(0, i + 1) =~= pre.push(b));
            assert(pre.push(b).map_values(f) =~= pre.map_values(f).push(f(b)));
            assert(f(b) == moved);
            pre.map_values(f).lemma_filter_push(moved, keep);
        }
        if y < HEIGHT {
            r.push(moved);
        }
        i += 1;
    }
    proof {
        assert(a@.subrange(0, a@.len() as int) =~= a@);
    }
    r
}

/// The stars of `ps` after falling by `t`; the star of slot `i` that passes
/// the bottom edge respawns at the top, at column `xs[i]`.
pub(crate) fn scroll_stars(ps: &Vec<Point>, dt: u64, t: i64, xs: &Vec<i64>) -> (r: Vec<Point>)
    requires
        t == travel(dt),
        0 <= t <= i64::MAX / 2,
        xs@.len() == ps@.len(),
        forall|i: int| 0 <= i < ps@.len() ==> star_ok(#[trigger] ps@[i]),
        forall|i: int| 0 <= i < xs@.len() ==> 0 <= #[trigger] xs@[i] < WIDTH,
    ensures
        r@ == stars_after(ps@, dt, xs@),
        forall|i: int| 0 <= i < r@.len() ==> star_ok(#[trigger] r@[i]),
{
    let mut r: Vec<Point> = Vec::new();
    let mut i: usize = 0;
    while i < ps.len()
        invariant
            0 <= i <= ps@.len(),
            t == travel(dt),
            0 <= t <= i64::MAX / 2,
            xs@.len() == ps@.len(),
            forall|k: int| 0 <= k < ps@.len() ==> star_ok(#[trigger] ps@[k]),
            forall|k: int| 0 <= k < xs@.len() ==> 0 <= #[trigger] xs@[k] < WIDTH,
            forall|k: int| 0 <= k < r@.len() ==> star_ok(#[trigger] r@[k]),
            r@.len() == i,
            forall|k: int| 0 <= k < i ==> #[trigger] r@[k] == star_after(ps@[k], dt, xs@[k]),
        decreases ps@.len() - i,
    {
        let p = ps[i];
        assert(star_ok(ps@[i as int]));
        let y = p.y + t;
        assert(0 <= xs@[i as int] < WIDTH);
        if y > HEIGHT {
            r.push(Point { x: xs[i], y: 0 });
        } else {
            r.push(Point { x: p.x, y });
        }
        i += 1;
    }
    proof {
        assert(r@ =~= stars_after(ps@, dt, xs@));
    }
    r
}

} // verus!
