use vstd::prelude::*;
use crate::frame::{background, star_color, Color, DrawCmd};
use crate::geometry::{
    travel, travel_of, Point, HEIGHT, KEY_LEFT, KEY_RIGHT, KEY_SPACE, MAX_DT, STAR_COUNT, UNIT,
    WIDTH,
};
use crate::random::random_below;
use crate::sprite::{image_cmd, AssetId, Assets, Sprite};
use crate::world::{
    fall_asteroids, fresh, rise_beams, scroll_stars, star_ok, stepped, updated,
    valid_draws, AppState,
};

verus! {

broadcast use vstd::std_specs::hash::group_hash_axioms;

/// The game driver: it folds input into the state, advances it, and lists
/// what to paint.
pub struct App {
    pub state: AppState,
}

/// Everything but the key set and the beams is the same in both states.
pub open spec fn same_but_keys_and_beams(pre: AppState, post: AppState) -> bool {
    &&& post.assets == pre.assets
    &&& post.spaceship == pre.spaceship
    &&& post.stars@ == pre.stars@
    &&& post.asteroids@ == pre.asteroids@
    &&& post.asteroid_interval == pre.asteroid_interval
    &&& post.total_time == pre.total_time
    &&& post.last_asteroid == pre.last_asteroid
}

/// A beam fired from where the ship stands.
pub open spec fn new_beam(s: AppState) -> Sprite {
    Sprite { position: s.spaceship.position, asset: AssetId::Beam }
}

/// `post` is `pre` after the key `key` went down: the key joins the held
/// keys, and the space bar also fires a beam.
pub open spec fn pressed(pre: AppState, post: AppState, key: u32) -> bool {
    &&& same_but_keys_and_beams(pre, post)
    &&& post.keys@ == pre.keys@.insert(key)
    &&& post.beams@ == if key == KEY_SPACE {
        pre.beams@.push(new_beam(pre))
    } else {
        pre.beams@
    }
}

/// The invariants that every step leaves behind.
pub open spec fn after_step(pre: AppState, post: AppState) -> bool {
    &&& post.wf()
    &&& post.stars@.len() == STAR_COUNT
    &&& forall|i: int|
        0 <= i < post.stars@.len() ==> 0 <= #[trigger] post.stars@[i].y <= HEIGHT
    &&& forall|i: int| 0 <= i < post.beams@.len() ==> #[trigger] post.beams@[i].position.y > 0
    &&& forall|i: int|
        0 <= i < post.asteroids@.len() ==> #[trigger] post.asteroids@[i].position.y < HEIGHT
    &&& post.total_time >= pre.total_time
    &&& post.last_asteroid <= post.total_time
}

/// The square painted for a star: one pixel, its corner on the star.
pub open spec fn star_cmd(p: Point) -> DrawCmd {
    DrawCmd::Rect { color: star_color(), x: p.x, y: p.y, side: UNIT }
}

/// One frame, back to front: background, stars, beams, asteroids, and the
/// ship on top.
pub open spec fn frame_of(s: AppState) -> Seq<DrawCmd> {
    seq![DrawCmd::Clear { color: background() }] + s.stars@.map_values(|p: Point| star_cmd(p))
        + s.beams@.map_values(|b: Sprite| image_cmd(b, s.assets)) + s.asteroids@.map_values(
        |a: Sprite| image_cmd(a, s.assets),
    ) + seq![image_cmd(s.spaceship, s.assets)]
}

/// Append to `out` the commands that paint each sprite of `ss`, in order.
fn push_sprites(out: &mut Vec<DrawCmd>, ss: &Vec<Sprite>, assets: &Assets)
    ensures
        final(out)@ == old(out)@ + ss@.map_values(|b: Sprite| image_cmd(b, *assets)),
{
    let ghost f = |b: Sprite| image_cmd(b, *assets);
    let ghost start = out@;
    let mut i: usize = 0;
    while i < ss.len()
        invariant
            0 <= i <= ss@.len(),
            f == (|b: Sprite| image_cmd(b, *assets)),
            out@ == start + ss@.subrange(0, i as int).map_values(f),
        decreases ss@.len() - i,
    {
        let c = ss[i].draw(assets);
        proof {
            let pre = ss@.subrange(0, i as int);
            assert(ss@.subrange(0, i + 1) =~= pre.push(ss@[i as int]));
            assert(pre.push(ss@[i as int]).map_values(f) =~= pre.map_values(f).push(c));
            assert((start + pre.map_values(f)).push(c) =~= start + pre.map_values(f).push(c));
        }
        out.push(c);
        i += 1;
    }
    proof {
        assert(ss@.subrange(0, ss@.len() as int) =~= ss@);
    }
}

impl App {
    /// A fresh game whose stars stand at random places of the field.
    pub fn new(assets: &Assets) -> (r: App)
        requires
            assets.wf(),
        ensures
            r.state.wf(),
            fresh(r.state, *assets),
    {
        let mut stars: Vec<Point> = Vec::new();
        let mut i: usize = 0;
        while i < STAR_COUNT
            invariant
                0 <= i <= STAR_COUNT,
                stars@.len() == i,
                forall|k: int| 0 <= k < stars@.len() ==> star_ok(#[trigger] stars@[k]),
            decreases STAR_COUNT - i,
        {
            let x = random_below(WIDTH as u64) as i64;
            let y = random_below(HEIGHT as u64) as i64;
            stars.push(Point { x, y });
            i += 1;
        }
        App { state: AppState::new(*assets, stars) }
    }

    /// Whether a step of `dt` microseconds stays within the integer limits.
    pub fn can_update(&self, dt: u64) -> (r: bool)
        ensures
            r == self.state.step_fits(dt),
    {
        if dt > MAX_DT || self.state.total_time > u64::MAX - dt {
            return false;
        }
        let t = travel_of(dt);
        let x = self.state.spaceship.position.x;
        x >= i64::MIN + t && x <= i64::MAX - t
    }

    /// Advance the game by `dt` microseconds. A star of slot `i` that passes
    /// the bottom edge respawns at column `star_xs[i]`; an asteroid that is
    /// due spawns at column `asteroid_x`.
    pub fn update_with(&mut self, dt: u64, star_xs: &Vec<i64>, asteroid_x: i64)
        requires
            old(self).state.wf(),
            old(self).state.step_fits(dt),
            valid_draws(star_xs@, asteroid_x),
        ensures
            stepped(old(self).state, final(self).state, dt, star_xs@, asteroid_x),
            after_step(old(self).state, final(self).state),
    {
        let t = travel_of(dt);
        let ghost pre = self.state;
        let ship_y = self.state.spaceship.position.y;
        let mut x = self.state.spaceship.position.x;
        if self.state.keys.contains(&KEY_LEFT) {
            x = x - t;
        }
        if self.state.keys.contains(&KEY_RIGHT) {
            x = x + t;
        }
        let low = if ship_y < 1 { ship_y } else { 1 };
        assert forall|i: int| 0 <= i < pre.beams@.len() implies #[trigger] pre.beams@[i].position.y
            >= low && pre.beams@[i].asset == AssetId::Beam by {
            assert(crate::world::beam_ok(pre.beams@[i], pre.spaceship));
        }
        let beams = rise_beams(&self.state.beams, dt, t, low);
        let stars = scroll_stars(&self.state.stars, dt, t, star_xs);
        let mut asteroids = fall_asteroids(&self.state.asteroids, dt, t);
        let total = self.state.total_time;
        let interval = self.state.asteroid_interval;
        let mut last = self.state.last_asteroid;
        if total > interval && last < total - interval {
            last = total;
            asteroids.push(Sprite { position: Point { x: asteroid_x, y: 0 }, asset: AssetId::Lutetia });
        }
        self.state.spaceship.position.x = x;
        self.state.beams = beams;
        self.state.stars = stars;
        self.state.asteroids = asteroids;
        self.state.last_asteroid = last;
        self.state.total_time = total + dt;
        proof {
            assert(self.state.asteroids@ =~= crate::world::asteroids_after(pre, dt, asteroid_x));
        }
    }

    /// Advance the game by `dt` microseconds, drawing a random column for
    /// each star that respawns and for an asteroid that is due.
    pub fn update(&mut self, dt: u64)
        requires
            old(self).state.wf(),
            old(self).state.step_fits(dt),
        ensures
            updated(old(self).state, final(self).state, dt),
            after_step(old(self).state, final(self).state),
    {
        let t = travel_of(dt);
        let mut xs: Vec<i64> = Vec::new();
        let mut i: usize = 0;
        while i < self.state.stars.len()
            invariant
                0 <= i <= self.state.stars@.len(),
                self.state.stars@.len() == STAR_COUNT,
                xs@.len() == i,
                forall|k: int| 0 <= k < xs@.len() ==> 0 <= #[trigger] xs@[k] < WIDTH,
                forall|k: int|
                    0 <= k < self.state.stars@.len() ==> star_ok(#[trigger] self.state.stars@[k]),
                t == travel(dt),
                0 <= t <= i64::MAX / 2,
            decreases self.state.stars@.len() - i,
        {
            let p = self.state.stars[i];
            assert(star_ok(self.state.stars@[i as int]));
            if p.y + t > HEIGHT {
                xs.push(random_below(WIDTH as u64) as i64);
            } else {
                xs.push(0);
            }
            i += 1;
        }
        let total = self.state.total_time;
        let interval = self.state.asteroid_interval;
        let ax = if total > interval && self.state.last_asteroid < total - interval {
            random_below(WIDTH as u64) as i64
        } else {
            0
        };
        let ghost pre = self.state;
        self.update_with(dt, &xs, ax);
        assert(stepped(pre, self.state, dt, xs@, ax));
    }

    /// Fire a beam from where the ship stands.
    pub fn fire(&mut self)
        requires
            old(self).state.wf(),
        ensures
            final(self).state.wf(),
            same_but_keys_and_beams(old(self).state, final(self).state),
            final(self).state.keys@ == old(self).state.keys@,
            final(self).state.beams@ == old(self).state.beams@.push(new_beam(old(self).state)),
    {
        let beam = Sprite { position: self.state.spaceship.position, asset: AssetId::Beam };
        self.state.beams.push(beam);
    }

    /// A key went down. The space bar fires a beam before it joins the held
    /// keys.
    pub fn press(&mut self, key: u32)
        requires
            old(self).state.wf(),
        ensures
            final(self).state.wf(),
            pressed(old(self).state, final(self).state, key),
    {
        if key == KEY_SPACE {
            self.fire();
        }
        self.state.keys.insert(key);
    }

    /// The frame to paint, back to front.
    pub fn render(&self) -> (r: Vec<DrawCmd>)
        ensures
            r@ == frame_of(self.state),
    {
        let ghost f = |p: Point| star_cmd(p);
        let mut r: Vec<DrawCmd> = Vec::new();
        r.push(DrawCmd::Clear { color: Color { r: 0, g: 0, b: 0, a: 255 } });
        let ghost start = r@;
        let mut i: usize = 0;
        while i < self.state.stars.len()
            invariant
                0 <= i <= self.state.stars@.len(),
                f == (|p: Point| star_cmd(p)),
                r@ == start + self.state.stars@.subrange(0, i as int).map_values(f),
            decreases self.state.stars@.len() - i,
        {
            let p = self.state.stars[i];
            let c = DrawCmd::Rect {
                color: Color { r: 255, g: 255, b: 255, a: 255 },
                x: p.x,
                y: p.y,
                side: UNIT,
            };
            proof {
                let pre = self.state.stars@.subrange(0, i as int);
                assert(self.state.stars@.subrange(0, i + 1) =~= pre.push(p));
                assert(pre.push(p).map_values(f) =~= pre.map_values(f).push(c));
                assert((start + pre.map_values(f)).push(c) =~= start + pre.map_values(f).push(c));
            }
            r.push(c);
            i += 1;
        }
        proof {
            assert(self.state.stars@.subrange(0, self.state.stars@.len() as int)
                =~= self.state.stars@);
        }
        push_sprites(&mut r, &self.state.beams, &self.state.assets);
        push_sprites(&mut r, &self.state.asteroids, &self.state.assets);
        r.push(self.state.spaceship.draw(&self.state.assets));
        proof {
            let s = self.state;
            assert(r@ =~= frame_of(s));
        }
        r
    }

    /// A key went up and leaves the held keys.
    pub fn release(&mut self, key: u32)
        requires
            old(self).state.wf(),
        ensures
            final(self).state.wf(),
            same_but_keys_and_beams(old(self).state, final(self).state),
            final(self).state.beams@ == old(self).state.beams@,
            final(self).state.keys@ == old(self).state.keys@.remove(key),
    {
        self.state.keys.remove(&key);
    }
}

} // verus!
