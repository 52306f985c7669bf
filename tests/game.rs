use asteroids::frame::{Color, DrawCmd};
use asteroids::game::App;
use asteroids::geometry::{
    Point, ASTEROID_INTERVAL, HEIGHT, KEY_LEFT, KEY_RIGHT, KEY_SPACE, MAX_DT, STAR_COUNT, UNIT,
    WIDTH,
};
use asteroids::sprite::{AssetId, Assets, Drawable, Sprite};
use asteroids::world::AppState;

fn assets() -> Assets {
    Assets::new(Drawable::new(90, 128), Drawable::new(8, 32), Drawable::new(100, 80))
}

fn app_with_stars(stars: Vec<Point>) -> App {
    App { state: AppState::new(assets(), stars) }
}

fn quiet_stars() -> Vec<Point> {
    (0..STAR_COUNT).map(|i| Point { x: (i as i64) * 10 * UNIT, y: 0 }).collect()
}

fn columns(x: i64) -> Vec<i64> {
    vec![x; STAR_COUNT]
}

#[test]
fn startup_state() {
    let app = App::new(&assets());
    let s = &app.state;
    assert_eq!(s.spaceship.position, Point { x: 512 * UNIT, y: 768 * UNIT - 64 * UNIT });
    assert_eq!(s.spaceship.asset, AssetId::Spaceship);
    assert!(s.beams.is_empty());
    assert!(s.asteroids.is_empty());
    assert!(s.keys.is_empty());
    assert_eq!(s.total_time, 0);
    assert_eq!(s.last_asteroid, 0);
    assert_eq!(s.asteroid_interval, 3_000_000);
    assert_eq!(s.stars.len(), 100);
}

#[test]
fn random_stars_fall_inside_the_field() {
    for _ in 0..20 {
        let app = App::new(&assets());
        for p in &app.state.stars {
            assert!(0 <= p.x && p.x < WIDTH);
            assert!(0 <= p.y && p.y < HEIGHT);
        }
    }
}

#[test]
fn move_right_one_second() {
    let mut app = app_with_stars(quiet_stars());
    app.press(KEY_RIGHT);
    app.update(500_000);
    app.update(500_000);
    assert_eq!(app.state.spaceship.position.x, 712 * UNIT);
    assert_eq!(app.state.spaceship.position.y, 704 * UNIT);
}

#[test]
fn move_left_without_clamp() {
    let mut app = app_with_stars(quiet_stars());
    app.press(KEY_LEFT);
    app.update(3_000_000);
    assert_eq!(app.state.spaceship.position.x, 512 * UNIT - 600 * UNIT);
}

#[test]
fn ship_motion_is_linear() {
    let mut app = app_with_stars(quiet_stars());
    app.press(KEY_RIGHT);
    for _ in 0..7 {
        app.update(100_000);
    }
    assert_eq!(app.state.spaceship.position.x, 512 * UNIT + 200 * 7 * 100_000);
}

#[test]
fn left_and_right_cancel() {
    let mut app = app_with_stars(quiet_stars());
    app.press(KEY_LEFT);
    app.press(KEY_RIGHT);
    for _ in 0..5 {
        app.update(123_457);
        assert_eq!(app.state.spaceship.position.x, 512 * UNIT);
    }
}

#[test]
fn release_stops_the_ship() {
    let mut app = app_with_stars(quiet_stars());
    app.press(KEY_RIGHT);
    app.update(100_000);
    app.release(KEY_RIGHT);
    assert!(app.state.keys.is_empty());
    app.update(100_000);
    assert_eq!(app.state.spaceship.position.x, 512 * UNIT + 20 * UNIT);
}

#[test]
fn fire_and_cull() {
    let mut app = app_with_stars(quiet_stars());
    app.press(KEY_SPACE);
    assert_eq!(app.state.beams.len(), 1);
    assert_eq!(app.state.beams[0].position, Point { x: 512 * UNIT, y: 704 * UNIT });
    assert!(app.state.keys.contains(&KEY_SPACE));
    app.update(4_000_000);
    assert_eq!(app.state.beams.len(), 0);
}

#[test]
fn fire_count_matches_presses() {
    let mut app = app_with_stars(quiet_stars());
    app.press(KEY_RIGHT);
    app.update(250_000);
    for _ in 0..3 {
        app.press(KEY_SPACE);
    }
    app.press(KEY_LEFT);
    let ship = app.state.spaceship.position;
    assert_eq!(app.state.beams.len(), 3);
    for b in &app.state.beams {
        assert_eq!(b.position, ship);
        assert_eq!(b.asset, AssetId::Beam);
    }
}

#[test]
fn other_keys_fire_nothing() {
    let mut app = app_with_stars(quiet_stars());
    app.press(KEY_LEFT);
    app.press(0x61);
    assert!(app.state.beams.is_empty());
    assert_eq!(app.state.keys.len(), 2);
}

#[test]
fn beam_reaching_top_edge_is_removed() {
    let mut app = app_with_stars(quiet_stars());
    app.fire();
    app.update(3_520_000);
    assert!(app.state.beams.is_empty());
}

#[test]
fn beam_just_below_top_edge_stays() {
    let mut app = app_with_stars(quiet_stars());
    app.fire();
    app.update(3_519_999);
    assert_eq!(app.state.beams.len(), 1);
    assert_eq!(app.state.beams[0].position.y, 200);
}

#[test]
fn asteroid_first_spawn() {
    let mut app = app_with_stars(quiet_stars());
    app.update(3_010_000);
    assert_eq!(app.state.total_time, 3_010_000);
    assert_eq!(app.state.asteroids.len(), 0);
    app.update_with(0, &columns(0), 77 * UNIT);
    assert_eq!(app.state.asteroids.len(), 1);
    assert_eq!(
        app.state.asteroids[0],
        Sprite { position: Point { x: 77 * UNIT, y: 0 }, asset: AssetId::Lutetia }
    );
    assert_eq!(app.state.last_asteroid, 3_010_000);
}

#[test]
fn asteroid_no_spawn() {
    let mut app = app_with_stars(quiet_stars());
    app.update(2_990_000);
    assert_eq!(app.state.asteroids.len(), 0);
    app.update(0);
    assert_eq!(app.state.asteroids.len(), 0);
    assert_eq!(app.state.last_asteroid, 0);
}

#[test]
fn spawn_cadence() {
    let mut app = app_with_stars(quiet_stars());
    let mut counts = Vec::new();
    for _ in 0..63 {
        app.update_with(100_000, &columns(5 * UNIT), 9 * UNIT);
        counts.push(app.state.asteroids.len());
    }
    assert_eq!(counts[30], 0);
    assert_eq!(counts[31], 1);
    assert_eq!(counts[61], 1);
    assert_eq!(counts[62], 2);
    assert_eq!(app.state.last_asteroid, 6_200_000);
}

#[test]
fn asteroids_fall_and_leave() {
    let mut app = app_with_stars(quiet_stars());
    app.update(3_100_000);
    app.update_with(0, &columns(0), 10 * UNIT);
    assert_eq!(app.state.asteroids.len(), 1);
    app.update_with(1_000_000, &columns(0), 10 * UNIT);
    assert_eq!(app.state.asteroids[0].position.y, 200 * UNIT);
    app.update_with(2_839_999, &columns(0), 10 * UNIT);
    assert_eq!(app.state.asteroids.len(), 1);
    assert_eq!(app.state.asteroids[0].position.y, HEIGHT - 200);
    app.update_with(1, &columns(0), 11 * UNIT);
    assert_eq!(app.state.asteroids.len(), 1);
    assert_eq!(app.state.asteroids[0].position, Point { x: 11 * UNIT, y: 0 });
}

#[test]
fn star_wrap() {
    let mut stars = quiet_stars();
    stars[3] = Point { x: 100 * UNIT, y: 767_900_000 };
    let mut app = app_with_stars(stars);
    let mut xs = columns(1);
    xs[3] = 321_500_000;
    app.update_with(1_000, &xs, 0);
    assert_eq!(app.state.stars[3], Point { x: 321_500_000, y: 0 });
    assert_eq!(app.state.stars[4], Point { x: 40 * UNIT, y: 200_000 });
    assert_eq!(app.state.stars.len(), 100);
}

#[test]
fn star_on_bottom_edge_stays() {
    let mut stars = quiet_stars();
    stars[0] = Point { x: 5 * UNIT, y: HEIGHT - 200_000 };
    stars[1] = Point { x: 6 * UNIT, y: HEIGHT - 199_999 };
    let mut app = app_with_stars(stars);
    app.update_with(1_000, &columns(42), 0);
    assert_eq!(app.state.stars[0], Point { x: 5 * UNIT, y: HEIGHT });
    assert_eq!(app.state.stars[1], Point { x: 42, y: 0 });
}

#[test]
fn random_star_respawn_stays_inside() {
    let mut stars = quiet_stars();
    stars[7] = Point { x: 0, y: HEIGHT };
    let mut app = app_with_stars(stars);
    app.update(1);
    let p = app.state.stars[7];
    assert_eq!(p.y, 0);
    assert!(0 <= p.x && p.x < WIDTH);
}

#[test]
fn zero_step_changes_nothing() {
    let mut app = app_with_stars(quiet_stars());
    app.press(KEY_RIGHT);
    app.press(KEY_SPACE);
    let before_stars = app.state.stars.clone();
    let before_beams = app.state.beams.clone();
    let ship = app.state.spaceship;
    app.update(0);
    assert_eq!(app.state.stars, before_stars);
    assert_eq!(app.state.beams, before_beams);
    assert_eq!(app.state.spaceship, ship);
    assert_eq!(app.state.total_time, 0);
}

#[test]
fn invariants_hold_over_a_long_run() {
    let mut app = App::new(&assets());
    app.press(KEY_RIGHT);
    let mut last_total = 0;
    for k in 0..400u64 {
        if k % 7 == 0 {
            app.press(KEY_SPACE);
            app.release(KEY_SPACE);
        }
        app.update(16_667 + (k % 5) * 10_000);
        let s = &app.state;
        assert_eq!(s.stars.len(), 100);
        assert!(s.stars.iter().all(|p| 0 <= p.y && p.y <= HEIGHT));
        assert!(s.beams.iter().all(|b| b.position.y > 0));
        assert!(s.asteroids.iter().all(|a| a.position.y < HEIGHT));
        assert!(s.total_time >= last_total);
        assert!(s.last_asteroid <= s.total_time);
        last_total = s.total_time;
    }
    assert!(!app.state.asteroids.is_empty());
}

#[test]
fn render_order() {
    let mut app = app_with_stars(quiet_stars());
    app.fire();
    app.update(3_100_000);
    app.update_with(0, &columns(0), 300 * UNIT);
    app.fire();
    let frame = app.render();
    assert_eq!(frame.len(), 1 + 100 + 2 + 1 + 1);
    assert_eq!(frame[0], DrawCmd::Clear { color: Color { r: 0, g: 0, b: 0, a: 255 } });
    let white = Color { r: 255, g: 255, b: 255, a: 255 };
    assert_eq!(frame[1], DrawCmd::Rect { color: white, x: 0, y: 620 * UNIT, side: UNIT });
    assert_eq!(frame[2], DrawCmd::Rect { color: white, x: 10 * UNIT, y: 620 * UNIT, side: UNIT });
    assert_eq!(
        frame[101],
        DrawCmd::Image { asset: AssetId::Beam, x: 512 * UNIT, y: 84 * UNIT, dx: -4 * UNIT, dy: -16 * UNIT }
    );
    assert_eq!(
        frame[102],
        DrawCmd::Image {
            asset: AssetId::Beam,
            x: 512 * UNIT,
            y: 704 * UNIT,
            dx: -4 * UNIT,
            dy: -16 * UNIT
        }
    );
    assert_eq!(
        frame[103],
        DrawCmd::Image { asset: AssetId::Lutetia, x: 300 * UNIT, y: 0, dx: -50 * UNIT, dy: -40 * UNIT }
    );
    assert_eq!(
        frame[104],
        DrawCmd::Image {
            asset: AssetId::Spaceship,
            x: 512 * UNIT,
            y: 704 * UNIT,
            dx: -45 * UNIT,
            dy: -64 * UNIT
        }
    );
}

#[test]
fn sprite_draw_centres_on_position() {
    let s = Sprite { position: Point { x: 3, y: -7 }, asset: AssetId::Lutetia };
    assert_eq!(
        s.draw(&assets()),
        DrawCmd::Image { asset: AssetId::Lutetia, x: 3, y: -7, dx: -50 * UNIT, dy: -40 * UNIT }
    );
}

#[test]
fn drawable_sizes() {
    let d = Drawable::new(17, 33);
    assert_eq!(d.get_width(), 17);
    assert_eq!(d.get_height(), 33);
    let a = assets();
    assert_eq!(a.get(AssetId::Beam), Drawable::new(8, 32));
    assert_eq!(a.get(AssetId::Spaceship).get_height(), 128);
}

#[test]
fn update_limits() {
    let app = app_with_stars(quiet_stars());
    assert!(app.can_update(0));
    assert!(app.can_update(MAX_DT));
    assert!(!app.can_update(MAX_DT + 1));
    let mut far = app_with_stars(quiet_stars());
    far.state.spaceship.position.x = i64::MAX - 10;
    assert!(far.can_update(0));
    assert!(!far.can_update(1));
    far.state.total_time = u64::MAX;
    assert!(!far.can_update(1));
    assert_eq!(ASTEROID_INTERVAL, 3_000_000);
}
