use breakout_core::ball::Ball;
use breakout_core::color::Color;
use breakout_core::game::{step_axis, Game};
use breakout_core::geometry::{Bounds, Point, Velocity};

fn palette() -> Vec<Color> {
    vec![
        Color::from_rgba(255, 255, 255, 255),
        Color::from_rgba(255, 0, 0, 255),
        Color::from_rgba(0, 255, 0, 255),
        Color::from_rgba(0, 0, 255, 255),
    ]
}

fn white() -> Color {
    Color::from_rgba(255, 255, 255, 255)
}

/// Bounds 0,0 to 800,600 and a ball of radius 10.
fn get_test_game() -> Game {
    let ball = Ball::new(Point::new(400, 300), 10, white(), Velocity::new(0, 0), palette());
    let bounds = Bounds::from_min_max(Point::new(0, 0), Point::new(800, 600));
    Game::new(ball, bounds)
}

#[test]
fn test_step_left_collision() {
    let mut game = get_test_game();
    game.ball.center = Point::new(15, 300);
    game.ball.velocity = Velocity::new(-100, 0);
    let has_collision = game.step(100).has_collision;
    assert!(has_collision);
    assert_eq!(game.ball.center.x, 15);
    assert_eq!(game.ball.velocity.x, 100);
}

#[test]
fn test_step_right_collision() {
    let mut game = get_test_game();
    game.ball.center = Point::new(785, 300);
    game.ball.velocity = Velocity::new(100, 0);
    let has_collision = game.step(100).has_collision;
    assert!(has_collision);
    assert_eq!(game.ball.center.x, 785);
    assert_eq!(game.ball.velocity.x, -100);
}

#[test]
fn test_step_top_collision() {
    let mut game = get_test_game();
    game.ball.center = Point::new(400, 15);
    game.ball.velocity = Velocity::new(0, -100);
    let has_collision = game.step(100).has_collision;
    assert!(has_collision);
    assert_eq!(game.ball.center.y, 15);
    assert_eq!(game.ball.velocity.y, 100);
}

#[test]
fn test_step_bottom_collision() {
    let mut game = get_test_game();
    game.ball.center = Point::new(400, 585);
    game.ball.velocity = Velocity::new(0, 100);
    let has_collision = game.step(100).has_collision;
    assert!(has_collision);
    assert_eq!(game.ball.center.y, 585);
    assert_eq!(game.ball.velocity.y, -100);
}

#[test]
fn collision_changes_color() {
    let mut game = get_test_game();
    game.ball.center = Point::new(15, 300);
    game.ball.velocity = Velocity::new(-100, 0);
    let before = game.ball.fill;
    assert!(game.step(100).has_collision);
    assert_ne!(game.ball.fill, before);
    assert!(game.ball.fill_colors.contains(&game.ball.fill));
}

#[test]
fn corner_collision_flips_both_axes() {
    let mut game = get_test_game();
    game.ball.center = Point::new(15, 15);
    game.ball.velocity = Velocity::new(-100, -100);
    let before = game.ball.fill;
    let event = game.step(100);
    assert!(event.has_collision);
    assert_eq!(game.ball.center, Point::new(15, 15));
    assert_eq!(game.ball.velocity, Velocity::new(100, 100));
    assert_ne!(game.ball.fill, before);
    assert!(game.ball.fill_colors.contains(&game.ball.fill));
}

#[test]
fn free_flight_keeps_color_and_velocity() {
    let mut game = get_test_game();
    game.ball.velocity = Velocity::new(120, -80);
    let event = game.step(250);
    assert!(!event.has_collision);
    assert_eq!(game.ball.center, Point::new(430, 280));
    assert_eq!(game.ball.velocity, Velocity::new(120, -80));
    assert_eq!(game.ball.fill, white());
}

#[test]
fn zero_time_step_changes_nothing() {
    let mut game = get_test_game();
    game.ball.center = Point::new(10, 590);
    game.ball.velocity = Velocity::new(-5000, 7000);
    let event = game.step(0);
    assert!(!event.has_collision);
    assert_eq!(game.ball.center, Point::new(10, 590));
    assert_eq!(game.ball.velocity, Velocity::new(-5000, 7000));
    assert_eq!(game.ball.fill, white());
}

#[test]
fn touching_a_wall_is_no_collision() {
    let mut game = get_test_game();
    game.ball.center = Point::new(20, 300);
    game.ball.velocity = Velocity::new(-100, 0);
    let event = game.step(100);
    assert!(!event.has_collision);
    assert_eq!(game.ball.center.x, 10);
    assert_eq!(game.ball.velocity.x, -100);
}

#[test]
fn travel_rounds_toward_zero() {
    let mut game = get_test_game();
    game.ball.velocity = Velocity::new(-15, 15);
    game.step(100);
    assert_eq!(game.ball.center, Point::new(399, 301));
}

#[test]
fn ball_stays_inside_after_fast_step() {
    let mut game = get_test_game();
    game.ball.center = Point::new(700, 500);
    game.ball.velocity = Velocity::new(3000, 2000);
    assert!(game.step(100).has_collision);
    // 700 + 300 = 1000, past 790 by 210: mirrored back to 580.
    // 500 + 200 = 700, past 590 by 110: mirrored back to 480.
    assert_eq!(game.ball.center, Point::new(580, 480));
    assert_eq!(game.ball.velocity, Velocity::new(-3000, -2000));
    let b = &game.ball;
    assert!(b.center.x - b.radius >= 0 && b.center.x + b.radius <= 800);
    assert!(b.center.y - b.radius >= 0 && b.center.y + b.radius <= 600);
}

#[test]
fn single_color_palette_keeps_its_color() {
    let ball = Ball::new(Point::new(15, 300), 10, white(), Velocity::new(-100, 0), vec![white()]);
    let bounds = Bounds::from_min_max(Point::new(0, 0), Point::new(800, 600));
    let mut game = Game::new(ball, bounds);
    assert!(game.step(100).has_collision);
    assert_eq!(game.ball.fill, white());
    assert_eq!(game.ball.velocity.x, 100);
}

#[test]
fn can_step_detects_overflow() {
    let mut game = get_test_game();
    assert!(game.can_step(1000));
    game.ball.center = Point::new(i64::MAX - 5, 300);
    game.ball.velocity = Velocity::new(i64::MAX, 0);
    assert!(!game.can_step(1000));
    game.ball.center = Point::new(400, 300);
    game.ball.velocity = Velocity::new(i64::MIN, 0);
    assert!(game.can_step(0));
    game.ball.center = Point::new(5, 300);
    assert!(!game.can_step(0));
}

#[test]
fn step_axis_left_and_right() {
    assert_eq!(step_axis(15, -100, 10, 0, 800, 100), (15, 100, true));
    assert_eq!(step_axis(785, 100, 10, 0, 800, 100), (785, -100, true));
    assert_eq!(step_axis(400, 100, 10, 0, 800, 100), (410, 100, false));
}
