use mobile_bridge::event_bus::{init, send_render};
use mobile_bridge::events::{NativeEvent, TouchAction};
use mobile_bridge::game::{bright_color, Direction, GameAppState, Mode, Player, Rgb, PLAYER_SIZE};
use mobile_bridge::session::GameState;

#[test]
fn direction_codes() {
    assert_eq!(Direction::from(0), Direction::Idle);
    assert_eq!(Direction::from(1), Direction::Up);
    assert_eq!(Direction::from(2), Direction::Down);
    assert_eq!(Direction::from(3), Direction::Left);
    assert_eq!(Direction::from(4), Direction::Right);
    assert_eq!(Direction::from(5), Direction::Idle);
    assert_eq!(Direction::from(-3), Direction::Idle);
}

#[test]
fn mode_codes() {
    assert_eq!(Mode::from(0), Mode::Manual);
    assert_eq!(Mode::from(1), Mode::Auto);
    assert_eq!(Mode::from(2), Mode::Manual);
}

#[test]
fn bright_color_from_clock_bytes() {
    assert_eq!(bright_color(0), Rgb { r: 128, g: 128, b: 128 });
    assert_eq!(bright_color(0x00FF_8040), Rgb { r: 160, g: 192, b: 255 });
    assert_eq!(bright_color(0x1234_5678_9ABC_DEF0), Rgb { r: 248, g: 239, b: 222 });
}

#[test]
fn new_game_centres_the_player() {
    let g = GameAppState::new(800, 600);
    assert_eq!(g.player_x(), 400_000);
    assert_eq!(g.player_y(), 300_000);
    assert_eq!(g.size(), (800, 600));
    let p = g.player();
    assert_eq!(p.size(), PLAYER_SIZE);
    assert_eq!(p.mode(), Mode::Manual);
    assert_eq!(p.direction(), Direction::Idle);
    assert_eq!(p.velocity(), (0, 0));
    assert_eq!(p.tint(), Rgb { r: 255, g: 255, b: 255 });
    assert!(!p.is_touched());
}

#[test]
fn touch_down_on_player_then_drag_is_clamped() {
    let mut g = GameAppState::new(800, 600);
    g.touch(450_000, 350_000, 0);
    assert!(g.player().is_touched());
    assert_eq!((g.player_x(), g.player_y()), (400_000, 300_000));
    g.touch(1_000_000, 0, 2);
    assert_eq!(g.player_x(), 700_000);
    assert_eq!(g.player_y(), 100_000);
    g.touch(300_000, 250_000, 2);
    assert_eq!((g.player_x(), g.player_y()), (250_000, 200_000));
    g.touch(5, 5, 1);
    assert!(!g.player().is_touched());
    assert_eq!((g.player_x(), g.player_y()), (250_000, 200_000));
}

#[test]
fn touch_down_off_player_starts_no_drag() {
    let mut g = GameAppState::new(800, 600);
    g.touch(600_000, 300_000, 0);
    assert!(!g.player().is_touched());
    g.touch(100_000, 100_000, 2);
    assert_eq!((g.player_x(), g.player_y()), (400_000, 300_000));
}

#[test]
fn touch_on_edge_of_player_counts() {
    let mut g = GameAppState::new(800, 600);
    g.touch(500_000, 200_000, 0);
    assert!(g.player().is_touched());
}

#[test]
fn unknown_touch_code_ends_drag() {
    let mut g = GameAppState::new(800, 600);
    g.touch(400_000, 300_000, 0);
    assert!(g.player().is_touched());
    g.touch(400_000, 300_000, 42);
    assert!(!g.player().is_touched());
}

#[test]
fn resize_from_zero_centres_player() {
    let mut g = GameAppState::new(0, 0);
    assert_eq!((g.player_x(), g.player_y()), (0, 0));
    g.resize(800, 600);
    assert_eq!((g.player_x(), g.player_y()), (400_000, 300_000));
    assert_eq!(g.size(), (800, 600));
}

#[test]
fn resize_of_sized_window_keeps_player() {
    let mut g = GameAppState::new(800, 600);
    g.resize(1000, 1000);
    assert_eq!((g.player_x(), g.player_y()), (400_000, 300_000));
    g.resize(0, 10);
    g.resize(201, 301);
    assert_eq!((g.player_x(), g.player_y()), (100_500, 150_500));
}

#[test]
fn manual_step_moves_and_caps_the_step() {
    let mut g = GameAppState::new(800, 600);
    g.set_direction(4);
    g.update(50_000, 0);
    assert_eq!(g.player_x(), 415_000);
    g.update(5_000_000, 0);
    assert_eq!(g.player_x(), 445_000);
    g.set_direction(1);
    g.update(100_000, 0);
    assert_eq!(g.player_y(), 270_000);
    g.set_direction(0);
    g.update(100_000, 0);
    assert_eq!((g.player_x(), g.player_y()), (445_000, 270_000));
}

#[test]
fn manual_step_stops_at_the_edge() {
    let mut g = GameAppState::new(800, 600);
    g.set_direction(3);
    for _ in 0..20 {
        g.update(100_000, 0);
    }
    assert_eq!(g.player_x(), 100_000);
}

#[test]
fn zero_window_stops_the_player() {
    let mut g = GameAppState::new(0, 600);
    g.set_direction(2);
    g.update(100_000, 0);
    assert_eq!((g.player_x(), g.player_y()), (0, 300_000));
}

#[test]
fn auto_mode_starts_moving_and_bounces() {
    let mut g = GameAppState::new(300, 300);
    g.set_mode(1);
    assert_eq!(g.player().mode(), Mode::Auto);
    assert_eq!(g.player().velocity(), (250_000, 200_000));
    g.update(100_000, 0x00FF_8040);
    assert_eq!((g.player_x(), g.player_y()), (175_000, 170_000));
    assert_eq!(g.player().tint(), Rgb { r: 255, g: 255, b: 255 });
    g.update(100_000, 0x00FF_8040);
    assert_eq!((g.player_x(), g.player_y()), (200_000, 190_000));
    assert_eq!(g.player().velocity(), (-250_000, 200_000));
    assert_eq!(g.player().tint(), Rgb { r: 160, g: 192, b: 255 });
    g.set_mode(1);
    assert_eq!(g.player().velocity(), (-250_000, 200_000));
    g.set_mode(0);
    assert_eq!(g.player().mode(), Mode::Manual);
}

#[test]
fn player_touch_rules_directly() {
    let mut p = Player::new(1_000, 1_000, 2_000);
    p.handle_touch(0, 2_000, TouchAction::Down, (10, 10));
    assert!(p.is_touched());
    p.handle_touch(9_000, 9_000, TouchAction::Move, (10, 10));
    assert_eq!((p.x(), p.y()), (9_000, 8_000));
    p.handle_touch(i64::MAX, i64::MIN, TouchAction::Move, (10, 10));
    assert_eq!((p.x(), p.y()), (9_000, 1_000));
    p.handle_touch(i64::MAX, i64::MIN, TouchAction::Up, (10, 10));
    assert!(!p.is_touched());
}

#[test]
fn session_touch_reaches_game_and_queue() {
    let mut reg = init();
    let mut s = GameState::new(&mut reg, 800, 600, 1000).unwrap();
    assert_eq!((s.player_x(), s.player_y()), (400_000, 300_000));
    s.touch(&mut reg, 450_000, 350_000, 0);
    s.touch(&mut reg, 460_000, 360_000, 2);
    assert_eq!((s.player_x(), s.player_y()), (410_000, 310_000));
    assert_eq!(
        s.take_events(&mut reg),
        vec![
            NativeEvent::TouchStart { id: 0, x: 450_000, y: 350_000 },
            NativeEvent::TouchMove { id: 0, x: 460_000, y: 360_000 },
        ]
    );
    s.set_direction(2);
    s.set_mode(0);
    s.update(100_000, 0);
    assert_eq!(s.player_y(), 340_000);
    assert!(s.game().player().is_touched());
}

#[test]
fn session_renders_only_with_a_surface() {
    let mut reg = init();
    let mut s = GameState::new(&mut reg, 0, 0, 1000).unwrap();
    assert!(!s.render(&mut reg));
    s.resize(&mut reg, 800, 600);
    assert_eq!((s.player_x(), s.player_y()), (400_000, 300_000));
    assert!(s.render(&mut reg));
    assert_eq!(
        s.take_events(&mut reg),
        vec![NativeEvent::WindowResize { width: 800, height: 600 }]
    );
}

#[test]
fn destroyed_session_is_never_reached_again() {
    let mut reg = init();
    let s = GameState::new(&mut reg, 800, 600, 1000).unwrap();
    assert!(s.render(&mut reg));
    s.destroy(&mut reg);
    assert_eq!(reg.slot(), None);
    assert!(!send_render(&mut reg));
}
