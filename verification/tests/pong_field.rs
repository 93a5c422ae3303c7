use paddle_games::pong::field::{bar_home_x, bar_y_bounds, BAR_HEIGHT, WINDOW_HEIGHT, WINDOW_WIDTH};
use paddle_games::pong::input::{bar_input, BarKeys};

fn keys(w: bool, s: bool, arrow_up: bool, arrow_down: bool) -> BarKeys {
    BarKeys { w, s, arrow_up, arrow_down }
}

#[test]
fn left_bar_follows_w_and_s() {
    assert_eq!(bar_input(0, keys(true, false, false, false)), 1);
    assert_eq!(bar_input(0, keys(false, true, false, false)), -1);
    assert_eq!(bar_input(0, keys(true, true, false, false)), 0);
    assert_eq!(bar_input(0, keys(false, false, true, true)), 0);
    assert_eq!(bar_input(0, keys(false, false, true, false)), 0);
}

#[test]
fn right_bar_follows_the_arrows() {
    assert_eq!(bar_input(1, keys(false, false, true, false)), 1);
    assert_eq!(bar_input(1, keys(false, false, false, true)), -1);
    assert_eq!(bar_input(1, keys(false, false, true, true)), 0);
    assert_eq!(bar_input(1, keys(true, false, false, false)), 0);
    assert_eq!(bar_input(7, keys(false, false, true, false)), 1);
}

#[test]
fn bars_start_near_the_sides() {
    assert_eq!(bar_home_x(0), -635);
    assert_eq!(bar_home_x(1), 635);
    assert_eq!(bar_home_x(0) as f32, -(WINDOW_WIDTH as f32) / 2.0 + 5.0);
    assert_eq!(bar_home_x(1) as f32, WINDOW_WIDTH as f32 / 2.0 - 5.0);
}

#[test]
fn bar_bounds_match_the_window() {
    let (low, high) = bar_y_bounds();
    assert_eq!((low, high), (-285, 285));
    assert_eq!(low as f32, (-(WINDOW_HEIGHT as f32) + BAR_HEIGHT as f32) / 2.0);
    assert_eq!(high as f32, (WINDOW_HEIGHT as f32 - BAR_HEIGHT as f32) / 2.0);
    assert_eq!(high + BAR_HEIGHT as i32 / 2, WINDOW_HEIGHT as i32 / 2);
}
