use paddle_games::interaction::{ButtonStyle, FocusChange, Interaction};
use paddle_games::pong::flow::{toggle_pause, GameState, PongMatch, BALL_SPEED};
use paddle_games::pong::score::{score_text, Score, Side};

fn in_game() -> PongMatch {
    let mut m = PongMatch::new();
    m.start_button(Interaction::Pressed);
    assert_eq!(m.apply_transition(), Some(GameState::Paused));
    m.press_space(true);
    assert_eq!(m.apply_transition(), Some(GameState::InGame));
    m
}

fn overlays_follow_state(m: &PongMatch) {
    assert_eq!(m.pause_text_visible(), m.state() == GameState::Paused);
    assert_eq!(m.main_menu_visible(), m.state() == GameState::MainMenu);
}

#[test]
fn new_match_starts_in_main_menu() {
    let m = PongMatch::new();
    assert_eq!(m.state(), GameState::MainMenu);
    assert_eq!(m.next_state(), None);
    assert_eq!(m.score(), Score { p1: 0, p2: 0 });
    assert!(!m.ball_hit_bar());
    assert!(!m.pause_text_visible());
    assert!(m.main_menu_visible());
    assert_eq!(m.ball_speed(), 750);
    assert!(!m.gameplay_runs());
}

#[test]
fn toggle_pause_in_every_state() {
    assert_eq!(toggle_pause(GameState::Paused, true), Some(GameState::InGame));
    assert_eq!(toggle_pause(GameState::InGame, true), Some(GameState::Paused));
    assert_eq!(toggle_pause(GameState::Ended, true), Some(GameState::Ended));
    assert_eq!(toggle_pause(GameState::MainMenu, true), Some(GameState::MainMenu));
    assert_eq!(toggle_pause(GameState::Paused, false), None);
    assert_eq!(toggle_pause(GameState::InGame, false), None);
}

#[test]
fn start_button_leads_to_pause() {
    let mut m = PongMatch::new();
    let hover = m.start_button(Interaction::Hovered).unwrap();
    assert_eq!(hover.style, ButtonStyle::Hover);
    assert_eq!(hover.focus, FocusChange::Focus);
    assert!(hover.mark_changed);
    assert_eq!(m.next_state(), None);
    let press = m.start_button(Interaction::Pressed).unwrap();
    assert_eq!(press.style, ButtonStyle::Press);
    assert_eq!(m.next_state(), Some(GameState::Paused));
    m.apply_transition();
    assert_eq!(m.state(), GameState::Paused);
    assert!(m.pause_text_visible());
    assert!(!m.main_menu_visible());
    assert_eq!(m.start_button(Interaction::Pressed), None);
    assert_eq!(m.next_state(), None);
}

#[test]
fn idle_start_button_clears_focus() {
    let mut m = PongMatch::new();
    let idle = m.start_button(Interaction::Idle).unwrap();
    assert_eq!(idle.focus, FocusChange::Clear);
    assert_eq!(idle.style, ButtonStyle::Normal);
    assert!(!idle.mark_changed);
    assert_eq!(m.state(), GameState::MainMenu);
}

#[test]
fn goal_on_the_right_scores_for_the_left_player() {
    let mut m = in_game();
    m.goal(Side::Right);
    assert_eq!(m.score(), Score { p1: 1, p2: 0 });
    assert_eq!(m.next_state(), Some(GameState::Ended));
    assert_eq!(m.apply_transition(), Some(GameState::Ended));
    assert_eq!(m.next_state(), Some(GameState::Paused));
    assert_eq!(m.apply_transition(), Some(GameState::Paused));
    assert_eq!(m.state(), GameState::Paused);
    assert!(m.pause_text_visible());
}

#[test]
fn goal_on_the_left_scores_for_the_right_player() {
    let mut m = in_game();
    m.goal(Side::Left);
    assert_eq!(m.score(), Score { p1: 0, p2: 1 });
}

#[test]
fn goal_outside_the_game_is_ignored() {
    let mut m = PongMatch::new();
    m.goal(Side::Left);
    assert_eq!(m.score(), Score { p1: 0, p2: 0 });
    assert_eq!(m.next_state(), None);
}

#[test]
fn bar_hit_speeds_the_ball_until_the_round_resets() {
    let mut m = in_game();
    assert_eq!(m.ball_speed(), BALL_SPEED / 2);
    assert!(m.bar_hit());
    assert_eq!(m.ball_speed(), BALL_SPEED);
    assert!(!m.bar_hit());
    assert_eq!(m.ball_speed(), 1500);
    m.goal(Side::Right);
    m.apply_transition();
    assert!(!m.ball_hit_bar());
    assert_eq!(m.ball_speed(), 750);
}

#[test]
fn bar_hit_while_paused_is_ignored() {
    let mut m = in_game();
    m.press_space(true);
    m.apply_transition();
    assert_eq!(m.state(), GameState::Paused);
    assert!(!m.bar_hit());
    assert!(!m.ball_hit_bar());
}

#[test]
fn pause_round_trip() {
    let mut m = in_game();
    m.press_space(true);
    m.apply_transition();
    assert_eq!(m.state(), GameState::Paused);
    assert!(m.pause_text_visible());
    m.press_space(true);
    m.apply_transition();
    assert_eq!(m.state(), GameState::InGame);
    assert!(!m.pause_text_visible());
    assert!(m.gameplay_runs());
}

#[test]
fn space_in_main_menu_reenters_the_menu() {
    let mut m = PongMatch::new();
    m.press_space(true);
    assert_eq!(m.next_state(), Some(GameState::MainMenu));
    assert_eq!(m.apply_transition(), Some(GameState::MainMenu));
    assert!(m.main_menu_visible());
    assert_eq!(m.apply_transition(), None);
}

#[test]
fn overlays_follow_the_state_along_a_match() {
    let mut m = PongMatch::new();
    overlays_follow_state(&m);
    m.start_button(Interaction::Pressed);
    m.apply_transition();
    overlays_follow_state(&m);
    m.press_space(true);
    m.apply_transition();
    overlays_follow_state(&m);
    m.goal(Side::Left);
    m.apply_transition();
    overlays_follow_state(&m);
    m.press_space(true);
    m.apply_transition();
    overlays_follow_state(&m);
    assert_eq!(m.state(), GameState::Ended);
    m.apply_transition();
    overlays_follow_state(&m);
    assert_eq!(m.state(), GameState::Paused);
    assert_eq!(m.score(), Score { p1: 0, p2: 1 });
}

#[test]
fn score_award_and_text() {
    let mut s = Score::new();
    assert_eq!(s.text(), "00 | 00");
    s.award(Side::Right);
    s.award(Side::Right);
    s.award(Side::Left);
    assert_eq!(s, Score { p1: 2, p2: 1 });
    assert_eq!(s.text(), "02 | 01");
}

#[test]
fn score_text_pads_to_two_digits() {
    assert_eq!(score_text(0, 0), "00 | 00");
    assert_eq!(score_text(7, 12), "07 | 12");
    assert_eq!(score_text(10, 9), "10 | 09");
    assert_eq!(score_text(99, 100), "99 | 100");
    assert_eq!(score_text(4294967295, 5), "4294967295 | 05");
    for a in [0u32, 1, 9, 10, 42, 99, 100, 1234, u32::MAX] {
        for b in [0u32, 3, 10, 77, 100, 65536] {
            assert_eq!(score_text(a, b), format!("{:02} | {:02}", a, b));
        }
    }
}

#[test]
fn score_text_tells_scores_apart() {
    assert_ne!(score_text(1, 10), score_text(11, 0));
    assert_ne!(score_text(10, 1), score_text(1, 1));
}
