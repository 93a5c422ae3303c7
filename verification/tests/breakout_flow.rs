use paddle_games::breakout::main_menu::{button_system, ButtonType, MenuCommand};
use paddle_games::breakout::schedule::GameSet;
use paddle_games::breakout::state::{
    pause_handler, scene_handler, Flow, FrameInput, FrameRequests, GameState, SceneState,
};
use paddle_games::breakout::ui::{game_over_text, GameResult};
use paddle_games::interaction::{ButtonStyle, FocusChange, Interaction};

fn keys(space: bool, escape: bool) -> FrameInput {
    FrameInput { space_just_pressed: space, escape_just_pressed: escape, menu_command: MenuCommand::NoCommand }
}

fn command(menu_command: MenuCommand) -> FrameInput {
    FrameInput { space_just_pressed: false, escape_just_pressed: false, menu_command }
}

fn flow(scene: SceneState, game: GameState) -> Flow {
    Flow { scene, game }
}

#[test]
fn startup_flow() {
    let f = Flow::new();
    assert_eq!(f, flow(SceneState::MainMenu, GameState::Playing));
    assert!(!f.gameplay_runs());
}

#[test]
fn handlers() {
    assert_eq!(pause_handler(GameState::Playing, true), Some(GameState::Paused));
    assert_eq!(pause_handler(GameState::Paused, true), Some(GameState::Playing));
    assert_eq!(pause_handler(GameState::Paused, false), None);
    assert_eq!(scene_handler(true), Some(SceneState::MainMenu));
    assert_eq!(scene_handler(false), None);
}

#[test]
fn start_button_enters_the_game_paused() {
    let (feedback, cmd) = button_system(Interaction::Pressed, ButtonType::Start);
    assert_eq!(cmd, MenuCommand::StartGame);
    assert_eq!(feedback.style, ButtonStyle::Press);
    let f = Flow::new().frame(command(cmd));
    assert_eq!(f, flow(SceneState::InGame, GameState::Paused));
    assert!(f.gameplay_runs());
}

#[test]
fn exit_button_asks_to_exit() {
    let (_, cmd) = button_system(Interaction::Pressed, ButtonType::Exit);
    assert_eq!(cmd, MenuCommand::ExitApp);
    let r = Flow::new().requests(command(cmd));
    assert_eq!(r, FrameRequests { next_scene: None, next_game: None, exit: true });
    assert_eq!(Flow::new().apply(r), Flow::new());
}

#[test]
fn hovering_and_leaving_buttons_asks_nothing() {
    for b in [ButtonType::Start, ButtonType::Exit] {
        let (hover, c1) = button_system(Interaction::Hovered, b);
        assert_eq!(c1, MenuCommand::NoCommand);
        assert_eq!(hover.focus, FocusChange::Focus);
        assert_eq!(hover.style, ButtonStyle::Hover);
        let (idle, c2) = button_system(Interaction::Idle, b);
        assert_eq!(c2, MenuCommand::NoCommand);
        assert_eq!(idle.focus, FocusChange::Clear);
        assert_eq!(idle.style, ButtonStyle::Normal);
    }
}

#[test]
fn space_toggles_pause_in_game() {
    let f = flow(SceneState::InGame, GameState::Paused);
    let g = f.frame(keys(true, false));
    assert_eq!(g, flow(SceneState::InGame, GameState::Playing));
    assert_eq!(g.frame(keys(true, false)), f);
}

#[test]
fn escape_only_works_when_paused() {
    let playing = flow(SceneState::InGame, GameState::Playing);
    assert_eq!(playing.frame(keys(false, true)), playing);
    let paused = flow(SceneState::InGame, GameState::Paused);
    assert_eq!(paused.frame(keys(false, true)), flow(SceneState::MainMenu, GameState::Paused));
}

#[test]
fn space_and_escape_together_while_paused() {
    let paused = flow(SceneState::InGame, GameState::Paused);
    assert_eq!(paused.frame(keys(true, true)), flow(SceneState::MainMenu, GameState::Playing));
}

#[test]
fn keys_do_nothing_in_the_main_menu() {
    let f = Flow::new();
    assert_eq!(f.frame(keys(true, true)), f);
    let r = f.requests(keys(true, true));
    assert_eq!(r, FrameRequests { next_scene: None, next_game: None, exit: false });
}

#[test]
fn menu_commands_are_ignored_in_game() {
    let f = flow(SceneState::InGame, GameState::Playing);
    assert_eq!(f.frame(command(MenuCommand::StartGame)), f);
    assert!(!f.requests(command(MenuCommand::ExitApp)).exit);
}

#[test]
fn gameplay_sets_run_in_order() {
    let sets = [GameSet::Input, GameSet::Movement, GameSet::Bounds, GameSet::Collision];
    for (i, a) in sets.iter().enumerate() {
        assert_eq!(a.rank() as usize, i);
        for (j, b) in sets.iter().enumerate() {
            assert_eq!(a.runs_before(*b), i < j);
        }
    }
}

#[test]
fn game_over_texts() {
    assert_eq!(game_over_text(Some(GameResult::Won)), "You won!");
    assert_eq!(game_over_text(Some(GameResult::Lost)), "You lost!");
    assert_eq!(game_over_text(None), "You managed to end the game without a result... what?");
}
