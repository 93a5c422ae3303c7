//! The two state machines of Breakout, the scene (main menu or in game)
//! and the game (paused or playing), and the handlers that switch them.
//!
//! Handlers read the current states and ask for new ones; what they ask
//! for during a frame takes effect at the start of the next frame.
use vstd::prelude::*;
use crate::breakout::main_menu::MenuCommand;

verus! {

/// Which scene is shown.
#[derive(Clone, Copy, Debug, PartialEq, Eq, Structural)]
pub enum SceneState {
    MainMenu,
    InGame,
}

/// Whether the game runs.
#[derive(Clone, Copy, Debug, PartialEq, Eq, Structural)]
pub enum GameState {
    Paused,
    Playing,
}

/// The other game state.
pub open spec fn spec_toggled(s: GameState) -> GameState {
    match s {
        GameState::Paused => GameState::Playing,
        GameState::Playing => GameState::Paused,
    }
}

/// Space switches between playing and paused.
pub fn pause_handler(current: GameState, space_just_pressed: bool) -> (next: Option<GameState>)
    ensures
        next == (if space_just_pressed { Some(spec_toggled(current)) } else { None::<GameState> }),
{
    if space_just_pressed {
        match current {
            GameState::Playing => Some(GameState::Paused),
            GameState::Paused => Some(GameState::Playing),
        }
    } else {
        None
    }
}

/// Escape asks for the main menu.
pub fn scene_handler(escape_just_pressed: bool) -> (next: Option<SceneState>)
    ensures
        next == (if escape_just_pressed { Some(SceneState::MainMenu) } else { None::<SceneState> }),
{
    if escape_just_pressed {
        Some(SceneState::MainMenu)
    } else {
        None
    }
}

/// Both states together.
#[derive(Clone, Copy, Debug, PartialEq, Eq, Structural)]
pub struct Flow {
    pub scene: SceneState,
    pub game: GameState,
}

/// What one frame brings: the keys just pressed and the command of the
/// main menu's buttons, if one was pressed.
#[derive(Clone, Copy, Debug, PartialEq, Eq, Structural)]
pub struct FrameInput {
    pub space_just_pressed: bool,
    pub escape_just_pressed: bool,
    pub menu_command: MenuCommand,
}

/// The switches that one frame asks for, and whether it asks the
/// application to exit.
#[derive(Clone, Copy, Debug, PartialEq, Eq, Structural)]
pub struct FrameRequests {
    pub next_scene: Option<SceneState>,
    pub next_game: Option<GameState>,
    pub exit: bool,
}

/// The states at startup: the main menu, with the game state playing.
pub open spec fn spec_initial_flow() -> Flow {
    Flow { scene: SceneState::MainMenu, game: GameState::Playing }
}

/// Whether the gameplay sets (input, movement, bounds, collision) run: in
/// game, whether paused or not.
pub open spec fn spec_gameplay_runs(f: Flow) -> bool {
    f.scene == SceneState::InGame
}

/// What a frame asks for. In game, the pause handler runs, and the scene
/// handler runs too while paused; in the main menu only the buttons are
/// looked at: Start asks for the game, paused, and Exit asks to exit.
pub open spec fn spec_frame_requests(f: Flow, input: FrameInput) -> FrameRequests {
    if f.scene == SceneState::InGame {
        FrameRequests {
            next_scene: if f.game == GameState::Paused && input.escape_just_pressed {
                Some(SceneState::MainMenu)
            } else {
                None
            },
            next_game: if input.space_just_pressed {
                Some(spec_toggled(f.game))
            } else {
                None
            },
            exit: false,
        }
    } else {
        match input.menu_command {
            MenuCommand::StartGame => FrameRequests {
                next_scene: Some(SceneState::InGame),
                next_game: Some(GameState::Paused),
                exit: false,
            },
            MenuCommand::ExitApp => FrameRequests { next_scene: None, next_game: None, exit: true },
            MenuCommand::NoCommand => FrameRequests {
                next_scene: None,
                next_game: None,
                exit: false,
            },
        }
    }
}

/// The states once the switches asked for take effect.
pub open spec fn spec_apply(f: Flow, r: FrameRequests) -> Flow {
    Flow {
        scene: match r.next_scene {
            Some(s) => s,
            None => f.scene,
        },
        game: match r.next_game {
            Some(g) => g,
            None => f.game,
        },
    }
}

/// The states one frame later.
pub open spec fn spec_frame(f: Flow, input: FrameInput) -> Flow {
    spec_apply(f, spec_frame_requests(f, input))
}

impl Flow {
    /// The states at startup.
    pub fn new() -> (f: Flow)
        ensures
            f == spec_initial_flow(),
    {
        Flow { scene: SceneState::MainMenu, game: GameState::Playing }
    }

    /// Whether the gameplay sets run.
    pub fn gameplay_runs(&self) -> (b: bool)
        ensures
            b == spec_gameplay_runs(*self),
    {
        self.scene == SceneState::InGame
    }

    /// What this frame asks for.
    pub fn requests(&self, input: FrameInput) -> (r: FrameRequests)
        ensures
            r == spec_frame_requests(*self, input),
            self.scene == SceneState::InGame ==> (r.next_game is Some <==> input.space_just_pressed),
            self.scene == SceneState::InGame ==> (r.next_game matches Some(g) ==> g != self.game),
            self.scene == SceneState::MainMenu ==> (r.next_game is Some <==> input.menu_command
                == MenuCommand::StartGame),
            r.next_scene == Some(SceneState::MainMenu) <==> (self.scene == SceneState::InGame
                && self.game == GameState::Paused && input.escape_just_pressed),
    {
        if self.scene == SceneState::InGame {
            let next_game = pause_handler(self.game, input.space_just_pressed);
            let next_scene = if self.game == GameState::Paused {
                scene_handler(input.escape_just_pressed)
            } else {
                None
            };
            FrameRequests { next_scene, next_game, exit: false }
        } else {
            match input.menu_command {
                MenuCommand::StartGame => FrameRequests {
                    next_scene: Some(SceneState::InGame),
                    next_game: Some(GameState::Paused),
                    exit: false,
                },
                MenuCommand::ExitApp => FrameRequests {
                    next_scene: None,
                    next_game: None,
                    exit: true,
                },
                MenuCommand::NoCommand => FrameRequests {
                    next_scene: None,
                    next_game: None,
                    exit: false,
                },
            }
        }
    }

    /// The states once `requests` take effect.
    pub fn apply(&self, requests: FrameRequests) -> (f: Flow)
        ensures
            f == spec_apply(*self, requests),
    {
        Flow {
            scene: match requests.next_scene {
                Some(s) => s,
                None => self.scene,
            },
            game: match requests.next_game {
                Some(g) => g,
                None => self.game,
            },
        }
    }

    /// The states one frame later.
    pub fn frame(&self, input: FrameInput) -> (f: Flow)
        ensures
            f == spec_frame(*self, input),
    {
        let r = self.requests(input);
        self.apply(r)
    }
}

/// In game, two frames with Space (and no Escape) bring the states back.
pub proof fn lemma_pause_round_trip(f: Flow, input: FrameInput)
    requires
        f.scene == SceneState::InGame,
        input.space_just_pressed,
        !input.escape_just_pressed,
    ensures
        spec_frame(f, input).game == spec_toggled(f.game),
        spec_frame(spec_frame(f, input), input) == f,
{
}

/// The game is left for the main menu only by Escape while paused, and
/// then the game state stays as it was unless Space was pressed too.
pub proof fn lemma_menu_only_from_pause(f: Flow, input: FrameInput)
    requires
        f.scene == SceneState::InGame,
        spec_frame(f, input).scene == SceneState::MainMenu,
    ensures
        f.game == GameState::Paused,
        input.escape_just_pressed,
        !input.space_just_pressed ==> spec_frame(f, input).game == GameState::Paused,
{
}

/// In the main menu the keys do nothing; Start leads into the game,
/// paused, whatever the game state was; only the Exit button asks to exit,
/// and only there.
pub proof fn lemma_main_menu(f: Flow, input: FrameInput)
    requires
        f.scene == SceneState::MainMenu,
    ensures
        input.menu_command == MenuCommand::NoCommand ==> spec_frame(f, input) == f,
        input.menu_command == MenuCommand::StartGame ==> spec_frame(f, input) == (Flow {
            scene: SceneState::InGame,
            game: GameState::Paused,
        }),
        spec_frame_requests(f, input).exit == (input.menu_command == MenuCommand::ExitApp),
{
}

/// In game no frame asks to exit, and the gameplay sets run exactly in
/// game.
pub proof fn lemma_in_game_no_exit(f: Flow, input: FrameInput)
    ensures
        f.scene == SceneState::InGame ==> !spec_frame_requests(f, input).exit,
        spec_gameplay_runs(f) == (f.scene == SceneState::InGame),
{
}

/// A frame with neither Space nor Escape nor a menu command asks for
/// nothing and leaves both states as they are, whether in game (paused or
/// playing) or in the main menu. Space alone, in game, changes only the game
/// state, to the other one; Escape alone changes only the scene, and only
/// while paused.
pub proof fn lemma_idle_frame(f: Flow, input: FrameInput)
    ensures
        (!input.space_just_pressed && !input.escape_just_pressed && input.menu_command
            == MenuCommand::NoCommand) ==> (spec_frame_requests(f, input) == FrameRequests {
            next_scene: None,
            next_game: None,
            exit: false,
        } && spec_frame(f, input) == f),
        (f.scene == SceneState::InGame && !input.space_just_pressed) ==> spec_frame(f, input).game
            == f.game,
        (f.scene == SceneState::InGame && input.space_just_pressed) ==> spec_frame(f, input).game
            != f.game,
        (f.scene == SceneState::InGame && !input.escape_just_pressed) ==> spec_frame(f, input).scene
            == f.scene,
        (f.scene == SceneState::InGame && f.game == GameState::Playing) ==> spec_frame(f, input).scene
            == SceneState::InGame,
{
}

} // verus!
