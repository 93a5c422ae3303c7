//! The flow of a Pong match: its state, the state switch asked for this
//! frame, the score, whether the ball has touched a bar since the last
//! serve, and which overlays are shown.
//!
//! A switch asked for during a frame takes effect at the start of the next
//! frame ([`PongMatch::apply_transition`]): the hooks of the state left run
//! first, then those of the state entered, as the engine's state machine
//! does. Entering `Ended` resets the round and asks for `Paused`.
use vstd::prelude::*;
use crate::interaction::{ButtonFeedback, Interaction, button_feedback, spec_button_feedback};
use crate::pong::score::{Score, Side, spec_award, spec_can_award};

verus! {

/// Speed of the ball, in world units per second, once it has touched a bar.
pub const BALL_SPEED: u32 = 1500;

/// The states of a Pong match.
#[derive(Clone, Copy, Debug, PartialEq, Eq, Structural)]
pub enum GameState {
    Paused,
    InGame,
    Ended,
    MainMenu,
}

/// What pressing Space asks for: the two play states swap, any other state
/// asks to be entered again.
pub open spec fn spec_toggled(s: GameState) -> GameState {
    match s {
        GameState::Paused => GameState::InGame,
        GameState::InGame => GameState::Paused,
        other => other,
    }
}

/// The state that Space asks for, if it was pressed this frame.
pub fn toggle_pause(current: GameState, space_just_pressed: bool) -> (next: Option<GameState>)
    ensures
        next == (if space_just_pressed { Some(spec_toggled(current)) } else { None::<GameState> }),
{
    if space_just_pressed {
        Some(
            match current {
                GameState::Paused => GameState::InGame,
                GameState::InGame => GameState::Paused,
                other => other,
            },
        )
    } else {
        None
    }
}

/// The ball's speed: half speed until it first touches a bar after a serve,
/// full speed from then on.
pub open spec fn spec_ball_speed(hit_bar: bool) -> u32 {
    if hit_bar { BALL_SPEED } else { (BALL_SPEED / 2) as u32 }
}

/// Everything a Pong match decides, as plain values.
pub struct MatchView {
    pub state: GameState,
    pub next: Option<GameState>,
    pub score: Score,
    pub ball_hit_bar: bool,
    pub pause_text_visible: bool,
    pub main_menu_visible: bool,
}

/// The overlays follow the state: the pause text shows exactly while
/// paused, the main menu exactly while in the main menu.
pub open spec fn spec_overlays_follow_state(v: MatchView) -> bool {
    &&& v.pause_text_visible == (v.state == GameState::Paused)
    &&& v.main_menu_visible == (v.state == GameState::MainMenu)
}

/// A match as it starts: in the main menu, nothing asked for, no points,
/// a fresh serve, the pause text hidden and the menu shown.
pub open spec fn spec_new_match() -> MatchView {
    MatchView {
        state: GameState::MainMenu,
        next: None,
        score: Score { p1: 0, p2: 0 },
        ball_hit_bar: false,
        pause_text_visible: false,
        main_menu_visible: true,
    }
}

/// The hooks run when `v.state` is left for `n`: leaving `Paused` hides the
/// pause text, leaving `MainMenu` hides the menu; entering `Paused` shows
/// the pause text, entering `MainMenu` shows the menu, and entering `Ended`
/// resets the round (the ball has touched no bar) and asks for `Paused`.
pub open spec fn spec_enter(v: MatchView, n: GameState) -> MatchView {
    let pause_after_exit = if v.state == GameState::Paused { false } else { v.pause_text_visible };
    let menu_after_exit = if v.state == GameState::MainMenu { false } else { v.main_menu_visible };
    MatchView {
        state: n,
        next: if n == GameState::Ended { Some(GameState::Paused) } else { None },
        score: v.score,
        ball_hit_bar: if n == GameState::Ended { false } else { v.ball_hit_bar },
        pause_text_visible: if n == GameState::Paused { true } else { pause_after_exit },
        main_menu_visible: if n == GameState::MainMenu { true } else { menu_after_exit },
    }
}

/// The start of a frame: the switch asked for, if any, takes effect.
pub open spec fn spec_apply_transition(v: MatchView) -> MatchView {
    match v.next {
        Some(n) => spec_enter(v, n),
        None => v,
    }
}

/// Space during a frame: asks for the toggled state (the system runs in
/// every state).
pub open spec fn spec_press_space(v: MatchView, space_just_pressed: bool) -> MatchView {
    if space_just_pressed {
        MatchView { next: Some(spec_toggled(v.state)), ..v }
    } else {
        v
    }
}

/// The ball left the field on `side` during a frame: while in game, the
/// player on the other side scores and `Ended` is asked for; in any other
/// state the bounds check does not run.
pub open spec fn spec_goal(v: MatchView, side: Side) -> MatchView {
    if v.state == GameState::InGame {
        MatchView { next: Some(GameState::Ended), score: spec_award(v.score, side), ..v }
    } else {
        v
    }
}

/// The ball touched a bar during a frame: while in game it is marked as
/// having hit a bar; in any other state collisions are not checked.
pub open spec fn spec_bar_hit(v: MatchView) -> MatchView {
    if v.state == GameState::InGame {
        MatchView { ball_hit_bar: true, ..v }
    } else {
        v
    }
}

/// The start button changed interaction: while in the main menu, a press
/// asks for `Paused`; in any other state the button is not looked at.
pub open spec fn spec_start_button(v: MatchView, interaction: Interaction) -> MatchView {
    if v.state == GameState::MainMenu && interaction == Interaction::Pressed {
        MatchView { next: Some(GameState::Paused), ..v }
    } else {
        v
    }
}

/// A Pong match.
pub struct PongMatch {
    state: GameState,
    next: Option<GameState>,
    score: Score,
    ball_hit_bar: bool,
    pause_text_visible: bool,
    main_menu_visible: bool,
}

impl View for PongMatch {
    type V = MatchView;

    closed spec fn view(&self) -> MatchView {
        MatchView {
            state: self.state,
            next: self.next,
            score: self.score,
            ball_hit_bar: self.ball_hit_bar,
            pause_text_visible: self.pause_text_visible,
            main_menu_visible: self.main_menu_visible,
        }
    }
}

impl PongMatch {
    /// The match's invariant: the overlays follow the state.
    pub open spec fn wf(&self) -> bool {
        spec_overlays_follow_state(self@)
    }

    /// A new match (the state, score and overlays set up at startup).
    pub fn new() -> (m: PongMatch)
        ensures
            m@ == spec_new_match(),
            m.wf(),
    {
        PongMatch {
            state: GameState::MainMenu,
            next: None,
            score: Score::new(),
            ball_hit_bar: false,
            pause_text_visible: false,
            main_menu_visible: true,
        }
    }

    /// The current state.
    pub fn state(&self) -> (s: GameState)
        ensures
            s == self@.state,
    {
        self.state
    }

    /// The switch asked for during this frame, if any.
    pub fn next_state(&self) -> (n: Option<GameState>)
        ensures
            n == self@.next,
    {
        self.next
    }

    /// The score.
    pub fn score(&self) -> (s: Score)
        ensures
            s == self@.score,
    {
        self.score
    }

    /// Whether the ball has touched a bar since the last serve.
    pub fn ball_hit_bar(&self) -> (b: bool)
        ensures
            b == self@.ball_hit_bar,
    {
        self.ball_hit_bar
    }

    /// Whether the pause text is shown.
    pub fn pause_text_visible(&self) -> (b: bool)
        ensures
            b == self@.pause_text_visible,
    {
        self.pause_text_visible
    }

    /// Whether the main menu is shown.
    pub fn main_menu_visible(&self) -> (b: bool)
        ensures
            b == self@.main_menu_visible,
    {
        self.main_menu_visible
    }

    /// The ball's speed in world units per second.
    pub fn ball_speed(&self) -> (speed: u32)
        ensures
            speed == spec_ball_speed(self@.ball_hit_bar),
    {
        if self.ball_hit_bar { BALL_SPEED } else { BALL_SPEED / 2 }
    }

    /// Whether the gameplay systems (bar input, movement, bar clamping,
    /// collisions, ball bounds) run this frame: only while in game.
    pub fn gameplay_runs(&self) -> (b: bool)
        ensures
            b == (self@.state == GameState::InGame),
    {
        self.state == GameState::InGame
    }

    /// Start of a frame: the switch asked for takes effect, running the
    /// exit hooks of the state left and the enter hooks of the state
    /// entered. Returns the state entered, if any.
    pub fn apply_transition(&mut self) -> (entered: Option<GameState>)
        requires
            old(self).wf(),
        ensures
            final(self)@ == spec_apply_transition(old(self)@),
            final(self).wf(),
            entered == old(self)@.next,
    {
        match self.next {
            Some(n) => {
                if self.state == GameState::Paused {
                    self.pause_text_visible = false;
                }
                if self.state == GameState::MainMenu {
                    self.main_menu_visible = false;
                }
                self.state = n;
                self.next = None;
                match n {
                    GameState::Paused => {
                        self.pause_text_visible = true;
                    },
                    GameState::MainMenu => {
                        self.main_menu_visible = true;
                    },
                    GameState::Ended => {
                        self.ball_hit_bar = false;
                        self.next = Some(GameState::Paused);
                    },
                    GameState::InGame => {},
                }
                Some(n)
            },
            None => None,
        }
    }

    /// Space handling of a frame.
    pub fn press_space(&mut self, space_just_pressed: bool)
        requires
            old(self).wf(),
        ensures
            final(self)@ == spec_press_space(old(self)@, space_just_pressed),
            final(self).wf(),
            final(self)@.state == old(self)@.state,
            final(self)@.score == old(self)@.score,
            final(self)@.ball_hit_bar == old(self)@.ball_hit_bar,
            final(self)@.pause_text_visible == old(self)@.pause_text_visible,
            final(self)@.main_menu_visible == old(self)@.main_menu_visible,
            !space_just_pressed ==> final(self)@.next == old(self)@.next,
            space_just_pressed && old(self)@.state == GameState::Paused ==> final(self)@.next == Some(
                GameState::InGame,
            ),
            space_just_pressed && old(self)@.state == GameState::InGame ==> final(self)@.next == Some(
                GameState::Paused,
            ),
    {
        if let Some(n) = toggle_pause(self.state, space_just_pressed) {
            self.next = Some(n);
        }
    }

    /// The ball left the field on `side` this frame.
    pub fn goal(&mut self, side: Side)
        requires
            old(self).wf(),
            old(self)@.state == GameState::InGame ==> spec_can_award(old(self)@.score, side),
        ensures
            final(self)@ == spec_goal(old(self)@, side),
            final(self).wf(),
            final(self)@.state == old(self)@.state,
            final(self)@.ball_hit_bar == old(self)@.ball_hit_bar,
            final(self)@.pause_text_visible == old(self)@.pause_text_visible,
            final(self)@.main_menu_visible == old(self)@.main_menu_visible,
            old(self)@.state != GameState::InGame ==> final(self)@ == old(self)@,
    {
        if self.state == GameState::InGame {
            self.next = Some(GameState::Ended);
            self.score.award(side);
        }
    }

    /// The ball touched a bar this frame. Returns whether its speed changed.
    pub fn bar_hit(&mut self) -> (sped_up: bool)
        requires
            old(self).wf(),
        ensures
            final(self)@ == spec_bar_hit(old(self)@),
            final(self).wf(),
            final(self)@.state == old(self)@.state,
            final(self)@.next == old(self)@.next,
            final(self)@.score == old(self)@.score,
            final(self)@.pause_text_visible == old(self)@.pause_text_visible,
            final(self)@.main_menu_visible == old(self)@.main_menu_visible,
            final(self)@.ball_hit_bar == (old(self)@.ball_hit_bar || old(self)@.state
                == GameState::InGame),
            sped_up == (old(self)@.state == GameState::InGame && !old(self)@.ball_hit_bar),
    {
        if self.state == GameState::InGame {
            if !self.ball_hit_bar {
                self.ball_hit_bar = true;
                return true;
            }
        }
        false
    }

    /// The start button's interaction changed this frame. While in the main
    /// menu, returns how the button shows it (a press also asks for
    /// `Paused`); otherwise the button system does not run.
    pub fn start_button(&mut self, interaction: Interaction) -> (feedback: Option<ButtonFeedback>)
        requires
            old(self).wf(),
        ensures
            final(self)@ == spec_start_button(old(self)@, interaction),
            final(self).wf(),
            final(self)@.state == old(self)@.state,
            final(self)@.score == old(self)@.score,
            final(self)@.ball_hit_bar == old(self)@.ball_hit_bar,
            final(self)@.pause_text_visible == old(self)@.pause_text_visible,
            final(self)@.main_menu_visible == old(self)@.main_menu_visible,
            final(self)@.next == (if old(self)@.state == GameState::MainMenu && interaction
                == Interaction::Pressed {
                Some(GameState::Paused)
            } else {
                old(self)@.next
            }),
            feedback == (if old(self)@.state == GameState::MainMenu {
                Some(spec_button_feedback(interaction))
            } else {
                None::<ButtonFeedback>
            }),
    {
        if self.state == GameState::MainMenu {
            if interaction == Interaction::Pressed {
                self.next = Some(GameState::Paused);
            }
            Some(button_feedback(interaction))
        } else {
            None
        }
    }
}


/// One thing that can happen to a match.
#[derive(Clone, Copy, Debug, PartialEq, Eq, Structural)]
pub enum MatchEvent {
    /// The start of a frame, where the switch asked for takes effect.
    Transition,
    /// Space handling, with whether Space was just pressed.
    Space(bool),
    /// The ball left the field on the given side.
    Goal(Side),
    /// The ball touched a bar.
    BarHit,
    /// The start button changed to the given interaction.
    StartButton(Interaction),
}

/// The match after `e`.
pub open spec fn spec_step(v: MatchView, e: MatchEvent) -> MatchView {
    match e {
        MatchEvent::Transition => spec_apply_transition(v),
        MatchEvent::Space(pressed) => spec_press_space(v, pressed),
        MatchEvent::Goal(side) => spec_goal(v, side),
        MatchEvent::BarHit => spec_bar_hit(v),
        MatchEvent::StartButton(interaction) => spec_start_button(v, interaction),
    }
}

/// The overlays follow the state in every match: a new match has it, and
/// every event keeps it. The pause text shows exactly while paused and the
/// main menu exactly while in the main menu.
pub proof fn lemma_overlays_follow_state(v: MatchView, e: MatchEvent)
    requires
        spec_overlays_follow_state(v),
    ensures
        spec_overlays_follow_state(spec_new_match()),
        spec_overlays_follow_state(spec_step(v, e)),
{
}

/// A goal while in game ends the round: one frame later the match is
/// `Ended` with the point counted, and one more frame later it is paused,
/// with the pause text shown, nothing more asked for, and a fresh serve at
/// half speed.
pub proof fn lemma_goal_then_serve(v: MatchView, side: Side)
    requires
        spec_overlays_follow_state(v),
        v.state == GameState::InGame,
    ensures
        spec_apply_transition(spec_goal(v, side)).state == GameState::Ended,
        ({
            let w = spec_apply_transition(spec_apply_transition(spec_goal(v, side)));
            &&& w.state == GameState::Paused
            &&& w.next == None::<GameState>
            &&& w.score == spec_award(v.score, side)
            &&& !w.ball_hit_bar
            &&& spec_ball_speed(w.ball_hit_bar) == BALL_SPEED / 2
            &&& w.pause_text_visible
            &&& !w.main_menu_visible
        }),
{
}

/// Pressing Space twice, each press taking effect before the next, brings a
/// running or paused match with nothing asked for back to where it was.
pub proof fn lemma_pause_round_trip(v: MatchView)
    requires
        spec_overlays_follow_state(v),
        v.state == GameState::InGame || v.state == GameState::Paused,
        v.next == None::<GameState>,
    ensures
        spec_apply_transition(spec_press_space(v, true)).state == spec_toggled(v.state),
        spec_apply_transition(
            spec_press_space(spec_apply_transition(spec_press_space(v, true)), true),
        ) == v,
{
}

/// The main menu is left only through a press of the start button, and
/// that press leads to the paused state.
pub proof fn lemma_menu_left_only_by_start(v: MatchView, e: MatchEvent)
    requires
        v.state == GameState::MainMenu,
        v.next == None::<GameState> || v.next == Some(GameState::MainMenu),
    ensures
        e != MatchEvent::StartButton(Interaction::Pressed) ==> ({
            let w = spec_step(v, e);
            w.state == GameState::MainMenu && (w.next == None::<GameState> || w.next == Some(
                GameState::MainMenu,
            ))
        }),
        spec_apply_transition(spec_step(v, MatchEvent::StartButton(Interaction::Pressed))).state
            == GameState::Paused,
{
}

/// Once the ball has touched a bar while in game, it plays at full speed
/// until the next goal resets the round.
pub proof fn lemma_bar_hit_full_speed(v: MatchView)
    requires
        v.state == GameState::InGame,
    ensures
        spec_ball_speed(spec_bar_hit(v).ball_hit_bar) == BALL_SPEED,
        spec_bar_hit(spec_bar_hit(v)) == spec_bar_hit(v),
{
}

/// The score changes only by a goal while in game, and then by exactly
/// the point for that goal.
pub proof fn lemma_score_changes_only_by_goals(v: MatchView, e: MatchEvent)
    ensures
        spec_step(v, e).score != v.score ==> (v.state == GameState::InGame && exists|side: Side|
            e == MatchEvent::Goal(side) && spec_step(v, e).score == spec_award(v.score, side)),
{
    if spec_step(v, e).score != v.score {
        match e {
            MatchEvent::Goal(side) => {
                assert(e == MatchEvent::Goal(side));
            },
            _ => {},
        }
    }
}

/// Two match views agree on everything but the switch asked for.
pub open spec fn spec_same_but_next(a: MatchView, b: MatchView) -> bool {
    &&& a.state == b.state
    &&& a.score == b.score
    &&& a.ball_hit_bar == b.ball_hit_bar
    &&& a.pause_text_visible == b.pause_text_visible
    &&& a.main_menu_visible == b.main_menu_visible
}

/// A bar hit only marks the ball as having touched a bar, and only while in
/// game: the state, the switch asked for, the score and the overlays stay as
/// they were, so play goes on. In game the ball is then at full speed.
pub proof fn lemma_bar_hit_only_marks_ball(v: MatchView)
    ensures
        spec_same_but_next(spec_bar_hit(v), MatchView { ball_hit_bar: spec_bar_hit(v).ball_hit_bar, ..v }),
        spec_bar_hit(v).next == v.next,
        spec_bar_hit(v).state == v.state,
        spec_bar_hit(v).ball_hit_bar == (v.ball_hit_bar || v.state == GameState::InGame),
        v.state == GameState::InGame ==> spec_ball_speed(spec_bar_hit(v).ball_hit_bar) == BALL_SPEED,
        v.state != GameState::InGame ==> spec_bar_hit(v) == v,
        v.state == GameState::InGame && v.next == None::<GameState> ==> spec_apply_transition(
            spec_bar_hit(v),
        ).state == GameState::InGame,
{
}

/// A frame without Space asks for nothing and changes nothing, in every
/// state; a frame with Space changes only the switch asked for: from paused
/// it asks for the game, from the game it asks for the pause, and any other
/// state asks to be entered again.
pub proof fn lemma_space_only_when_pressed(v: MatchView)
    ensures
        spec_press_space(v, false) == v,
        spec_same_but_next(spec_press_space(v, true), v),
        v.state == GameState::Paused ==> spec_press_space(v, true).next == Some(GameState::InGame),
        v.state == GameState::InGame ==> spec_press_space(v, true).next == Some(GameState::Paused),
        v.state == GameState::Ended ==> spec_press_space(v, true).next == Some(GameState::Ended),
        v.state == GameState::MainMenu ==> spec_press_space(v, true).next == Some(
            GameState::MainMenu,
        ),
        v.state == GameState::Paused && v.next == None::<GameState> ==> spec_apply_transition(
            spec_press_space(v, false),
        ) == v,
{
}

/// The start button changes nothing but the switch asked for, and that
/// only for a press in the main menu, which asks for the pause; hovering or
/// leaving it, or anything outside the main menu, leaves the match as it
/// was. In particular the ball's speed is untouched.
pub proof fn lemma_start_button_only_asks(v: MatchView, interaction: Interaction)
    ensures
        spec_same_but_next(spec_start_button(v, interaction), v),
        spec_ball_speed(spec_start_button(v, interaction).ball_hit_bar) == spec_ball_speed(
            v.ball_hit_bar,
        ),
        (v.state == GameState::MainMenu && interaction == Interaction::Pressed) ==> spec_start_button(
            v,
            interaction,
        ).next == Some(GameState::Paused),
        !(v.state == GameState::MainMenu && interaction == Interaction::Pressed) ==> spec_start_button(
            v,
            interaction,
        ) == v,
{
}

/// A goal changes only the score and the switch asked for: in game the
/// player opposite the exit side gains one point and `Ended` is asked for;
/// outside the game nothing changes.
pub proof fn lemma_goal_only_scores(v: MatchView, side: Side)
    ensures
        spec_same_but_next(
            spec_goal(v, side),
            MatchView { score: spec_goal(v, side).score, ..v },
        ),
        v.state == GameState::InGame ==> spec_goal(v, side).next == Some(GameState::Ended),
        v.state == GameState::InGame && side == Side::Right && spec_can_award(v.score, side) ==> spec_goal(v, side).score.p1 == v.score.p1 + 1
            && spec_goal(v, side).score.p2 == v.score.p2,
        v.state == GameState::InGame && side == Side::Left && spec_can_award(v.score, side) ==> spec_goal(v, side).score.p2 == v.score.p2 + 1
            && spec_goal(v, side).score.p1 == v.score.p1,
        v.state != GameState::InGame ==> spec_goal(v, side) == v,
{
}

/// A frame's start with nothing asked for changes nothing; whatever is
/// asked for, the score stays and the state entered is the one asked for.
/// Only entering `Ended` resets the ball and asks for something more (the
/// pause); entering any other state leaves nothing asked for.
pub proof fn lemma_transition_keeps_score(v: MatchView)
    ensures
        v.next == None::<GameState> ==> spec_apply_transition(v) == v,
        spec_apply_transition(v).score == v.score,
        v.next matches Some(n) ==> spec_apply_transition(v).state == n,
        v.next matches Some(n) ==> (n != GameState::Ended ==> spec_apply_transition(v).ball_hit_bar
            == v.ball_hit_bar),
        v.next matches Some(n) ==> (n != GameState::Ended ==> spec_apply_transition(v).next
            == None::<GameState>),
        v.next == Some(GameState::Ended) ==> (spec_apply_transition(v).next == Some(GameState::Paused)
            && !spec_apply_transition(v).ball_hit_bar),
{
}

} // verus!
