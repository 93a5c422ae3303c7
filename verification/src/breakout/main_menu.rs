//! The main menu of Breakout: its two buttons and what they do.
use vstd::prelude::*;
use crate::interaction::{ButtonFeedback, Interaction, button_feedback, spec_button_feedback};

verus! {

/// The buttons of the main menu.
#[derive(Clone, Copy, Debug, PartialEq, Eq, Structural)]
pub enum ButtonType {
    Start,
    Exit,
}

/// What a button asks of the game.
#[derive(Clone, Copy, Debug, PartialEq, Eq, Structural)]
pub enum MenuCommand {
    NoCommand,
    /// Go into the game, paused.
    StartGame,
    /// Exit the application.
    ExitApp,
}

/// A press of Start starts the game, a press of Exit exits; hovering or
/// leaving a button asks for nothing.
pub open spec fn spec_menu_command(interaction: Interaction, button: ButtonType) -> MenuCommand {
    if interaction == Interaction::Pressed {
        match button {
            ButtonType::Start => MenuCommand::StartGame,
            ButtonType::Exit => MenuCommand::ExitApp,
        }
    } else {
        MenuCommand::NoCommand
    }
}

/// How a button of the main menu answers a change of interaction, and
/// what it asks of the game.
pub fn button_system(interaction: Interaction, button: ButtonType) -> (answer: (
    ButtonFeedback,
    MenuCommand,
))
    ensures
        answer.0 == spec_button_feedback(interaction),
        answer.1 == spec_menu_command(interaction, button),
{
    let feedback = button_feedback(interaction);
    let command = match interaction {
        Interaction::Pressed => match button {
            ButtonType::Start => MenuCommand::StartGame,
            ButtonType::Exit => MenuCommand::ExitApp,
        },
        _ => MenuCommand::NoCommand,
    };
    (feedback, command)
}

/// Only a press gives a command: Start starts the game and Exit exits;
/// hovering or leaving a button gives none.
pub proof fn lemma_only_presses_command(interaction: Interaction, button: ButtonType)
    ensures
        (spec_menu_command(interaction, button) != MenuCommand::NoCommand) == (interaction
            == Interaction::Pressed),
        (spec_menu_command(interaction, button) == MenuCommand::StartGame) == (interaction
            == Interaction::Pressed && button == ButtonType::Start),
        (spec_menu_command(interaction, button) == MenuCommand::ExitApp) == (interaction
            == Interaction::Pressed && button == ButtonType::Exit),
{
}

} // verus!
