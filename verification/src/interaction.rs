//! How a menu button answers a change of its interaction state; both games'
//! menus share it.
use vstd::prelude::*;

verus! {

/// The interaction state of a button, as the UI reports it when it changes.
#[derive(Clone, Copy, Debug, PartialEq, Eq, Structural)]
pub enum Interaction {
    Pressed,
    Hovered,
    Idle,
}

/// What happens to the input focus.
#[derive(Clone, Copy, Debug, PartialEq, Eq, Structural)]
pub enum FocusChange {
    /// The button takes the focus.
    Focus,
    /// No element has the focus.
    Clear,
}

/// Which of its three looks the button takes (background, border, text).
#[derive(Clone, Copy, Debug, PartialEq, Eq, Structural)]
pub enum ButtonStyle {
    Normal,
    Hover,
    Press,
}

/// How a button answers a change of interaction.
#[derive(Clone, Copy, Debug, PartialEq, Eq, Structural)]
pub struct ButtonFeedback {
    pub focus: FocusChange,
    pub style: ButtonStyle,
    /// Whether the button is marked as changed for the UI.
    pub mark_changed: bool,
}

/// Pressed and hovered buttons take the focus, are marked changed and show
/// the press or hover look; an idle button clears the focus and shows the
/// normal look.
pub open spec fn spec_button_feedback(interaction: Interaction) -> ButtonFeedback {
    match interaction {
        Interaction::Pressed => ButtonFeedback {
            focus: FocusChange::Focus,
            style: ButtonStyle::Press,
            mark_changed: true,
        },
        Interaction::Hovered => ButtonFeedback {
            focus: FocusChange::Focus,
            style: ButtonStyle::Hover,
            mark_changed: true,
        },
        Interaction::Idle => ButtonFeedback {
            focus: FocusChange::Clear,
            style: ButtonStyle::Normal,
            mark_changed: false,
        },
    }
}

/// How a button answers `interaction`.
pub fn button_feedback(interaction: Interaction) -> (feedback: ButtonFeedback)
    ensures
        feedback == spec_button_feedback(interaction),
{
    match interaction {
        Interaction::Pressed => ButtonFeedback {
            focus: FocusChange::Focus,
            style: ButtonStyle::Press,
            mark_changed: true,
        },
        Interaction::Hovered => ButtonFeedback {
            focus: FocusChange::Focus,
            style: ButtonStyle::Hover,
            mark_changed: true,
        },
        Interaction::Idle => ButtonFeedback {
            focus: FocusChange::Clear,
            style: ButtonStyle::Normal,
            mark_changed: false,
        },
    }
}

/// A button takes the focus and is marked changed exactly while it is
/// pressed or hovered, and each interaction shows its own look: the press
/// look only when pressed, the hover look only when hovered.
pub proof fn lemma_feedback_by_interaction(interaction: Interaction)
    ensures
        (spec_button_feedback(interaction).focus == FocusChange::Focus) == (interaction
            != Interaction::Idle),
        spec_button_feedback(interaction).mark_changed == (interaction != Interaction::Idle),
        (spec_button_feedback(interaction).style == ButtonStyle::Press) == (interaction
            == Interaction::Pressed),
        (spec_button_feedback(interaction).style == ButtonStyle::Hover) == (interaction
            == Interaction::Hovered),
        (spec_button_feedback(interaction).style == ButtonStyle::Normal) == (interaction
            == Interaction::Idle),
{
}

} // verus!
