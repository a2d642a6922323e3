use vstd::prelude::*;

verus! {

/// The interaction state of the button, as the UI reports it.
#[derive(Clone, Copy, Debug, PartialEq, Eq, Structural)]
pub enum Interaction {
    Idle,
    Hovered,
    Pressed,
}

/// The colour shown by the button.
#[derive(Clone, Copy, Debug, PartialEq, Eq, Structural)]
pub enum ButtonColor {
    Normal,
    Hovered,
    Pressed,
}

/// The colour that goes with each interaction state.
pub open spec fn color_of(i: Interaction) -> ButtonColor {
    match i {
        Interaction::Idle => ButtonColor::Normal,
        Interaction::Hovered => ButtonColor::Hovered,
        Interaction::Pressed => ButtonColor::Pressed,
    }
}

/// Picks the button's colour for an interaction state.
pub fn button_color(i: Interaction) -> (r: ButtonColor)
    ensures
        r == color_of(i),
        i == Interaction::Idle ==> r == ButtonColor::Normal,
        i == Interaction::Hovered ==> r == ButtonColor::Hovered,
        i == Interaction::Pressed ==> r == ButtonColor::Pressed,
{
    match i {
        Interaction::Idle => ButtonColor::Normal,
        Interaction::Hovered => ButtonColor::Hovered,
        Interaction::Pressed => ButtonColor::Pressed,
    }
}

} // verus!
