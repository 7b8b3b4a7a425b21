//! What a button remembers between frames: whether the pointer is over it,
//! and whether it was pressed, clicked or released on it.
use vstd::prelude::*;
use crate::ui::widgets::Action;

verus! {

/// The pointer state of a button.
#[derive(Debug, Clone, Copy, PartialEq, Eq)]
pub struct ButtonState {
    pub hover: bool,
    pub clicked: bool,
    pub pressed: bool,
    pub released: bool,
}

/// One frame of a button: `hovered` is whether the pointer is over it,
/// `down_now` whether the main button went down in this frame, `up_now`
/// whether it came up. A press counts when it starts on the button; a
/// release counts when a press that started on the button ends on it.
pub open spec fn button_step(s: ButtonState, hovered: bool, down_now: bool, up_now: bool) -> ButtonState {
    let pressed = if down_now { hovered } else { s.pressed };
    ButtonState {
        hover: hovered,
        clicked: down_now && hovered,
        pressed: if up_now { false } else { pressed },
        released: up_now && pressed && hovered,
    }
}

impl ButtonState {
    /// Nothing pressed, the pointer elsewhere.
    pub fn new() -> (s: ButtonState)
        ensures
            s == (ButtonState { hover: false, clicked: false, pressed: false, released: false }),
    {
        ButtonState { hover: false, clicked: false, pressed: false, released: false }
    }

    /// Updates the state for one frame.
    pub fn process(&mut self, hovered: bool, down_now: bool, up_now: bool)
        ensures
            *final(self) == button_step(*old(self), hovered, down_now, up_now),
    {
        self.hover = hovered;
        if down_now {
            self.pressed = hovered;
            self.clicked = hovered;
        } else {
            self.clicked = false;
        }
        if up_now {
            self.released = self.pressed && hovered;
            self.pressed = false;
        } else {
            self.released = false;
        }
    }

    /// Whether a click on the button ended in this frame.
    pub fn is_released(&self) -> (r: bool)
        ensures
            r == self.released,
    {
        self.released
    }
}

impl Action for ButtonState {
    fn is_clicked(&self) -> (r: bool)
        ensures
            r == self.clicked,
    {
        self.clicked
    }

    fn is_hovered(&self) -> (r: bool)
        ensures
            r == self.hover,
    {
        self.hover
    }
}

/// A button is released only after a press that started on it: a release
/// right after a press that started elsewhere does not count.
pub proof fn law_release_needs_press_on_button(s: ButtonState, hovered: bool)
    ensures
        !button_step(button_step(s, false, true, false), hovered, false, true).released,
        button_step(button_step(s, true, true, false), true, false, true).released,
{
}

/// A button is clicked in a frame exactly when the main button goes down
/// while the pointer is over it: a press elsewhere is no click, and a frame
/// without a press is none either.
pub proof fn law_click_needs_press_over_button(s: ButtonState, hovered: bool, down_now: bool, up_now: bool)
    ensures
        button_step(s, hovered, down_now, up_now).clicked ==> hovered && down_now,
        hovered && down_now ==> button_step(s, hovered, down_now, up_now).clicked,
        button_step(s, hovered, down_now, up_now).hover == hovered,
{
}

} // verus!
