//! What a toggle remembers between frames: whether it is on, whether the
//! pointer is over it, and whether it was clicked in this frame.
use vstd::prelude::*;
use crate::ui::widgets::Action;

verus! {

/// The state of a toggle.
#[derive(Debug, Clone, Copy, PartialEq, Eq)]
pub struct ToggleState {
    pub hover: bool,
    pub toggle: bool,
    pub just_clicked: bool,
}

/// One frame of a toggle: a press of the main button on it flips it.
pub open spec fn toggle_step(s: ToggleState, hovered: bool, down_now: bool) -> ToggleState {
    let clicked = hovered && down_now;
    ToggleState { hover: hovered, just_clicked: clicked, toggle: if clicked { !s.toggle } else { s.toggle } }
}

impl ToggleState {
    /// Off, the pointer elsewhere.
    pub fn new() -> (s: ToggleState)
        ensures
            s == (ToggleState { hover: false, toggle: false, just_clicked: false }),
    {
        ToggleState { hover: false, toggle: false, just_clicked: false }
    }

    /// Updates the state for one frame.
    pub fn process(&mut self, hovered: bool, down_now: bool)
        ensures
            *final(self) == toggle_step(*old(self), hovered, down_now),
    {
        self.hover = hovered;
        self.just_clicked = self.hover && down_now;
        self.toggle = if self.just_clicked { !self.toggle } else { self.toggle };
    }

    /// Whether the toggle is on.
    pub fn is_on(&self) -> (r: bool)
        ensures
            r == self.toggle,
    {
        self.toggle
    }
}

impl Action for ToggleState {
    fn is_clicked(&self) -> (r: bool)
        ensures
            r == self.just_clicked,
    {
        self.just_clicked
    }

    fn is_hovered(&self) -> (r: bool)
        ensures
            r == self.hover,
    {
        self.hover
    }
}

/// Two clicks on a toggle bring it back to where it was.
pub proof fn law_two_clicks_restore(s: ToggleState)
    ensures
        toggle_step(toggle_step(s, true, true), true, true).toggle == s.toggle,
{
}

/// A toggle flips exactly in the frames where the main button goes down
/// while the pointer is over it, and keeps its state otherwise.
pub proof fn law_toggle_flips_on_press_over_it(s: ToggleState, hovered: bool, down_now: bool)
    ensures
        toggle_step(s, hovered, down_now).toggle != s.toggle <==> hovered && down_now,
        toggle_step(s, hovered, down_now).just_clicked <==> hovered && down_now,
{
}

} // verus!
