pub mod button;
pub mod text_input;
pub mod toggle;
pub mod window;

use vstd::prelude::*;

verus! {

/// What can be asked of a widget that reacts to the pointer.
pub trait Action {
    /// Whether the widget was clicked in this frame.
    fn is_clicked(&self) -> bool;

    /// Whether the pointer is over the widget.
    fn is_hovered(&self) -> bool;
}

} // verus!
