//! The settings of an in-program window: its id, where it first appears,
//! its size, and which parts it shows.
use vstd::prelude::*;

verus! {

pub struct WindowView<V> {
    pub id: u64,
    pub position: V,
    pub size: V,
    pub close_button: bool,
    pub movable: bool,
    pub titlebar: bool,
    pub label: Option<Seq<char>>,
}

/// The settings of a window, with positions and sizes of type `V`.
#[derive(Debug, Clone)]
pub struct Window<V> {
    id: u64,
    position: V,
    size: V,
    close_button: bool,
    movable: bool,
    titlebar: bool,
    label: Option<String>,
}

impl<V> View for Window<V> {
    type V = WindowView<V>;

    closed spec fn view(&self) -> WindowView<V> {
        WindowView {
            id: self.id,
            position: self.position,
            size: self.size,
            close_button: self.close_button,
            movable: self.movable,
            titlebar: self.titlebar,
            label: match self.label {
                Some(l) => Some(l@),
                None => None,
            },
        }
    }
}

impl<V> Window<V> {
    /// A window: movable, with a title bar, no close button and no title.
    /// The position counts only when the window first appears; the size
    /// always.
    pub fn new(id: u64, position: V, size: V) -> (w: Window<V>)
        ensures
            w@ == (WindowView {
                id: id,
                position: position,
                size: size,
                close_button: false,
                movable: true,
                titlebar: true,
                label: None,
            }),
    {
        Window { id, position, size, close_button: false, movable: true, titlebar: true, label: None }
    }

    /// The title shown in the title bar.
    pub fn label(self, label: &str) -> (w: Window<V>)
        ensures
            w@ == (WindowView { label: Some(label@), ..self@ }),
    {
        Window { label: Some(label.to_owned()), ..self }
    }

    /// Whether the user can drag the window (only the first setting counts).
    pub fn movable(self, movable: bool) -> (w: Window<V>)
        ensures
            w@ == (WindowView { movable: movable, ..self@ }),
    {
        Window { movable, ..self }
    }

    /// Whether the window shows a close button.
    pub fn close_button(self, close_button: bool) -> (w: Window<V>)
        ensures
            w@ == (WindowView { close_button: close_button, ..self@ }),
    {
        Window { close_button, ..self }
    }

    /// Whether the window shows a title bar.
    pub fn titlebar(self, titlebar: bool) -> (w: Window<V>)
        ensures
            w@ == (WindowView { titlebar: titlebar, ..self@ }),
    {
        Window { titlebar, ..self }
    }

    pub fn id(&self) -> (r: u64)
        ensures
            r == self@.id,
    {
        self.id
    }

    pub fn position(&self) -> (r: &V)
        ensures
            *r == self@.position,
    {
        &self.position
    }

    pub fn size(&self) -> (r: &V)
        ensures
            *r == self@.size,
    {
        &self.size
    }

    pub fn has_close_button(&self) -> (r: bool)
        ensures
            r == self@.close_button,
    {
        self.close_button
    }

    pub fn is_movable(&self) -> (r: bool)
        ensures
            r == self@.movable,
    {
        self.movable
    }

    pub fn has_titlebar(&self) -> (r: bool)
        ensures
            r == self@.titlebar,
    {
        self.titlebar
    }

    pub fn title(&self) -> (r: Option<&String>)
        ensures
            match r {
                Some(l) => self@.label == Some(l@),
                None => self@.label is None,
            },
    {
        match &self.label {
            Some(l) => Some(l),
            None => None,
        }
    }
}

} // verus!
