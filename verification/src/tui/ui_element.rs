use vstd::prelude::*;

verus! {

/// Directions for passing a focus.
#[derive(Debug, Clone, Copy, PartialEq, Eq, Structural)]
pub enum PassFocusDirection {
    /// Do not offer the focus to any element (unfocus).
    Away,
    /// No specific direction for passing focus (useful for the TAB key).
    Forward,
    /// Pass focus upwards.
    Up,
    /// Pass focus downwards.
    Down,
    /// Pass focus leftwards.
    Left,
    /// Pass focus rightwards.
    Right,
}

/// The status of handling an input event on an element.
#[derive(Debug, Clone, Copy, PartialEq, Eq)]
pub enum HandleEventStatus {
    /// The event is handled and should not be passed to any other element.
    Handled,
    /// The event remains unhandled and may be passed onto other elements.
    Unhandled,
    /// The event is handled and the element asks that its focus be taken away and offered to
    /// another element, from the given location and in the given direction.
    PassFocus((u16, u16), PassFocusDirection),
}

impl HandleEventStatus {
    /// This status, or, if the event remained unhandled, the status `f` gives.
    pub fn or_else<F: FnOnce() -> Self>(self, f: F) -> (r: Self)
        requires
            self is Unhandled ==> call_requires(f, ()),
        ensures
            self is Unhandled ==> call_ensures(f, (), r),
            !(self is Unhandled) ==> r == self,
    {
        match self {
            HandleEventStatus::Unhandled => f(),
            other => other,
        }
    }
}

/// An element that asks for a size before being resized: given the space available, it
/// answers with the size it wants.
pub trait AutosizeUIElement {
    /// The size the element asks for when offered `width` by `height`.
    spec fn asked_size(&self, width: u16, height: u16) -> (u16, u16);

    /// Offers the element the space available, and answers the size it asks for.
    fn begin_resize(&mut self, width: u16, height: u16) -> (size: (u16, u16))
        ensures
            size == old(self).asked_size(width, height),
    ;
}

/// The keys the interface reacts to; any other key is `Other`.
#[derive(Debug, Clone, Copy, PartialEq, Eq, Structural)]
pub enum KeyCode {
    Up,
    Down,
    Left,
    Right,
    PageUp,
    PageDown,
    Home,
    End,
    Tab,
    BackTab,
    Esc,
    Enter,
    Backspace,
    Delete,
    Char(char),
    Other,
}

/// A key press or release, with the state of the SHIFT and CONTROL modifiers.
#[derive(Debug, Clone, Copy, PartialEq, Eq, Structural)]
pub struct KeyInput {
    pub code: KeyCode,
    pub is_release: bool,
    pub shift: bool,
    pub control: bool,
}

/// The kinds of mouse events the interface reacts to; any other is `Other`.
#[derive(Debug, Clone, Copy, PartialEq, Eq, Structural)]
pub enum MouseKind {
    ScrollUp,
    ScrollDown,
    Other,
}

/// A mouse event, with the state of the SHIFT modifier.
#[derive(Debug, Clone, Copy, PartialEq, Eq, Structural)]
pub struct MouseInput {
    pub kind: MouseKind,
    pub shift: bool,
}

} // verus!
