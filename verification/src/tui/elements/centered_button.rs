//! A button: a line of text, centered, pressed with ENTER when focused or with its shortcut
//! key at any time.

use vstd::prelude::*;

use crate::text::str_chars;
use crate::tui::elements::arrow_selector::{ascii_lower, ascii_lower_exec};
use crate::tui::elements::OnEnterResult;
use crate::tui::text_wrapper::StaticString;
use crate::tui::ui_element::{HandleEventStatus, KeyCode, KeyInput, PassFocusDirection};

verus! {

/// What pressing a button does, and what comes of it.
pub trait ButtonHandler {
    fn on_pressed(&mut self) -> OnEnterResult;
}

/// A button with a text and, possibly, a shortcut key.
pub struct CenteredButton<H: ButtonHandler> {
    text: StaticString,
    text_len_chars: u16,
    shortcut_key: Option<char>,
    pub handler: H,
    is_focused: bool,
    current_position: (u16, u16),
    current_width: u16,
}

/// The number of characters of a text, at most the largest `u16`.
pub(crate) fn len_chars_u16(s: &StaticString) -> (n: u16)
    ensures
        n == (if s@.len() < u16::MAX { s@.len() } else { u16::MAX as nat }),
{
    let v = str_chars(s.as_str());
    if v.len() < 65535 { v.len() as u16 } else { 65535 }
}

/// A shortcut key as it is kept: in ASCII lowercase.
pub open spec fn lowered_shortcut(shortcut_key: Option<char>) -> Option<char> {
    match shortcut_key {
        Some(c) => Some(ascii_lower(c)),
        None => None,
    }
}

impl<H: ButtonHandler> CenteredButton<H> {
    /// The text.
    pub closed spec fn spec_text(&self) -> Seq<char> {
        self.text@
    }

    /// The length of the text in characters, at most the largest `u16`.
    pub closed spec fn spec_text_len(&self) -> u16 {
        self.text_len_chars
    }

    /// The shortcut key, in ASCII lowercase.
    pub closed spec fn spec_shortcut(&self) -> Option<char> {
        self.shortcut_key
    }

    /// Whether the button has the focus.
    pub closed spec fn spec_focused(&self) -> bool {
        self.is_focused
    }

    /// Where the button stands: the top-left of its area.
    pub closed spec fn spec_position(&self) -> (u16, u16) {
        self.current_position
    }

    /// The width of its area.
    pub closed spec fn spec_width(&self) -> u16 {
        self.current_width
    }

    /// The length kept is that of the text.
    pub open spec fn wf(&self) -> bool {
        self.spec_text_len() == (if self.spec_text().len() < u16::MAX {
            self.spec_text().len()
        } else {
            u16::MAX as nat
        })
    }

    /// A button, unfocused, at the top-left corner; its shortcut is kept in ASCII lowercase.
    pub fn new(text: StaticString, shortcut_key: Option<char>, handler: H) -> (b: Self)
        ensures
            b.wf(),
            b.spec_text() == text@,
            b.spec_shortcut() == lowered_shortcut(shortcut_key),
            !b.spec_focused(),
            b.spec_position() == (0u16, 0u16),
            b.spec_width() == 0,
    {
        let text_len_chars = len_chars_u16(&text);
        let shortcut_key = match shortcut_key {
            Some(c) => Some(ascii_lower_exec(c)),
            None => None,
        };
        Self {
            text,
            text_len_chars,
            shortcut_key,
            handler,
            is_focused: false,
            current_position: (0, 0),
            current_width: 0,
        }
    }

    /// The text.
    pub fn text(&self) -> (s: &StaticString)
        ensures
            s@ == self.spec_text(),
    {
        &self.text
    }

    /// The handler.
    pub closed spec fn spec_handler(&self) -> H {
        self.handler
    }

    /// The handler.
    pub fn handler(&self) -> (h: &H)
        ensures
            *h == self.spec_handler(),
    {
        &self.handler
    }

    /// Replaces the handler.
    pub fn set_handler(&mut self, handler: H)
        ensures
            final(self).spec_handler() == handler,
            final(self).spec_text() == old(self).spec_text(),
            final(self).spec_text_len() == old(self).spec_text_len(),
            final(self).spec_shortcut() == old(self).spec_shortcut(),
            final(self).spec_focused() == old(self).spec_focused(),
            final(self).spec_position() == old(self).spec_position(),
            final(self).spec_width() == old(self).spec_width(),
    {
        self.handler = handler;
    }

    /// Changes the text.
    pub fn set_text_no_redraw(&mut self, text: StaticString)
        ensures
            final(self).wf(),
            final(self).spec_handler() == old(self).spec_handler(),
            final(self).spec_text() == text@,
            final(self).spec_shortcut() == old(self).spec_shortcut(),
            final(self).spec_focused() == old(self).spec_focused(),
            final(self).spec_position() == old(self).spec_position(),
            final(self).spec_width() == old(self).spec_width(),
    {
        self.text_len_chars = len_chars_u16(&text);
        self.text = text;
    }

    /// Changes the shortcut key, kept in ASCII lowercase.
    pub fn set_shortcut(&mut self, shortcut_key: Option<char>)
        ensures
            final(self).spec_handler() == old(self).spec_handler(),
            final(self).spec_shortcut() == lowered_shortcut(shortcut_key),
            final(self).spec_text() == old(self).spec_text(),
            final(self).spec_text_len() == old(self).spec_text_len(),
            final(self).spec_focused() == old(self).spec_focused(),
            final(self).spec_position() == old(self).spec_position(),
            final(self).spec_width() == old(self).spec_width(),
    {
        self.shortcut_key = match shortcut_key {
            Some(c) => Some(ascii_lower_exec(c)),
            None => None,
        };
    }

    /// Takes a new area.
    pub fn resize(&mut self, x: u16, y: u16, width: u16)
        ensures
            final(self).spec_position() == (x, y),
            final(self).spec_width() == width,
            final(self).spec_text() == old(self).spec_text(),
            final(self).spec_text_len() == old(self).spec_text_len(),
            final(self).spec_shortcut() == old(self).spec_shortcut(),
            final(self).spec_focused() == old(self).spec_focused(),
    {
        self.current_position = (x, y);
        self.current_width = width;
    }

    /// The width it asks for: its text, within what is available; one line.
    pub fn begin_resize(&self, width: u16, height: u16) -> (r: (u16, u16))
        ensures
            r == ((if width < self.spec_text_len() { width } else { self.spec_text_len() }), 1u16),
    {
        (if width < self.text_len_chars { width } else { self.text_len_chars }, 1)
    }

    /// The column where the text starts when drawn in a row `width` wide: centered.
    pub fn text_x(&self, x: u16, width: u16) -> (r: u16)
        requires
            x + width <= u16::MAX,
        ensures
            r == x + (if width > self.spec_text_len() { (width - self.spec_text_len()) / 2 } else { 0 }),
    {
        let extra: u16 = if width > self.text_len_chars { width - self.text_len_chars } else { 0 };
        x + extra / 2
    }

    /// Handles a key press. Its shortcut presses it, focused or not (any other character is
    /// left unhandled); when focused, ENTER presses it and the handler's answer decides the
    /// outcome, and the arrows, TAB and ESC pass the focus on from where it stands.
    pub fn handle_event(&mut self, key: KeyInput, is_focused: bool) -> (status: HandleEventStatus)
        ensures
            final(self).spec_text() == old(self).spec_text(),
            final(self).spec_text_len() == old(self).spec_text_len(),
            final(self).spec_shortcut() == old(self).spec_shortcut(),
            final(self).spec_focused() == old(self).spec_focused(),
            final(self).spec_position() == old(self).spec_position(),
            final(self).spec_width() == old(self).spec_width(),
            ({
                let pos = old(self).spec_position();
                if key.is_release {
                    status == HandleEventStatus::Unhandled
                } else if key.code is Char {
                    status == (if old(self).spec_shortcut() == Some(ascii_lower(key.code->Char_0)) {
                        HandleEventStatus::Handled
                    } else {
                        HandleEventStatus::Unhandled
                    })
                } else if !is_focused {
                    status == HandleEventStatus::Unhandled
                } else {
                    match key.code {
                        KeyCode::Enter => status == HandleEventStatus::Handled || status == HandleEventStatus::Unhandled
                            || (status matches HandleEventStatus::PassFocus(p, _) && p == pos),
                        KeyCode::Left => status == HandleEventStatus::PassFocus(pos, PassFocusDirection::Left),
                        KeyCode::Right => status == HandleEventStatus::PassFocus(pos, PassFocusDirection::Right),
                        KeyCode::Up => status == HandleEventStatus::PassFocus(pos, PassFocusDirection::Up),
                        KeyCode::Down => status == HandleEventStatus::PassFocus(pos, PassFocusDirection::Down),
                        KeyCode::Tab => status == HandleEventStatus::PassFocus(pos, PassFocusDirection::Forward),
                        KeyCode::Esc => status == HandleEventStatus::PassFocus(pos, PassFocusDirection::Away),
                        _ => status == HandleEventStatus::Unhandled,
                    }
                }
            }),
    {
        if key.is_release {
            return HandleEventStatus::Unhandled;
        }
        if let KeyCode::Char(c) = key.code {
            let lowered = ascii_lower_exec(c);
            let is_shortcut = match self.shortcut_key {
                Some(sk) => sk == lowered,
                None => false,
            };
            if is_shortcut {
                self.handler.on_pressed();
                return HandleEventStatus::Handled;
            }
            return HandleEventStatus::Unhandled;
        }
        if !is_focused {
            return HandleEventStatus::Unhandled;
        }
        let pos = self.current_position;
        match key.code {
            KeyCode::Enter => match self.handler.on_pressed() {
                OnEnterResult::Handled => HandleEventStatus::Handled,
                OnEnterResult::Unhandled => HandleEventStatus::Unhandled,
                OnEnterResult::PassFocus(direction) => HandleEventStatus::PassFocus(pos, direction),
            },
            KeyCode::Left => HandleEventStatus::PassFocus(pos, PassFocusDirection::Left),
            KeyCode::Right => HandleEventStatus::PassFocus(pos, PassFocusDirection::Right),
            KeyCode::Up => HandleEventStatus::PassFocus(pos, PassFocusDirection::Up),
            KeyCode::Down => HandleEventStatus::PassFocus(pos, PassFocusDirection::Down),
            KeyCode::Tab => HandleEventStatus::PassFocus(pos, PassFocusDirection::Forward),
            KeyCode::Esc => HandleEventStatus::PassFocus(pos, PassFocusDirection::Away),
            _ => HandleEventStatus::Unhandled,
        }
    }

    /// Takes the focus; a button always does.
    pub fn receive_focus(&mut self, focus_position: (u16, u16)) -> (accepted: bool)
        ensures
            accepted,
            final(self).spec_focused(),
            final(self).spec_text() == old(self).spec_text(),
            final(self).spec_text_len() == old(self).spec_text_len(),
            final(self).spec_shortcut() == old(self).spec_shortcut(),
            final(self).spec_position() == old(self).spec_position(),
            final(self).spec_width() == old(self).spec_width(),
    {
        self.is_focused = true;
        true
    }

    /// Drops the focus.
    pub fn focus_lost(&mut self)
        ensures
            !final(self).spec_focused(),
            final(self).spec_text() == old(self).spec_text(),
            final(self).spec_text_len() == old(self).spec_text_len(),
            final(self).spec_shortcut() == old(self).spec_shortcut(),
            final(self).spec_position() == old(self).spec_position(),
            final(self).spec_width() == old(self).spec_width(),
    {
        self.is_focused = false;
    }

    /// Whether the button has the focus.
    pub fn is_focused(&self) -> (r: bool)
        ensures
            r == self.spec_focused(),
    {
        self.is_focused
    }
}

} // verus!
