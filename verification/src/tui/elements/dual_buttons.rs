use vstd::prelude::*;

use crate::text::str_chars;
use crate::tui::text_wrapper::StaticString;
use crate::tui::ui_element::{HandleEventStatus, KeyCode, KeyInput, PassFocusDirection};

verus! {

/// Which of the two buttons holds the focus.
#[derive(Debug, Clone, Copy, PartialEq, Eq, Structural)]
pub enum FocusedElement {
    Unfocused,
    Left,
    Right,
}

impl FocusedElement {
    /// The other button: the right one from the left one, the left one otherwise.
    pub fn other(self) -> (r: Self)
        ensures
            r == (if self == FocusedElement::Left { FocusedElement::Right } else { FocusedElement::Left }),
    {
        match self {
            Self::Left => Self::Right,
            _ => Self::Left,
        }
    }
}

/// Switching twice between two focused buttons comes back to the first.
pub proof fn lemma_other_involutive(e: FocusedElement)
    requires
        e != FocusedElement::Unfocused,
    ensures
        other_spec(other_spec(e)) == e,
{
}

pub open spec fn other_spec(e: FocusedElement) -> FocusedElement {
    if e == FocusedElement::Left { FocusedElement::Right } else { FocusedElement::Left }
}

/// What pressing the buttons does: the left one (usually "yes") and the right one.
pub trait DualButtonsHandler {
    fn on_left(&mut self);

    fn on_right(&mut self);
}

/// Which button a key press chose, if any.
#[derive(Debug, Clone, Copy, PartialEq, Eq, Structural)]
pub enum ButtonPressed {
    Left,
    Right,
}

/// Whether `c` is one of `keys`.
fn contains_key(keys: &[char], c: char) -> (r: bool)
    ensures
        r == keys@.contains(c),
{
    let mut i: usize = 0;
    while i < keys.len()
        invariant
            i <= keys.len(),
            forall|j: int| 0 <= j < i ==> keys@[j] != c,
        decreases keys.len() - i,
    {
        if keys[i] == c {
            assert(keys@[i as int] == c);
            return true;
        }
        i = i + 1;
    }
    false
}

/// The number of characters of a text, at most the largest `u16`.
fn len_chars_u16(s: &StaticString) -> (n: u16)
    ensures
        n == (if s@.len() < u16::MAX { s@.len() } else { u16::MAX as nat }),
{
    let v = str_chars(s.as_str());
    if v.len() < 65535 { v.len() as u16 } else { 65535 }
}

/// The space each button's text gets in a row `width` wide: both get as much as the shorter
/// text needs (within half the row, less one column between them), and what is left goes to
/// the left text, or else to the right one.
pub open spec fn button_spaces(left_len: int, right_len: int, width: int) -> (int, int) {
    let available = if width > 1 { width - 1 } else { 0 };
    let shortest = if left_len < right_len { left_len } else { right_len };
    let min = if shortest < available / 2 { shortest } else { available / 2 };
    let remaining = available - min - min;
    if remaining != 0 && min != left_len {
        (if min + remaining < left_len { min + remaining } else { left_len }, min)
    } else if remaining != 0 && min != right_len {
        (min, if min + remaining < right_len { min + remaining } else { right_len })
    } else {
        (min, min)
    }
}

/// Two buttons side by side, each with its text and the keys that press it.
pub struct DualButtons<H: DualButtonsHandler> {
    pub left_str: StaticString,
    pub right_str: StaticString,
    left_len_chars: u16,
    right_len_chars: u16,
    left_keys: &'static [char],
    right_keys: &'static [char],
    pub handlers: H,
    current_width: u16,
    current_x: u16,
    current_y: u16,
    left_draw_len_chars: u16,
    right_draw_len_chars: u16,
    focused_element: FocusedElement,
}

impl<H: DualButtonsHandler> DualButtons<H> {
    pub closed spec fn spec_focused(&self) -> FocusedElement {
        self.focused_element
    }

    pub closed spec fn spec_lens(&self) -> (u16, u16) {
        (self.left_len_chars, self.right_len_chars)
    }

    pub closed spec fn spec_draw_lens(&self) -> (u16, u16) {
        (self.left_draw_len_chars, self.right_draw_len_chars)
    }

    pub closed spec fn spec_area(&self) -> (u16, u16, u16) {
        (self.current_x, self.current_y, self.current_width)
    }

    pub closed spec fn spec_keys(&self) -> (Seq<char>, Seq<char>) {
        (self.left_keys@, self.right_keys@)
    }

    /// The row stays within the coordinates of a terminal.
    pub closed spec fn wf(&self) -> bool {
        self.current_x + self.current_width <= u16::MAX
    }

    /// Where the focus is passed from: the middle of the focused button's half, or of the row.
    pub open spec fn focus_position(&self) -> (u16, u16) {
        let (x, y, w) = self.spec_area();
        match self.spec_focused() {
            FocusedElement::Unfocused => ((x + w / 2) as u16, y),
            FocusedElement::Left => ((x + w / 4) as u16, y),
            FocusedElement::Right => ((x + w * 3 / 4) as u16, y),
        }
    }

    pub fn new(
        left_str: StaticString,
        right_str: StaticString,
        left_keys: &'static [char],
        right_keys: &'static [char],
        handlers: H,
    ) -> (b: Self)
        ensures
            b.wf(),
            b.spec_focused() == FocusedElement::Unfocused,
            b.spec_keys() == (left_keys@, right_keys@),
            b.spec_area() == (0u16, 0u16, 0u16),
            b.spec_lens() == ((if left_str@.len() < u16::MAX { left_str@.len() } else { u16::MAX as nat }) as u16,
            (if right_str@.len() < u16::MAX { right_str@.len() } else { u16::MAX as nat }) as u16),
    {
        let left_len_chars = len_chars_u16(&left_str);
        let right_len_chars = len_chars_u16(&right_str);
        Self {
            left_str,
            right_str,
            left_len_chars,
            right_len_chars,
            left_keys,
            right_keys,
            handlers,
            current_width: 0,
            current_x: 0,
            current_y: 0,
            left_draw_len_chars: 0,
            right_draw_len_chars: 0,
            focused_element: FocusedElement::Unfocused,
        }
    }

    fn get_focus_position(&self) -> (p: (u16, u16))
        requires
            self.wf(),
        ensures
            p == self.focus_position(),
    {
        let w = self.current_width as u32;
        let x = self.current_x as u32;
        let px: u32 = match self.focused_element {
            FocusedElement::Unfocused => x + w / 2,
            FocusedElement::Left => x + w / 4,
            FocusedElement::Right => x + w * 3 / 4,
        };
        (px as u16, self.current_y)
    }

    /// Takes a new area; on a new width, splits it between the two texts.
    pub fn resize(&mut self, x: u16, y: u16, width: u16)
        requires
            x + width <= u16::MAX,
        ensures
            final(self).wf(),
            final(self).spec_area() == (x, y, width),
            width != old(self).spec_area().2 ==> final(self).spec_draw_lens().0 == button_spaces(
                old(self).spec_lens().0 as int,
                old(self).spec_lens().1 as int,
                width as int,
            ).0 && final(self).spec_draw_lens().1 == button_spaces(
                old(self).spec_lens().0 as int,
                old(self).spec_lens().1 as int,
                width as int,
            ).1,
            width == old(self).spec_area().2 ==> final(self).spec_draw_lens() == old(self).spec_draw_lens(),
            final(self).spec_draw_lens().0 <= final(self).spec_lens().0 || width == old(self).spec_area().2,
            final(self).spec_draw_lens().1 <= final(self).spec_lens().1 || width == old(self).spec_area().2,
            width != old(self).spec_area().2 && width >= 1 ==> final(self).spec_draw_lens().0
                + final(self).spec_draw_lens().1 <= width - 1,
            final(self).spec_focused() == old(self).spec_focused(),
            final(self).spec_lens() == old(self).spec_lens(),
            final(self).spec_keys() == old(self).spec_keys(),
    {
        self.current_x = x;
        self.current_y = y;
        if width == self.current_width {
            return;
        }
        self.current_width = width;
        let available: u16 = if width > 1 { width - 1 } else { 0 };
        let shortest: u16 = if self.left_len_chars < self.right_len_chars { self.left_len_chars } else { self.right_len_chars };
        let min: u16 = if shortest < available / 2 { shortest } else { available / 2 };
        let mut left_space: u16 = min;
        let mut right_space: u16 = min;
        let remaining: u16 = available - min - min;
        if remaining != 0 {
            if left_space != self.left_len_chars {
                left_space = if (min as u32) + (remaining as u32) < self.left_len_chars as u32 {
                    min + remaining
                } else {
                    self.left_len_chars
                };
            } else if right_space != self.right_len_chars {
                right_space = if (min as u32) + (remaining as u32) < self.right_len_chars as u32 {
                    min + remaining
                } else {
                    self.right_len_chars
                };
            }
        }
        self.left_draw_len_chars = left_space;
        self.right_draw_len_chars = right_space;
    }

    /// The width it asks for: both texts and three columns, within what is available; one
    /// line.
    pub fn begin_resize(&mut self, width: u16, height: u16) -> (r: (u16, u16))
        ensures
            r.1 == 1,
            r.0 == (if width < old(self).spec_lens().0 + old(self).spec_lens().1 + 3 {
                width as int
            } else {
                (if old(self).spec_lens().0 + old(self).spec_lens().1 + 3 > u16::MAX {
                    u16::MAX as int
                } else {
                    old(self).spec_lens().0 + old(self).spec_lens().1 + 3
                })
            }),
            *final(self) == *old(self),
    {
        let optimal: u32 = self.left_len_chars as u32 + self.right_len_chars as u32 + 3;
        let optimal: u16 = if optimal > 65535 { 65535 } else { optimal as u16 };
        (if width < optimal { width } else { optimal }, 1)
    }

    /// Handles a key press. A key of either button presses it, focused or not. When focused,
    /// TAB switches buttons, LEFT and RIGHT go to that button (or pass the focus on from it),
    /// ENTER presses the focused button, and UP, DOWN and ESC pass the focus on.
    pub fn handle_event(&mut self, key: KeyInput, is_focused: bool) -> (r: (HandleEventStatus, Option<ButtonPressed>))
        requires
            old(self).wf(),
        ensures
            final(self).wf(),
            final(self).spec_area() == old(self).spec_area(),
            final(self).spec_lens() == old(self).spec_lens(),
            final(self).spec_draw_lens() == old(self).spec_draw_lens(),
            final(self).spec_keys() == old(self).spec_keys(),
            ({
                let f = old(self).spec_focused();
                let pos = old(self).focus_position();
                let (lk, rk) = old(self).spec_keys();
                let (status, pressed) = r;
                let nf = final(self).spec_focused();
                if key.is_release {
                    status == HandleEventStatus::Unhandled && pressed is None && nf == f
                } else if key.code matches KeyCode::Char(c) && lk.contains(c) {
                    status == HandleEventStatus::Handled && pressed == Some(ButtonPressed::Left) && nf == f
                } else if key.code matches KeyCode::Char(c) && rk.contains(c) {
                    status == HandleEventStatus::Handled && pressed == Some(ButtonPressed::Right) && nf == f
                } else if !is_focused {
                    status == HandleEventStatus::Unhandled && pressed is None && nf == f
                } else {
                    match key.code {
                        KeyCode::Tab => status == HandleEventStatus::Handled && pressed is None && nf == other_spec(f),
                        KeyCode::Left => pressed is None && if f == FocusedElement::Left {
                            status == HandleEventStatus::PassFocus(pos, PassFocusDirection::Left) && nf == f
                        } else {
                            status == HandleEventStatus::Handled && nf == FocusedElement::Left
                        },
                        KeyCode::Right => pressed is None && if f == FocusedElement::Right {
                            status == HandleEventStatus::PassFocus(pos, PassFocusDirection::Right) && nf == f
                        } else {
                            status == HandleEventStatus::Handled && nf == FocusedElement::Right
                        },
                        KeyCode::Enter => nf == f && match f {
                            FocusedElement::Left => status == HandleEventStatus::Handled && pressed == Some(
                                ButtonPressed::Left,
                            ),
                            FocusedElement::Right => status == HandleEventStatus::Handled && pressed == Some(
                                ButtonPressed::Right,
                            ),
                            FocusedElement::Unfocused => status == HandleEventStatus::Unhandled && pressed is None,
                        },
                        KeyCode::Up => status == HandleEventStatus::PassFocus(pos, PassFocusDirection::Up) && pressed is None
                            && nf == f,
                        KeyCode::Down => status == HandleEventStatus::PassFocus(pos, PassFocusDirection::Down)
                            && pressed is None && nf == f,
                        KeyCode::Esc => status == HandleEventStatus::PassFocus(pos, PassFocusDirection::Away)
                            && pressed is None && nf == f,
                        _ => status == HandleEventStatus::Unhandled && pressed is None && nf == f,
                    }
                }
            }),
    {
        if key.is_release {
            return (HandleEventStatus::Unhandled, None);
        }
        if let KeyCode::Char(c) = key.code {
            if contains_key(self.left_keys, c) {
                self.handlers.on_left();
                return (HandleEventStatus::Handled, Some(ButtonPressed::Left));
            }
            if contains_key(self.right_keys, c) {
                self.handlers.on_right();
                return (HandleEventStatus::Handled, Some(ButtonPressed::Right));
            }
        }
        if !is_focused {
            return (HandleEventStatus::Unhandled, None);
        }
        let pos = self.get_focus_position();
        match key.code {
            KeyCode::Tab => {
                self.focused_element = self.focused_element.other();
                (HandleEventStatus::Handled, None)
            },
            KeyCode::Left => {
                if self.focused_element == FocusedElement::Left {
                    (HandleEventStatus::PassFocus(pos, PassFocusDirection::Left), None)
                } else {
                    self.focused_element = FocusedElement::Left;
                    (HandleEventStatus::Handled, None)
                }
            },
            KeyCode::Right => {
                if self.focused_element == FocusedElement::Right {
                    (HandleEventStatus::PassFocus(pos, PassFocusDirection::Right), None)
                } else {
                    self.focused_element = FocusedElement::Right;
                    (HandleEventStatus::Handled, None)
                }
            },
            KeyCode::Enter => match self.focused_element {
                FocusedElement::Left => {
                    self.handlers.on_left();
                    (HandleEventStatus::Handled, Some(ButtonPressed::Left))
                },
                FocusedElement::Right => {
                    self.handlers.on_right();
                    (HandleEventStatus::Handled, Some(ButtonPressed::Right))
                },
                FocusedElement::Unfocused => (HandleEventStatus::Unhandled, None),
            },
            KeyCode::Up => (HandleEventStatus::PassFocus(pos, PassFocusDirection::Up), None),
            KeyCode::Down => (HandleEventStatus::PassFocus(pos, PassFocusDirection::Down), None),
            KeyCode::Esc => (HandleEventStatus::PassFocus(pos, PassFocusDirection::Away), None),
            _ => (HandleEventStatus::Unhandled, None),
        }
    }

    /// Takes the focus on the button on the side it comes from.
    pub fn receive_focus(&mut self, focus_position: (u16, u16)) -> (accepted: bool)
        requires
            old(self).wf(),
        ensures
            final(self).wf(),
            accepted,
            final(self).spec_focused() == (if focus_position.0 > old(self).spec_area().0 + old(self).spec_area().2 / 2 {
                FocusedElement::Right
            } else {
                FocusedElement::Left
            }),
            final(self).spec_area() == old(self).spec_area(),
            final(self).spec_lens() == old(self).spec_lens(),
            final(self).spec_draw_lens() == old(self).spec_draw_lens(),
            final(self).spec_keys() == old(self).spec_keys(),
    {
        self.focused_element = if focus_position.0 > self.current_x + self.current_width / 2 {
            FocusedElement::Right
        } else {
            FocusedElement::Left
        };
        true
    }

    /// Drops the focus.
    pub fn focus_lost(&mut self)
        ensures
            final(self).spec_focused() == FocusedElement::Unfocused,
            final(self).spec_area() == old(self).spec_area(),
            final(self).spec_lens() == old(self).spec_lens(),
            final(self).spec_draw_lens() == old(self).spec_draw_lens(),
            final(self).spec_keys() == old(self).spec_keys(),
            old(self).wf() ==> final(self).wf(),
    {
        self.focused_element = FocusedElement::Unfocused;
    }
}

} // verus!
