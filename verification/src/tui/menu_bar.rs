use vstd::prelude::*;

use crate::text::{push_char, push_str};
use crate::tui::pretty_print::{pretty_bytes, PrettyByteDisplayer};
use crate::tui::ui_element::{HandleEventStatus, KeyCode, KeyInput, PassFocusDirection};

verus! {

/// The buttons of the menu bar that can hold the focus, left to right.
#[derive(Debug, Clone, Copy, PartialEq, Eq, Structural)]
pub enum FocusedElement {
    Unfocused,
    Shutdown,
    Socks5,
    Sandstorm,
    Users,
    Auth,
    Buffer,
}

/// The position of a button from the left, or -1 for no button.
pub open spec fn position(e: FocusedElement) -> int {
    match e {
        FocusedElement::Unfocused => -1,
        FocusedElement::Shutdown => 0,
        FocusedElement::Socks5 => 1,
        FocusedElement::Sandstorm => 2,
        FocusedElement::Users => 3,
        FocusedElement::Auth => 4,
        FocusedElement::Buffer => 5,
    }
}

impl FocusedElement {
    /// The leftmost button.
    pub fn leftmost() -> (r: Self)
        ensures
            position(r) == 0,
    {
        FocusedElement::Shutdown
    }

    /// The rightmost button.
    pub fn rightmost() -> (r: Self)
        ensures
            position(r) == 5,
    {
        FocusedElement::Buffer
    }

    /// The button to the left of this one, if any.
    pub fn next_left(self) -> (r: Option<Self>)
        ensures
            match r {
                Some(e) => position(self) >= 1 && position(e) == position(self) - 1,
                None => position(self) <= 0,
            },
    {
        match self {
            Self::Socks5 => Some(Self::Shutdown),
            Self::Sandstorm => Some(Self::Socks5),
            Self::Users => Some(Self::Sandstorm),
            Self::Auth => Some(Self::Users),
            Self::Buffer => Some(Self::Auth),
            _ => None,
        }
    }

    /// The button to the right of this one, if any.
    pub fn next_right(self) -> (r: Option<Self>)
        ensures
            match r {
                Some(e) => 0 <= position(self) && position(e) == position(self) + 1,
                None => position(self) == -1 || position(self) == 5,
            },
    {
        match self {
            Self::Shutdown => Some(Self::Socks5),
            Self::Socks5 => Some(Self::Sandstorm),
            Self::Sandstorm => Some(Self::Users),
            Self::Users => Some(Self::Auth),
            Self::Auth => Some(Self::Buffer),
            _ => None,
        }
    }
}

/// Distinct buttons have distinct positions, so moving right and then left comes back.
pub proof fn lemma_position_injective(a: FocusedElement, b: FocusedElement)
    ensures
        position(a) == position(b) ==> a == b,
{
}

/// Moving right from a button and then left comes back to it, and the other way around.
pub proof fn lemma_left_right_inverse(e: FocusedElement)
    ensures
        (next_right_spec(e) matches Some(r) ==> next_left_spec(r) == Some(e)),
        (next_left_spec(e) matches Some(l) ==> next_right_spec(l) == Some(e)),
{
}

/// The button to the left, as `next_left` gives it.
pub open spec fn next_left_spec(e: FocusedElement) -> Option<FocusedElement> {
    match e {
        FocusedElement::Socks5 => Some(FocusedElement::Shutdown),
        FocusedElement::Sandstorm => Some(FocusedElement::Socks5),
        FocusedElement::Users => Some(FocusedElement::Sandstorm),
        FocusedElement::Auth => Some(FocusedElement::Users),
        FocusedElement::Buffer => Some(FocusedElement::Auth),
        _ => None,
    }
}

/// The button to the right, as `next_right` gives it.
pub open spec fn next_right_spec(e: FocusedElement) -> Option<FocusedElement> {
    match e {
        FocusedElement::Shutdown => Some(FocusedElement::Socks5),
        FocusedElement::Socks5 => Some(FocusedElement::Sandstorm),
        FocusedElement::Sandstorm => Some(FocusedElement::Users),
        FocusedElement::Users => Some(FocusedElement::Auth),
        FocusedElement::Auth => Some(FocusedElement::Buffer),
        _ => None,
    }
}

/// What pressing a menu button asks for.
#[derive(Debug, Clone, Copy, PartialEq, Eq, Structural)]
pub enum MenuAction {
    Shutdown,
    Socks5,
    Sandstorm,
    Users,
    Auth,
    Buffer,
}

/// The action of a button's shortcut key: `x`, `s`, `d`, `u`, `a` and `b`.
pub open spec fn shortcut_action(c: char) -> Option<MenuAction> {
    if c == 'x' {
        Some(MenuAction::Shutdown)
    } else if c == 's' {
        Some(MenuAction::Socks5)
    } else if c == 'd' {
        Some(MenuAction::Sandstorm)
    } else if c == 'u' {
        Some(MenuAction::Users)
    } else if c == 'a' {
        Some(MenuAction::Auth)
    } else if c == 'b' {
        Some(MenuAction::Buffer)
    } else {
        None
    }
}

/// The action of a focused button.
pub open spec fn button_action(e: FocusedElement) -> Option<MenuAction> {
    match e {
        FocusedElement::Shutdown => Some(MenuAction::Shutdown),
        FocusedElement::Socks5 => Some(MenuAction::Socks5),
        FocusedElement::Sandstorm => Some(MenuAction::Sandstorm),
        FocusedElement::Users => Some(MenuAction::Users),
        FocusedElement::Auth => Some(MenuAction::Auth),
        FocusedElement::Buffer => Some(MenuAction::Buffer),
        FocusedElement::Unfocused => None,
    }
}

/// The key shown on a button, between parentheses after its name: `x` on Shutdown, `s` on
/// Socks5, `d` on Sandstorm, `u` on Users, `a` on Auth and `b` on the buffer size.
pub open spec fn button_key(e: FocusedElement) -> Option<char> {
    match e {
        FocusedElement::Shutdown => Some('x'),
        FocusedElement::Socks5 => Some('s'),
        FocusedElement::Sandstorm => Some('d'),
        FocusedElement::Users => Some('u'),
        FocusedElement::Auth => Some('a'),
        FocusedElement::Buffer => Some('b'),
        FocusedElement::Unfocused => None,
    }
}

/// The name a button shows before its key (the buffer size button shows the size instead).
pub open spec fn button_name(e: FocusedElement) -> Seq<char> {
    match e {
        FocusedElement::Shutdown => "Shutdown"@,
        FocusedElement::Socks5 => "Socks5"@,
        FocusedElement::Sandstorm => "Sandstorm"@,
        FocusedElement::Users => "Users"@,
        FocusedElement::Auth => "Auth"@,
        _ => Seq::empty(),
    }
}

/// Each button's shortcut key does what pressing that button does, and no two keys do the
/// same thing: the key a button shows is the key that triggers its action, and only that key.
pub proof fn lemma_shortcut_keys_match_buttons(e: FocusedElement, c1: char, c2: char)
    ensures
        button_key(e) matches Some(k) ==> shortcut_action(k) == button_action(e),
        shortcut_action(c1) is Some && shortcut_action(c1) == shortcut_action(c2) ==> c1 == c2,
        shortcut_action(c1) matches Some(a) ==> exists|b: FocusedElement| button_key(b) == Some(c1)
            && button_action(b) == Some(a),
{
    if let Some(a) = shortcut_action(c1) {
        let b = if c1 == 'x' {
            FocusedElement::Shutdown
        } else if c1 == 's' {
            FocusedElement::Socks5
        } else if c1 == 'd' {
            FocusedElement::Sandstorm
        } else if c1 == 'u' {
            FocusedElement::Users
        } else if c1 == 'a' {
            FocusedElement::Auth
        } else {
            FocusedElement::Buffer
        };
        assert(button_key(b) == Some(c1) && button_action(b) == Some(a));
    }
}

/// The label of a named button: its name and, between parentheses, its shortcut key, such as
/// `Auth (a)`.
pub fn button_label(e: FocusedElement) -> (s: String)
    ensures
        button_key(e) matches Some(k) ==> s@ == button_name(e) + " ("@ + seq![k] + ")"@,
        button_key(e) is None ==> s@.len() == 0,
{
    let mut s = String::new();
    let (name, key): (&str, char) = match e {
        FocusedElement::Shutdown => ("Shutdown", 'x'),
        FocusedElement::Socks5 => ("Socks5", 's'),
        FocusedElement::Sandstorm => ("Sandstorm", 'd'),
        FocusedElement::Users => ("Users", 'u'),
        FocusedElement::Auth => ("Auth", 'a'),
        FocusedElement::Buffer => ("", 'b'),
        FocusedElement::Unfocused => {
            return s;
        },
    };
    proof {
        reveal_strlit("");
    }
    push_str(&mut s, name);
    push_str(&mut s, " (");
    push_char(&mut s, key);
    push_str(&mut s, ")");
    s
}

fn shortcut_action_exec(c: char) -> (r: Option<MenuAction>)
    ensures
        r == shortcut_action(c),
{
    match c {
        'x' => Some(MenuAction::Shutdown),
        's' => Some(MenuAction::Socks5),
        'd' => Some(MenuAction::Sandstorm),
        'u' => Some(MenuAction::Users),
        'a' => Some(MenuAction::Auth),
        'b' => Some(MenuAction::Buffer),
        _ => None,
    }
}

fn button_action_exec(e: FocusedElement) -> (r: Option<MenuAction>)
    ensures
        r == button_action(e),
{
    match e {
        FocusedElement::Shutdown => Some(MenuAction::Shutdown),
        FocusedElement::Socks5 => Some(MenuAction::Socks5),
        FocusedElement::Sandstorm => Some(MenuAction::Sandstorm),
        FocusedElement::Users => Some(MenuAction::Users),
        FocusedElement::Auth => Some(MenuAction::Auth),
        FocusedElement::Buffer => Some(MenuAction::Buffer),
        FocusedElement::Unfocused => None,
    }
}

/// The column where the next part of the bar starts: after the previous one, its label and
/// three columns of frame and padding, within the bar's width.
pub open spec fn next_boundary(prev: int, label_len: int, width: int) -> int {
    if prev + label_len + 3 < width { prev + label_len + 3 } else { width }
}

/// The layout of the menu bar and which of its buttons holds the focus. Each part starts at a
/// column relative to the bar: the buttons, the extra text, and the ping at the right end.
pub struct MenuBarState {
    area_x: u16,
    area_y: u16,
    area_width: u16,
    socks5_area_x: u16,
    sandstorm_area_x: u16,
    users_area_x: u16,
    auth_area_x: u16,
    buffer_area_x: u16,
    extra_area_x: u16,
    ping_area_x: u16,
    focused_element: FocusedElement,
}

impl MenuBarState {
    pub closed spec fn spec_focused(&self) -> FocusedElement {
        self.focused_element
    }

    pub closed spec fn spec_area(&self) -> (u16, u16, u16) {
        (self.area_x, self.area_y, self.area_width)
    }

    /// Where the parts start: Socks5, Sandstorm, Users, Auth, buffer, extra text and ping.
    pub closed spec fn spec_bounds(&self) -> Seq<u16> {
        seq![
            self.socks5_area_x,
            self.sandstorm_area_x,
            self.users_area_x,
            self.auth_area_x,
            self.buffer_area_x,
            self.extra_area_x,
            self.ping_area_x,
        ]
    }

    /// The parts start in order, all within the bar, which stays within the coordinates of a
    /// terminal.
    pub open spec fn wf(&self) -> bool {
        let b = self.spec_bounds();
        &&& self.spec_area().0 + self.spec_area().2 <= u16::MAX
        &&& b[0] <= b[1] <= b[2] <= b[3] <= b[4] <= b[5] <= self.spec_area().2
        &&& b[5] <= b[6] <= self.spec_area().2
    }

    /// Where the focus is passed from: the middle of the focused button, or of the bar.
    pub open spec fn focus_position(&self) -> (u16, u16) {
        let b = self.spec_bounds();
        let (x, y, w) = self.spec_area();
        let mid: int = match self.spec_focused() {
            FocusedElement::Shutdown => b[0] as int / 2,
            FocusedElement::Socks5 => b[0] + (b[1] - b[0]) / 2,
            FocusedElement::Sandstorm => b[1] + (b[2] - b[1]) / 2,
            FocusedElement::Users => b[2] + (b[3] - b[2]) / 2,
            FocusedElement::Auth => b[3] + (b[4] - b[3]) / 2,
            FocusedElement::Buffer => b[4] + (b[5] - b[4]) / 2,
            FocusedElement::Unfocused => w as int / 2,
        };
        ((x + mid) as u16, y)
    }

    pub fn new() -> (s: Self)
        ensures
            s.wf(),
            s.spec_focused() == FocusedElement::Unfocused,
            s.spec_area() == (0u16, 0u16, 0u16),
    {
        Self {
            area_x: 0,
            area_y: 0,
            area_width: 0,
            socks5_area_x: 0,
            sandstorm_area_x: 0,
            users_area_x: 0,
            auth_area_x: 0,
            buffer_area_x: 0,
            extra_area_x: 0,
            ping_area_x: 0,
            focused_element: FocusedElement::Unfocused,
        }
    }

    /// Lays the bar out in a new area, given the lengths of its labels (the ping's in
    /// characters): each button takes its label and three columns, the extra text follows, and
    /// the ping takes its label and four columns at the right end, as far as the width allows.
    pub fn do_resize(
        &mut self,
        x: u16,
        y: u16,
        width: u16,
        label_lens: (usize, usize, usize, usize, usize, usize),
        ping_chars: usize,
    )
        requires
            x + width <= u16::MAX,
            label_lens.0 <= 65532,
            label_lens.1 <= 65532,
            label_lens.2 <= 65532,
            label_lens.3 <= 65532,
            label_lens.4 <= 65532,
            label_lens.5 <= 65532,
            ping_chars <= 65531,
        ensures
            final(self).wf(),
            final(self).spec_area() == (x, y, width),
            final(self).spec_focused() == old(self).spec_focused(),
            ({
                let b = final(self).spec_bounds();
                let w = width as int;
                &&& b[0] == next_boundary(0, label_lens.0 as int, w)
                &&& b[1] == next_boundary(b[0] as int, label_lens.1 as int, w)
                &&& b[2] == next_boundary(b[1] as int, label_lens.2 as int, w)
                &&& b[3] == next_boundary(b[2] as int, label_lens.3 as int, w)
                &&& b[4] == next_boundary(b[3] as int, label_lens.4 as int, w)
                &&& b[5] == next_boundary(b[4] as int, label_lens.5 as int, w)
                &&& b[6] == w - (if w - b[5] < ping_chars + 4 { w - b[5] } else { ping_chars + 4 })
            }),
    {
        let w = width as u32;
        let b0 = if (label_lens.0 as u32) + 3 < w { ((label_lens.0 as u32) + 3) as u16 } else { width };
        let b1 = if (b0 as u32) + (label_lens.1 as u32) + 3 < w { ((b0 as u32) + (label_lens.1 as u32) + 3) as u16 } else { width };
        let b2 = if (b1 as u32) + (label_lens.2 as u32) + 3 < w { ((b1 as u32) + (label_lens.2 as u32) + 3) as u16 } else { width };
        let b3 = if (b2 as u32) + (label_lens.3 as u32) + 3 < w { ((b2 as u32) + (label_lens.3 as u32) + 3) as u16 } else { width };
        let b4 = if (b3 as u32) + (label_lens.4 as u32) + 3 < w { ((b3 as u32) + (label_lens.4 as u32) + 3) as u16 } else { width };
        let b5 = if (b4 as u32) + (label_lens.5 as u32) + 3 < w { ((b4 as u32) + (label_lens.5 as u32) + 3) as u16 } else { width };
        let room = width - b5;
        let ping_width: u16 = if (room as u32) < (ping_chars as u32) + 4 { room } else { (ping_chars + 4) as u16 };
        self.area_x = x;
        self.area_y = y;
        self.area_width = width;
        self.socks5_area_x = b0;
        self.sandstorm_area_x = b1;
        self.users_area_x = b2;
        self.auth_area_x = b3;
        self.buffer_area_x = b4;
        self.extra_area_x = b5;
        self.ping_area_x = width - ping_width;
    }

    fn get_focus_position(&self) -> (p: (u16, u16))
        requires
            self.wf(),
        ensures
            p == self.focus_position(),
    {
        let mid: u16 = match self.focused_element {
            FocusedElement::Shutdown => self.socks5_area_x / 2,
            FocusedElement::Socks5 => self.socks5_area_x + (self.sandstorm_area_x - self.socks5_area_x) / 2,
            FocusedElement::Sandstorm => self.sandstorm_area_x + (self.users_area_x - self.sandstorm_area_x) / 2,
            FocusedElement::Users => self.users_area_x + (self.auth_area_x - self.users_area_x) / 2,
            FocusedElement::Auth => self.auth_area_x + (self.buffer_area_x - self.auth_area_x) / 2,
            FocusedElement::Buffer => self.buffer_area_x + (self.extra_area_x - self.buffer_area_x) / 2,
            FocusedElement::Unfocused => self.area_width / 2,
        };
        (self.area_x + mid, self.area_y)
    }

    /// Takes the focus, on the button under the column it comes from.
    pub fn receive_focus(&mut self, focus_position: (u16, u16)) -> (accepted: bool)
        ensures
            accepted,
            final(self).spec_area() == old(self).spec_area(),
            final(self).spec_bounds() == old(self).spec_bounds(),
            ({
                let b = old(self).spec_bounds();
                let x = focus_position.0;
                final(self).spec_focused() == if x < b[0] {
                    FocusedElement::Shutdown
                } else if x < b[1] {
                    FocusedElement::Socks5
                } else if x < b[2] {
                    FocusedElement::Sandstorm
                } else if x < b[3] {
                    FocusedElement::Users
                } else if x < b[4] {
                    FocusedElement::Auth
                } else {
                    FocusedElement::Buffer
                }
            }),
    {
        let x = focus_position.0;
        self.focused_element = if x < self.socks5_area_x {
            FocusedElement::Shutdown
        } else if x < self.sandstorm_area_x {
            FocusedElement::Socks5
        } else if x < self.users_area_x {
            FocusedElement::Sandstorm
        } else if x < self.auth_area_x {
            FocusedElement::Users
        } else if x < self.buffer_area_x {
            FocusedElement::Auth
        } else {
            FocusedElement::Buffer
        };
        true
    }

    /// Drops the focus.
    pub fn focus_lost(&mut self)
        ensures
            final(self).spec_focused() == FocusedElement::Unfocused,
            final(self).spec_area() == old(self).spec_area(),
            final(self).spec_bounds() == old(self).spec_bounds(),
    {
        self.focused_element = FocusedElement::Unfocused;
    }

    /// Handles a key press: a button's shortcut presses it, focused or not; when focused,
    /// ENTER presses the focused button, LEFT, RIGHT and TAB move between the buttons (passing
    /// the focus on past either end), and UP, DOWN and ESC pass the focus on.
    pub fn handle_event(&mut self, key: KeyInput, is_focused: bool) -> (r: (HandleEventStatus, Option<MenuAction>))
        requires
            old(self).wf(),
        ensures
            final(self).wf(),
            final(self).spec_area() == old(self).spec_area(),
            final(self).spec_bounds() == old(self).spec_bounds(),
            ({
                let f = old(self).spec_focused();
                let pos = old(self).focus_position();
                let nf = final(self).spec_focused();
                let (status, action) = r;
                if key.is_release {
                    status == HandleEventStatus::Unhandled && action is None && nf == f
                } else if key.code is Char {
                    nf == f && action == shortcut_action(key.code->Char_0) && status == (if action is Some {
                        HandleEventStatus::Handled
                    } else {
                        HandleEventStatus::Unhandled
                    })
                } else if !is_focused {
                    status == HandleEventStatus::Unhandled && action is None && nf == f
                } else {
                    match key.code {
                        KeyCode::Enter => nf == f && action == button_action(f) && status == (if action is Some {
                            HandleEventStatus::Handled
                        } else {
                            HandleEventStatus::Unhandled
                        }),
                        KeyCode::Left => action is None && if f == FocusedElement::Unfocused {
                            nf == FocusedElement::Buffer && status == HandleEventStatus::Handled
                        } else if next_left_spec(f) is Some {
                            nf == next_left_spec(f)->0 && status == HandleEventStatus::Handled
                        } else {
                            nf == f && status == HandleEventStatus::PassFocus(pos, PassFocusDirection::Left)
                        },
                        KeyCode::Right | KeyCode::Tab => action is None && if f == FocusedElement::Unfocused {
                            nf == FocusedElement::Shutdown && status == HandleEventStatus::Handled
                        } else if next_right_spec(f) is Some {
                            nf == next_right_spec(f)->0 && status == HandleEventStatus::Handled
                        } else {
                            nf == f && status == HandleEventStatus::PassFocus(
                                pos,
                                if key.code == KeyCode::Right {
                                    PassFocusDirection::Right
                                } else {
                                    PassFocusDirection::Forward
                                },
                            )
                        },
                        KeyCode::Down => action is None && nf == f && status == HandleEventStatus::PassFocus(
                            pos,
                            PassFocusDirection::Down,
                        ),
                        KeyCode::Up => action is None && nf == f && status == HandleEventStatus::PassFocus(
                            pos,
                            PassFocusDirection::Up,
                        ),
                        KeyCode::Esc => action is None && nf == f && status == HandleEventStatus::PassFocus(
                            pos,
                            PassFocusDirection::Away,
                        ),
                        _ => status == HandleEventStatus::Unhandled && action is None && nf == f,
                    }
                }
            }),
    {
        if key.is_release {
            return (HandleEventStatus::Unhandled, None);
        }
        if let KeyCode::Char(c) = key.code {
            let action = shortcut_action_exec(c);
            return match action {
                Some(_) => (HandleEventStatus::Handled, action),
                None => (HandleEventStatus::Unhandled, None),
            };
        }
        if !is_focused {
            return (HandleEventStatus::Unhandled, None);
        }
        let pos = self.get_focus_position();
        match key.code {
            KeyCode::Enter => {
                let action = button_action_exec(self.focused_element);
                match action {
                    Some(_) => (HandleEventStatus::Handled, action),
                    None => (HandleEventStatus::Unhandled, None),
                }
            },
            KeyCode::Left => {
                if self.focused_element == FocusedElement::Unfocused {
                    self.focused_element = FocusedElement::rightmost();
                    (HandleEventStatus::Handled, None)
                } else {
                    match self.focused_element.next_left() {
                        Some(e) => {
                            self.focused_element = e;
                            (HandleEventStatus::Handled, None)
                        },
                        None => (HandleEventStatus::PassFocus(pos, PassFocusDirection::Left), None),
                    }
                }
            },
            KeyCode::Right | KeyCode::Tab => {
                if self.focused_element == FocusedElement::Unfocused {
                    self.focused_element = FocusedElement::leftmost();
                    (HandleEventStatus::Handled, None)
                } else {
                    match self.focused_element.next_right() {
                        Some(e) => {
                            self.focused_element = e;
                            (HandleEventStatus::Handled, None)
                        },
                        None => {
                            let direction = if key.code == KeyCode::Right {
                                PassFocusDirection::Right
                            } else {
                                PassFocusDirection::Forward
                            };
                            (HandleEventStatus::PassFocus(pos, direction), None)
                        },
                    }
                }
            },
            KeyCode::Down => (HandleEventStatus::PassFocus(pos, PassFocusDirection::Down), None),
            KeyCode::Up => (HandleEventStatus::PassFocus(pos, PassFocusDirection::Up), None),
            KeyCode::Esc => (HandleEventStatus::PassFocus(pos, PassFocusDirection::Away), None),
            _ => (HandleEventStatus::Unhandled, None),
        }
    }
}

/// The number of dots of the buffer size's loading indicator.
pub const BUFFER_SIZE_LOADING_INDICATOR_SIZE: u8 = 5;

/// The number of cells of the ping's loading indicator.
pub const PING_LOADING_INDICATOR_LENGTH: i16 = 4;

/// The color the ping is shown in.
#[derive(Debug, Clone, Copy, PartialEq, Eq, Structural)]
pub enum PingColor {
    Green,
    Yellow,
    Red,
}

/// The color of a ping: green under a tenth of a second, yellow under a second, red beyond.
pub fn get_ping_text_color(millis: u16) -> (c: PingColor)
    ensures
        c == (if millis < 100 {
            PingColor::Green
        } else if millis < 1000 {
            PingColor::Yellow
        } else {
            PingColor::Red
        }),
{
    if millis < 100 {
        PingColor::Green
    } else if millis < 1000 {
        PingColor::Yellow
    } else {
        PingColor::Red
    }
}

/// The label of the buffer size button: the loading indicator's blanks, then the shortcut.
pub open spec fn initial_buffer_label_spec() -> Seq<char> {
    seq![' ', ' ', ' ', ' ', ' ', ' ', '(', 'b', ')']
}

/// The label of the buffer size button before the size is known.
pub fn initial_buffer_label() -> (s: String)
    ensures
        s@ == initial_buffer_label_spec(),
{
    let mut s = String::new();
    push_str(&mut s, "      (b)");
    proof {
        reveal_strlit("      (b)");
    }
    assert(s@ =~= initial_buffer_label_spec());
    s
}

/// The label of the buffer size button once the size is known: the size pretty-printed, then
/// the shortcut.
pub fn buffer_size_label(buffer_size: u32) -> (s: String)
    ensures
        s@ == pretty_bytes(buffer_size as nat) + seq![' ', '(', 'b', ')'],
{
    let mut s = PrettyByteDisplayer(buffer_size as usize).to_string();
    push_str(&mut s, " (b)");
    proof {
        reveal_strlit(" (b)");
    }
    s
}

/// One step of the buffer size's loading indicator, on the bytes of its first cells: at zero
/// dots the cells are blanked, otherwise the next cell gets a dot; the number of dots goes
/// round from zero to the size. Cells are changed only from ASCII to ASCII, so the label stays
/// valid text.
pub fn buffer_size_loading_indicator_step(indicator: &mut Vec<u8>, current_dots: u8) -> (next_dots: u8)
    requires
        old(indicator)@.len() == BUFFER_SIZE_LOADING_INDICATOR_SIZE,
        current_dots <= BUFFER_SIZE_LOADING_INDICATOR_SIZE,
        current_dots == 0 ==> forall|i: int| 0 <= i < old(indicator)@.len() ==> old(indicator)@[i] < 128,
        current_dots > 0 ==> old(indicator)@[current_dots - 1] < 128,
    ensures
        current_dots == 0 ==> final(indicator)@ == Seq::new(
            BUFFER_SIZE_LOADING_INDICATOR_SIZE as nat,
            |i: int| 32u8,
        ),
        current_dots > 0 ==> final(indicator)@ == old(indicator)@.update(current_dots - 1, 46u8),
        next_dots == (current_dots + 1) % (BUFFER_SIZE_LOADING_INDICATOR_SIZE + 1),
        (forall|i: int| 0 <= i < old(indicator)@.len() ==> old(indicator)@[i] < 128) ==> (forall|i: int|
            0 <= i < final(indicator)@.len() ==> final(indicator)@[i] < 128),
{
    if current_dots == 0 {
        let mut i: usize = 0;
        while i < indicator.len()
            invariant
                i <= indicator@.len() == BUFFER_SIZE_LOADING_INDICATOR_SIZE,
                forall|j: int| 0 <= j < i ==> indicator@[j] == 32u8,
            decreases indicator@.len() - i,
        {
            indicator.set(i, 32u8);
            i = i + 1;
        }
        assert(indicator@ =~= Seq::new(BUFFER_SIZE_LOADING_INDICATOR_SIZE as nat, |i: int| 32u8));
    } else {
        let i = (current_dots - 1) as usize;
        indicator.set(i, 46u8);
    }
    (current_dots + 1) % (BUFFER_SIZE_LOADING_INDICATOR_SIZE + 1)
}

/// The ping's loading indicator with its block at `current_i`: lower half blocks, one full
/// block, then lower half blocks up to the indicator's length.
pub open spec fn ping_loading_indicator_spec(current_i: i16) -> Seq<char> {
    let before: int = if current_i > 0 { current_i as int } else { 0 };
    let after: int = sub_or_zero_int(PING_LOADING_INDICATOR_LENGTH as int, current_i + 1);
    Seq::new(before as nat, |j: int| '\u{2584}') + seq!['\u{2588}'] + Seq::new(after as nat, |j: int| '\u{2584}')
}

/// `a - b`, or zero where `b` is larger.
pub open spec fn sub_or_zero_int(a: int, b: int) -> int {
    if a > b { a - b } else { 0 }
}

/// The lower half block character of `ratatui`'s symbols.
#[verifier::external_body]
fn lower_half_block() -> (c: char)
    ensures
        c == '\u{2584}',
{
    ratatui::symbols::half_block::LOWER
}

/// The full block character of `ratatui`'s symbols.
#[verifier::external_body]
fn full_block() -> (c: char)
    ensures
        c == '\u{2588}',
{
    ratatui::symbols::half_block::FULL
}

/// The text of the ping's loading indicator with its block at `current_i`.
pub fn ping_loading_indicator_text(current_i: i16) -> (s: String)
    requires
        current_i < i16::MAX,
    ensures
        s@ == ping_loading_indicator_spec(current_i),
{
    let lower = lower_half_block();
    let full = full_block();
    let mut s = String::new();
    let mut k: i16 = 0;
    while k < current_i
        invariant
            0 <= k,
            k <= current_i || k == 0,
            s@ == Seq::new(k as nat, |j: int| '\u{2584}'),
            lower == '\u{2584}',
        decreases current_i - k,
    {
        push_char(&mut s, lower);
        k = k + 1;
        assert(s@ =~= Seq::new(k as nat, |j: int| '\u{2584}'));
    }
    let ghost before = s@;
    push_char(&mut s, full);
    let mut k: i16 = current_i + 1;
    let ghost start: int = current_i + 1;
    while k < PING_LOADING_INDICATOR_LENGTH
        invariant
            start <= k || start > PING_LOADING_INDICATOR_LENGTH,
            start == current_i + 1,
            k == start || k <= PING_LOADING_INDICATOR_LENGTH,
            k >= start,
            s@ == before + seq!['\u{2588}'] + Seq::new(sub_or_zero_int(k as int, start) as nat, |j: int| '\u{2584}'),
            lower == '\u{2584}',
        decreases PING_LOADING_INDICATOR_LENGTH - k,
    {
        push_char(&mut s, lower);
        k = k + 1;
        assert(s@ =~= before + seq!['\u{2588}'] + Seq::new(sub_or_zero_int(k as int, start) as nat, |j: int| '\u{2584}'));
    }
    assert(s@ =~= ping_loading_indicator_spec(current_i));
    s
}

/// Where the ping's loading indicator starts: its block in the middle, moving right.
pub fn ping_loading_indicator_start() -> (r: (i16, i16))
    ensures
        r == ((PING_LOADING_INDICATOR_LENGTH / 2) as i16, 1i16),
{
    (PING_LOADING_INDICATOR_LENGTH / 2, 1)
}

/// One move of the ping's loading indicator: the block moves one cell in its direction, and
/// bounces off either end. The block stays within the indicator and keeps moving.
pub fn ping_loading_indicator_step(current_i: i16, direction: i16) -> (r: (i16, i16))
    requires
        0 <= current_i < PING_LOADING_INDICATOR_LENGTH,
        direction == 1 || direction == -1,
    ensures
        r == (if current_i + direction == -1 {
            (1i16, 1i16)
        } else if current_i + direction == PING_LOADING_INDICATOR_LENGTH {
            ((PING_LOADING_INDICATOR_LENGTH - 2) as i16, -1i16)
        } else {
            ((current_i + direction) as i16, direction)
        }),
        0 <= r.0 < PING_LOADING_INDICATOR_LENGTH,
        r.1 == 1 || r.1 == -1,
{
    let i = current_i + direction;
    if i == -1 {
        (1, 1)
    } else if i == PING_LOADING_INDICATOR_LENGTH {
        (PING_LOADING_INDICATOR_LENGTH - 2, -1)
    } else {
        (i, direction)
    }
}

} // verus!
