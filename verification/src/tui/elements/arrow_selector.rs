use vstd::prelude::*;

use crate::text::str_chars;
use crate::tui::text_wrapper::StaticString;
use crate::tui::ui_element::{HandleEventStatus, KeyCode, KeyInput, PassFocusDirection};

verus! {

/// What a selector tells its user: that another option was selected.
pub trait ArrowSelectorHandler: Sized {
    /// The handler once told that the option at `selected_index` was selected; a handler that
    /// does not say stays as it was.
    open spec fn told_selection(self, selected_index: usize) -> Self {
        self
    }

    /// Tells the handler that the option at `selected_index` was selected.
    fn selection_changed(&mut self, selected_index: usize)
        ensures
            *final(self) == old(self).told_selection(selected_index),
    ;
}

/// The ASCII lowercase of a character (`char::to_ascii_lowercase`).
pub open spec fn ascii_lower(c: char) -> char {
    if 'A' <= c <= 'Z' {
        ((c as u32) + 32) as char
    } else {
        c
    }
}

pub(crate) fn ascii_lower_exec(c: char) -> (r: char)
    ensures
        r == ascii_lower(c),
{
    match c {
        'A' => 'a',
        'B' => 'b',
        'C' => 'c',
        'D' => 'd',
        'E' => 'e',
        'F' => 'f',
        'G' => 'g',
        'H' => 'h',
        'I' => 'i',
        'J' => 'j',
        'K' => 'k',
        'L' => 'l',
        'M' => 'm',
        'N' => 'n',
        'O' => 'o',
        'P' => 'p',
        'Q' => 'q',
        'R' => 'r',
        'S' => 's',
        'T' => 't',
        'U' => 'u',
        'V' => 'v',
        'W' => 'w',
        'X' => 'x',
        'Y' => 'y',
        'Z' => 'z',
        _ => c,
    }
}

/// The first option whose shortcut is `c`, if any.
pub open spec fn shortcut_index(shortcuts: Seq<Option<char>>, c: char) -> Option<int> {
    if exists|i: int| 0 <= i < shortcuts.len() && shortcuts[i] == Some(c) {
        Some(choose|i: int| 0 <= i < shortcuts.len() && shortcuts[i] == Some(c) && forall|j: int| 0 <= j < i ==> shortcuts[j] != Some(c))
    } else {
        None
    }
}

/// The first option whose shortcut is `c`, if any.
fn find_shortcut(options: &Vec<(StaticString, Option<char>)>, c: char) -> (r: Option<usize>)
    ensures
        r matches Some(i) ==> i < options@.len() && shortcut_index(options@.map_values(|o: (StaticString, Option<char>)| o.1), c) == Some(i as int),
        r is None ==> shortcut_index(options@.map_values(|o: (StaticString, Option<char>)| o.1), c) is None,
{
    let ghost sc = options@.map_values(|o: (StaticString, Option<char>)| o.1);
    let mut i: usize = 0;
    while i < options.len()
        invariant
            i <= options@.len(),
            sc == options@.map_values(|o: (StaticString, Option<char>)| o.1),
            forall|j: int| 0 <= j < i ==> sc[j] != Some(c),
        decreases options.len() - i,
    {
        if options[i].1 == Some(c) {
            assert(sc[i as int] == Some(c));
            assert(shortcut_index(sc, c) == Some(i as int)) by {
                let k = choose|k: int| 0 <= k < sc.len() && sc[k] == Some(c) && forall|j: int| 0 <= j < k ==> sc[j] != Some(c);
                assert(0 <= k < sc.len() && sc[k] == Some(c) && forall|j: int| 0 <= j < k ==> sc[j] != Some(c));
                if k > i {
                    assert(sc[i as int] != Some(c));
                }
            }
            return Some(i);
        }
        i = i + 1;
    }
    None
}

/// A selector of one of several options, moved through with the arrow keys while selecting,
/// or picked by an option's shortcut key.
pub struct ArrowSelector<H: ArrowSelectorHandler> {
    options: Vec<(StaticString, Option<char>)>,
    selected_index: usize,
    options_max_width: u16,
    after_text: StaticString,
    after_text_len: u16,
    autoselect: bool,
    pub handler: H,
    is_focused: bool,
    is_selecting: bool,
    current_position: (u16, u16),
}

/// The number of characters of a text, at most the largest `u16`.
fn len_chars_u16(s: &StaticString) -> (n: u16)
    ensures
        n == (if s@.len() < u16::MAX { s@.len() } else { u16::MAX as nat }),
{
    let v = str_chars(s.as_str());
    if v.len() < 65535 { v.len() as u16 } else { 65535 }
}

impl<H: ArrowSelectorHandler> ArrowSelector<H> {
    pub closed spec fn spec_shortcuts(&self) -> Seq<Option<char>> {
        self.options@.map_values(|o: (StaticString, Option<char>)| o.1)
    }

    pub closed spec fn spec_selected(&self) -> usize {
        self.selected_index
    }

    /// The handler, as told of every change of the selection.
    pub closed spec fn spec_handler(&self) -> H {
        self.handler
    }

    pub closed spec fn spec_focused(&self) -> bool {
        self.is_focused
    }

    pub closed spec fn spec_selecting(&self) -> bool {
        self.is_selecting
    }

    pub closed spec fn spec_autoselect(&self) -> bool {
        self.autoselect
    }

    pub closed spec fn spec_position(&self) -> (u16, u16) {
        self.current_position
    }

    pub closed spec fn spec_widths(&self) -> (u16, u16) {
        (self.options_max_width, self.after_text_len)
    }

    /// There is an option, and the selection is not past the options.
    pub closed spec fn wf(&self) -> bool {
        &&& self.options@.len() >= 1
        &&& self.selected_index <= self.options@.len()
    }

    /// Creates a selector. With no options, a blank one is added; the selection is capped at
    /// the number of options (so it may sit one past the last option); shortcuts are taken in
    /// ASCII lowercase.
    pub fn new(
        options: Vec<(StaticString, Option<char>)>,
        selected_index: usize,
        after_text: StaticString,
        autoselect: bool,
        handler: H,
    ) -> (a: Self)
        ensures
            a.wf(),
            options@.len() > 0 ==> a.spec_shortcuts() == options@.map_values(
                |o: (StaticString, Option<char>)| match o.1 {
                    Some(c) => Some(ascii_lower(c)),
                    None => None,
                },
            ),
            options@.len() == 0 ==> a.spec_shortcuts() == seq![None::<char>],
            a.spec_selected() == (if selected_index < a.spec_shortcuts().len() {
                selected_index as int
            } else {
                a.spec_shortcuts().len() as int
            }),
            !a.spec_focused(),
            !a.spec_selecting(),
            a.spec_autoselect() == autoselect,
            a.spec_position() == (0u16, 0u16),
            a.spec_handler() == handler,
    {
        let mut source = options;
        let ghost orig = source@;
        let mut options: Vec<(StaticString, Option<char>)> = Vec::new();
        let mut max_width: u16 = 0;
        let mut taken: usize = 0;
        assert(orig.len() == source.len());
        while source.len() > 0
            invariant
                orig.len() <= usize::MAX,
                taken + source@.len() == orig.len(),
                source@ == orig.subrange(taken as int, orig.len() as int),
                options@.len() == taken,
                forall|i: int| 0 <= i < taken ==> (#[trigger] options@[i]).1 == match orig[i].1 {
                    Some(c) => Some(ascii_lower(c)),
                    None => None,
                },
            decreases source.len(),
        {
            let (text, shortcut) = source.remove(0);
            let len = len_chars_u16(&text);
            if len > max_width {
                max_width = len;
            }
            let lowered = match shortcut {
                Some(c) => Some(ascii_lower_exec(c)),
                None => None,
            };
            options.push((text, lowered));
            taken = taken + 1;
            assert(source@ =~= orig.subrange(taken as int, orig.len() as int));
        }
        if options.len() == 0 {
            options.push((StaticString::Static(" "), None));
            if max_width < 1 {
                max_width = 1;
            }
        }
        let selected = if selected_index < options.len() { selected_index } else { options.len() };
        let after_text_len = len_chars_u16(&after_text);
        let a = Self {
            options,
            selected_index: selected,
            options_max_width: max_width,
            after_text,
            after_text_len,
            autoselect,
            handler,
            is_focused: false,
            is_selecting: false,
            current_position: (0, 0),
        };
        proof {
            if orig.len() > 0 {
                assert(a.spec_shortcuts() =~= orig.map_values(
                    |o: (StaticString, Option<char>)| match o.1 {
                        Some(c) => Some(ascii_lower(c)),
                        None => None,
                    },
                ));
            } else {
                assert(a.spec_shortcuts() =~= seq![None::<char>]);
            }
        }
        a
    }

    /// The selected option.
    pub fn selected_index(&self) -> (r: usize)
        ensures
            r == self.spec_selected(),
    {
        self.selected_index
    }

    /// Selects the option at `selected_index`, which must exist.
    pub fn set_selected_index_no_redraw(&mut self, selected_index: usize)
        requires
            old(self).wf(),
            selected_index < old(self).spec_shortcuts().len(),
        ensures
            final(self).wf(),
            final(self).spec_selected() == selected_index,
            final(self).spec_shortcuts() == old(self).spec_shortcuts(),
            final(self).spec_focused() == old(self).spec_focused(),
            final(self).spec_selecting() == old(self).spec_selecting(),
            final(self).spec_position() == old(self).spec_position(),
    {
        self.selected_index = selected_index;
    }

    /// Takes a new position on the screen.
    pub fn resize(&mut self, x: u16, y: u16)
        ensures
            final(self).spec_position() == (x, y),
            final(self).spec_shortcuts() == old(self).spec_shortcuts(),
            final(self).spec_selected() == old(self).spec_selected(),
            final(self).spec_focused() == old(self).spec_focused(),
            final(self).spec_selecting() == old(self).spec_selecting(),
            old(self).wf() ==> final(self).wf(),
    {
        self.current_position = (x, y);
    }

    /// Handles a key press. An option's shortcut (in any ASCII case) selects it, focused or
    /// not. When focused and selecting, LEFT and RIGHT move the selection and ESC stops
    /// selecting; ENTER starts or stops selecting; otherwise the arrows, TAB and ESC pass the
    /// focus on.
    pub fn handle_event(&mut self, key: KeyInput, is_focused: bool) -> (status: HandleEventStatus)
        requires
            old(self).wf(),
        ensures
            final(self).wf(),
            final(self).spec_shortcuts() == old(self).spec_shortcuts(),
            final(self).spec_focused() == old(self).spec_focused(),
            final(self).spec_position() == old(self).spec_position(),
            final(self).spec_handler() == (if final(self).spec_selected() != old(self).spec_selected() {
                old(self).spec_handler().told_selection(final(self).spec_selected())
            } else {
                old(self).spec_handler()
            }),
            ({
                let sel = old(self).spec_selected();
                let n = old(self).spec_shortcuts().len();
                let selecting = old(self).spec_selecting();
                let pos = old(self).spec_position();
                let nsel = final(self).spec_selected();
                let nselecting = final(self).spec_selecting();
                if key.is_release {
                    status == HandleEventStatus::Unhandled && nsel == sel && nselecting == selecting
                } else if key.code is Char {
                    nselecting == selecting && match shortcut_index(old(self).spec_shortcuts(), ascii_lower(key.code->Char_0)) {
                        Some(i) => if i != sel {
                            status == HandleEventStatus::Handled && nsel == i
                        } else {
                            status == HandleEventStatus::Unhandled && nsel == sel
                        },
                        None => status == HandleEventStatus::Unhandled && nsel == sel,
                    }
                } else if !is_focused {
                    status == HandleEventStatus::Unhandled && nsel == sel && nselecting == selecting
                } else if selecting && !key.control && key.code == KeyCode::Left {
                    status == HandleEventStatus::Handled && nselecting && nsel == (if sel != 0 { sel - 1 } else { 0 })
                } else if selecting && !key.control && key.code == KeyCode::Right {
                    status == HandleEventStatus::Handled && nselecting && nsel == (if sel + 1 < n { sel + 1 } else { sel as int })
                } else if selecting && !key.control && key.code == KeyCode::Esc {
                    status == HandleEventStatus::Handled && !nselecting && nsel == sel
                } else {
                    nsel == sel && match key.code {
                        KeyCode::Enter => status == HandleEventStatus::Handled && nselecting == !selecting,
                        KeyCode::Left => status == HandleEventStatus::PassFocus(pos, PassFocusDirection::Left)
                            && nselecting == selecting,
                        KeyCode::Right => status == HandleEventStatus::PassFocus(pos, PassFocusDirection::Right)
                            && nselecting == selecting,
                        KeyCode::Up => status == HandleEventStatus::PassFocus(pos, PassFocusDirection::Up)
                            && nselecting == selecting,
                        KeyCode::Down => status == HandleEventStatus::PassFocus(pos, PassFocusDirection::Down)
                            && nselecting == selecting,
                        KeyCode::Tab => status == HandleEventStatus::PassFocus(pos, PassFocusDirection::Forward)
                            && nselecting == selecting,
                        KeyCode::Esc => status == HandleEventStatus::PassFocus(pos, PassFocusDirection::Away)
                            && nselecting == selecting,
                        _ => status == HandleEventStatus::Unhandled && nselecting == selecting,
                    }
                }
            }),
    {
        if key.is_release {
            return HandleEventStatus::Unhandled;
        }
        if let KeyCode::Char(c) = key.code {
            let c = ascii_lower_exec(c);
            match find_shortcut(&self.options, c) {
                Some(i) => {
                    if i != self.selected_index {
                        self.selected_index = i;
                        self.handler.selection_changed(i);
                        return HandleEventStatus::Handled;
                    }
                    return HandleEventStatus::Unhandled;
                },
                None => {
                    return HandleEventStatus::Unhandled;
                },
            }
        }
        if !is_focused {
            return HandleEventStatus::Unhandled;
        }
        if self.is_selecting && !key.control {
            match key.code {
                KeyCode::Left => {
                    if self.selected_index != 0 {
                        self.selected_index = self.selected_index - 1;
                        self.handler.selection_changed(self.selected_index);
                    }
                    return HandleEventStatus::Handled;
                },
                KeyCode::Right => {
                    if self.selected_index < self.options.len() - 1 {
                        self.selected_index = self.selected_index + 1;
                        self.handler.selection_changed(self.selected_index);
                    }
                    return HandleEventStatus::Handled;
                },
                KeyCode::Esc => {
                    self.is_selecting = false;
                    return HandleEventStatus::Handled;
                },
                _ => {},
            }
        }
        let pos = self.current_position;
        match key.code {
            KeyCode::Enter => {
                self.is_selecting = !self.is_selecting;
                HandleEventStatus::Handled
            },
            KeyCode::Left => HandleEventStatus::PassFocus(pos, PassFocusDirection::Left),
            KeyCode::Right => HandleEventStatus::PassFocus(pos, PassFocusDirection::Right),
            KeyCode::Up => HandleEventStatus::PassFocus(pos, PassFocusDirection::Up),
            KeyCode::Down => HandleEventStatus::PassFocus(pos, PassFocusDirection::Down),
            KeyCode::Tab => HandleEventStatus::PassFocus(pos, PassFocusDirection::Forward),
            KeyCode::Esc => HandleEventStatus::PassFocus(pos, PassFocusDirection::Away),
            _ => HandleEventStatus::Unhandled,
        }
    }

    /// Takes the focus, selecting right away if it autoselects.
    pub fn receive_focus(&mut self) -> (accepted: bool)
        ensures
            accepted,
            final(self).spec_handler() == old(self).spec_handler(),
            final(self).spec_focused(),
            final(self).spec_selecting() == old(self).spec_autoselect(),
            final(self).spec_selected() == old(self).spec_selected(),
            final(self).spec_shortcuts() == old(self).spec_shortcuts(),
            final(self).spec_position() == old(self).spec_position(),
            old(self).wf() ==> final(self).wf(),
    {
        self.is_focused = true;
        self.is_selecting = self.autoselect;
        true
    }

    /// Drops the focus, stopping any selecting.
    pub fn focus_lost(&mut self)
        ensures
            !final(self).spec_focused(),
            !final(self).spec_selecting(),
            final(self).spec_selected() == old(self).spec_selected(),
            final(self).spec_shortcuts() == old(self).spec_shortcuts(),
            final(self).spec_position() == old(self).spec_position(),
            old(self).wf() ==> final(self).wf(),
    {
        self.is_selecting = false;
        self.is_focused = false;
    }

    /// The width it asks for: the widest option, the arrows and the text after them, within
    /// what is available; one line.
    pub fn begin_resize(&self, width: u16, height: u16) -> (r: (u16, u16))
        ensures
            r.1 == 1,
            r.0 == (if width < self.spec_widths().0 + 4 + self.spec_widths().1 {
                width as int
            } else if self.spec_widths().0 + 4 + self.spec_widths().1 > u16::MAX {
                u16::MAX as int
            } else {
                self.spec_widths().0 + 4 + self.spec_widths().1
            }),
    {
        let desired: u32 = self.options_max_width as u32 + 4 + self.after_text_len as u32;
        let desired: u16 = if desired > 65535 { 65535 } else { desired as u16 };
        (if width < desired { width } else { desired }, 1)
    }
}

} // verus!
