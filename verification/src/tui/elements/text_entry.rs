//! A single-line text entry: the text, the cursor while typing, and the editing keys.

use vstd::prelude::*;
use vstd::utf8::encode_utf8;

use crate::text::{
    char_utf8_len, is_alphanumeric, lemma_encode_utf8_concat, lemma_encode_utf8_push_exact, len_utf8, str_chars,
    string_from_chars, unicode_alphanumeric,
};
use crate::tui::ui_element::{HandleEventStatus, KeyCode, KeyInput, PassFocusDirection};

verus! {

/// The number of bytes of the UTF-8 encoding of a sequence of characters.
pub open spec fn bytes_of(s: Seq<char>) -> int {
    encode_utf8(s).len() as int
}

/// How many characters at the end of `s` are alphanumeric (or, for `alnum == false`, are not).
pub open spec fn trailing_run(s: Seq<char>, alnum: bool) -> nat
    decreases s.len(),
{
    if s.len() > 0 && unicode_alphanumeric(s.last()) == alnum {
        1 + trailing_run(s.drop_last(), alnum)
    } else {
        0
    }
}

/// How many characters at the start of `s` are alphanumeric (or, for `alnum == false`, are
/// not).
pub open spec fn leading_run(s: Seq<char>, alnum: bool) -> nat
    decreases s.len(),
{
    if s.len() > 0 && unicode_alphanumeric(s[0]) == alnum {
        1 + leading_run(s.drop_first(), alnum)
    } else {
        0
    }
}

/// How many characters a word skip to the left passes over from the end of `s`: the
/// non-alphanumeric ones there, then the alphanumeric ones before them.
pub open spec fn wordskip_left_chars(s: Seq<char>) -> nat {
    let n = trailing_run(s, false);
    n + trailing_run(s.subrange(0, s.len() - n), true)
}

/// How many characters a word skip to the right passes over from the start of `s`: the
/// alphanumeric ones there, then the non-alphanumeric ones after them.
pub open spec fn wordskip_right_chars(s: Seq<char>) -> nat {
    let n = leading_run(s, true);
    n + leading_run(s.subrange(n as int, s.len() as int), false)
}

proof fn lemma_trailing_run_bound(s: Seq<char>, alnum: bool)
    ensures
        trailing_run(s, alnum) <= s.len(),
    decreases s.len(),
{
    if s.len() > 0 && unicode_alphanumeric(s.last()) == alnum {
        lemma_trailing_run_bound(s.drop_last(), alnum);
    }
}

proof fn lemma_leading_run_bound(s: Seq<char>, alnum: bool)
    ensures
        leading_run(s, alnum) <= s.len(),
    decreases s.len(),
{
    if s.len() > 0 && unicode_alphanumeric(s[0]) == alnum {
        lemma_leading_run_bound(s.drop_first(), alnum);
    }
}

/// Where the characters from `i` on all have the property, the run at the end of `s` is them
/// and the run at the end of what comes before them.
proof fn lemma_trailing_run_split(s: Seq<char>, alnum: bool, i: int)
    requires
        0 <= i <= s.len(),
        forall|k: int| i <= k < s.len() ==> unicode_alphanumeric(#[trigger] s[k]) == alnum,
    ensures
        trailing_run(s, alnum) == (s.len() - i) + trailing_run(s.subrange(0, i), alnum),
    decreases s.len() - i,
{
    if i < s.len() {
        assert(unicode_alphanumeric(s[s.len() - 1]) == alnum);
        lemma_trailing_run_split(s.drop_last(), alnum, i);
        assert(s.drop_last().subrange(0, i) =~= s.subrange(0, i));
    } else {
        assert(s.subrange(0, i) =~= s);
    }
}

/// Where the characters before `i` all have the property, the run at the start of `s` is them
/// and the run at the start of what comes after them.
proof fn lemma_leading_run_split(s: Seq<char>, alnum: bool, i: int)
    requires
        0 <= i <= s.len(),
        forall|k: int| 0 <= k < i ==> unicode_alphanumeric(#[trigger] s[k]) == alnum,
    ensures
        leading_run(s, alnum) == i + leading_run(s.subrange(i, s.len() as int), alnum),
    decreases i,
{
    if i > 0 {
        assert(unicode_alphanumeric(s[0]) == alnum);
        assert forall|k: int| 0 <= k < i - 1 implies unicode_alphanumeric(#[trigger] s.drop_first()[k])
            == alnum by {
            assert(s.drop_first()[k] == s[k + 1]);
        }
        lemma_leading_run_split(s.drop_first(), alnum, i - 1);
        assert(s.drop_first().subrange(i - 1, s.len() - 1) =~= s.subrange(i, s.len() as int));
    } else {
        assert(s.subrange(0, s.len() as int) =~= s);
    }
}

/// The bytes of a concatenation are those of each part.
pub proof fn lemma_bytes_concat(a: Seq<char>, b: Seq<char>)
    ensures
        bytes_of(a + b) == bytes_of(a) + bytes_of(b),
{
    lemma_encode_utf8_concat(a, b);
}

/// The UTF-8 length of `v[start..end]`, counted one character at a time from the end.
pub(crate) fn bytes_between(v: &Vec<char>, start: usize, end: usize) -> (n: usize)
    requires
        start <= end <= v.len(),
        bytes_of(v@.subrange(start as int, end as int)) <= usize::MAX,
    ensures
        n == bytes_of(v@.subrange(start as int, end as int)),
{
    let mut n: usize = 0;
    let mut i: usize = start;
    assert(encode_utf8(v@.subrange(start as int, start as int)) =~= Seq::<u8>::empty());
    while i < end
        invariant
            start <= i <= end <= v.len(),
            n == bytes_of(v@.subrange(start as int, i as int)),
            bytes_of(v@.subrange(start as int, end as int)) <= usize::MAX,
        decreases end - i,
    {
        proof {
            lemma_encode_utf8_push_exact(v@.subrange(start as int, i as int), v@[i as int]);
            assert(v@.subrange(start as int, i + 1) =~= v@.subrange(start as int, i as int).push(v@[i as int]));
            lemma_bytes_concat(v@.subrange(start as int, i + 1), v@.subrange(i + 1, end as int));
            assert(v@.subrange(start as int, i + 1) + v@.subrange(i + 1, end as int) =~= v@.subrange(
                start as int,
                end as int,
            ));
        }
        n = n + len_utf8(v[i]);
        i = i + 1;
    }
    n
}

/// How many characters a word skip to the left passes over from position `end` of `v`.
fn wordskip_left_at(v: &Vec<char>, end: usize) -> (n: usize)
    requires
        end <= v.len(),
    ensures
        n == wordskip_left_chars(v@.subrange(0, end as int)),
        n <= end,
{
    let ghost s = v@.subrange(0, end as int);
    let mut i: usize = end;
    while i > 0 && !is_alphanumeric(v[i - 1])
        invariant
            i <= end <= v.len(),
            s == v@.subrange(0, end as int),
            forall|k: int| i <= k < end ==> !unicode_alphanumeric(#[trigger] s[k]),
        decreases i,
    {
        assert(s[i - 1] == v@[i - 1]);
        i = i - 1;
    }
    proof {
        lemma_trailing_run_split(s, false, i as int);
        if i > 0 {
            assert(s.subrange(0, i as int).last() == v@[i - 1]);
        }
        assert(trailing_run(s, false) == end - i);
    }
    let mid: usize = i;
    while i > 0 && is_alphanumeric(v[i - 1])
        invariant
            i <= mid <= end <= v.len(),
            s == v@.subrange(0, end as int),
            forall|k: int| i <= k < mid ==> unicode_alphanumeric(#[trigger] s[k]),
        decreases i,
    {
        assert(s[i - 1] == v@[i - 1]);
        i = i - 1;
    }
    proof {
        let t = s.subrange(0, mid as int);
        assert forall|k: int| i <= k < t.len() implies unicode_alphanumeric(#[trigger] t[k]) == true by {
            assert(t[k] == s[k]);
        }
        lemma_trailing_run_split(t, true, i as int);
        if i > 0 {
            assert(t.subrange(0, i as int).last() == v@[i - 1]);
        }
    }
    end - i
}

/// How many characters a word skip to the right passes over from position `start` of `v`.
fn wordskip_right_at(v: &Vec<char>, start: usize) -> (n: usize)
    requires
        start <= v.len(),
    ensures
        n == wordskip_right_chars(v@.subrange(start as int, v.len() as int)),
        start + n <= v.len(),
{
    let ghost s = v@.subrange(start as int, v.len() as int);
    let mut i: usize = start;
    while i < v.len() && is_alphanumeric(v[i])
        invariant
            start <= i <= v.len(),
            s == v@.subrange(start as int, v.len() as int),
            forall|k: int| 0 <= k < i - start ==> unicode_alphanumeric(#[trigger] s[k]),
        decreases v.len() - i,
    {
        assert(s[i - start] == v@[i as int]);
        i = i + 1;
    }
    proof {
        lemma_leading_run_split(s, true, i - start);
        if i < v.len() {
            assert(s.subrange(i - start, s.len() as int)[0] == v@[i as int]);
        }
    }
    let mid: usize = i;
    while i < v.len() && !is_alphanumeric(v[i])
        invariant
            start <= mid <= i <= v.len(),
            s == v@.subrange(start as int, v.len() as int),
            forall|k: int| mid - start <= k < i - start ==> !unicode_alphanumeric(#[trigger] s[k]),
        decreases v.len() - i,
    {
        assert(s[i - start] == v@[i as int]);
        i = i + 1;
    }
    proof {
        let t = s.subrange(mid - start, s.len() as int);
        assert forall|k: int| 0 <= k < i - mid implies unicode_alphanumeric(#[trigger] t[k]) == false by {
            assert(t[k] == s[k + mid - start]);
        }
        lemma_leading_run_split(t, false, i - mid);
        if i < v.len() {
            assert(t.subrange(i - mid, t.len() as int)[0] == v@[i as int]);
        }
    }
    i - start
}

/// How far a word skip to the left (CONTROL with LEFT or BACKSPACE) goes from the end of `s`:
/// over the non-alphanumeric characters there, then over the alphanumeric ones before them.
/// Answers (bytes, characters).
pub fn calc_wordskip_left(s: &str) -> (r: (usize, usize))
    requires
        bytes_of(s@) <= usize::MAX,
    ensures
        r.1 == wordskip_left_chars(s@),
        r.0 == bytes_of(s@.subrange(s@.len() - r.1, s@.len() as int)),
{
    let v = str_chars(s);
    let chars = wordskip_left_at(&v, v.len());
    assert(v@.subrange(0, v.len() as int) =~= s@);
    proof {
        lemma_bytes_concat(s@.subrange(0, s@.len() - chars), s@.subrange(s@.len() - chars, s@.len() as int));
        assert(s@.subrange(0, s@.len() - chars) + s@.subrange(s@.len() - chars, s@.len() as int) =~= s@);
    }
    let bytes = bytes_between(&v, v.len() - chars, v.len());
    (bytes, chars)
}

/// How far a word skip to the right (CONTROL with RIGHT or DELETE) goes from the start of
/// `s`: over the alphanumeric characters there, then over the non-alphanumeric ones after
/// them. Answers (bytes, characters).
pub fn calc_wordskip_right(s: &str) -> (r: (usize, usize))
    requires
        bytes_of(s@) <= usize::MAX,
    ensures
        r.1 == wordskip_right_chars(s@),
        r.0 == bytes_of(s@.subrange(0, r.1 as int)),
{
    let v = str_chars(s);
    let chars = wordskip_right_at(&v, 0);
    assert(v@.subrange(0, v.len() as int) =~= s@);
    proof {
        lemma_bytes_concat(s@.subrange(0, chars as int), s@.subrange(chars as int, s@.len() as int));
        assert(s@.subrange(0, chars as int) + s@.subrange(chars as int, s@.len() as int) =~= s@);
    }
    let bytes = bytes_between(&v, 0, chars);
    (bytes, chars)
}

/// What pressing ENTER in a text entry comes to.
#[derive(Debug, Clone, Copy, PartialEq, Eq, Structural)]
pub enum OnEnterResult {
    Handled,
    Unhandled,
    PassFocusAway,
}

/// Where the cursor of a text entry is, in bytes and in characters from the start of the text.
#[derive(Debug, Clone, Copy, PartialEq, Eq, Structural)]
pub struct CursorPosition {
    pub index_bytes: usize,
    pub index_chars: usize,
}

/// What a text entry asks of its user: what ENTER does, whether a typed character is taken,
/// and whether the entry keeps the focus once its text changed. Each is given the text.
pub trait TextEntryHandler {
    /// Whether the handler takes the character `c` typed at `cursor` into `text`; a handler
    /// that does not say takes every character.
    open spec fn takes_char(&self, text: Seq<char>, c: char, cursor: CursorPosition) -> bool {
        true
    }

    fn on_enter(&mut self, text: &Vec<char>) -> OnEnterResult;

    /// Whether the character `c` typed at `cursor` is to be inserted into `text`.
    fn on_char(&mut self, text: &Vec<char>, c: char, cursor: &CursorPosition) -> (taken: bool)
        ensures
            taken == old(self).takes_char(text@, c, *cursor),
    ;

    fn on_text_changed(&mut self, text: &Vec<char>) -> bool;
}

/// A single-line text entry: its text, the longest text it takes, the cursor while typing,
/// its handler and where it is on the screen.
pub struct TextEntry<H: TextEntryHandler> {
    text: Vec<char>,
    len_bytes: usize,
    max_length: usize,
    cursor: Option<CursorPosition>,
    pub handler: H,
    current_position: (u16, u16),
}

/// Removes `v[a..b]`.
fn remove_range(v: &mut Vec<char>, a: usize, b: usize)
    requires
        a <= b <= old(v).len(),
    ensures
        final(v)@ == old(v)@.subrange(0, a as int) + old(v)@.subrange(b as int, old(v)@.len() as int),
{
    let mut k: usize = b;
    while k > a
        invariant
            a <= k <= b <= old(v).len(),
            v@ == old(v)@.subrange(0, k as int) + old(v)@.subrange(b as int, old(v)@.len() as int),
        decreases k,
    {
        v.remove(k - 1);
        assert(v@ =~= old(v)@.subrange(0, k - 1) + old(v)@.subrange(b as int, old(v)@.len() as int));
        k = k - 1;
    }
}

impl<H: TextEntryHandler> TextEntry<H> {
    pub closed spec fn spec_text(&self) -> Seq<char> {
        self.text@
    }

    pub closed spec fn spec_cursor(&self) -> Option<CursorPosition> {
        self.cursor
    }

    pub closed spec fn spec_max_length(&self) -> usize {
        self.max_length
    }

    pub closed spec fn spec_position(&self) -> (u16, u16) {
        self.current_position
    }

    pub closed spec fn spec_handler(&self) -> H {
        self.handler
    }

    /// The byte count kept is the text's, and a cursor sits between two characters of the
    /// text, its byte index that of the text before it.
    pub closed spec fn wf(&self) -> bool {
        &&& self.len_bytes == bytes_of(self.text@)
        &&& (self.cursor matches Some(c) ==> {
            &&& c.index_chars <= self.text@.len()
            &&& c.index_bytes == bytes_of(self.text@.subrange(0, c.index_chars as int))
        })
    }

    pub fn new(text: String, max_length: usize, handler: H) -> (e: Self)
        requires
            bytes_of(text@) <= usize::MAX,
        ensures
            e.wf(),
            e.spec_text() == text@,
            e.spec_max_length() == max_length,
            e.spec_cursor() is None,
            e.spec_position() == (0u16, 0u16),
            e.spec_handler() == handler,
    {
        let text = str_chars(text.as_str());
        assert(text@.subrange(0, text@.len() as int) =~= text@);
        let len_bytes = bytes_between(&text, 0, text.len());
        Self { text, len_bytes, max_length, cursor: None, handler, current_position: (0, 0) }
    }

    /// The text.
    pub fn text(&self) -> (s: String)
        ensures
            s@ == self.spec_text(),
    {
        string_from_chars(&self.text, 0, self.text.len())
    }

    /// Whether the entry is being typed in.
    pub fn is_typing(&self) -> (r: bool)
        ensures
            r == self.spec_cursor() is Some,
    {
        self.cursor.is_some()
    }

    /// The cursor while typing.
    pub fn cursor(&self) -> (r: Option<CursorPosition>)
        ensures
            r == self.spec_cursor(),
    {
        self.cursor
    }

    /// Takes a new position on the screen.
    pub fn resize(&mut self, x: u16, y: u16)
        requires
            old(self).wf(),
        ensures
            final(self).wf(),
            final(self).spec_position() == (x, y),
            final(self).spec_text() == old(self).spec_text(),
            final(self).spec_cursor() == old(self).spec_cursor(),
            final(self).spec_max_length() == old(self).spec_max_length(),
    {
        self.current_position = (x, y);
    }

    /// The size it asks for: one line, as wide as the longest text it takes within the width
    /// available.
    pub fn begin_resize(&self, width: u16, height: u16) -> (r: (u16, u16))
        ensures
            r == ((if self.spec_max_length() < width { self.spec_max_length() as u16 } else { width }), 1u16),
    {
        (if self.max_length < width as usize { self.max_length as u16 } else { width }, 1)
    }

    /// Starts typing, with the cursor at the end of the text.
    pub fn receive_focus(&mut self) -> (accepted: bool)
        requires
            old(self).wf(),
        ensures
            final(self).wf(),
            accepted,
            final(self).spec_cursor() == Some(
                CursorPosition {
                    index_bytes: bytes_of(old(self).spec_text()) as usize,
                    index_chars: old(self).spec_text().len() as usize,
                },
            ),
            final(self).spec_text() == old(self).spec_text(),
            final(self).spec_max_length() == old(self).spec_max_length(),
            final(self).spec_position() == old(self).spec_position(),
    {
        self.cursor = Some(CursorPosition { index_bytes: self.len_bytes, index_chars: self.text.len() });
        assert(self.text@.subrange(0, self.text@.len() as int) =~= self.text@);
        true
    }

    /// Stops typing.
    pub fn focus_lost(&mut self)
        requires
            old(self).wf(),
        ensures
            final(self).wf(),
            final(self).spec_cursor() is None,
            final(self).spec_text() == old(self).spec_text(),
            final(self).spec_max_length() == old(self).spec_max_length(),
            final(self).spec_position() == old(self).spec_position(),
    {
        self.cursor = None;
    }

    /// Handles a key press while typing. A character is inserted at the cursor exactly when
    /// the text is shorter than its limit and the handler takes it (and its bytes still fit a
    /// `usize`); BACKSPACE and DELETE remove the
    /// character (with CONTROL, the word) before or after the cursor; LEFT and RIGHT move the
    /// cursor by a character (with CONTROL, a word); HOME and END move it to either end. After
    /// any of these the handler is told the text changed, and the focus is passed away if it
    /// asks. UP, DOWN and ESC pass the focus on; ENTER goes to the handler.
    pub fn handle_event(&mut self, key: KeyInput, is_focused: bool) -> (status: HandleEventStatus)
        requires
            old(self).wf(),
        ensures
            final(self).wf(),
            final(self).spec_max_length() == old(self).spec_max_length(),
            final(self).spec_position() == old(self).spec_position(),
            final(self).spec_cursor() is Some == old(self).spec_cursor() is Some,
            ({
                let pos = old(self).spec_position();
                let text = old(self).spec_text();
                let new_text = final(self).spec_text();
                match old(self).spec_cursor() {
                    None => status == HandleEventStatus::Unhandled && new_text == text,
                    Some(c) => {
                        let i = c.index_chars as int;
                        let ni = final(self).spec_cursor()->0.index_chars as int;
                        let edited = status == HandleEventStatus::Handled || status
                            == HandleEventStatus::PassFocus(pos, PassFocusDirection::Away);
                        if !is_focused || key.is_release {
                            status == HandleEventStatus::Unhandled && new_text == text && ni == i
                        } else {
                            match key.code {
                                KeyCode::Char(ch) => if text.len() < old(self).spec_max_length() {
                                    edited && (if old(self).spec_handler().takes_char(text, ch, c) && bytes_of(text)
                                        + char_utf8_len(ch) <= usize::MAX {
                                        new_text == text.insert(i, ch) && ni == i + 1
                                    } else {
                                        new_text == text && ni == i
                                    })
                                } else {
                                    status == HandleEventStatus::Unhandled && new_text == text && ni == i
                                },
                                KeyCode::Backspace => {
                                    let n: int = if key.control {
                                        wordskip_left_chars(text.subrange(0, i)) as int
                                    } else if i > 0 {
                                        1
                                    } else {
                                        0
                                    };
                                    edited && new_text == text.subrange(0, i - n) + text.subrange(i, text.len() as int)
                                        && ni == i - n
                                },
                                KeyCode::Delete => {
                                    let rest = text.subrange(i, text.len() as int);
                                    let n: int = if key.control {
                                        wordskip_right_chars(rest) as int
                                    } else if rest.len() > 0 {
                                        1
                                    } else {
                                        0
                                    };
                                    edited && new_text == text.subrange(0, i) + text.subrange(i + n, text.len() as int)
                                        && ni == i
                                },
                                KeyCode::Left => {
                                    let n: int = if key.control {
                                        wordskip_left_chars(text.subrange(0, i)) as int
                                    } else if i > 0 {
                                        1
                                    } else {
                                        0
                                    };
                                    edited && new_text == text && ni == i - n
                                },
                                KeyCode::Right => {
                                    let rest = text.subrange(i, text.len() as int);
                                    let n: int = if key.control {
                                        wordskip_right_chars(rest) as int
                                    } else if rest.len() > 0 {
                                        1
                                    } else {
                                        0
                                    };
                                    edited && new_text == text && ni == i + n
                                },
                                KeyCode::Home => edited && new_text == text && ni == 0,
                                KeyCode::End => edited && new_text == text && ni == text.len(),
                                KeyCode::Up => status == HandleEventStatus::PassFocus(pos, PassFocusDirection::Up)
                                    && new_text == text && ni == i,
                                KeyCode::Down => status == HandleEventStatus::PassFocus(
                                    pos,
                                    PassFocusDirection::Down,
                                ) && new_text == text && ni == i,
                                KeyCode::Esc => status == HandleEventStatus::PassFocus(
                                    pos,
                                    PassFocusDirection::Away,
                                ) && new_text == text && ni == i,
                                KeyCode::Enter => (edited || status == HandleEventStatus::Unhandled) && new_text
                                    == text && ni == i,
                                _ => status == HandleEventStatus::Unhandled && new_text == text && ni == i,
                            }
                        }
                    },
                }
            }),
    {
        if !is_focused || key.is_release {
            return HandleEventStatus::Unhandled;
        }
        let cursor = match self.cursor {
            Some(c) => c,
            None => {
                return HandleEventStatus::Unhandled;
            },
        };
        let pos = self.current_position;
        let i = cursor.index_chars;
        let ghost text = self.text@;
        proof {
            lemma_bytes_concat(text.subrange(0, i as int), text.subrange(i as int, text.len() as int));
            assert(text.subrange(0, i as int) + text.subrange(i as int, text.len() as int) =~= text);
        }
        match key.code {
            KeyCode::Char(c) => {
                if self.text.len() >= self.max_length {
                    return HandleEventStatus::Unhandled;
                }
                if self.handler.on_char(&self.text, c, &cursor) {
                    let n = len_utf8(c);
                    proof {
                        lemma_encode_utf8_push_exact(text.subrange(0, i as int), c);
                        lemma_bytes_concat(text.subrange(0, i as int).push(c), text.subrange(i as int, text.len() as int));
                        assert(text.subrange(0, i as int).push(c) + text.subrange(i as int, text.len() as int) =~= text.insert(
                            i as int,
                            c,
                        ));
                    }
                    if self.len_bytes <= usize::MAX - n {
                        self.text.insert(i, c);
                        self.len_bytes = self.len_bytes + n;
                        self.cursor = Some(CursorPosition { index_bytes: cursor.index_bytes + n, index_chars: i + 1 });
                        assert(self.text@.subrange(0, i + 1) =~= text.subrange(0, i as int).push(c));
                    }
                }
            },
            KeyCode::Backspace | KeyCode::Left => {
                let n: usize = if key.control {
                    wordskip_left_at(&self.text, i)
                } else if i > 0 {
                    1
                } else {
                    0
                };
                proof {
                    lemma_bytes_concat(text.subrange(0, i - n), text.subrange(i - n, i as int));
                    assert(text.subrange(0, i - n) + text.subrange(i - n, i as int) =~= text.subrange(0, i as int));
                }
                if n != 0 {
                    let b = bytes_between(&self.text, i - n, i);
                    if key.code == KeyCode::Backspace {
                        remove_range(&mut self.text, i - n, i);
                        self.len_bytes = self.len_bytes - b;
                        proof {
                            lemma_bytes_concat(text.subrange(0, i - n), text.subrange(i as int, text.len() as int));
                            assert(self.text@.subrange(0, i - n) =~= text.subrange(0, i - n));
                        }
                    }
                    self.cursor = Some(CursorPosition { index_bytes: cursor.index_bytes - b, index_chars: i - n });
                    assert(self.text@.subrange(0, i - n) =~= text.subrange(0, i - n));
                }
            },
            KeyCode::Delete | KeyCode::Right => {
                let len = self.text.len();
                let n: usize = if key.control {
                    wordskip_right_at(&self.text, i)
                } else if i < len {
                    1
                } else {
                    0
                };
                proof {
                    lemma_bytes_concat(text.subrange(i as int, i + n), text.subrange(i + n, text.len() as int));
                    assert(text.subrange(i as int, i + n) + text.subrange(i + n, text.len() as int) =~= text.subrange(
                        i as int,
                        text.len() as int,
                    ));
                }
                if n != 0 {
                    let b = bytes_between(&self.text, i, i + n);
                    if key.code == KeyCode::Delete {
                        remove_range(&mut self.text, i, i + n);
                        self.len_bytes = self.len_bytes - b;
                        proof {
                            lemma_bytes_concat(text.subrange(0, i as int), text.subrange(i + n, text.len() as int));
                            assert(self.text@.subrange(0, i as int) =~= text.subrange(0, i as int));
                        }
                    } else {
                        self.cursor = Some(CursorPosition { index_bytes: cursor.index_bytes + b, index_chars: i + n });
                        proof {
                            lemma_bytes_concat(text.subrange(0, i as int), text.subrange(i as int, i + n));
                            assert(text.subrange(0, i as int) + text.subrange(i as int, i + n) =~= text.subrange(0, i + n));
                        }
                    }
                }
            },
            KeyCode::End => {
                self.cursor = Some(CursorPosition { index_bytes: self.len_bytes, index_chars: self.text.len() });
                assert(text.subrange(0, text.len() as int) =~= text);
            },
            KeyCode::Home => {
                self.cursor = Some(CursorPosition { index_bytes: 0, index_chars: 0 });
                assert(encode_utf8(text.subrange(0, 0)) =~= Seq::<u8>::empty());
            },
            KeyCode::Up => {
                return HandleEventStatus::PassFocus(pos, PassFocusDirection::Up);
            },
            KeyCode::Down => {
                return HandleEventStatus::PassFocus(pos, PassFocusDirection::Down);
            },
            KeyCode::Esc => {
                return HandleEventStatus::PassFocus(pos, PassFocusDirection::Away);
            },
            KeyCode::Enter => {
                return match self.handler.on_enter(&self.text) {
                    OnEnterResult::Handled => HandleEventStatus::Handled,
                    OnEnterResult::Unhandled => HandleEventStatus::Unhandled,
                    OnEnterResult::PassFocusAway => HandleEventStatus::PassFocus(pos, PassFocusDirection::Away),
                };
            },
            _ => {
                return HandleEventStatus::Unhandled;
            },
        }
        if self.handler.on_text_changed(&self.text) {
            HandleEventStatus::Handled
        } else {
            HandleEventStatus::PassFocus(pos, PassFocusDirection::Away)
        }
    }
}

/// While typing in an entry `width` characters wide, how many characters to show before the
/// cursor and after it, so the cursor stays in view and as centered as the text allows.
pub open spec fn typing_view_spec(index_chars: int, text_len: int, width: int, max_length: int) -> (int, int) {
    let from0 = index_chars - (width + 1) / 2;
    let to0 = index_chars + width / 2;
    let to1 = if from0 < 0 { to0 - from0 } else { to0 };
    let from1 = if from0 < 0 { 0 } else { from0 };
    let from2 = if to1 > text_len { sat(from1 - (to1 - text_len)) } else { from1 };
    let to2 = if to1 > text_len { text_len } else { to1 };
    let before = sat(index_chars - from2);
    let after = sat(to2 - index_chars);
    let before2 = if index_chars != max_length && before == width { sat(before - 1) } else { before };
    (before2, after)
}

/// `v`, or zero where it is negative.
pub open spec fn sat(v: int) -> int {
    if v < 0 { 0 } else { v }
}

/// How many characters to show before the cursor and after it while typing.
pub fn typing_view(index_chars: usize, text_len: usize, width: u16, max_length: usize) -> (r: (u16, u16))
    requires
        index_chars <= text_len,
    ensures
        r.0 as int == typing_view_spec(index_chars as int, text_len as int, width as int, max_length as int).0,
        r.1 as int == typing_view_spec(index_chars as int, text_len as int, width as int, max_length as int).1,
        r.0 + r.1 <= width,
{
    let index: i128 = index_chars as i128;
    let len: i128 = text_len as i128;
    let w: i128 = width as i128;
    let mut from: i128 = index - (w + 1) / 2;
    let mut to: i128 = index + w / 2;
    if from < 0 {
        to = to - from;
        from = 0;
    }
    if to > len {
        let over: i128 = to - len;
        from = if from > over { from - over } else { 0 };
        to = len;
    }
    let mut before: i128 = if index > from { index - from } else { 0 };
    let after: i128 = if to > index { to - index } else { 0 };
    if index != max_length as i128 && before == w {
        before = if before > 1 { before - 1 } else { 0 };
    }
    (before as u16, after as u16)
}

} // verus!
