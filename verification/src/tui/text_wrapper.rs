//! Strings that are either static or owned, and the splitting of text into lines of a given
//! width.

use vstd::prelude::*;
use vstd::utf8::{encode_utf8, is_char_boundary};

use crate::text::{
    count_leading_ws, count_trailing_ws, is_whitespace, lemma_encode_utf8_concat, lemma_leading_ws_bound,
    lemma_trailing_ws_bound, str_chars, string_from_chars, trim_chars, trim_end_spec, trim_spec,
    trim_start_spec, unicode_whitespace,
};
use crate::tui::elements::text_entry::{bytes_between, bytes_of, lemma_bytes_concat};

verus! {

/// A string that is either static or owned.
#[derive(Debug)]
pub enum StaticString {
    Static(&'static str),
    Owned(String),
}

impl View for StaticString {
    type V = Seq<char>;

    open spec fn view(&self) -> Seq<char> {
        match self {
            StaticString::Static(s) => s@,
            StaticString::Owned(s) => s@,
        }
    }
}

/// `str::trim_start` on a static string: the string without its leading whitespace (the
/// Unicode `White_Space` characters, as its documentation says).
#[verifier::external_body]
fn static_trim_start(s: &'static str) -> (r: &'static str)
    ensures
        r@ == trim_start_spec(s@),
{
    s.trim_start()
}

/// `str::trim_end` on a static string: the string without its trailing whitespace (the
/// Unicode `White_Space` characters, as its documentation says).
#[verifier::external_body]
fn static_trim_end(s: &'static str) -> (r: &'static str)
    ensures
        r@ == trim_end_spec(s@),
{
    s.trim_end()
}

/// Splitting a string's UTF-8 at a byte index splits its characters: the parts are the
/// characters whose encodings are the two parts of the bytes.
proof fn lemma_split_bytes(all: Seq<char>, left: Seq<char>, right: Seq<char>, index: int)
    requires
        0 <= index <= encode_utf8(all).len(),
        encode_utf8(left) == encode_utf8(all).subrange(0, index),
        encode_utf8(right) == encode_utf8(all).subrange(index, encode_utf8(all).len() as int),
    ensures
        left + right == all,
        bytes_of(left) == index,
{
    lemma_encode_utf8_concat(left, right);
    assert(encode_utf8(left) + encode_utf8(right) =~= encode_utf8(all));
    vstd::utf8::encode_utf8_decode_utf8(left + right);
    vstd::utf8::encode_utf8_decode_utf8(all);
}

impl StaticString {
    /// The text.
    pub fn as_str(&self) -> (s: &str)
        ensures
            s@ == self@,
    {
        match self {
            StaticString::Static(s) => s,
            StaticString::Owned(s) => s.as_str(),
        }
    }

    /// An empty static string.
    pub fn default() -> (s: Self)
        ensures
            s is Static,
            s@ == Seq::<char>::empty(),
    {
        proof {
            reveal_strlit("");
        }
        StaticString::Static("")
    }

    /// Removes the leading whitespace.
    pub fn trim_starting_whitespace(&mut self)
        ensures
            final(self)@ == trim_start_spec(old(self)@),
            (*old(self) is Static) == (*final(self) is Static),
    {
        match self {
            StaticString::Static(s) => {
                *self = StaticString::Static(static_trim_start(s));
            },
            StaticString::Owned(s) => {
                let chars = str_chars(s.as_str());
                let lead = count_leading_ws(&chars, 0);
                assert(chars@.skip(0) =~= chars@);
                let trimmed = string_from_chars(&chars, lead, chars.len());
                assert(trimmed@ =~= trim_start_spec(chars@));
                *self = StaticString::Owned(trimmed);
            },
        }
    }

    /// Removes the trailing whitespace.
    pub fn trim_trailing_whitespace(&mut self)
        ensures
            final(self)@ == trim_end_spec(old(self)@),
            (*old(self) is Static) == (*final(self) is Static),
    {
        match self {
            StaticString::Static(s) => {
                *self = StaticString::Static(static_trim_end(s));
            },
            StaticString::Owned(s) => {
                let chars = str_chars(s.as_str());
                let trail = count_trailing_ws(&chars, chars.len());
                assert(chars@.take(chars.len() as int) =~= chars@);
                let trimmed = string_from_chars(&chars, 0, chars.len() - trail);
                assert(trimmed@ =~= trim_end_spec(chars@));
                *self = StaticString::Owned(trimmed);
            },
        }
    }

    /// Splits the string at a byte index, which must fall between two characters, optionally
    /// removing the whitespace at the end of the left part and at the start of the right one.
    /// A static string splits into static parts, an owned one into owned parts.
    pub fn split_at(self, index: usize, trim_whitespaces: bool) -> (r: (StaticString, StaticString))
        requires
            is_char_boundary(encode_utf8(self@), index as int),
            index <= encode_utf8(self@).len(),
        ensures
            exists|left: Seq<char>, right: Seq<char>|
                {
                    &&& left + right == self@
                    &&& bytes_of(left) == index
                    &&& r.0@ == (if trim_whitespaces { trim_end_spec(left) } else { left })
                    &&& r.1@ == (if trim_whitespaces { trim_start_spec(right) } else { right })
                },
            (r.0 is Static) == (self is Static),
            (r.1 is Static) == (self is Static),
    {
        let ghost all = self@;
        let (mut left, mut right) = match self {
            StaticString::Static(s) => {
                let (a, b) = s.split_at(index);
                (StaticString::Static(a), StaticString::Static(b))
            },
            StaticString::Owned(s) => {
                let (a, b) = s.as_str().split_at(index);
                (StaticString::Owned(a.to_owned()), StaticString::Owned(b.to_owned()))
            },
        };
        let ghost l0 = left@;
        let ghost r0 = right@;
        proof {
            lemma_split_bytes(all, l0, r0, index as int);
        }
        if trim_whitespaces {
            left.trim_trailing_whitespace();
            right.trim_starting_whitespace();
        }
        (left, right)
    }
}

/// The number of characters, from the start of `rem`, of the next wrapped line, scanning from
/// position `k` with the last whitespace seen at `split` (zero for none): a line ends before
/// the last whitespace once it reaches the width, or right after the character that reaches
/// it when no whitespace was seen or the text goes on with whitespace (or ends).
pub open spec fn wrap_scan(rem: Seq<char>, w: int, k: nat, split: nat) -> nat
    decreases rem.len() - k,
{
    if k >= rem.len() {
        rem.len()
    } else {
        let split1 = if unicode_whitespace(rem[k as int]) { k } else { split };
        if k + 1 >= w {
            if split1 == 0 || k + 1 >= rem.len() || unicode_whitespace(rem[(k + 1) as int]) {
                k + 1
            } else {
                split1
            }
        } else {
            wrap_scan(rem, w, k + 1, split1)
        }
    }
}

/// The number of characters of the next line when wrapping `rem` to width `w`.
pub open spec fn wrap_line_chars(rem: Seq<char>, w: int) -> nat {
    wrap_scan(rem, w, 1, 0)
}

pub proof fn lemma_wrap_scan_bounds(rem: Seq<char>, w: int, k: nat, split: nat)
    requires
        1 <= k,
        split < k,
    ensures
        1 <= wrap_scan(rem, w, k, split) <= rem.len() || (rem.len() < k && wrap_scan(rem, w, k, split) == rem.len()),
        rem.len() >= 1 ==> 1 <= wrap_scan(rem, w, k, split) <= rem.len(),
    decreases rem.len() - k,
{
    if k < rem.len() {
        let split1 = if unicode_whitespace(rem[k as int]) { k } else { split };
        if k + 1 < w {
            lemma_wrap_scan_bounds(rem, w, k + 1, split1);
        }
    }
}

/// The lines, in order, that wrapping `rem` to width `w` gives, where `rem` starts `index`
/// bytes into the trimmed text: each line as `WrapTextIter::next` gives it, then the lines of
/// what follows it with its leading whitespace removed.
pub open spec fn wrap_items(rem: Seq<char>, w: int, index: int) -> Seq<WrapTextIterItem>
    decreases rem.len(),
{
    if rem.len() == 0 {
        Seq::empty()
    } else {
        let n = wrap_line_chars(rem, w);
        let after = rem.subrange(n as int, rem.len() as int);
        let rest = trim_start_spec(after);
        proof {
            lemma_wrap_scan_bounds(rem, w, 1, 0);
            lemma_leading_ws_bound(after);
        }
        seq![
            WrapTextIterItem {
                index_start: index as usize,
                len_bytes: bytes_of(rem.subrange(0, n as int)) as usize,
                len_chars: n as usize,
            },
        ] + wrap_items(rest, w, index + bytes_of(rem) - bytes_of(rest))
    }
}

/// Taking a line from a nonempty text leaves less text to wrap.
pub proof fn lemma_wrap_rest_shorter(rem: Seq<char>, w: int)
    requires
        rem.len() > 0,
    ensures
        trim_start_spec(rem.subrange(wrap_line_chars(rem, w) as int, rem.len() as int)).len() < rem.len(),
{
    lemma_wrap_scan_bounds(rem, w, 1, 0);
    lemma_leading_ws_bound(rem.subrange(wrap_line_chars(rem, w) as int, rem.len() as int));
}

/// The bytes of a string slice are in memory, so their number fits a `usize`.
pub fn str_bytes_fit(s: &str)
    ensures
        bytes_of(s@) <= usize::MAX,
{
    let bytes = s.as_bytes();
    let _count = bytes.len();
}

/// Wraps text into lines of a width, one line at a time, giving each line's place in the
/// text with its leading and trailing whitespace removed.
pub struct WrapTextIter {
    chars: Vec<char>,
    pos: usize,
    index_bytes: usize,
    wrap_width: usize,
}

/// A wrapped line: where it starts (in bytes, within the trimmed text) and how long it is in
/// bytes and in characters.
#[derive(Debug, Clone, Copy, PartialEq, Eq, Structural)]
pub struct WrapTextIterItem {
    pub index_start: usize,
    pub len_bytes: usize,
    pub len_chars: usize,
}

impl WrapTextIterItem {
    /// The line's text, taken from the text it was wrapped from; its bounds must fall between
    /// two characters.
    pub fn get_substr<'a>(&self, s: &'a str) -> (r: &'a str)
        requires
            self.index_start + self.len_bytes <= encode_utf8(s@).len(),
            is_char_boundary(encode_utf8(s@), self.index_start as int),
            is_char_boundary(encode_utf8(s@), self.index_start + self.len_bytes),
        ensures
            encode_utf8(r@) == encode_utf8(s@).subrange(self.index_start as int, self.index_start + self.len_bytes),
    {
        let (_, rest) = s.split_at(self.index_start);
        proof {
            let b = encode_utf8(s@);
            let rb = encode_utf8(rest@);
            vstd::utf8::encode_utf8_valid_utf8(s@);
            vstd::utf8::encode_utf8_valid_utf8(rest@);
            assert(rb =~= b.subrange(self.index_start as int, b.len() as int));
            if self.len_bytes < rb.len() {
                vstd::utf8::is_char_boundary_iff_not_is_continuation_byte(b, self.index_start + self.len_bytes);
                vstd::utf8::is_char_boundary_iff_not_is_continuation_byte(rb, self.len_bytes as int);
                assert(rb[self.len_bytes as int] == b[self.index_start + self.len_bytes]);
            } else {
                vstd::utf8::is_char_boundary_start_end_of_seq(rb);
            }
        }
        let (line, _) = rest.split_at(self.len_bytes);
        line
    }
}

impl WrapTextIter {
    /// The text not yet wrapped.
    pub closed spec fn remaining(&self) -> Seq<char> {
        self.chars@.subrange(self.pos as int, self.chars@.len() as int)
    }

    /// Where, in bytes, the text not yet wrapped starts within the trimmed text.
    pub closed spec fn index(&self) -> usize {
        self.index_bytes
    }

    pub closed spec fn width(&self) -> usize {
        self.wrap_width
    }

    /// The text's position, the bytes before it and the total fit the ranges kept.
    pub closed spec fn wf(&self) -> bool {
        &&& self.pos <= self.chars@.len()
        &&& self.index_bytes == bytes_of(self.chars@.subrange(0, self.pos as int))
        &&& bytes_of(self.chars@) <= usize::MAX
        &&& (self.pos < self.chars@.len() ==> !unicode_whitespace(self.chars@[self.pos as int]))
    }

    /// Starts wrapping `text`, trimmed, to the given width.
    pub fn new(text: &str, wrap_width: usize) -> (it: Self)
        requires
            bytes_of(text@) <= usize::MAX,
        ensures
            it.wf(),
            it.remaining() == trim_spec(text@),
            it.index() == 0,
            it.width() == wrap_width,
    {
        let chars = trim_chars(text);
        proof {
            crate::text::lemma_trim_is_infix(text@);
            let lead = crate::text::leading_ws(text@);
            let t = trim_spec(text@);
            lemma_bytes_concat(text@.subrange(0, lead as int), t + text@.subrange((lead + t.len()) as int, text@.len() as int));
            lemma_bytes_concat(t, text@.subrange((lead + t.len()) as int, text@.len() as int));
            assert(text@.subrange(0, lead as int) + (t + text@.subrange((lead + t.len()) as int, text@.len() as int)) =~= text@);
            assert(chars@.subrange(0, chars@.len() as int) =~= chars@);
            assert(encode_utf8(chars@.subrange(0, 0)) =~= Seq::<u8>::empty());
            lemma_leading_ws_bound(text@);
            if t.len() > 0 {
                assert(t[0] == text@[lead as int]);
            }
            assert(bytes_of(chars@) <= bytes_of(text@));
        }
        Self { chars, pos: 0, index_bytes: 0, wrap_width }
    }

    /// The number of characters of the next line.
    fn line_chars(&self) -> (n: usize)
        requires
            self.wf(),
            self.remaining().len() > 0,
        ensures
            n == wrap_line_chars(self.remaining(), self.width() as int),
            1 <= n <= self.remaining().len(),
    {
        let ghost rem = self.remaining();
        let len = self.chars.len();
        let start = self.pos;
        let w = self.wrap_width;
        let mut k: usize = 1;
        let mut split: usize = 0;
        let mut end: usize = len - start;
        proof {
            lemma_wrap_scan_bounds(rem, w as int, 1, 0);
        }
        while k < len - start
            invariant_except_break
                end == len - start,
            invariant
                start < len == self.chars@.len(),
                rem == self.chars@.subrange(start as int, len as int),
                1 <= k <= len - start,
                split < k,
                wrap_scan(rem, w as int, k as nat, split as nat) == wrap_line_chars(rem, w as int),
            ensures
                end == wrap_line_chars(rem, w as int),
            decreases len - start - k,
        {
            let c = self.chars[start + k];
            assert(rem[k as int] == c);
            let split1: usize = if is_whitespace(c) { k } else { split };
            if k + 1 >= w {
                let ends = split1 == 0 || k + 1 >= len - start || is_whitespace(self.chars[start + k + 1]);
                proof {
                    if k + 1 < len - start {
                        assert(rem[k + 1] == self.chars@[start + k + 1]);
                    }
                }
                end = if ends { k + 1 } else { split1 };
                break;
            }
            split = split1;
            k = k + 1;
        }
        end
    }

    /// The next line, if any text is left: its place, then the rest of the text with its
    /// leading whitespace removed is what remains.
    #[verifier::rlimit(40)]
    pub fn next(&mut self) -> (item: Option<WrapTextIterItem>)
        requires
            old(self).wf(),
        ensures
            final(self).wf(),
            final(self).width() == old(self).width(),
            old(self).remaining().len() == 0 ==> item is None && final(self).remaining() == old(self).remaining()
                && final(self).index() == old(self).index(),
            old(self).remaining().len() > 0 ==> {
                let rem = old(self).remaining();
                let n = wrap_line_chars(rem, old(self).width() as int);
                let rest = trim_start_spec(rem.subrange(n as int, rem.len() as int));
                &&& 1 <= n <= rem.len()
                &&& item == Some(
                    WrapTextIterItem {
                        index_start: old(self).index(),
                        len_bytes: bytes_of(rem.subrange(0, n as int)) as usize,
                        len_chars: n as usize,
                    },
                )
                &&& final(self).remaining() == rest
                &&& final(self).index() == old(self).index() + bytes_of(rem) - bytes_of(rest)
            },
    {
        let len = self.chars.len();
        if self.pos >= len {
            return None;
        }
        let ghost rem = self.remaining();
        let ghost all = self.chars@;
        let start = self.pos;
        let n = self.line_chars();
        let lead = count_leading_ws(&self.chars, start + n);
        let new_pos = start + n + lead;
        let ghost rest = trim_start_spec(rem.subrange(n as int, rem.len() as int));
        proof {
            assert(all.skip(start + n) =~= rem.subrange(n as int, rem.len() as int));
            lemma_leading_ws_bound(all.skip(start + n));
            assert(all.subrange(new_pos as int, len as int) =~= rest);
            lemma_bytes_concat(all.subrange(0, start as int), rem);
            assert(all.subrange(0, start as int) + rem =~= all);
            lemma_bytes_concat(rem.subrange(0, n as int), rem.subrange(n as int, rem.len() as int));
            assert(rem.subrange(0, n as int) + rem.subrange(n as int, rem.len() as int) =~= rem);
            assert(all.subrange(start as int, start + n) =~= rem.subrange(0, n as int));
            lemma_bytes_concat(all.subrange(start as int, new_pos as int), rest);
            assert(all.subrange(start as int, new_pos as int) + rest =~= rem);
            lemma_bytes_concat(all.subrange(0, start as int), all.subrange(start as int, new_pos as int));
            assert(all.subrange(0, start as int) + all.subrange(start as int, new_pos as int) =~= all.subrange(0, new_pos as int));
        }
        let line_bytes = bytes_between(&self.chars, start, start + n);
        let skipped = bytes_between(&self.chars, start, new_pos);
        let item = WrapTextIterItem { index_start: self.index_bytes, len_bytes: line_bytes, len_chars: n };
        self.index_bytes = self.index_bytes + skipped;
        self.pos = new_pos;
        proof {
            if new_pos < len {
                assert(self.chars@[new_pos as int] == all.skip(start + n)[lead as int]);
            }
        }
        Some(item)
    }
}

/// The number of characters of a sequence of pieces of text.
pub open spec fn pieces_chars<S>(pieces: Seq<(Seq<char>, S)>) -> nat
    decreases pieces.len(),
{
    if pieces.len() == 0 {
        0
    } else {
        pieces[0].0.len() + pieces_chars(pieces.drop_first())
    }
}

/// Styled pieces of text wrapped into lines of at most `width` characters, the current line
/// holding `line` and `used` characters so far. A piece that fits goes on the line (which ends
/// once full); one that does not is cut where the line is full: the part before the cut, less
/// its trailing whitespace, ends the line, and the rest, less its leading whitespace, goes on
/// as the next piece. A last line that holds any piece ends the text.
pub open spec fn wrap_pieces_spec<S>(
    width: nat,
    pieces: Seq<(Seq<char>, S)>,
    line: Seq<(Seq<char>, S)>,
    used: nat,
) -> Seq<Seq<(Seq<char>, S)>>
    decreases pieces_chars(pieces), pieces.len(),
    when used < width
{
    if pieces.len() == 0 {
        if line.len() > 0 {
            seq![line]
        } else {
            seq![]
        }
    } else {
        let text = pieces[0].0;
        let style = pieces[0].1;
        let room = (width - used) as nat;
        if text.len() <= room {
            let line2 = line.push((text, style));
            if used + text.len() == width {
                seq![line2] + wrap_pieces_spec(width, pieces.drop_first(), seq![], 0)
            } else {
                wrap_pieces_spec(width, pieces.drop_first(), line2, used + text.len())
            }
        } else {
            let left = trim_end_spec(text.take(room as int));
            let right = trim_start_spec(text.skip(room as int));
            proof {
                lemma_leading_ws_bound(text.skip(room as int));
                assert((seq![(right, style)] + pieces.drop_first()).drop_first() =~= pieces.drop_first());
            }
            seq![line.push((left, style))] + wrap_pieces_spec(
                width,
                seq![(right, style)] + pieces.drop_first(),
                seq![],
                0,
            )
        }
    }
}

proof fn lemma_pieces_chars_push<S>(pieces: Seq<(Seq<char>, S)>, piece: (Seq<char>, S))
    ensures
        pieces_chars(pieces.push(piece)) == pieces_chars(pieces) + piece.0.len(),
    decreases pieces.len(),
{
    let pushed = pieces.push(piece);
    assert(pieces_chars(pushed) == pushed[0].0.len() + pieces_chars(pushed.drop_first()));
    if pieces.len() > 0 {
        assert(pushed.drop_first() =~= pieces.drop_first().push(piece));
        lemma_pieces_chars_push(pieces.drop_first(), piece);
    } else {
        assert(pushed.drop_first() =~= Seq::<(Seq<char>, S)>::empty());
        assert(pieces_chars(Seq::<(Seq<char>, S)>::empty()) == 0);
    }
}

proof fn lemma_wrap_fits<S>(width: nat, pieces: Seq<(Seq<char>, S)>, line: Seq<(Seq<char>, S)>, used: nat)
    requires
        used < width,
        pieces_chars(line) == used,
    ensures
        forall|k: int|
            0 <= k < wrap_pieces_spec(width, pieces, line, used).len() ==> pieces_chars(
                #[trigger] wrap_pieces_spec(width, pieces, line, used)[k],
            ) <= width,
        wrap_pieces_spec(width, pieces, line, used).len() >= 1 <==> pieces.len() > 0 || line.len() > 0,
    decreases pieces_chars(pieces), pieces.len(),
{
    if pieces.len() > 0 {
        let text = pieces[0].0;
        let style = pieces[0].1;
        let room = (width - used) as nat;
        if text.len() <= room {
            let line2 = line.push((text, style));
            lemma_pieces_chars_push(line, (text, style));
            if used + text.len() == width {
                lemma_wrap_fits(width, pieces.drop_first(), seq![], 0);
                let r = wrap_pieces_spec(width, pieces.drop_first(), seq![], 0);
                assert forall|k: int| 0 <= k < (seq![line2] + r).len() implies pieces_chars(
                    #[trigger] (seq![line2] + r)[k],
                ) <= width by {
                    if k > 0 {
                        assert((seq![line2] + r)[k] == r[k - 1]);
                    }
                }
            } else {
                lemma_wrap_fits(width, pieces.drop_first(), line2, used + text.len());
            }
        } else {
            let left = trim_end_spec(text.take(room as int));
            let right = trim_start_spec(text.skip(room as int));
            lemma_leading_ws_bound(text.skip(room as int));
            lemma_trailing_ws_bound(text.take(room as int));
            assert((seq![(right, style)] + pieces.drop_first()).drop_first() =~= pieces.drop_first());
            lemma_pieces_chars_push(line, (left, style));
            lemma_wrap_fits(width, seq![(right, style)] + pieces.drop_first(), seq![], 0);
            let line2 = line.push((left, style));
            let r = wrap_pieces_spec(width, seq![(right, style)] + pieces.drop_first(), seq![], 0);
            assert forall|k: int| 0 <= k < (seq![line2] + r).len() implies pieces_chars(
                #[trigger] (seq![line2] + r)[k],
            ) <= width by {
                if k > 0 {
                    assert((seq![line2] + r)[k] == r[k - 1]);
                }
            }
        }
    }
}

/// Wrapping keeps to the width: every line it makes holds at most `width` characters, and it
/// makes at least one line exactly when there is a piece to wrap.
pub proof fn lemma_wrapped_lines_fit<S>(width: nat, pieces: Seq<(Seq<char>, S)>)
    requires
        width >= 1,
    ensures
        forall|k: int|
            0 <= k < wrap_pieces_spec(width, pieces, seq![], 0).len() ==> pieces_chars(
                #[trigger] wrap_pieces_spec(width, pieces, seq![], 0)[k],
            ) <= width,
        wrap_pieces_spec(width, pieces, seq![], 0).len() >= 1 <==> pieces.len() > 0,
{
    lemma_wrap_fits(width, pieces, seq![], 0);
}

/// Pieces of text, each taken by its characters.
pub open spec fn pieces_view<S>(pieces: Seq<(StaticString, S)>) -> Seq<(Seq<char>, S)> {
    Seq::new(pieces.len(), |i: int| (pieces[i].0@, pieces[i].1))
}

/// Lines of pieces of text, each taken by its characters.
pub open spec fn wrapped_view<S>(lines: Seq<Vec<(StaticString, S)>>) -> Seq<Seq<(Seq<char>, S)>> {
    Seq::new(lines.len(), |i: int| pieces_view(lines[i]@))
}

/// A copy of a string.
fn copy_static_string(s: &StaticString) -> (r: StaticString)
    ensures
        r@ == s@,
{
    match s {
        StaticString::Static(t) => StaticString::Static(t),
        StaticString::Owned(t) => StaticString::Owned(t.clone()),
    }
}

proof fn lemma_pieces_step<S>(pieces: Seq<(Seq<char>, S)>, i: int)
    requires
        0 <= i < pieces.len(),
    ensures
        pieces.skip(i)[0] == pieces[i],
        pieces.skip(i).drop_first() == pieces.skip(i + 1),
        pieces.skip(i).len() > 0,
{
    assert(pieces.skip(i).drop_first() =~= pieces.skip(i + 1));
}

proof fn lemma_pieces_view_push<S>(pieces: Seq<(StaticString, S)>, piece: (StaticString, S))
    ensures
        pieces_view(pieces.push(piece)) == pieces_view(pieces).push((piece.0@, piece.1)),
{
    assert(pieces_view(pieces.push(piece)) =~= pieces_view(pieces).push((piece.0@, piece.1)));
}

proof fn lemma_wrapped_view_push<S>(lines: Seq<Vec<(StaticString, S)>>, line: Vec<(StaticString, S)>)
    ensures
        wrapped_view(lines.push(line)) == wrapped_view(lines).push(pieces_view(line@)),
{
    assert(wrapped_view(lines.push(line)) =~= wrapped_view(lines).push(pieces_view(line@)));
}

/// Wraps styled pieces of text into lines of at most `wrap_width` characters, cutting a piece
/// where a line is full and dropping the whitespace around each cut.
pub fn wrap_lines_by_chars<S: Copy>(wrap_width: usize, pieces: &Vec<(StaticString, S)>) -> (lines: Vec<
    Vec<(StaticString, S)>,
>)
    requires
        wrap_width >= 1,
    ensures
        wrapped_view(lines@) == wrap_pieces_spec(wrap_width as nat, pieces_view(pieces@), seq![], 0),
{
    let ghost all = pieces_view(pieces@);
    let ghost total = wrap_pieces_spec(wrap_width as nat, all, seq![], 0);
    let mut lines: Vec<Vec<(StaticString, S)>> = Vec::new();
    let mut line: Vec<(StaticString, S)> = Vec::new();
    let mut used: usize = 0;
    let mut i: usize = 0;
    proof {
        assert(all.skip(0) =~= all);
        assert(wrapped_view(lines@) =~= Seq::<Seq<(Seq<char>, S)>>::empty());
        assert(pieces_view(line@) =~= Seq::<(Seq<char>, S)>::empty());
    }
    while i < pieces.len()
        invariant
            wrap_width >= 1,
            i <= pieces.len(),
            all == pieces_view(pieces@),
            total == wrap_pieces_spec(wrap_width as nat, all, seq![], 0),
            used < wrap_width,
            wrapped_view(lines@) + wrap_pieces_spec(wrap_width as nat, all.skip(i as int), pieces_view(line@), used as nat)
                == total,
        decreases pieces.len() - i,
    {
        proof {
            lemma_pieces_step(all, i as int);
        }
        let mut text = copy_static_string(&pieces[i].0);
        let style = pieces[i].1;
        let ghost rest = all.skip(i + 1);
        assert(wrapped_view(lines@) + wrap_pieces_spec(
            wrap_width as nat,
            seq![(text@, style)] + rest,
            pieces_view(line@),
            used as nat,
        ) == total) by {
            assert(seq![(text@, style)] + rest =~= all.skip(i as int));
        }
        loop
            invariant_except_break
                wrapped_view(lines@) + wrap_pieces_spec(
                    wrap_width as nat,
                    seq![(text@, style)] + rest,
                    pieces_view(line@),
                    used as nat,
                ) == total,
            invariant
                wrap_width >= 1,
                i < pieces.len(),
                all == pieces_view(pieces@),
                rest == all.skip(i + 1),
                total == wrap_pieces_spec(wrap_width as nat, all, seq![], 0),
                used < wrap_width,
            ensures
                used < wrap_width,
                wrapped_view(lines@) + wrap_pieces_spec(wrap_width as nat, rest, pieces_view(line@), used as nat)
                    == total,
            decreases text@.len(),
        {
            let ghost pieces_now = seq![(text@, style)] + rest;
            proof {
                assert(pieces_now[0] == (text@, style));
                assert(pieces_now.drop_first() =~= rest);
            }
            let chars = str_chars(text.as_str());
            let room: usize = wrap_width - used;
            if chars.len() <= room {
                let ghost old_line = line@;
                let ghost old_lines = lines@;
                let ghost t = text@;
                let n = chars.len();
                line.push((text, style));
                proof {
                    lemma_pieces_view_push(old_line, (text, style));
                }
                used = used + n;
                if used == wrap_width {
                    let full = line;
                    lines.push(full);
                    proof {
                        lemma_wrapped_view_push(old_lines, full);
                        assert(wrapped_view(lines@) + wrap_pieces_spec(wrap_width as nat, rest, seq![], 0) =~= wrapped_view(
                            old_lines,
                        ) + (seq![pieces_view(full@)] + wrap_pieces_spec(wrap_width as nat, rest, seq![], 0)));
                    }
                    line = Vec::new();
                    used = 0;
                    proof {
                        assert(pieces_view(line@) =~= Seq::<(Seq<char>, S)>::empty());
                    }
                }
                break;
            } else {
                let ghost old_line = line@;
                let ghost old_lines = lines@;
                let ghost t = text@;
                let mut left = StaticString::Owned(string_from_chars(&chars, 0, room));
                left.trim_trailing_whitespace();
                let mut right = StaticString::Owned(string_from_chars(&chars, room, chars.len()));
                right.trim_starting_whitespace();
                proof {
                    assert(chars@.subrange(0, room as int) =~= t.take(room as int));
                    assert(chars@.subrange(room as int, chars@.len() as int) =~= t.skip(room as int));
                    lemma_leading_ws_bound(t.skip(room as int));
                }
                line.push((left, style));
                proof {
                    lemma_pieces_view_push(old_line, (left, style));
                }
                let full = line;
                lines.push(full);
                proof {
                    lemma_wrapped_view_push(old_lines, full);
                    assert(wrapped_view(lines@) + wrap_pieces_spec(
                        wrap_width as nat,
                        seq![(right@, style)] + rest,
                        seq![],
                        0,
                    ) =~= wrapped_view(old_lines) + (seq![pieces_view(full@)] + wrap_pieces_spec(
                        wrap_width as nat,
                        seq![(right@, style)] + rest,
                        seq![],
                        0,
                    )));
                }
                line = Vec::new();
                used = 0;
                proof {
                    assert(pieces_view(line@) =~= Seq::<(Seq<char>, S)>::empty());
                }
                text = right;
            }
        }
        i = i + 1;
    }
    proof {
        assert(all.skip(i as int) =~= Seq::<(Seq<char>, S)>::empty());
    }
    if line.len() > 0 {
        let ghost old_lines = lines@;
        lines.push(line);
        proof {
            lemma_wrapped_view_push(old_lines, line);
        }
    }
    proof {
        assert(wrapped_view(lines@) =~= total);
    }
    lines
}

} // verus!
