//! Text elements: a single line, and text wrapped into lines at word boundaries. Each works
//! out, for the width it is given, where every line is drawn and how much of it fits.

use vstd::prelude::*;

use crate::tui::elements::centered_button::len_chars_u16;
use crate::tui::elements::split::Area;
use crate::tui::text_wrapper::{
    lemma_wrap_rest_shorter, str_bytes_fit, wrap_items, StaticString, WrapTextIter, WrapTextIterItem,
};
use crate::tui::ui_element::AutosizeUIElement;
use crate::text::trim_spec;

verus! {

/// How a line of text stands within the width it is given.
#[derive(Debug, Clone, Copy, PartialEq, Eq, Structural)]
pub enum Alignment {
    Left,
    Center,
    Right,
}

/// `a - b`, or zero where `b` is larger.
pub open spec fn sub_or_zero(a: int, b: int) -> int {
    if a > b { a - b } else { 0 }
}

/// The smaller of two widths.
pub open spec fn min_u16(a: u16, b: u16) -> u16 {
    if a < b { a } else { b }
}

/// The column, from the left of the width, where a line of `len` characters is drawn: at the
/// left, centered (rounding left) or against the right, and at the left where it does not fit.
pub open spec fn draw_offset(alignment: Alignment, width: u16, len: u16) -> u16 {
    match alignment {
        Alignment::Left => 0,
        Alignment::Center => (sub_or_zero(width as int, len as int) / 2) as u16,
        Alignment::Right => sub_or_zero(width as int, len as int) as u16,
    }
}

fn draw_offset_exec(alignment: Alignment, width: u16, len: u16) -> (r: u16)
    ensures
        r == draw_offset(alignment, width, len),
{
    let space: u16 = if width > len { width - len } else { 0 };
    match alignment {
        Alignment::Left => 0,
        Alignment::Center => space / 2,
        Alignment::Right => space,
    }
}

/// A line placed within a width is drawn within it: where it starts plus what is drawn of it
/// is at most the width.
pub proof fn lemma_line_drawn_within(alignment: Alignment, width: u16, len: u16)
    ensures
        draw_offset(alignment, width, len) + min_u16(len, width) <= width,
{
}

/// A single line of text.
pub struct TextLine {
    text: StaticString,
    alignment: Alignment,
    text_len: u16,
    current_width: u16,
    text_draw_offset: u16,
}

impl TextLine {
    pub closed spec fn spec_text(&self) -> Seq<char> {
        self.text@
    }

    pub closed spec fn spec_alignment(&self) -> Alignment {
        self.alignment
    }

    /// The number of characters of the text, at most the largest `u16`.
    pub closed spec fn spec_text_len(&self) -> u16 {
        self.text_len
    }

    /// The width it was last resized to.
    pub closed spec fn spec_width(&self) -> u16 {
        self.current_width
    }

    /// The column, from the left of its area, where the text is drawn.
    pub closed spec fn spec_draw_offset(&self) -> u16 {
        self.text_draw_offset
    }

    /// The length kept is the text's, and the text is placed for the current width.
    pub open spec fn wf(&self) -> bool {
        &&& self.spec_text_len() == (if self.spec_text().len() < u16::MAX {
            self.spec_text().len() as u16
        } else {
            u16::MAX
        })
        &&& self.spec_draw_offset() == draw_offset(self.spec_alignment(), self.spec_width(), self.spec_text_len())
    }

    pub fn new(text: StaticString, alignment: Alignment) -> (t: Self)
        ensures
            t.wf(),
            t.spec_text() == text@,
            t.spec_alignment() == alignment,
            t.spec_width() == 0,
    {
        let text_len = len_chars_u16(&text);
        Self { text, alignment, text_len, current_width: 0, text_draw_offset: 0 }
    }

    /// Places the text for the width of `area`.
    pub fn resize(&mut self, area: Area)
        requires
            old(self).wf(),
        ensures
            final(self).wf(),
            final(self).spec_text() == old(self).spec_text(),
            final(self).spec_alignment() == old(self).spec_alignment(),
            final(self).spec_width() == area.width,
    {
        if area.width == self.current_width {
            return;
        }
        self.current_width = area.width;
        self.text_draw_offset = draw_offset_exec(self.alignment, self.current_width, self.text_len);
    }

    /// The column, from the left of its area, where the text is drawn.
    pub fn draw_offset(&self) -> (r: u16)
        ensures
            r == self.spec_draw_offset(),
    {
        self.text_draw_offset
    }

    /// How many characters of the text are drawn: those that fit in the width.
    pub fn draw_width(&self) -> (r: u16)
        ensures
            r == min_u16(self.spec_text_len(), self.spec_width()),
    {
        if self.text_len < self.current_width { self.text_len } else { self.current_width }
    }
}

impl AutosizeUIElement for TextLine {
    open spec fn asked_size(&self, width: u16, height: u16) -> (u16, u16) {
        (min_u16(width, self.spec_text_len()), 1u16)
    }

    /// One row, as wide as the text or the width offered, whichever is less.
    fn begin_resize(&mut self, width: u16, height: u16) -> (r: (u16, u16))
        ensures
            r == (min_u16(width, old(self).spec_text_len()), 1u16),
            *final(self) == *old(self),
    {
        (if width < self.text_len { width } else { self.text_len }, 1)
    }
}

/// Where one wrapped line of a text goes: where it starts in the trimmed text and how many
/// bytes it takes (both as kept, the length in a `u32`), how many characters of it are drawn
/// and from which column.
#[derive(Debug, Clone, Copy, PartialEq, Eq, Structural)]
pub struct InnerLine {
    pub text_index: usize,
    pub text_len_bytes: u32,
    pub text_draw_width: u16,
    pub text_draw_offset: u16,
}

/// The placement of a wrapped line within a width: drawn up to the width, and aligned.
pub open spec fn inner_line_of(item: WrapTextIterItem, alignment: Alignment, width: u16) -> InnerLine {
    InnerLine {
        text_index: item.index_start,
        text_len_bytes: item.len_bytes as u32,
        text_draw_width: min_u16(width, item.len_chars as u16),
        text_draw_offset: draw_offset(alignment, width, item.len_chars as u16),
    }
}

/// Wrapped lines, each placed within a width.
pub open spec fn place_lines(items: Seq<WrapTextIterItem>, alignment: Alignment, width: u16) -> Seq<InnerLine> {
    Seq::new(items.len(), |i: int| inner_line_of(items[i], alignment, width))
}

/// The lines of a text wrapped to a width, each placed within it.
pub open spec fn text_lines_spec(text: Seq<char>, alignment: Alignment, width: u16) -> Seq<InnerLine> {
    place_lines(wrap_items(trim_spec(text), width as int, 0), alignment, width)
}

/// Every line of a wrapped text is drawn within the width it was wrapped to.
pub proof fn lemma_text_lines_drawn_within(text: Seq<char>, alignment: Alignment, width: u16)
    ensures
        forall|i: int|
            0 <= i < text_lines_spec(text, alignment, width).len() ==> #[trigger] text_lines_spec(
                text,
                alignment,
                width,
            )[i].text_draw_offset + text_lines_spec(text, alignment, width)[i].text_draw_width <= width,
{
    let items = wrap_items(trim_spec(text), width as int, 0);
    assert forall|i: int| 0 <= i < text_lines_spec(text, alignment, width).len() implies #[trigger] text_lines_spec(
        text,
        alignment,
        width,
    )[i].text_draw_offset + text_lines_spec(text, alignment, width)[i].text_draw_width <= width by {
        lemma_line_drawn_within(alignment, width, items[i].len_chars as u16);
    }
}

/// The widest drawn line, or zero for none.
pub open spec fn widest(lines: Seq<InnerLine>) -> u16
    decreases lines.len(),
{
    if lines.len() == 0 {
        0
    } else {
        let rest = widest(lines.drop_last());
        if lines.last().text_draw_width > rest { lines.last().text_draw_width } else { rest }
    }
}

/// Text wrapped into lines at word boundaries.
pub struct Text {
    text: StaticString,
    alignment: Alignment,
    lines: Vec<InnerLine>,
    current_width: u16,
}

impl Text {
    pub closed spec fn spec_text(&self) -> Seq<char> {
        self.text@
    }

    pub closed spec fn spec_alignment(&self) -> Alignment {
        self.alignment
    }

    /// The placed lines.
    pub closed spec fn spec_lines(&self) -> Seq<InnerLine> {
        self.lines@
    }

    /// The width it was last resized to.
    pub closed spec fn spec_width(&self) -> u16 {
        self.current_width
    }

    /// The lines are those of the text at the current width, except before the first resize
    /// to a width other than zero, when there are none.
    pub open spec fn wf(&self) -> bool {
        ||| self.spec_lines() == text_lines_spec(self.spec_text(), self.spec_alignment(), self.spec_width())
        ||| self.spec_lines().len() == 0 && self.spec_width() == 0
    }

    pub fn new(text: StaticString, alignment: Alignment) -> (t: Self)
        ensures
            t.wf(),
            t.spec_text() == text@,
            t.spec_alignment() == alignment,
            t.spec_width() == 0,
            t.spec_lines().len() == 0,
    {
        Self { text, alignment, lines: Vec::new(), current_width: 0 }
    }

    /// The number of lines, as a `u16` (wrapping past the largest).
    pub fn lines_len(&self) -> (r: u16)
        ensures
            r == self.spec_lines().len() as u16,
    {
        self.lines.len() as u16
    }

    /// Replaces the text and places its lines at the current width.
    pub fn modify_text(&mut self, text: StaticString)
        ensures
            final(self).wf(),
            final(self).spec_text() == text@,
            final(self).spec_alignment() == old(self).spec_alignment(),
            final(self).spec_width() == old(self).spec_width(),
            final(self).spec_lines() == text_lines_spec(text@, old(self).spec_alignment(), old(self).spec_width()),
    {
        self.text = text;
        let width = self.current_width;
        self.resize_no_check(width);
    }

    /// Wraps the text to `width` and places each line.
    fn resize_no_check(&mut self, width: u16)
        ensures
            final(self).spec_text() == old(self).spec_text(),
            final(self).spec_alignment() == old(self).spec_alignment(),
            final(self).spec_width() == width,
            final(self).spec_lines() == text_lines_spec(old(self).spec_text(), old(self).spec_alignment(), width),
    {
        self.current_width = width;
        let alignment = self.alignment;
        let ghost all = text_lines_spec(self.text@, alignment, width);
        str_bytes_fit(self.text.as_str());
        let mut lines: Vec<InnerLine> = Vec::new();
        let mut it = WrapTextIter::new(self.text.as_str(), width as usize);
        assert(lines@ + place_lines(wrap_items(it.remaining(), width as int, it.index() as int), alignment, width)
            =~= all);
        loop
            invariant
                it.wf(),
                it.width() == width as usize,
                lines@ + place_lines(wrap_items(it.remaining(), width as int, it.index() as int), alignment, width)
                    == all,
            ensures
                lines@ == all,
            decreases it.remaining().len(),
        {
            let ghost rem = it.remaining();
            let ghost index = it.index();
            match it.next() {
                None => {
                    assert(lines@ =~= all);
                    break;
                },
                Some(item) => {
                    let ghost tail = wrap_items(it.remaining(), width as int, it.index() as int);
                    proof {
                        lemma_wrap_rest_shorter(rem, width as int);
                        assert(wrap_items(rem, width as int, index as int) == seq![item] + tail);
                        assert(place_lines(seq![item] + tail, alignment, width) =~= seq![
                            inner_line_of(item, alignment, width),
                        ] + place_lines(tail, alignment, width));
                    }
                    let len_chars = item.len_chars as u16;
                    let line = InnerLine {
                        text_index: item.index_start,
                        text_len_bytes: item.len_bytes as u32,
                        text_draw_width: if width < len_chars { width } else { len_chars },
                        text_draw_offset: draw_offset_exec(alignment, width, len_chars),
                    };
                    let ghost prev = lines@;
                    lines.push(line);
                    proof {
                        let rest = place_lines(tail, alignment, width);
                        assert(lines@ + rest =~= prev + (seq![inner_line_of(item, alignment, width)] + rest));
                    }
                },
            }
        }
        self.lines = lines;
    }

    /// Wraps the text to `width` and places each line, unless that is the current width.
    fn resize_with_width(&mut self, width: u16)
        requires
            old(self).wf(),
        ensures
            final(self).wf(),
            final(self).spec_text() == old(self).spec_text(),
            final(self).spec_alignment() == old(self).spec_alignment(),
            final(self).spec_width() == width,
            width == old(self).spec_width() ==> final(self).spec_lines() == old(self).spec_lines(),
            width != old(self).spec_width() ==> final(self).spec_lines() == text_lines_spec(
                old(self).spec_text(),
                old(self).spec_alignment(),
                width,
            ),
    {
        if self.current_width == width {
            return;
        }
        self.resize_no_check(width);
    }

    /// Wraps and places the text for the width of `area`.
    pub fn resize(&mut self, area: Area)
        requires
            old(self).wf(),
        ensures
            final(self).wf(),
            final(self).spec_text() == old(self).spec_text(),
            final(self).spec_alignment() == old(self).spec_alignment(),
            final(self).spec_width() == area.width,
            area.width == old(self).spec_width() ==> final(self).spec_lines() == old(self).spec_lines(),
            area.width != old(self).spec_width() ==> final(self).spec_lines() == text_lines_spec(
                old(self).spec_text(),
                old(self).spec_alignment(),
                area.width,
            ),
    {
        self.resize_with_width(area.width);
    }

    /// The placed lines.
    pub fn lines(&self) -> (r: &Vec<InnerLine>)
        ensures
            r@ == self.spec_lines(),
    {
        &self.lines
    }

    /// Wraps to the width offered and asks for the widest drawn line and one row per line.
    pub fn begin_resize(&mut self, width: u16, height: u16) -> (r: (u16, u16))
        requires
            old(self).wf(),
        ensures
            final(self).wf(),
            final(self).spec_text() == old(self).spec_text(),
            final(self).spec_alignment() == old(self).spec_alignment(),
            final(self).spec_width() == width,
            r == (widest(final(self).spec_lines()), final(self).spec_lines().len() as u16),
    {
        self.resize_with_width(width);
        let mut widest_width: u16 = 0;
        let mut i: usize = 0;
        while i < self.lines.len()
            invariant
                i <= self.lines@.len(),
                widest_width == widest(self.lines@.take(i as int)),
            decreases self.lines@.len() - i,
        {
            assert(self.lines@.take(i + 1).drop_last() =~= self.lines@.take(i as int));
            if self.lines[i].text_draw_width > widest_width {
                widest_width = self.lines[i].text_draw_width;
            }
            i = i + 1;
        }
        assert(self.lines@.take(i as int) =~= self.lines@);
        (widest_width, self.lines.len() as u16)
    }
}

} // verus!
