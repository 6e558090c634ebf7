//! A view for possibly very long lists of items, of which only those in view are turned into
//! lines. Items can span several lines; the lines of the items in view are kept between
//! renders, each with the index of its item, sorted by index, the indices contiguous.

use std::collections::VecDeque;

use vstd::prelude::*;

use crate::tui::elements::OnEnterResult;
use crate::tui::ui_element::{HandleEventStatus, KeyCode, KeyInput, MouseInput, MouseKind, PassFocusDirection};

verus! {

/// The list can be scrolled with the arrow keys, page up, page down, etc. While holding shift,
/// the scroll speed is multiplied by this amount.
pub const KEY_SHIFT_SCROLL_AMOUNT: usize = 5;

/// What a list asks of its user: the lines of an item, and what pressing ENTER on an item does.
pub trait LongListHandler<L>: Sized {
    /// Whether `after` is a state ENTER on the item at `index` can leave the handler in; by
    /// default any state.
    open spec fn changed_by_enter(&self, after: Self, index: usize) -> bool {
        true
    }

    /// The lines of the item at `index`, wrapped to the given width. Every item has a line.
    fn get_item_lines(&mut self, index: usize, wrap_width: u16) -> (lines: Vec<L>)
        ensures
            lines.len() >= 1,
    ;

    /// Called when the ENTER key is pressed while the item at `index` is selected.
    fn on_enter(&mut self, index: usize) -> (r: OnEnterResult)
        ensures
            old(self).changed_by_enter(*final(self), index),
    ;
}

/// The first index of a list of `item_count` items, if it has any.
pub fn calc_index_of_first(item_count: usize) -> (r: Option<usize>)
    ensures
        r == (if item_count == 0 { None } else { Some(0usize) }),
{
    match item_count {
        0 => None,
        _ => Some(0),
    }
}

/// The last index of a list of `item_count` items, if it has any.
pub fn calc_index_of_last(item_count: usize) -> (r: Option<usize>)
    ensures
        r == (if item_count == 0 { None } else { Some((item_count - 1) as usize) }),
{
    match item_count {
        0 => None,
        v => Some(v - 1),
    }
}

/// The index selected first when a list of `item_count` items gains the focus: the last one
/// or the first one, as asked.
pub open spec fn selection_start(select_last_first: bool, item_count: usize) -> Option<usize> {
    if item_count == 0 {
        None
    } else if select_last_first {
        Some((item_count - 1) as usize)
    } else {
        Some(0usize)
    }
}

/// The index selected first when a list of `item_count` items gains the focus.
pub fn calc_index_of_selection_start(select_last_first: bool, item_count: usize) -> (r: Option<usize>)
    ensures
        r == selection_start(select_last_first, item_count),
{
    match item_count {
        0 => None,
        v if select_last_first => Some(v - 1),
        _ => Some(0),
    }
}

/// Whether item indices are ordered as the lines of a list must be: each next one the same as
/// the one before it or one more, all below `item_count`.
pub open spec fn lines_ok(ix: Seq<usize>, item_count: usize) -> bool {
    &&& forall|i: int| 0 <= i < ix.len() ==> #[trigger] ix[i] < item_count
    &&& forall|i: int|
        0 <= i < ix.len() - 1 ==> #[trigger] ix[i + 1] == ix[i] || ix[i + 1] == ix[i] + 1
}

/// The first position of `ix` whose index is at least `v`, or its length if there is none.
pub open spec fn first_at_least(ix: Seq<usize>, v: int) -> nat
    decreases ix.len(),
{
    if ix.len() == 0 {
        0
    } else if ix[0] >= v {
        0
    } else {
        1 + first_at_least(ix.drop_first(), v)
    }
}

/// The item indices of a list of lines.
pub open spec fn indices_of<L>(lines: Seq<(L, usize)>) -> Seq<usize> {
    lines.map_values(|p: (L, usize)| p.1)
}

/// Lines with their item index lowered by one.
pub open spec fn lowered<L>(lines: Seq<(L, usize)>) -> Seq<(L, usize)> {
    lines.map_values(|p: (L, usize)| (p.0, (p.1 - 1) as usize))
}

/// The lines that remain once the item at `index` is removed: those of the items before it,
/// then those of the items after it with their index lowered by one.
pub open spec fn lines_without_item<L>(lines: Seq<(L, usize)>, index: usize) -> Seq<(L, usize)> {
    let ix = indices_of(lines);
    let p1 = first_at_least(ix, index as int);
    let p2 = first_at_least(ix, index + 1);
    lines.subrange(0, p1 as int) + lowered(lines.subrange(p2 as int, lines.len() as int))
}

/// The lines left once the item at `index` is removed, written as a filter: the lines of that
/// item go, those of later items have their index lowered by one, and the order is kept.
pub open spec fn lines_filtered<L>(lines: Seq<(L, usize)>, index: usize) -> Seq<(L, usize)> {
    lines.filter(not_of_item::<L>(index)).map_values(
        |p: (L, usize)| (p.0, if p.1 > index { (p.1 - 1) as usize } else { p.1 }),
    )
}

/// Whether a line belongs to an item other than `index`.
pub open spec fn not_of_item<L>(index: usize) -> spec_fn((L, usize)) -> bool {
    |p: (L, usize)| p.1 != index
}

/// Filtering keeps a sequence whose elements all pass.
proof fn lemma_filter_keeps_all<A>(s: Seq<A>, pred: spec_fn(A) -> bool)
    requires
        forall|i: int| 0 <= i < s.len() ==> pred(#[trigger] s[i]),
    ensures
        s.filter(pred) == s,
    decreases s.len(),
{
    reveal(Seq::filter);
    if s.len() > 0 {
        lemma_filter_keeps_all(s.drop_last(), pred);
        assert(pred(s[s.len() - 1]));
        assert(s.drop_last().push(s.last()) =~= s);
    }
}

/// Filtering empties a sequence whose elements all fail.
proof fn lemma_filter_drops_all<A>(s: Seq<A>, pred: spec_fn(A) -> bool)
    requires
        forall|i: int| 0 <= i < s.len() ==> !pred(#[trigger] s[i]),
    ensures
        s.filter(pred) =~= Seq::<A>::empty(),
    decreases s.len(),
{
    reveal(Seq::filter);
    if s.len() > 0 {
        lemma_filter_drops_all(s.drop_last(), pred);
        assert(!pred(s[s.len() - 1]));
    }
}

proof fn lemma_first_at_least(ix: Seq<usize>, v: int)
    ensures
        first_at_least(ix, v) <= ix.len(),
        forall|i: int| 0 <= i < first_at_least(ix, v) ==> #[trigger] ix[i] < v,
        first_at_least(ix, v) < ix.len() ==> ix[first_at_least(ix, v) as int] >= v,
    decreases ix.len(),
{
    if ix.len() > 0 && ix[0] < v {
        lemma_first_at_least(ix.drop_first(), v);
        assert forall|i: int| 0 <= i < first_at_least(ix, v) implies #[trigger] ix[i] < v by {
            if i > 0 {
                assert(ix[i] == ix.drop_first()[i - 1]);
            }
        }
    }
}

/// In indices ordered as lines must be, an index is never below one before it, and never more
/// above it than the distance between them.
proof fn lemma_sorted(ix: Seq<usize>, item_count: usize, i: int, j: int)
    requires
        lines_ok(ix, item_count),
        0 <= i <= j < ix.len(),
    ensures
        ix[i] <= ix[j] <= ix[i] + (j - i),
    decreases j - i,
{
    if i < j {
        lemma_sorted(ix, item_count, i, j - 1);
        assert(ix[(j - 1) + 1] == ix[j - 1] || ix[(j - 1) + 1] == ix[j - 1] + 1);
    }
}

/// The positions before `first_at_least(ix, v)` are exactly those whose index is below `v`.
proof fn lemma_first_at_least_sorted(ix: Seq<usize>, item_count: usize, v: int)
    requires
        lines_ok(ix, item_count),
    ensures
        forall|i: int|
            first_at_least(ix, v) <= i < ix.len() ==> #[trigger] ix[i] >= v,
{
    lemma_first_at_least(ix, v);
    let p = first_at_least(ix, v) as int;
    assert forall|i: int| p <= i < ix.len() implies #[trigger] ix[i] >= v by {
        lemma_sorted(ix, item_count, p, i);
    }
}

/// Removing an item from lines ordered as a list keeps them: the lines of the removed item go,
/// the lines of every later item have their index lowered by one, and the order is kept.
pub proof fn lemma_removal_is_filter<L>(lines: Seq<(L, usize)>, item_count: usize, index: usize)
    requires
        lines_ok(indices_of(lines), item_count),
    ensures
        lines_without_item(lines, index) == lines_filtered(lines, index),
{
    let ix = indices_of(lines);
    let p1 = first_at_least(ix, index as int) as int;
    let p2 = first_at_least(ix, index + 1) as int;
    lemma_first_at_least(ix, index as int);
    lemma_first_at_least(ix, index + 1);
    lemma_first_at_least_sorted(ix, item_count, index as int);
    lemma_first_at_least_sorted(ix, item_count, index + 1);
    assert(p1 <= p2) by {
        if p2 < p1 {
            assert(ix[p2] >= index + 1);
            assert(ix[p2] < index);
        }
    }
    let pred = not_of_item::<L>(index);
    let a = lines.subrange(0, p1);
    let b = lines.subrange(p1, p2);
    let c = lines.subrange(p2, lines.len() as int);
    assert(lines =~= a + b + c);
    assert(ix.len() == lines.len());
    assert forall|i: int| 0 <= i < a.len() implies pred(#[trigger] a[i]) by {
        assert(a[i].1 == ix[i]);
    }
    assert forall|i: int| 0 <= i < b.len() implies !pred(#[trigger] b[i]) by {
        assert(b[i].1 == ix[i + p1]);
    }
    assert forall|i: int| 0 <= i < c.len() implies pred(#[trigger] c[i]) by {
        assert(c[i].1 == ix[i + p2]);
    }
    lemma_filter_keeps_all(a, pred);
    lemma_filter_drops_all(b, pred);
    lemma_filter_keeps_all(c, pred);
    Seq::filter_distributes_over_add(a + b, c, pred);
    Seq::filter_distributes_over_add(a, b, pred);
    assert(lines.filter(pred) =~= a + c);
    let r = lines_filtered(lines, index);
    let w = lines_without_item(lines, index);
    assert(r.len() == w.len());
    assert forall|k: int| 0 <= k < r.len() implies #[trigger] r[k] == w[k] by {
        if k < p1 {
            assert(ix[k] < index);
        } else {
            assert(ix[k - p1 + p2] >= index + 1);
        }
    }
    assert(r =~= w);
}

/// Removing an item keeps the lines ordered as they must be, for one item less.
pub proof fn lemma_remove_keeps_order<L>(lines: Seq<(L, usize)>, item_count: usize, index: usize)
    requires
        lines_ok(indices_of(lines), item_count),
        index < item_count,
    ensures
        lines_ok(indices_of(lines_without_item(lines, index)), (item_count - 1) as usize),
{
    let ix = indices_of(lines);
    let p1 = first_at_least(ix, index as int) as int;
    let p2 = first_at_least(ix, index + 1) as int;
    lemma_first_at_least(ix, index as int);
    lemma_first_at_least(ix, index + 1);
    lemma_first_at_least_sorted(ix, item_count, index as int);
    lemma_first_at_least_sorted(ix, item_count, index + 1);
    assert(p1 <= p2) by {
        if p2 < p1 {
            assert(ix[p2] >= index + 1);
            assert(ix[p2] < index);
        }
    }
    let r = lines_without_item(lines, index);
    let rx = indices_of(r);
    let n1 = p1;
    assert(rx.len() == p1 + (lines.len() - p2));
    assert forall|k: int| 0 <= k < rx.len() implies #[trigger] rx[k] == (if k < n1 {
        ix[k] as int
    } else {
        ix[k - n1 + p2] - 1
    }) by {
        if k < n1 {
            assert(r[k] == lines[k]);
        } else {
            assert(r[k] == (lines[k - n1 + p2].0, (lines[k - n1 + p2].1 - 1) as usize));
            assert(ix[k - n1 + p2] >= index + 1);
        }
    }
    assert forall|k: int| 0 <= k < rx.len() implies #[trigger] rx[k] < item_count - 1 by {
        if k < n1 {
            assert(ix[k] < index);
        } else {
            assert(ix[k - n1 + p2] < item_count);
        }
    }
    assert forall|k: int| 0 <= k < rx.len() - 1 implies #[trigger] rx[k + 1] == rx[k] || rx[k + 1] == rx[k]
        + 1 by {
        if k + 1 < n1 {
            assert(ix[k + 1] == ix[k] || ix[k + 1] == ix[k] + 1);
        } else if k >= n1 {
            let a = k - n1 + p2;
            assert(ix[a + 1] == ix[a] || ix[a + 1] == ix[a] + 1);
        } else {
            // k is the last position before the removed item, k + 1 the first after it.
            assert(k == p1 - 1);
            assert(ix[p1 - 1] < index);
            assert(ix[p2] >= index + 1);
            if p1 < p2 {
                assert(ix[p1] >= index);
                assert(ix[p1] < index + 1);
                assert(ix[p1 - 1 + 1] == ix[p1 - 1] || ix[p1 - 1 + 1] == ix[p1 - 1] + 1);
                assert(ix[p2 - 1] < index + 1);
                assert(ix[p2 - 1 + 1] == ix[p2 - 1] || ix[p2 - 1 + 1] == ix[p2 - 1] + 1);
            } else {
                assert(ix[p1 - 1 + 1] == ix[p1 - 1] || ix[p1 - 1 + 1] == ix[p1 - 1] + 1);
            }
        }
    }
}

/// The state of a long list: its title, the lines kept of the items in view with the index of
/// each one's item, the amount of items, the selected item if the list holds the focus, and
/// how it selects.
pub struct LongListController<L> {
    title: String,
    lines: VecDeque<(L, usize)>,
    item_count: usize,
    selected_index: Option<usize>,
    select_last_first: bool,
    deselect_on_remove: bool,
}

impl<L> LongListController<L> {
    pub closed spec fn spec_lines(&self) -> Seq<(L, usize)> {
        self.lines@
    }

    pub closed spec fn spec_item_count(&self) -> usize {
        self.item_count
    }

    pub closed spec fn spec_selected(&self) -> Option<usize> {
        self.selected_index
    }

    pub closed spec fn spec_select_last_first(&self) -> bool {
        self.select_last_first
    }

    pub closed spec fn spec_deselect_on_remove(&self) -> bool {
        self.deselect_on_remove
    }

    pub closed spec fn spec_title(&self) -> Seq<char> {
        self.title@
    }

    /// The lines are ordered as they must be and the selected item exists.
    pub open spec fn wf(&self) -> bool {
        &&& lines_ok(indices_of(self.spec_lines()), self.spec_item_count())
        &&& (self.spec_selected() matches Some(s) ==> s < self.spec_item_count())
    }

    pub fn new(title: String, item_count: usize, select_last_first: bool, deselect_on_remove: bool) -> (c: Self)
        ensures
            c.wf(),
            c.spec_title() == title@,
            c.spec_lines().len() == 0,
            c.spec_item_count() == item_count,
            c.spec_selected() is None,
            c.spec_select_last_first() == select_last_first,
            c.spec_deselect_on_remove() == deselect_on_remove,
    {
        Self { title, lines: VecDeque::new(), item_count, selected_index: None, select_last_first, deselect_on_remove }
    }

    pub fn item_count(&self) -> (r: usize)
        ensures
            r == self.spec_item_count(),
    {
        self.item_count
    }

    pub fn selected_index(&self) -> (r: Option<usize>)
        ensures
            r == self.spec_selected(),
    {
        self.selected_index
    }

    /// The lines kept for drawing, each with the index of its item.
    pub fn lines(&self) -> (r: &VecDeque<(L, usize)>)
        ensures
            r@ == self.spec_lines(),
    {
        &self.lines
    }

    pub fn title(&self) -> (r: &str)
        ensures
            r@ == self.spec_title(),
    {
        self.title.as_str()
    }

    /// The first index selected when the list gains the focus.
    pub fn selection_start_index(&self) -> (r: Option<usize>)
        ensures
            r == selection_start(self.spec_select_last_first(), self.spec_item_count()),
    {
        calc_index_of_selection_start(self.select_last_first, self.item_count)
    }

    /// Forgets all lines and sets a new item count; keeps the selection only if asked and if
    /// the selected item still exists.
    pub fn reset_items_no_redraw(&mut self, item_count: usize, try_keep_selected: bool)
        ensures
            final(self).wf(),
            final(self).spec_item_count() == item_count,
            final(self).spec_lines().len() == 0,
            final(self).spec_selected() == (match old(self).spec_selected() {
                Some(idx) => if try_keep_selected && idx < item_count {
                    Some(idx)
                } else {
                    None
                },
                None => None,
            }),
            final(self).spec_title() == old(self).spec_title(),
            final(self).spec_select_last_first() == old(self).spec_select_last_first(),
            final(self).spec_deselect_on_remove() == old(self).spec_deselect_on_remove(),
    {
        self.item_count = item_count;
        self.lines.clear();
        self.selected_index = match self.selected_index {
            Some(idx) => if try_keep_selected && idx < item_count {
                Some(idx)
            } else {
                None
            },
            None => None,
        };
        assert(indices_of(self.lines@) =~= Seq::<usize>::empty());
    }

    /// Sets the amount of items. The lines of items that no longer exist are dropped, and the
    /// selection moves to the last item if it was past it. Returns whether anything changed
    /// (and the list should be redrawn).
    pub fn set_item_count(&mut self, item_count: usize) -> (changed: bool)
        requires
            old(self).wf(),
        ensures
            final(self).wf(),
            changed == (old(self).spec_item_count() != item_count),
            final(self).spec_item_count() == item_count,
            final(self).spec_lines() == old(self).spec_lines().subrange(
                0,
                first_at_least(indices_of(old(self).spec_lines()), item_count as int) as int,
            ),
            final(self).spec_selected() == (match old(self).spec_selected() {
                Some(s) => if item_count == 0 {
                    None
                } else if s < item_count {
                    Some(s)
                } else {
                    Some((item_count - 1) as usize)
                },
                None => None,
            }),
            final(self).spec_title() == old(self).spec_title(),
            final(self).spec_select_last_first() == old(self).spec_select_last_first(),
            final(self).spec_deselect_on_remove() == old(self).spec_deselect_on_remove(),
    {
        let ghost ix = indices_of(self.lines@);
        proof {
            lemma_first_at_least(ix, item_count as int);
            lemma_first_at_least_sorted(ix, self.item_count, item_count as int);
        }
        if self.item_count == item_count {
            assert(self.lines@.subrange(0, first_at_least(ix, item_count as int) as int) =~= self.lines@);
            return false;
        }
        let ghost p = first_at_least(ix, item_count as int) as int;
        let ghost old_lines = self.lines@;
        self.item_count = item_count;
        while self.lines.len() > 0 && self.lines[self.lines.len() - 1].1 >= item_count
            invariant
                p <= self.lines@.len() <= old_lines.len(),
                self.lines@ == old_lines.subrange(0, self.lines@.len() as int),
                forall|i: int| 0 <= i < p ==> #[trigger] ix[i] < item_count,
                forall|i: int| p <= i < ix.len() ==> #[trigger] ix[i] >= item_count,
                ix == indices_of(old_lines),
                self.item_count == item_count,
                self.title == old(self).title,
                self.selected_index == old(self).selected_index,
                self.select_last_first == old(self).select_last_first,
                self.deselect_on_remove == old(self).deselect_on_remove,
            decreases self.lines@.len(),
        {
            assert(ix[self.lines@.len() - 1] == self.lines@[self.lines@.len() - 1].1);
            self.lines.pop_back();
        }
        proof {
            if self.lines@.len() > p {
                assert(ix[self.lines@.len() - 1] == self.lines@[self.lines@.len() - 1].1);
            }
        }
        assert(self.lines@ =~= old_lines.subrange(0, p));
        self.selected_index = match self.selected_index {
            Some(s) => if item_count == 0 {
                None
            } else if s < item_count {
                Some(s)
            } else {
                Some(item_count - 1)
            },
            None => None,
        };
        proof {
            let nx = indices_of(self.lines@);
            assert forall|i: int| 0 <= i < nx.len() implies #[trigger] nx[i] < item_count by {
                assert(nx[i] == ix[i]);
            }
            assert forall|i: int| 0 <= i < nx.len() - 1 implies #[trigger] nx[i + 1] == nx[i] || nx[i + 1]
                == nx[i] + 1 by {
                assert(nx[i] == ix[i]);
                assert(nx[i + 1] == ix[i + 1]);
            }
        }
        true
    }

    /// Tells the list the item at `index` was removed: its lines go, the items after it move one
    /// index down, and the item count goes down by one. A selection on the removed item is
    /// dropped if the list deselects on removal (or when no item is left); otherwise the next
    /// item is selected, which now stands at the removed index, or the new last item when the
    /// last one was removed. A selection after the removed item moves down by one, staying on
    /// the same item.
    pub fn on_item_removed(&mut self, index: usize)
        requires
            old(self).wf(),
            index < old(self).spec_item_count(),
        ensures
            final(self).wf(),
            final(self).spec_item_count() == old(self).spec_item_count() - 1,
            final(self).spec_lines() == lines_without_item(old(self).spec_lines(), index),
            final(self).spec_lines() == lines_filtered(old(self).spec_lines(), index),
            final(self).spec_selected() == (match old(self).spec_selected() {
                Some(s) => if (old(self).spec_deselect_on_remove() && s == index)
                    || final(self).spec_item_count() == 0 {
                    None
                } else if s == index {
                    Some(if index < final(self).spec_item_count() {
                        index
                    } else {
                        (final(self).spec_item_count() - 1) as usize
                    })
                } else if s > index {
                    Some((s - 1) as usize)
                } else {
                    Some(s)
                },
                None => None,
            }),
            final(self).spec_title() == old(self).spec_title(),
            final(self).spec_select_last_first() == old(self).spec_select_last_first(),
            final(self).spec_deselect_on_remove() == old(self).spec_deselect_on_remove(),
    {
        let ghost old_lines = self.lines@;
        let ghost ix = indices_of(old_lines);
        let ghost p1 = first_at_least(ix, index as int) as int;
        let ghost p2 = first_at_least(ix, index + 1) as int;
        proof {
            lemma_first_at_least(ix, index as int);
            lemma_first_at_least(ix, index + 1);
            lemma_first_at_least_sorted(ix, self.item_count, index as int);
            lemma_first_at_least_sorted(ix, self.item_count, index + 1);
            lemma_remove_keeps_order(old_lines, self.item_count, index);
            lemma_removal_is_filter(old_lines, self.item_count, index);
        }
        self.item_count = self.item_count - 1;
        assert(old_lines.len() == self.lines.len());
        assert(p1 <= p2) by {
            if p2 < p1 {
                assert(ix[p2] >= index + 1);
            }
        }

        let mut kept: VecDeque<(L, usize)> = VecDeque::new();
        let mut taken: usize = 0;
        while self.lines.len() > 0
            invariant
                taken + self.lines@.len() == old_lines.len(),
                old_lines.len() <= usize::MAX,
                0 <= p1 <= p2 <= old_lines.len(),
                self.item_count == old(self).item_count - 1,
                self.title == old(self).title,
                self.selected_index == old(self).selected_index,
                self.select_last_first == old(self).select_last_first,
                self.deselect_on_remove == old(self).deselect_on_remove,
                self.lines@ == old_lines.subrange(taken as int, old_lines.len() as int),
                ix == indices_of(old_lines),
                p1 == first_at_least(ix, index as int),
                p2 == first_at_least(ix, index + 1),
                forall|i: int| 0 <= i < p1 ==> #[trigger] ix[i] < index,
                forall|i: int| p1 <= i < ix.len() ==> #[trigger] ix[i] >= index,
                forall|i: int| 0 <= i < p2 ==> #[trigger] ix[i] < index + 1,
                forall|i: int| p2 <= i < ix.len() ==> #[trigger] ix[i] >= index + 1,
                kept@ == (if taken <= p1 {
                    old_lines.subrange(0, taken as int)
                } else if taken <= p2 {
                    old_lines.subrange(0, p1)
                } else {
                    old_lines.subrange(0, p1) + lowered(old_lines.subrange(p2, taken as int))
                }),
            decreases self.lines@.len(),
        {
            let ghost before = kept@;
            let ghost t0 = taken as int;
            let item = self.lines.pop_front();
            match item {
                Some(line) => {
                    assert(line == old_lines[taken as int]);
                    assert(ix[taken as int] == line.1);
                    if line.1 < index {
                        kept.push_back(line);
                    } else if line.1 > index {
                        let (l, i) = line;
                        kept.push_back((l, i - 1));
                    }
                },
                None => {},
            }
            taken = taken + 1;
            proof {
                if t0 < p1 {
                    assert(kept@ =~= old_lines.subrange(0, taken as int));
                } else if t0 < p2 {
                    assert(ix[t0] == index);
                    assert(kept@ =~= old_lines.subrange(0, p1));
                } else {
                    let l = old_lines[t0];
                    assert(lowered(old_lines.subrange(p2, taken as int)) =~= lowered(
                        old_lines.subrange(p2, t0),
                    ).push((l.0, (l.1 - 1) as usize)));
                    assert(kept@ =~= old_lines.subrange(0, p1) + lowered(old_lines.subrange(p2, taken as int)));
                }
                assert(old_lines.subrange(taken as int, old_lines.len() as int) =~= self.lines@);
            }
        }
        self.lines = kept;
        proof {
            assert(old_lines.subrange(0, old_lines.len() as int) =~= old_lines);
            if taken <= p1 {
                assert(self.lines@ =~= lines_without_item(old_lines, index));
            } else if taken <= p2 {
                assert(self.lines@ =~= lines_without_item(old_lines, index));
            } else {
                assert(self.lines@ =~= lines_without_item(old_lines, index));
            }
        }

        self.selected_index = match self.selected_index {
            Some(s) => if (self.deselect_on_remove && s == index) || self.item_count == 0 {
                None
            } else if s == index {
                Some(if index < self.item_count { index } else { self.item_count - 1 })
            } else if s > index {
                Some(s - 1)
            } else {
                Some(s)
            },
            None => None,
        };
    }
}

/// How far one key press or wheel step scrolls.
pub open spec fn scroll_amount(shift: bool) -> usize {
    if shift { KEY_SHIFT_SCROLL_AMOUNT } else { 1 }
}

/// `a - b`, or zero where `b` is larger.
pub open spec fn sat_sub(a: int, b: int) -> int {
    if a > b { a - b } else { 0 }
}

/// The smaller of two integers.
pub open spec fn min_int(a: int, b: int) -> int {
    if a < b { a } else { b }
}

/// The selection after a key press on a focused list, given the selection before it, the
/// amount of items, which item is selected first and the height of the list's area.
pub open spec fn key_selection(
    sel: Option<usize>,
    count: usize,
    select_last_first: bool,
    key: KeyInput,
    height: u16,
) -> Option<usize> {
    let amount = scroll_amount(key.shift) as int;
    let page = amount * sat_sub(height as int, 2);
    if key.is_release || (key.control && (key.code == KeyCode::Up || key.code == KeyCode::Down)) {
        sel
    } else {
        match key.code {
            KeyCode::Up => match sel {
                None => selection_start(select_last_first, count),
                Some(s) => if s == 0 { sel } else { Some(sat_sub(s as int, amount) as usize) },
            },
            KeyCode::Down => match sel {
                None => selection_start(select_last_first, count),
                Some(s) => if count == 0 || s == count - 1 {
                    sel
                } else {
                    Some(min_int(s + amount, count - 1) as usize)
                },
            },
            KeyCode::PageUp => match sel {
                None => selection_start(select_last_first, count),
                Some(s) => Some(sat_sub(s as int, page) as usize),
            },
            KeyCode::PageDown => match sel {
                None => selection_start(select_last_first, count),
                Some(s) => if count == 0 { sel } else { Some(min_int(s + page, count - 1) as usize) },
            },
            KeyCode::Home => if count == 0 { None } else { Some(0usize) },
            KeyCode::End => if count == 0 { None } else { Some((count - 1) as usize) },
            _ => sel,
        }
    }
}

/// PageUp and PageDown move the selection by a page: the rows of the area less two (the frame),
/// five pages with SHIFT. PageUp stops at the first item and PageDown at the last; from a
/// selection a page away from the last item, PageDown then PageUp comes back to it.
pub proof fn lemma_page_keys_move_by_a_page(
    s: usize,
    count: usize,
    select_last_first: bool,
    shift: bool,
    control: bool,
    height: u16,
)
    requires
        s < count,
    ensures
        ({
            let page: int = (if shift { 5int } else { 1int }) * (if height > 2 { height - 2 } else { 0int });
            let up = KeyInput { code: KeyCode::PageUp, is_release: false, shift, control };
            let down = KeyInput { code: KeyCode::PageDown, is_release: false, shift, control };
            &&& key_selection(Some(s), count, select_last_first, up, height) == Some(
                (if s >= page { s - page } else { 0int }) as usize,
            )
            &&& key_selection(Some(s), count, select_last_first, down, height) == Some(
                (if s + page <= count - 1 { s + page } else { count - 1 }) as usize,
            )
            &&& s + page <= count - 1 ==> key_selection(
                key_selection(Some(s), count, select_last_first, down, height),
                count,
                select_last_first,
                up,
                height,
            ) == Some(s)
        }),
{
}

/// The arrow keys move the selection by one item, five with SHIFT, stopping at the first and
/// the last item; HOME selects the first item and END the last.
pub proof fn lemma_arrow_keys_move_by_one(s: usize, count: usize, select_last_first: bool, shift: bool, height: u16)
    requires
        s < count,
    ensures
        ({
            let step: int = if shift { 5int } else { 1int };
            let key = |code: KeyCode| KeyInput { code, is_release: false, shift, control: false };
            &&& key_selection(Some(s), count, select_last_first, key(KeyCode::Up), height) == Some(
                (if s >= step { s - step } else { 0int }) as usize,
            )
            &&& key_selection(Some(s), count, select_last_first, key(KeyCode::Down), height) == Some(
                (if s + step <= count - 1 { s + step } else { count - 1 }) as usize,
            )
            &&& key_selection(Some(s), count, select_last_first, key(KeyCode::Home), height) == Some(0usize)
            &&& key_selection(Some(s), count, select_last_first, key(KeyCode::End), height) == Some(
                (count - 1) as usize,
            )
        }),
{
}

/// What a key press on a focused list comes to, given the selection before it and the
/// position the focus is passed from; `None` where the list's handler decides (ENTER on a
/// selected item).
pub open spec fn key_status(
    sel: Option<usize>,
    count: usize,
    select_last_first: bool,
    key: KeyInput,
    pos: (u16, u16),
) -> Option<HandleEventStatus> {
    if key.is_release {
        Some(HandleEventStatus::Unhandled)
    } else if key.control && key.code == KeyCode::Up {
        Some(HandleEventStatus::PassFocus(pos, PassFocusDirection::Up))
    } else if key.control && key.code == KeyCode::Down {
        Some(HandleEventStatus::PassFocus(pos, PassFocusDirection::Down))
    } else {
        match key.code {
            KeyCode::Up => if (sel is None && count == 0) || (sel matches Some(s) && s == 0) {
                Some(HandleEventStatus::PassFocus(pos, PassFocusDirection::Up))
            } else {
                Some(HandleEventStatus::Handled)
            },
            KeyCode::Down => if count == 0 || (sel matches Some(s) && s == count - 1) {
                Some(HandleEventStatus::PassFocus(pos, PassFocusDirection::Down))
            } else {
                Some(HandleEventStatus::Handled)
            },
            KeyCode::PageUp | KeyCode::PageDown | KeyCode::Home | KeyCode::End => Some(
                HandleEventStatus::Handled,
            ),
            KeyCode::Left => Some(HandleEventStatus::PassFocus(pos, PassFocusDirection::Left)),
            KeyCode::Right => Some(HandleEventStatus::PassFocus(pos, PassFocusDirection::Right)),
            KeyCode::Tab => Some(HandleEventStatus::PassFocus(pos, PassFocusDirection::Forward)),
            KeyCode::Esc => Some(HandleEventStatus::PassFocus(pos, PassFocusDirection::Away)),
            KeyCode::Enter => if sel is None {
                Some(HandleEventStatus::Unhandled)
            } else {
                None
            },
            _ => Some(HandleEventStatus::Unhandled),
        }
    }
}

/// The status an element answers with for what its handler's ENTER gave, from the given
/// focus position.
pub open spec fn enter_status_spec(r: OnEnterResult, pos: (u16, u16)) -> HandleEventStatus {
    match r {
        OnEnterResult::Handled => HandleEventStatus::Handled,
        OnEnterResult::Unhandled => HandleEventStatus::Unhandled,
        OnEnterResult::PassFocus(direction) => HandleEventStatus::PassFocus(pos, direction),
    }
}

/// The status an element answers with for what its handler's ENTER gave.
pub fn enter_status(r: OnEnterResult, pos: (u16, u16)) -> (s: HandleEventStatus)
    ensures
        s == enter_status_spec(r, pos),
{
    match r {
        OnEnterResult::Handled => HandleEventStatus::Handled,
        OnEnterResult::Unhandled => HandleEventStatus::Unhandled,
        OnEnterResult::PassFocus(direction) => HandleEventStatus::PassFocus(pos, direction),
    }
}

/// The selection after a mouse event on a focused list.
pub open spec fn mouse_selection(sel: Option<usize>, count: usize, select_last_first: bool, mouse: MouseInput) -> Option<
    usize,
> {
    let amount = scroll_amount(mouse.shift) as int;
    match mouse.kind {
        MouseKind::Other => sel,
        MouseKind::ScrollUp => match sel {
            Some(s) => Some(sat_sub(s as int, amount) as usize),
            None => selection_start(select_last_first, count),
        },
        MouseKind::ScrollDown => match sel {
            Some(s) => Some(min_int(s + amount, sat_sub(count as int, 1)) as usize),
            None => selection_start(select_last_first, count),
        },
    }
}

/// The position of the scrollbar of a list of `item_count` items shown in `height` lines, and
/// the length of its content: the items that do not fit, and how far along the selected item
/// is (at the end when none is).
pub open spec fn scrollbar_spec(item_count: usize, height: u16, selected: Option<usize>) -> (usize, usize) {
    let content = sat_sub(item_count as int, height as int);
    let position = match selected {
        Some(idx) => (content * idx) / (if item_count >= 2 { item_count - 1 } else { 1 }),
        None => content,
    };
    (content as usize, position as usize)
}

/// The length of a list's scrollbar content and the scrollbar's position.
pub fn scrollbar_state(item_count: usize, height: u16, selected: Option<usize>) -> (r: (usize, usize))
    requires
        selected matches Some(idx) ==> idx < item_count,
    ensures
        r == scrollbar_spec(item_count, height, selected),
        r.1 <= r.0,
{
    let content: usize = if item_count > height as usize { item_count - height as usize } else { 0 };
    let position: usize = match selected {
        Some(idx) => {
            let divisor: usize = if item_count >= 2 { item_count - 1 } else { 1 };
            proof {
                assert(content * idx <= content * divisor) by (nonlinear_arith)
                    requires
                        idx <= divisor,
                        content >= 0,
                ;
                assert((content * idx) / (divisor as int) <= content) by (nonlinear_arith)
                    requires
                        content * idx <= content * divisor,
                        divisor > 0,
                ;
            }
            proof {
                assert(content * idx <= usize::MAX * usize::MAX) by (nonlinear_arith)
                    requires
                        content <= usize::MAX,
                        idx <= usize::MAX,
                ;
                assert(usize::MAX * usize::MAX <= u128::MAX) by (nonlinear_arith)
                    requires
                        usize::MAX <= u64::MAX,
                ;
            }
            let product: u128 = (content as u128) * (idx as u128);
            (product / (divisor as u128)) as usize
        },
        None => content,
    };
    (content, position)
}

/// A long list: its state, the handler that gives its items' lines, and the area it was last
/// given.
pub struct LongList<L, H: LongListHandler<L>> {
    pub area_x: u16,
    pub area_y: u16,
    pub area_width: u16,
    pub area_height: u16,
    pub controller: LongListController<L>,
    pub handler: H,
}

impl<L, H: LongListHandler<L>> LongList<L, H> {
    pub open spec fn spec_area(&self) -> (u16, u16, u16, u16) {
        (self.area_x, self.area_y, self.area_width, self.area_height)
    }

    /// The area stays within the coordinates of a terminal.
    pub open spec fn area_ok(&self) -> bool {
        self.spec_area().1 + self.spec_area().3 <= u16::MAX
    }

    /// Where the focus is passed from: the left edge, halfway down.
    pub open spec fn focus_position(&self) -> (u16, u16) {
        (self.spec_area().0, (self.spec_area().1 + self.spec_area().3 / 2) as u16)
    }

    pub fn new(
        title: String,
        item_count: usize,
        select_last_first: bool,
        deselect_on_remove: bool,
        handler: H,
    ) -> (l: Self)
        ensures
            l.controller.wf(),
            l.area_ok(),
            l.spec_area() == (0u16, 0u16, 0u16, 0u16),
            l.controller.spec_title() == title@,
            l.controller.spec_lines().len() == 0,
            l.controller.spec_item_count() == item_count,
            l.controller.spec_selected() is None,
            l.controller.spec_select_last_first() == select_last_first,
            l.controller.spec_deselect_on_remove() == deselect_on_remove,
            l.handler == handler,
    {
        Self {
            area_x: 0,
            area_y: 0,
            area_width: 0,
            area_height: 0,
            controller: LongListController::new(title, item_count, select_last_first, deselect_on_remove),
            handler,
        }
    }

    fn get_focus_position(&self) -> (p: (u16, u16))
        requires
            self.area_ok(),
        ensures
            p == self.focus_position(),
    {
        (self.area_x, self.area_y + self.area_height / 2)
    }

    /// Takes a new area; the kept lines are dropped when its size changed, as they were
    /// wrapped for the old width.
    pub fn resize(&mut self, x: u16, y: u16, width: u16, height: u16)
        requires
            old(self).controller.wf(),
            y + height <= u16::MAX,
        ensures
            final(self).controller.wf(),
            final(self).area_ok(),
            final(self).spec_area() == (x, y, width, height),
            final(self).controller.spec_lines() == (if old(self).spec_area().2 != width
                || old(self).spec_area().3 != height {
                Seq::empty()
            } else {
                old(self).controller.spec_lines()
            }),
            final(self).controller.spec_item_count() == old(self).controller.spec_item_count(),
            final(self).controller.spec_selected() == old(self).controller.spec_selected(),
            final(self).controller.spec_title() == old(self).controller.spec_title(),
            final(self).controller.spec_select_last_first() == old(self).controller.spec_select_last_first(),
            final(self).controller.spec_deselect_on_remove() == old(self).controller.spec_deselect_on_remove(),
            final(self).handler == old(self).handler,
    {
        let changed = self.area_width != width || self.area_height != height;
        self.area_x = x;
        self.area_y = y;
        self.area_width = width;
        self.area_height = height;
        if changed {
            self.controller.lines.clear();
            assert(indices_of(self.controller.lines@) =~= Seq::<usize>::empty());
        }
    }

    /// The height it asks for: two lines of border plus one per item, within what is
    /// available; it takes the whole width.
    pub fn begin_resize(&mut self, width: u16, height: u16) -> (r: (u16, u16))
        ensures
            r == (width, min_int(min_int(old(self).controller.spec_item_count() + 2, u16::MAX as int), height as int) as u16),
            *final(self) == *old(self),
    {
        let count = self.controller.item_count;
        let desired: u16 = if count >= 65533 { 65535 } else { (count + 2) as u16 };
        (width, if desired < height { desired } else { height })
    }

    /// Handles a mouse event: when focused, the wheel moves the selection (five at a time with
    /// SHIFT), or selects the first item to select.
    pub fn handle_mouse_event(&mut self, mouse: MouseInput, is_focused: bool) -> (status: HandleEventStatus)
        requires
            old(self).controller.wf(),
        ensures
            final(self).controller.wf(),
            status == (if !is_focused || mouse.kind == MouseKind::Other {
                HandleEventStatus::Unhandled
            } else {
                HandleEventStatus::Handled
            }),
            final(self).controller.spec_selected() == (if !is_focused {
                old(self).controller.spec_selected()
            } else {
                mouse_selection(
                    old(self).controller.spec_selected(),
                    old(self).controller.spec_item_count(),
                    old(self).controller.spec_select_last_first(),
                    mouse,
                )
            }),
            final(self).controller.spec_lines() == old(self).controller.spec_lines(),
            final(self).controller.spec_item_count() == old(self).controller.spec_item_count(),
            final(self).controller.spec_title() == old(self).controller.spec_title(),
            final(self).controller.spec_select_last_first() == old(self).controller.spec_select_last_first(),
            final(self).controller.spec_deselect_on_remove() == old(self).controller.spec_deselect_on_remove(),
            final(self).spec_area() == old(self).spec_area(),
            final(self).handler == old(self).handler,
    {
        if !is_focused {
            return HandleEventStatus::Unhandled;
        }
        let is_up = match mouse.kind {
            MouseKind::ScrollUp => true,
            MouseKind::ScrollDown => false,
            MouseKind::Other => {
                return HandleEventStatus::Unhandled;
            },
        };
        let count = self.controller.item_count;
        match self.controller.selected_index {
            Some(s) => {
                let amount: usize = if mouse.shift { KEY_SHIFT_SCROLL_AMOUNT } else { 1 };
                let last: usize = if count > 0 { count - 1 } else { 0 };
                let next: usize = if is_up {
                    if s > amount { s - amount } else { 0 }
                } else {
                    let moved = s.saturating_add(amount);
                    if moved < last { moved } else { last }
                };
                self.controller.selected_index = Some(next);
            },
            None => {
                self.controller.selected_index = calc_index_of_selection_start(
                    self.controller.select_last_first,
                    count,
                );
            },
        }
        HandleEventStatus::Handled
    }

    /// Handles a key press: when focused, the arrow keys, page up, page down, home and end move
    /// the selection (arrows and pages go five times as far with SHIFT), and pass the focus on
    /// at either end of the list; left, right, TAB and ESC pass the focus on; ENTER on a
    /// selected item goes to the handler.
    #[verifier::rlimit(80)]
    #[verifier::spinoff_prover]
    pub fn handle_key_event(&mut self, key: KeyInput, is_focused: bool) -> (status: HandleEventStatus)
        requires
            old(self).controller.wf(),
            old(self).area_ok(),
        ensures
            final(self).controller.wf(),
            if is_focused && key_status(
                old(self).controller.spec_selected(),
                old(self).controller.spec_item_count(),
                old(self).controller.spec_select_last_first(),
                key,
                old(self).focus_position(),
            ) is None {
                old(self).handler.changed_by_enter(final(self).handler, old(self).controller.spec_selected()->0)
            } else {
                final(self).handler == old(self).handler
            },
            !is_focused ==> status == HandleEventStatus::Unhandled && final(self).controller.spec_selected()
                == old(self).controller.spec_selected(),
            is_focused ==> final(self).controller.spec_selected() == key_selection(
                old(self).controller.spec_selected(),
                old(self).controller.spec_item_count(),
                old(self).controller.spec_select_last_first(),
                key,
                old(self).spec_area().3,
            ),
            is_focused ==> match key_status(
                old(self).controller.spec_selected(),
                old(self).controller.spec_item_count(),
                old(self).controller.spec_select_last_first(),
                key,
                old(self).focus_position(),
            ) {
                Some(st) => status == st,
                None => exists|r: OnEnterResult| status == enter_status_spec(r, old(self).focus_position()),
            },
            final(self).controller.spec_lines() == old(self).controller.spec_lines(),
            final(self).controller.spec_item_count() == old(self).controller.spec_item_count(),
            final(self).controller.spec_title() == old(self).controller.spec_title(),
            final(self).controller.spec_select_last_first() == old(self).controller.spec_select_last_first(),
            final(self).controller.spec_deselect_on_remove() == old(self).controller.spec_deselect_on_remove(),
            final(self).spec_area() == old(self).spec_area(),
    {
        if !is_focused || key.is_release {
            return HandleEventStatus::Unhandled;
        }
        let pos = self.get_focus_position();
        if key.control {
            match key.code {
                KeyCode::Up => {
                    return HandleEventStatus::PassFocus(pos, PassFocusDirection::Up);
                },
                KeyCode::Down => {
                    return HandleEventStatus::PassFocus(pos, PassFocusDirection::Down);
                },
                _ => {},
            }
        }
        let count = self.controller.item_count;
        let start = calc_index_of_selection_start(self.controller.select_last_first, count);
        let amount: usize = if key.shift { KEY_SHIFT_SCROLL_AMOUNT } else { 1 };
        let rows: usize = if self.area_height > 2 { (self.area_height - 2) as usize } else { 0 };
        assert(amount * rows <= 5 * 65535) by (nonlinear_arith)
            requires
                amount <= 5,
                rows <= 65535,
        ;
        let page: usize = amount * rows;
        match key.code {
            KeyCode::Up => match self.controller.selected_index {
                None => {
                    self.controller.selected_index = start;
                    if start.is_none() {
                        HandleEventStatus::PassFocus(pos, PassFocusDirection::Up)
                    } else {
                        HandleEventStatus::Handled
                    }
                },
                Some(s) => {
                    if s == 0 {
                        HandleEventStatus::PassFocus(pos, PassFocusDirection::Up)
                    } else {
                        self.controller.selected_index = Some(if s > amount { s - amount } else { 0 });
                        HandleEventStatus::Handled
                    }
                },
            },
            KeyCode::Down => match self.controller.selected_index {
                None => {
                    self.controller.selected_index = start;
                    if start.is_none() {
                        HandleEventStatus::PassFocus(pos, PassFocusDirection::Down)
                    } else {
                        HandleEventStatus::Handled
                    }
                },
                Some(s) => {
                    if count == 0 || s == count - 1 {
                        HandleEventStatus::PassFocus(pos, PassFocusDirection::Down)
                    } else {
                        let moved = s.saturating_add(amount);
                        self.controller.selected_index = Some(if moved < count - 1 { moved } else { count - 1 });
                        HandleEventStatus::Handled
                    }
                },
            },
            KeyCode::PageUp => {
                match self.controller.selected_index {
                    None => {
                        self.controller.selected_index = start;
                    },
                    Some(s) => {
                        self.controller.selected_index = Some(if s > page { s - page } else { 0 });
                    },
                }
                HandleEventStatus::Handled
            },
            KeyCode::PageDown => {
                match self.controller.selected_index {
                    None => {
                        self.controller.selected_index = start;
                    },
                    Some(s) => {
                        if count > 0 {
                            let moved = s.saturating_add(page);
                            self.controller.selected_index = Some(if moved < count - 1 { moved } else { count - 1 });
                        }
                    },
                }
                HandleEventStatus::Handled
            },
            KeyCode::Home => {
                self.controller.selected_index = calc_index_of_first(count);
                HandleEventStatus::Handled
            },
            KeyCode::End => {
                self.controller.selected_index = calc_index_of_last(count);
                HandleEventStatus::Handled
            },
            KeyCode::Left => HandleEventStatus::PassFocus(pos, PassFocusDirection::Left),
            KeyCode::Right => HandleEventStatus::PassFocus(pos, PassFocusDirection::Right),
            KeyCode::Tab => HandleEventStatus::PassFocus(pos, PassFocusDirection::Forward),
            KeyCode::Esc => HandleEventStatus::PassFocus(pos, PassFocusDirection::Away),
            KeyCode::Enter => match self.controller.selected_index {
                Some(s) => {
                    let r = self.handler.on_enter(s);
                    enter_status(r, pos)
                },
                None => HandleEventStatus::Unhandled,
            },
            _ => HandleEventStatus::Unhandled,
        }
    }

    /// Takes the focus if the list has an item, selecting the first item to select.
    pub fn receive_focus(&mut self) -> (accepted: bool)
        requires
            old(self).controller.wf(),
        ensures
            final(self).controller.wf(),
            accepted == (old(self).controller.spec_item_count() > 0),
            final(self).controller.spec_selected() == (if accepted {
                selection_start(old(self).controller.spec_select_last_first(), old(self).controller.spec_item_count())
            } else {
                old(self).controller.spec_selected()
            }),
            final(self).controller.spec_lines() == old(self).controller.spec_lines(),
            final(self).controller.spec_item_count() == old(self).controller.spec_item_count(),
            final(self).controller.spec_title() == old(self).controller.spec_title(),
            final(self).controller.spec_select_last_first() == old(self).controller.spec_select_last_first(),
            final(self).controller.spec_deselect_on_remove() == old(self).controller.spec_deselect_on_remove(),
            final(self).spec_area() == old(self).spec_area(),
            final(self).handler == old(self).handler,
    {
        match calc_index_of_selection_start(self.controller.select_last_first, self.controller.item_count) {
            Some(index) => {
                self.controller.selected_index = Some(index);
                true
            },
            None => false,
        }
    }

    /// Drops the selection.
    pub fn focus_lost(&mut self)
        requires
            old(self).controller.wf(),
        ensures
            final(self).controller.wf(),
            final(self).controller.spec_selected() is None,
            final(self).controller.spec_lines() == old(self).controller.spec_lines(),
            final(self).controller.spec_item_count() == old(self).controller.spec_item_count(),
            final(self).controller.spec_title() == old(self).controller.spec_title(),
            final(self).controller.spec_select_last_first() == old(self).controller.spec_select_last_first(),
            final(self).controller.spec_deselect_on_remove() == old(self).controller.spec_deselect_on_remove(),
            final(self).spec_area() == old(self).spec_area(),
            final(self).handler == old(self).handler,
    {
        self.controller.selected_index = None;
    }
}

/// Lines of one item, each paired with the item's index.
pub open spec fn tagged<L>(item: Seq<L>, index: usize) -> Seq<(L, usize)> {
    item.map_values(|l: L| (l, index))
}

/// Puts the lines of item `index` after the kept ones.
fn push_item_back<L>(lines: &mut VecDeque<(L, usize)>, item: Vec<L>, index: usize)
    ensures
        final(lines)@ == old(lines)@ + tagged(item@, index),
{
    let mut item = item;
    let ghost orig = item@;
    let ghost start = lines@;
    let mut taken: usize = 0;
    assert(orig.len() == item.len());
    while item.len() > 0
        invariant
            orig.len() <= usize::MAX,
            taken + item@.len() == orig.len(),
            item@ == orig.subrange(taken as int, orig.len() as int),
            lines@ == start + tagged(orig.subrange(0, taken as int), index),
        decreases item.len(),
    {
        let l = item.remove(0);
        lines.push_back((l, index));
        assert(tagged(orig.subrange(0, taken + 1), index) =~= tagged(orig.subrange(0, taken as int), index).push(
            (l, index),
        ));
        taken = taken + 1;
        assert(item@ =~= orig.subrange(taken as int, orig.len() as int));
    }
    assert(orig.subrange(0, orig.len() as int) =~= orig);
}

/// Puts the lines of item `index` before the kept ones.
fn push_item_front<L>(lines: &mut VecDeque<(L, usize)>, item: Vec<L>, index: usize)
    ensures
        final(lines)@ == tagged(item@, index) + old(lines)@,
{
    let mut item = item;
    let ghost orig = item@;
    let ghost start = lines@;
    while item.len() > 0
        invariant
            item@ == orig.subrange(0, item@.len() as int),
            item@.len() <= orig.len(),
            lines@ == tagged(orig.subrange(item@.len() as int, orig.len() as int), index) + start,
        decreases item.len(),
    {
        let ghost n = item@.len();
        let l = item.pop().unwrap();
        lines.push_front((l, index));
        assert(tagged(orig.subrange(item@.len() as int, orig.len() as int), index) =~= seq![(l, index)] + tagged(
            orig.subrange(n as int, orig.len() as int),
            index,
        ));
    }
    assert(orig.subrange(0, orig.len() as int) =~= orig);
}

/// Which part of the kept lines to draw: the position of the first line, how many lines, and
/// the number within its item of the first line drawn.
pub struct LinesWindow {
    pub first: usize,
    pub count: usize,
    pub first_line_number: u16,
}

/// Whether a window over the kept lines shows the center item as the list places it. Let the
/// center item's lines run from `cs` to `ce`. When it has at least `height` lines, the window
/// shows its first `height` lines. Otherwise it shows all of them, and the other `extra`
/// lines are split with half of them (rounded down) before the item and the rest after it;
/// a side gets fewer only where the lines run out there (the window then starts at the first
/// line of the first item, or ends at the last line of the last item), and a side gets more
/// only where the other side ran out.
pub open spec fn window_centered<L>(
    lines: Seq<(L, usize)>,
    item_count: usize,
    center: usize,
    height: int,
    w: LinesWindow,
) -> bool {
    let ix = indices_of(lines);
    let cs = first_at_least(ix, center as int) as int;
    let ce = first_at_least(ix, center + 1) as int;
    let c = ce - cs;
    let extra = if height > c { height - c } else { 0 };
    let lo = extra / 2;
    let hi = extra - lo;
    let before = cs - w.first;
    let after = w.first + w.count - ce;
    let at_first = w.first == 0 && lines[0].1 == 0;
    let at_last = w.first + w.count == lines.len() && lines.last().1 == item_count - 1;
    if c >= height {
        w.first == cs && w.count == height
    } else {
        &&& before >= 0 && after >= 0
        &&& before < lo ==> at_first
        &&& before > lo ==> at_last
        &&& after < hi ==> at_last
        &&& after > hi ==> at_first
    }
}

/// The window is centered as the list places it, given how the lines were gathered: the
/// center item's `cc` lines start at `p`; `rl` and `rh` lines were still wanted below and
/// above it (negative where more were found), after `tl` wanted lines moved from the upper
/// side to the lower one; `lower_done` and `higher_done` tell that the first and the last
/// item were reached.
proof fn lemma_window_centered<L>(
    lines: Seq<(L, usize)>,
    item_count: usize,
    center: usize,
    height: int,
    w: LinesWindow,
    p: int,
    cc: int,
    lo: int,
    hi: int,
    rl: int,
    rh: int,
    tl: int,
    lower_done: bool,
    higher_done: bool,
)
    requires
        lines_ok(indices_of(lines), item_count),
        height >= 1,
        cc >= 1,
        0 <= p,
        p + cc <= lines.len(),
        indices_of(lines)[p] == center,
        indices_of(lines)[p + cc - 1] == center,
        p > 0 ==> indices_of(lines)[p - 1] < center,
        p + cc < lines.len() ==> indices_of(lines)[p + cc] > center,
        lo == (if height > cc { height - cc } else { 0 }) / 2,
        hi == (if height > cc { height - cc } else { 0 }) - lo,
        p + rl == lo + tl,
        (lines.len() - p - cc) + rh == hi - tl,
        tl > 0 ==> higher_done && rh >= 0,
        tl < 0 ==> lower_done && rl >= 0,
        rl > 0 || rh > 0 ==> lower_done && higher_done,
        lower_done ==> lines[0].1 == 0,
        higher_done ==> lines.last().1 == item_count - 1,
        w.first == (if rl < 0 { -rl } else { 0 }),
        cc < height ==> w.count == lines.len() - w.first - (if rh < 0 { -rh } else { 0 }),
        cc >= height ==> w.count == height,
    ensures
        window_centered(lines, item_count, center, height, w),
{
    let ix = indices_of(lines);
    lemma_first_at_least(ix, center as int);
    lemma_first_at_least(ix, center + 1);
    let cs = first_at_least(ix, center as int) as int;
    let ce = first_at_least(ix, center + 1) as int;
    assert(cs == p) by {
        if cs < p {
            lemma_sorted(ix, item_count, cs, p - 1);
        }
        if cs > p {
            assert(ix[p] < center);
        }
    }
    assert(ce == p + cc) by {
        if ce < p + cc {
            lemma_sorted(ix, item_count, p, ce);
            lemma_sorted(ix, item_count, ce, p + cc - 1);
        }
        if ce > p + cc {
            assert(ix[p + cc] < center + 1);
        }
    }
}

/// The part of `len` kept lines to draw, once `remaining_lower` and `remaining_higher` lines
/// were still wanted below and above the center item (negative where more were found than
/// wanted): the extra lines on each side are skipped and at most `height` lines are drawn. The
/// center item's first line, at `lower_span`, is among those drawn.
fn lines_window(
    len: usize,
    remaining_lower: i128,
    remaining_higher: i128,
    height: u16,
    Ghost(lower_span): Ghost<int>,
    Ghost(cc): Ghost<int>,
) -> (w: LinesWindow)
    requires
        cc >= 1,
        height >= 1,
        lower_span >= 0,
        lower_span + cc <= len,
        len + remaining_lower + remaining_higher == (if height > cc { height as int } else { cc }),
        remaining_lower + lower_span >= 0,
        remaining_higher + (len - lower_span - cc) >= 0,
    ensures
        w.first <= lower_span < w.first + w.count,
        w.first + w.count <= len,
        w.count <= height,
        remaining_lower <= 0 && remaining_higher <= 0 ==> w.count == height,
        w.first == (if remaining_lower < 0 { -remaining_lower } else { 0 }),
        w.first_line_number == #[verifier::truncate] (w.first as u16),
        cc < height ==> w.count == len - w.first - (if remaining_higher < 0 { -remaining_higher } else { 0 }),
        cc >= height ==> w.count == height,
{
    let skip_front: usize = if remaining_lower < 0 {
        if -remaining_lower > len as i128 { len } else { (-remaining_lower) as usize }
    } else {
        0
    };
    let skip_back: usize = if remaining_higher < 0 {
        if -remaining_higher > len as i128 { len } else { (-remaining_higher) as usize }
    } else {
        0
    };
    let available: usize = if skip_front < len && skip_back < len - skip_front {
        len - skip_front - skip_back
    } else {
        0
    };
    let count: usize = if available < height as usize { available } else { height as usize };
    let first_line_number: u16 = if remaining_lower < 0 {
        #[verifier::truncate] ((-remaining_lower) as u16)
    } else {
        0
    };
    LinesWindow { first: if available == 0 { 0 } else { skip_front }, count, first_line_number }
}

impl<L, H: LongListHandler<L>> LongList<L, H> {
    /// Keeps only the lines from position `lower` up to (not including) `higher`.
    fn keep_lines_between(&mut self, lower: usize, higher: usize)
        requires
            lower <= higher <= old(self).controller.lines@.len(),
        ensures
            final(self).controller.lines@ == old(self).controller.lines@.subrange(lower as int, higher as int),
            final(self).controller.item_count == old(self).controller.item_count,
            final(self).controller.selected_index == old(self).controller.selected_index,
            final(self).controller.title == old(self).controller.title,
            final(self).controller.select_last_first == old(self).controller.select_last_first,
            final(self).controller.deselect_on_remove == old(self).controller.deselect_on_remove,
            final(self).spec_area() == old(self).spec_area(),
            final(self).handler == old(self).handler,
    {
        let ghost all = self.controller.lines@;
        while self.controller.lines.len() > higher
            invariant
                self.controller.item_count == old(self).controller.item_count,
                self.controller.selected_index == old(self).controller.selected_index,
                self.controller.title == old(self).controller.title,
                self.controller.select_last_first == old(self).controller.select_last_first,
                self.controller.deselect_on_remove == old(self).controller.deselect_on_remove,
                self.spec_area() == old(self).spec_area(),
                self.handler == old(self).handler,
                higher <= self.controller.lines@.len() <= all.len(),
                self.controller.lines@ == all.subrange(0, self.controller.lines@.len() as int),
            decreases self.controller.lines@.len(),
        {
            self.controller.lines.pop_back();
        }
        let mut dropped: usize = 0;
        while dropped < lower
            invariant
                self.controller.item_count == old(self).controller.item_count,
                self.controller.selected_index == old(self).controller.selected_index,
                self.controller.title == old(self).controller.title,
                self.controller.select_last_first == old(self).controller.select_last_first,
                self.controller.deselect_on_remove == old(self).controller.deselect_on_remove,
                self.spec_area() == old(self).spec_area(),
                self.handler == old(self).handler,
                dropped <= lower <= higher <= all.len(),
                self.controller.lines@ == all.subrange(dropped as int, higher as int),
            decreases lower - dropped,
        {
            self.controller.lines.pop_front();
            dropped = dropped + 1;
        }
    }

    /// Finds the kept lines of the center item, or keeps its lines alone when none of them is
    /// kept: the position of its first line and how many lines it has.
    fn find_center_lines(&mut self, center_item_index: usize, width: u16) -> (r: (usize, usize))
        requires
            old(self).controller.wf(),
            center_item_index < old(self).controller.spec_item_count(),
        ensures
            lines_ok(indices_of(final(self).controller.lines@), final(self).controller.item_count),
            r.1 >= 1,
            r.0 + r.1 <= final(self).controller.lines@.len() <= usize::MAX,
            indices_of(final(self).controller.lines@)[r.0 as int] == center_item_index,
            indices_of(final(self).controller.lines@)[r.0 + r.1 - 1] == center_item_index,
            r.0 > 0 ==> indices_of(final(self).controller.lines@)[r.0 - 1] < center_item_index,
            r.0 + r.1 < final(self).controller.lines@.len() ==> indices_of(final(self).controller.lines@)[r.0
                + r.1] == center_item_index + 1,
            final(self).controller.item_count == old(self).controller.item_count,
            final(self).controller.selected_index == old(self).controller.selected_index,
            final(self).controller.title == old(self).controller.title,
            final(self).controller.select_last_first == old(self).controller.select_last_first,
            final(self).controller.deselect_on_remove == old(self).controller.deselect_on_remove,
            final(self).spec_area() == old(self).spec_area(),
    {
        let item_count = self.controller.item_count;
        let ghost ix0 = indices_of(self.controller.lines@);
        proof {
            lemma_first_at_least(ix0, center_item_index as int);
            lemma_first_at_least_sorted(ix0, item_count, center_item_index as int);
        }

        // Find the first kept line of the center item, if it is kept.
        let len0 = self.controller.lines.len();
        let mut start: usize = 0;
        while start < len0 && self.controller.lines[start].1 < center_item_index
            invariant
                len0 == self.controller.lines@.len(),
                ix0 == indices_of(self.controller.lines@),
                start <= first_at_least(ix0, center_item_index as int),
                first_at_least(ix0, center_item_index as int) <= ix0.len(),
                forall|i: int|
                    first_at_least(ix0, center_item_index as int) <= i < ix0.len() ==> #[trigger] ix0[i]
                        >= center_item_index,
            decreases len0 - start,
        {
            assert(ix0[start as int] == self.controller.lines@[start as int].1);
            start = start + 1;
        }
        let found = start < len0 && self.controller.lines[start].1 == center_item_index;
        let mut center_start: usize = 0;
        let mut center_count: usize = 0;
        if found {
            proof {
                if start < first_at_least(ix0, center_item_index as int) {
                    assert(ix0[start as int] < center_item_index);
                }
            }
            center_start = start;
            center_count = 1;
            while center_start + center_count < len0
                && self.controller.lines[center_start + center_count].1 == center_item_index
                invariant
                    len0 == self.controller.lines@.len(),
                    ix0 == indices_of(self.controller.lines@),
                    center_count >= 1,
                    center_start + center_count <= len0,
                    center_start == first_at_least(ix0, center_item_index as int),
                    forall|k: int| center_start <= k < center_start + center_count ==> #[trigger] ix0[k]
                        == center_item_index,
                decreases len0 - center_start - center_count,
            {
                center_count = center_count + 1;
            }
        } else {
            self.controller.lines.clear();
            let item_lines = self.handler.get_item_lines(center_item_index, width);
            push_item_back(&mut self.controller.lines, item_lines, center_item_index);
            center_start = 0;
            center_count = self.controller.lines.len();
        }
        let ghost ix1 = indices_of(self.controller.lines@);
        proof {
            assert(ix1.len() == self.controller.lines@.len());
            if !found {
                assert forall|k: int| 0 <= k < ix1.len() implies #[trigger] ix1[k] == center_item_index by {
                    assert(self.controller.lines@[k].1 == center_item_index);
                }
            } else {
                if center_start + center_count < ix1.len() {
                    let e = (center_start + center_count) as int;
                    assert(ix1[e - 1 + 1] == ix1[e - 1] || ix1[e - 1 + 1] == ix1[e - 1] + 1);
                }
                if center_start > 0 {
                    assert(ix1[center_start - 1] < center_item_index);
                }
            }
        }
        proof {
            if center_start + center_count < ix1.len() {
                let e = (center_start + center_count) as int;
                if found {
                    assert(ix1[e - 1 + 1] == ix1[e - 1] || ix1[e - 1 + 1] == ix1[e - 1] + 1);
                    assert(ix1[e - 1] == center_item_index);
                }
            }
            if found {
                assert(ix1[center_start + center_count - 1] == center_item_index);
            } else {
                assert(ix1[center_count - 1] == center_item_index);
            }
        }
        let kept_count = self.controller.lines.len();
        assert(kept_count == ix1.len());
        (center_start, center_count)
    }

    /// Makes sure the lines of the item `center_item_index` are kept, with enough lines of the
    /// items around it to fill `height` lines (half above, half below, more on one side where
    /// the other runs out of items), turning items into lines through the handler only where
    /// they are not kept yet, and dropping the lines of items no longer needed. Answers which
    /// kept lines to draw, in order: the window holds a line of the center item and is placed
    /// around it as `window_centered` says, it is full unless the kept lines run from the first
    /// item to the last, and the lines skipped before it belong to the item of its first line,
    /// whose number within the item is how many they are.
    #[verifier::rlimit(100)]
    #[verifier::spinoff_prover]
    pub fn process_lines(&mut self, center_item_index: usize, width: u16, height: u16) -> (w: LinesWindow)
        requires
            old(self).controller.wf(),
            old(self).controller.spec_item_count() > 0 ==> center_item_index < old(self).controller.spec_item_count(),
        ensures
            final(self).controller.wf(),
            w.first + w.count <= final(self).controller.spec_lines().len(),
            w.count <= height,
            old(self).controller.spec_item_count() == 0 || width == 0 || height == 0 ==> w.count == 0
                && final(self).controller.spec_lines() == old(self).controller.spec_lines(),
            old(self).controller.spec_item_count() > 0 && width > 0 && height > 0 ==> exists|i: int|
                w.first <= i < w.first + w.count && #[trigger] final(self).controller.spec_lines()[i].1
                    == center_item_index,
            old(self).controller.spec_item_count() > 0 && width > 0 && height > 0 ==> window_centered(
                final(self).controller.spec_lines(),
                old(self).controller.spec_item_count(),
                center_item_index,
                height as int,
                w,
            ),
            old(self).controller.spec_item_count() > 0 && width > 0 && height > 0 ==> w.count == height || (
            final(self).controller.spec_lines()[0].1 == 0 && final(self).controller.spec_lines().last().1
                == old(self).controller.spec_item_count() - 1),
            old(self).controller.spec_item_count() > 0 && width > 0 && height > 0 ==> w.first_line_number
                == #[verifier::truncate] (w.first as u16) && forall|j: int|
                0 <= j <= w.first ==> #[trigger] final(self).controller.spec_lines()[j].1
                    == final(self).controller.spec_lines()[w.first as int].1,
            final(self).controller.spec_item_count() == old(self).controller.spec_item_count(),
            final(self).controller.spec_selected() == old(self).controller.spec_selected(),
            final(self).controller.spec_title() == old(self).controller.spec_title(),
            final(self).controller.spec_select_last_first() == old(self).controller.spec_select_last_first(),
            final(self).controller.spec_deselect_on_remove() == old(self).controller.spec_deselect_on_remove(),
            final(self).spec_area() == old(self).spec_area(),
    {
        let item_count = self.controller.item_count;
        if item_count == 0 || width == 0 || height == 0 {
            return LinesWindow { first: 0, count: 0, first_line_number: 0 };
        }
        let (center_start, center_count) = self.find_center_lines(center_item_index, width);
        let ghost ix1 = indices_of(self.controller.lines@);

        let additional: i128 = if (height as usize) > center_count { (height as usize - center_count) as i128 } else { 0 };
        let mut remaining_lower: i128 = additional / 2;
        let mut lower_index: usize = center_item_index;
        let mut lower_i: usize = center_start;
        let mut remaining_higher: i128 = (additional + 1) / 2;
        let mut higher_index: usize = center_item_index + 1;
        let mut higher_i: usize = center_start + center_count;
        let ghost mut center_pos: int = center_start as int;
        let ghost mut transfers: int = 2;
        let ghost cc: int = center_count as int;
        let ghost lo: int = additional / 2;
        let ghost hi: int = (additional + 1) / 2;
        let ghost mut tl: int = 0;
        assert(cc + additional == (if height > cc { height as int } else { cc }));

        while (remaining_lower > 0 || remaining_higher > 0) && (lower_index > 0 || higher_index < item_count)
            invariant
                item_count == self.controller.item_count,
                item_count > 0,
                lines_ok(indices_of(self.controller.lines@), item_count),
                self.controller.lines@.len() <= usize::MAX,
                lower_i <= center_pos < higher_i <= self.controller.lines@.len(),
                cc >= 1,
                center_pos + cc <= higher_i,
                cc + additional == (if height > cc { height as int } else { cc }),
                (higher_i - lower_i) + remaining_lower + remaining_higher == cc + additional,
                remaining_lower + (center_pos - lower_i) >= 0,
                remaining_higher + (higher_i - center_pos - cc) >= 0,
                remaining_lower < 0 ==> indices_of(self.controller.lines@)[lower_i - remaining_lower] == lower_index,
                indices_of(self.controller.lines@)[lower_i as int] == lower_index,
                lower_i > 0 ==> indices_of(self.controller.lines@)[lower_i - 1] < lower_index,
                indices_of(self.controller.lines@)[higher_i - 1] == higher_index - 1,
                higher_i < self.controller.lines@.len() ==> indices_of(self.controller.lines@)[higher_i as int]
                    == higher_index,
                indices_of(self.controller.lines@)[center_pos] == center_item_index,
                lower_index <= center_item_index < higher_index <= item_count,
                remaining_lower + remaining_higher <= 65536,
                remaining_lower >= -(self.controller.lines@.len() as int) - 1,
                remaining_higher >= -(self.controller.lines@.len() as int) - 1,
                remaining_lower <= 65536 + self.controller.lines@.len() + 1,
                remaining_higher <= 65536 + self.controller.lines@.len() + 1,
                0 <= transfers <= 2,
                lo == additional / 2,
                hi == (additional + 1) / 2,
                (center_pos - lower_i) + remaining_lower == lo + tl,
                (higher_i - center_pos - cc) + remaining_higher == hi - tl,
                tl > 0 ==> higher_index == item_count && remaining_higher >= 0,
                tl < 0 ==> lower_index == 0 && remaining_lower >= 0,
                center_pos > 0 ==> indices_of(self.controller.lines@)[center_pos - 1] < center_item_index,
                center_pos + cc < self.controller.lines@.len() ==> indices_of(self.controller.lines@)[center_pos
                    + cc] > center_item_index,
                indices_of(self.controller.lines@)[center_pos + cc - 1] == center_item_index,
                transfers == 1 ==> (lower_index == 0 && remaining_lower == 0) || (higher_index == item_count
                    && remaining_higher == 0),
                transfers == 0 ==> lower_index == 0 && higher_index == item_count,
                self.controller.selected_index == old(self).controller.selected_index,
                self.controller.item_count == old(self).controller.item_count,
                self.controller.title == old(self).controller.title,
                self.controller.select_last_first == old(self).controller.select_last_first,
                self.controller.deselect_on_remove == old(self).controller.deselect_on_remove,
                self.area_x == old(self).area_x,
                self.area_y == old(self).area_y,
                self.area_width == old(self).area_width,
                self.area_height == old(self).area_height,
            decreases 3 * (lower_index + (item_count - higher_index)) + transfers,
        {
            let ghost lines_before = self.controller.lines@;
            let ghost ixb = indices_of(lines_before);
            if remaining_higher < remaining_lower {
                if lower_index == 0 {
                    let ghost rl_old = remaining_lower;
                    remaining_higher = remaining_higher + remaining_lower;
                    remaining_lower = 0;
                    proof {
                        transfers = transfers - 1;
                        tl = tl - rl_old;
                    }
                } else {
                    lower_index = lower_index - 1;
                    if lower_i == 0 {
                        let item_lines = self.handler.get_item_lines(lower_index, width);
                        let k = item_lines.len();
                        push_item_front(&mut self.controller.lines, item_lines, lower_index);
                        let new_len = self.controller.lines.len();
                        let ghost ixa = indices_of(self.controller.lines@);
                        proof {
                            assert forall|j: int| 0 <= j < ixa.len() implies #[trigger] ixa[j] == (if j < k {
                                lower_index as int
                            } else {
                                ixb[j - k] as int
                            }) by {
                                if j < k {
                                    assert(self.controller.lines@[j] == tagged(item_lines@, lower_index)[j]);
                                } else {
                                    assert(self.controller.lines@[j] == lines_before[j - k]);
                                }
                            }
                            assert forall|j: int| 0 <= j < ixa.len() - 1 implies #[trigger] ixa[j + 1] == ixa[j]
                                || ixa[j + 1] == ixa[j] + 1 by {
                                if j + 1 >= k + 1 {
                                    assert(ixb[(j - k) + 1] == ixb[j - k] || ixb[(j - k) + 1] == ixb[j - k] + 1);
                                }
                            }
                        }
                        remaining_lower = remaining_lower - (k as i128);
                        higher_i = higher_i + k;
                        proof {
                            let cp0 = center_pos;
                            center_pos = center_pos + k;
                            assert(ixa[center_pos] == ixb[cp0]);
                            assert(ixa[center_pos + cc - 1] == ixb[cp0 + cc - 1]);
                            if cp0 + cc < ixb.len() {
                                assert(ixa[center_pos + cc] == ixb[cp0 + cc]);
                            }
                            if cp0 > 0 {
                                assert(ixa[center_pos - 1] == ixb[cp0 - 1]);
                            } else if k > 0 {
                                assert(ixa[center_pos - 1] == lower_index);
                            }
                        }
                    } else {
                        proof {
                            assert(ixb[lower_i - 1 + 1] == ixb[lower_i - 1] || ixb[lower_i - 1 + 1] == ixb[lower_i - 1]
                                + 1);
                        }
                        lower_i = lower_i - 1;
                        remaining_lower = remaining_lower - 1;
                        let ghost rl0 = remaining_lower;
                        let ghost li0 = lower_i;
                        let skipping_index = self.controller.lines[lower_i].1;
                        assert(ixb[li0 as int] == lower_index);
                        while lower_i != 0 && self.controller.lines[lower_i - 1].1 == skipping_index
                            invariant
                                self.controller.lines@ == lines_before,
                                ixb == indices_of(lines_before),
                                lines_ok(ixb, item_count),
                                lower_i <= li0 < center_pos < lines_before.len(),
                                ixb[lower_i as int] == lower_index,
                                skipping_index == lower_index,
                                rl0 >= 0,
                                rl0 + remaining_higher <= 65535,
                                remaining_lower == rl0 - (li0 - lower_i),
                            decreases lower_i,
                        {
                            lower_i = lower_i - 1;
                            remaining_lower = remaining_lower - 1;
                        }
                        proof {
                            if lower_i > 0 {
                                assert(ixb[lower_i - 1 + 1] == ixb[lower_i - 1] || ixb[lower_i - 1 + 1] == ixb[lower_i
                                    - 1] + 1);
                            }
                            if remaining_lower < 0 {
                                lemma_sorted(ixb, item_count, lower_i as int, lower_i - remaining_lower);
                                lemma_sorted(ixb, item_count, lower_i - remaining_lower, li0 as int);
                            }
                        }
                    }
                }
            } else {
                if higher_index == item_count {
                    let ghost old_lower = remaining_lower;
                    let ghost rh_old = remaining_higher;
                    remaining_lower = remaining_lower + remaining_higher;
                    remaining_higher = 0;
                    proof {
                        transfers = transfers - 1;
                        tl = tl + rh_old;
                        if remaining_lower < 0 {
                            lemma_sorted(ixb, item_count, lower_i as int, lower_i - remaining_lower);
                            lemma_sorted(ixb, item_count, lower_i - remaining_lower, lower_i - old_lower);
                        }
                    }
                } else {
                    if higher_i == self.controller.lines.len() {
                        let item_lines = self.handler.get_item_lines(higher_index, width);
                        let k = item_lines.len();
                        push_item_back(&mut self.controller.lines, item_lines, higher_index);
                        let ghost ixa = indices_of(self.controller.lines@);
                        proof {
                            let n = lines_before.len() as int;
                            assert forall|j: int| 0 <= j < ixa.len() implies #[trigger] ixa[j] == (if j < n {
                                ixb[j] as int
                            } else {
                                higher_index as int
                            }) by {
                                if j < n {
                                    assert(self.controller.lines@[j] == lines_before[j]);
                                } else {
                                    assert(self.controller.lines@[j] == tagged(item_lines@, higher_index)[j - n]);
                                }
                            }
                            assert forall|j: int| 0 <= j < ixa.len() - 1 implies #[trigger] ixa[j + 1] == ixa[j]
                                || ixa[j + 1] == ixa[j] + 1 by {
                                if j + 1 < n {
                                    assert(ixb[j + 1] == ixb[j] || ixb[j + 1] == ixb[j] + 1);
                                }
                            }
                        }
                        remaining_higher = remaining_higher - (k as i128);
                        higher_i = self.controller.lines.len();
                        proof {
                            let n = lines_before.len() as int;
                            assert(ixa[center_pos] == ixb[center_pos]);
                            assert(ixa[center_pos + cc - 1] == ixb[center_pos + cc - 1]);
                            if center_pos > 0 {
                                assert(ixa[center_pos - 1] == ixb[center_pos - 1]);
                            }
                            if center_pos + cc < n {
                                assert(ixa[center_pos + cc] == ixb[center_pos + cc]);
                            } else if center_pos + cc < ixa.len() {
                                assert(ixa[center_pos + cc] == higher_index);
                            }
                        }
                    } else {
                        let skipping_index = self.controller.lines[higher_i].1;
                        higher_i = higher_i + 1;
                        remaining_higher = remaining_higher - 1;
                        let ghost rh0 = remaining_higher;
                        let ghost hi0 = higher_i;
                        while higher_i != self.controller.lines.len() && self.controller.lines[higher_i].1
                            == skipping_index
                            invariant
                                self.controller.lines@ == lines_before,
                                ixb == indices_of(lines_before),
                                center_pos < hi0 <= higher_i <= lines_before.len(),
                                ixb[higher_i - 1] == higher_index,
                                skipping_index == higher_index,
                                rh0 >= 0,
                                remaining_lower + rh0 <= 65535,
                                remaining_higher == rh0 - (higher_i - hi0),
                            decreases lines_before.len() - higher_i,
                        {
                            higher_i = higher_i + 1;
                            remaining_higher = remaining_higher - 1;
                        }
                        proof {
                            if higher_i < lines_before.len() {
                                assert(ixb[higher_i - 1 + 1] == ixb[higher_i - 1] || ixb[higher_i - 1 + 1]
                                    == ixb[higher_i - 1] + 1);
                            }
                        }
                    }
                    higher_index = higher_index + 1;
                }
            }
        }

        // Drop the lines of the items no longer needed, the higher ones first.
        let ghost before_trim = self.controller.lines@;
        proof {
            let bx = indices_of(before_trim);
            assert(remaining_lower > 0 || remaining_higher > 0 ==> lower_index == 0 && higher_index == item_count);
            assert(bx[lower_i as int] == lower_index);
            assert(bx[higher_i - 1] == higher_index - 1);
            assert(center_pos > 0 ==> bx[center_pos - 1] < center_item_index);
            assert(center_pos + cc < before_trim.len() ==> bx[center_pos + cc] > center_item_index);
            assert(bx[center_pos + cc - 1] == center_item_index);
        }
        assert(lines_ok(indices_of(before_trim), item_count));
        assert(indices_of(before_trim)[center_pos] == center_item_index);
        self.keep_lines_between(lower_i, higher_i);
        proof {
            let bx = indices_of(before_trim);
            let fx = indices_of(self.controller.lines@);
            assert forall|j: int| 0 <= j < fx.len() implies #[trigger] fx[j] == bx[j + lower_i] by {
                assert(self.controller.lines@[j] == before_trim[j + lower_i]);
            }
            assert forall|j: int| 0 <= j < fx.len() implies #[trigger] fx[j] < item_count by {
                assert(fx[j] == bx[j + lower_i]);
            }
            assert forall|j: int| 0 <= j < fx.len() - 1 implies #[trigger] fx[j + 1] == fx[j] || fx[j + 1] == fx[j]
                + 1 by {
                assert(fx[j] == bx[j + lower_i]);
                assert(fx[j + 1] == bx[(j + lower_i) + 1]);
            }
            assert(fx[center_pos - lower_i] == center_item_index);
            assert(self.controller.lines@[center_pos - lower_i].1 == center_item_index);
            assert(self.controller.spec_lines()[center_pos - lower_i].1 == center_item_index);
        }

        proof {
            let fx = indices_of(self.controller.lines@);
            let n = self.controller.lines@.len() as int;
            assert(n == higher_i - lower_i);
            if lower_index == 0 && higher_index == item_count {
                assert(fx[0] == indices_of(before_trim)[lower_i as int]);
                assert(fx[n - 1] == indices_of(before_trim)[(n - 1) + lower_i]);
                assert(self.controller.spec_lines()[0].1 == fx[0]);
                assert(self.controller.spec_lines().last().1 == fx[n - 1]);
            }
        }

        // Skip the lines found beyond what was needed on either side, and draw no more than
        // `height` lines.
        let w = lines_window(
            self.controller.lines.len(),
            remaining_lower,
            remaining_higher,
            height,
            Ghost(center_pos - lower_i),
            Ghost(cc),
        );
        proof {
            let c = center_pos - lower_i;
            assert(self.controller.spec_lines()[c].1 == center_item_index);
            let fx = indices_of(self.controller.lines@);
            let bx = indices_of(before_trim);
            assert forall|j: int| 0 <= j <= w.first implies #[trigger] self.controller.spec_lines()[j].1
                == self.controller.spec_lines()[w.first as int].1 by {
                assert(fx[j] == bx[j + lower_i]);
                assert(fx[w.first as int] == bx[w.first + lower_i]);
                if remaining_lower < 0 {
                    lemma_sorted(bx, item_count, lower_i as int, j + lower_i);
                    lemma_sorted(bx, item_count, j + lower_i, w.first + lower_i);
                }
                assert(self.controller.spec_lines()[j].1 == fx[j]);
                assert(self.controller.spec_lines()[w.first as int].1 == fx[w.first as int]);
            }
            assert(window_centered(self.controller.spec_lines(), item_count, center_item_index, height as int, w))
                by {
                let n = fx.len() as int;
                let p = center_pos - lower_i;
                assert(fx[p] == bx[center_pos]);
                assert(fx[p + cc - 1] == bx[center_pos + cc - 1]);
                if p > 0 {
                    assert(fx[p - 1] == bx[center_pos - 1]);
                }
                if p + cc < n {
                    assert(fx[p + cc] == bx[center_pos + cc]);
                }
                assert(fx[0] == bx[lower_i as int]);
                assert(fx[n - 1] == bx[(n - 1) + lower_i]);
                assert(self.controller.spec_lines()[0].1 == fx[0]);
                assert(self.controller.spec_lines().last().1 == fx[n - 1]);
                lemma_window_centered(
                    self.controller.spec_lines(),
                    item_count,
                    center_item_index,
                    height as int,
                    w,
                    p,
                    cc,
                    lo,
                    hi,
                    remaining_lower as int,
                    remaining_higher as int,
                    tl,
                    lower_index == 0,
                    higher_index == item_count,
                );
            }
        }
        w
    }
}

} // verus!
