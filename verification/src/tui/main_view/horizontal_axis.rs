//! The time axis under the usage graph: the clock times written under it, one every so many
//! seconds, kept as text and written again only for the times that scroll in.

use std::collections::VecDeque;

use vstd::prelude::*;

use crate::text::push_char;
use crate::tui::main_view::colored_logs::{
    local_date_time, local_date_time_spec, offset_fits, push_zero_padded, zero_padded, DateTime,
};
use crate::tui::main_view::usage_tracker::{deque_set, tdiv};

verus! {

/// A clock time as the axis shows it: `HH:MM`, or `HH:MM:SS` when seconds are shown.
pub open spec fn clock_text(dt: DateTime, print_seconds: bool) -> Seq<char> {
    zero_padded(dt.hour as nat, 2) + seq![':'] + zero_padded(dt.minute as nat, 2) + (if print_seconds {
        seq![':'] + zero_padded(dt.second as nat, 2)
    } else {
        seq![]
    })
}

/// The label of a UNIX timestamp at a UTC offset: its local clock time.
pub open spec fn label_text(timestamp: i64, utc_offset_seconds: i32, print_seconds: bool) -> Seq<char> {
    clock_text(local_date_time_spec(timestamp, utc_offset_seconds), print_seconds)
}

/// Whether every timestamp from `first` to `last` can be shown at the offset.
pub open spec fn all_fit(first: int, last: int, utc_offset_seconds: i32) -> bool {
    &&& i64::MIN <= first
    &&& last <= i64::MAX
    &&& forall|t: i64| first <= t <= last ==> #[trigger] offset_fits(t, utc_offset_seconds)
}

/// The label of a UNIX timestamp at a UTC offset (in seconds east of UTC).
pub fn write_timestamp_to_string(timestamp: i64, utc_offset_seconds: i32, print_seconds: bool) -> (s: String)
    requires
        offset_fits(timestamp, utc_offset_seconds),
    ensures
        s@ == label_text(timestamp, utc_offset_seconds, print_seconds),
{
    let t = local_date_time(timestamp, utc_offset_seconds);
    let mut s = String::new();
    push_zero_padded(&mut s, t.hour as u32, 2);
    push_char(&mut s, ':');
    push_zero_padded(&mut s, t.minute as u32, 2);
    if print_seconds {
        push_char(&mut s, ':');
        push_zero_padded(&mut s, t.second as u32, 2);
    }
    assert(s@ =~= label_text(timestamp, utc_offset_seconds, print_seconds));
    s
}

/// The labels kept once those older than `oldest` are dropped: from `current`, the time of the
/// first label, one label goes for each step still before `oldest`.
pub open spec fn drop_old_labels(times: Seq<int>, current: int, oldest: int, step: int) -> (Seq<int>, int)
    decreases (if current < oldest { oldest - current } else { 0 }),
    when step > 0
{
    if current < oldest {
        drop_old_labels(if times.len() > 0 { times.drop_first() } else { times }, current + step, oldest, step)
    } else {
        (times, current)
    }
}

/// The labels once those missing down to `oldest` are added in front, a step apart from
/// `current`.
pub open spec fn add_old_labels(times: Seq<int>, current: int, oldest: int, step: int) -> (Seq<int>, int)
    decreases (if current > oldest { current - oldest } else { 0 }),
    when step > 0
{
    if current > oldest {
        add_old_labels(seq![current - step] + times, current - step, oldest, step)
    } else {
        (times, current)
    }
}

/// The labels once those missing up to `latest` are added behind, a step apart from `newest`.
pub open spec fn add_new_labels(times: Seq<int>, newest: int, latest: int, step: int) -> (Seq<int>, int)
    decreases (if latest > newest { latest - newest } else { 0 }),
    when step > 0
{
    if latest > newest {
        add_new_labels(times.push(newest + step), newest + step, latest, step)
    } else {
        (times, newest)
    }
}

/// `count` times a step apart from `first`.
pub open spec fn progression(first: int, count: nat, step: int) -> Seq<int> {
    Seq::new(count, |i: int| first + i * step)
}

proof fn lemma_drop_progression(c: int, m: nat, j: nat, step: int)
    requires
        step > 0,
        j <= m,
    ensures
        drop_old_labels(progression(c, m, step), c, c + j * step, step) == (
            progression(c + j * step, (m - j) as nat, step),
            c + j * step,
        ),
    decreases j,
{
    if j > 0 {
        assert(progression(c, m, step).drop_first() =~= progression(c + step, (m - 1) as nat, step)) by {
            assert forall|i: int| 0 <= i < m - 1 implies #[trigger] progression(c, m, step).drop_first()[i] == c + step + i
                * step by {
                assert((i + 1) * step == i * step + step) by (nonlinear_arith);
            }
        }
        assert(c + j * step == (c + step) + (j - 1) * step) by (nonlinear_arith);
        lemma_drop_progression(c + step, (m - 1) as nat, (j - 1) as nat, step);
    } else {
        assert(j * step == 0) by (nonlinear_arith)
            requires
                j == 0,
        ;
    }
}

proof fn lemma_add_old_progression(o: int, m: nat, j: nat, step: int)
    requires
        step > 0,
    ensures
        add_old_labels(progression(o + j * step, m, step), o + j * step, o, step) == (
            progression(o, m + j, step),
            o,
        ),
    decreases j,
{
    if j > 0 {
        let c = o + j * step;
        assert(c > o) by (nonlinear_arith)
            requires
                c == o + j * step,
                j > 0,
                step > 0,
        ;
        assert(c - step == o + (j - 1) * step) by (nonlinear_arith)
            requires
                c == o + j * step,
        ;
        assert(seq![c - step] + progression(c, m, step) =~= progression(c - step, m + 1, step)) by {
            assert forall|i: int| 1 <= i < m + 1 implies #[trigger] (seq![c - step] + progression(c, m, step))[i] == c
                - step + i * step by {
                assert((i - 1) * step == i * step - step) by (nonlinear_arith);
            }
        }
        lemma_add_old_progression(o, m + 1, (j - 1) as nat, step);
    } else {
        assert(j * step == 0) by (nonlinear_arith)
            requires
                j == 0,
        ;
    }
}

proof fn lemma_add_new_progression(f: int, m: nat, j: nat, step: int)
    requires
        step > 0,
    ensures
        add_new_labels(progression(f, m, step), f + (m - 1) * step, f + (m - 1) * step + j * step, step) == (
            progression(f, m + j, step),
            f + (m - 1) * step + j * step,
        ),
    decreases j,
{
    let last = f + (m - 1) * step;
    if j > 0 {
        assert(last + j * step > last) by (nonlinear_arith)
            requires
                j > 0,
                step > 0,
        ;
        assert(last + step == f + m * step) by (nonlinear_arith)
            requires
                last == f + (m - 1) * step,
        ;
        assert(progression(f, m, step).push(last + step) =~= progression(f, m + 1, step));
        assert(f + ((m + 1) - 1) * step == last + step);
        assert(last + j * step == (last + step) + (j - 1) * step) by (nonlinear_arith);
        lemma_add_new_progression(f, m + 1, (j - 1) as nat, step);
    } else {
        assert(j * step == 0) by (nonlinear_arith)
            requires
                j == 0,
        ;
    }
}

/// The labels follow the window of the graph: when `n` labels are kept a step apart up to the
/// latest, and the window wanted starts `back` steps before it (at most one step after it)
/// and ends `ahead` steps after it, the labels become exactly the times a step apart from the
/// start of the window to its end.
pub proof fn lemma_labels_follow_the_window(n: nat, latest: int, back: int, ahead: nat, step: int)
    requires
        step > 0,
        n >= 1,
        back >= -1,
        back + ahead >= 0,
    ensures
        ({
            let first = latest - (n - 1) * step;
            let oldest = latest - back * step;
            let dropped = drop_old_labels(progression(first, n, step), first, oldest, step);
            let added = add_old_labels(dropped.0, dropped.1, oldest, step);
            let grown = add_new_labels(added.0, latest, latest + ahead * step, step);
            grown == (progression(oldest, (back + ahead + 1) as nat, step), latest + ahead * step)
        }),
{
    let first = latest - (n - 1) * step;
    let oldest = latest - back * step;
    if back >= n - 1 {
        // Nothing to drop: the older labels are added down to the start of the window.
        let j = (back - (n - 1)) as nat;
        assert(drop_old_labels(progression(first, n, step), first, oldest, step) == (progression(first, n, step), first))
            by {
            assert(first - oldest == j * step) by (nonlinear_arith)
                requires
                    first == latest - (n - 1) * step,
                    oldest == latest - back * step,
                    j == back - (n - 1),
            ;
            assert(j * step >= 0) by (nonlinear_arith)
                requires
                    step > 0,
            ;
        }
        assert(first == oldest + j * step) by (nonlinear_arith)
            requires
                first == latest - (n - 1) * step,
                oldest == latest - back * step,
                j == back - (n - 1),
        ;
        lemma_add_old_progression(oldest, n, j, step);
        let m = n + j;
        assert(oldest + (m - 1) * step == latest) by (nonlinear_arith)
            requires
                oldest == latest - back * step,
                m == n + j,
                j == back - (n - 1),
        ;
        lemma_add_new_progression(oldest, m, ahead, step);
        assert(m + ahead == back + ahead + 1);
    } else {
        // The labels before the window are dropped; the window starts on a kept label (or
        // just after the latest).
        let j = ((n - 1) - back) as nat;
        assert(oldest == first + j * step) by (nonlinear_arith)
            requires
                first == latest - (n - 1) * step,
                oldest == latest - back * step,
                j == (n - 1) - back,
        ;
        lemma_drop_progression(first, n, j, step);
        let m = (n - j) as nat;
        assert(add_old_labels(progression(oldest, m, step), oldest, oldest, step) == (progression(oldest, m, step), oldest));
        assert(oldest + (m - 1) * step == latest) by (nonlinear_arith)
            requires
                oldest == latest - back * step,
                m == n - j,
                j == (n - 1) - back,
        ;
        lemma_add_new_progression(oldest, m, ahead, step);
        assert(m + ahead == back + ahead + 1);
    }
}

/// Whether each label is the clock time of its time.
pub open spec fn labels_match(labels: Seq<String>, times: Seq<int>, utc_offset_seconds: i32, print_seconds: bool) -> bool {
    &&& labels.len() == times.len()
    &&& forall|i: int| 0 <= i < times.len() ==> i64::MIN <= #[trigger] times[i] <= i64::MAX
    &&& forall|i: int|
        0 <= i < times.len() ==> #[trigger] labels[i]@ == label_text(times[i] as i64, utc_offset_seconds, print_seconds)
}

proof fn lemma_labels_match_drop_first(labels: Seq<String>, times: Seq<int>, off: i32, ps: bool)
    requires
        labels_match(labels, times, off, ps),
        labels.len() > 0,
    ensures
        labels_match(labels.subrange(1, labels.len() as int), times.drop_first(), off, ps),
{
    assert forall|i: int| 0 <= i < times.drop_first().len() implies i64::MIN <= #[trigger] times.drop_first()[i] <= i64::MAX by {
        assert(times.drop_first()[i] == times[i + 1]);
    }
    assert forall|i: int| 0 <= i < times.drop_first().len() implies #[trigger] labels.subrange(1, labels.len() as int)[i]@
        == label_text(times.drop_first()[i] as i64, off, ps) by {
        assert(labels.subrange(1, labels.len() as int)[i] == labels[i + 1]);
        assert(times.drop_first()[i] == times[i + 1]);
        assert(labels[i + 1]@ == label_text(times[i + 1] as i64, off, ps));
    }
}

proof fn lemma_labels_match_prepend(labels: Seq<String>, times: Seq<int>, off: i32, ps: bool, s: String, t: i64)
    requires
        labels_match(labels, times, off, ps),
        s@ == label_text(t, off, ps),
    ensures
        labels_match(seq![s] + labels, seq![t as int] + times, off, ps),
{
    assert forall|i: int| 0 <= i < (seq![t as int] + times).len() implies i64::MIN <= #[trigger] (seq![t as int]
        + times)[i] <= i64::MAX by {
        if i > 0 {
            assert((seq![t as int] + times)[i] == times[i - 1]);
        }
    }
    assert forall|i: int| 0 <= i < (seq![t as int] + times).len() implies #[trigger] (seq![s] + labels)[i]@ == label_text(
        (seq![t as int] + times)[i] as i64,
        off,
        ps,
    ) by {
        if i > 0 {
            assert((seq![s] + labels)[i] == labels[i - 1]);
            assert((seq![t as int] + times)[i] == times[i - 1]);
            assert(labels[i - 1]@ == label_text(times[i - 1] as i64, off, ps));
        }
    }
}

proof fn lemma_labels_match_push(labels: Seq<String>, times: Seq<int>, off: i32, ps: bool, s: String, t: i64)
    requires
        labels_match(labels, times, off, ps),
        s@ == label_text(t, off, ps),
    ensures
        labels_match(labels.push(s), times.push(t as int), off, ps),
{
    assert forall|i: int| 0 <= i < times.push(t as int).len() implies i64::MIN <= #[trigger] times.push(t as int)[i]
        <= i64::MAX by {
        if i < times.len() {
            assert(times.push(t as int)[i] == times[i]);
        }
    }
    assert forall|i: int| 0 <= i < times.push(t as int).len() implies #[trigger] labels.push(s)[i]@ == label_text(
        times.push(t as int)[i] as i64,
        off,
        ps,
    ) by {
        if i < times.len() {
            assert(labels.push(s)[i] == labels[i]);
            assert(times.push(t as int)[i] == times[i]);
            assert(labels[i]@ == label_text(times[i] as i64, off, ps));
        }
    }
}

/// The times of the oldest and the latest label under a graph `width` columns wide (ten of
/// them taken by the vertical axis) whose last column is at `latest_timestamp`, each column
/// `unit_size_seconds` long: the first multiple of the label step at or after the oldest
/// column, and the last one at or before the latest, rounding as integer division does.
pub fn label_window(latest_timestamp: i64, width: u16, unit_size_seconds: u32, labels_on_multiples_of: u32) -> (r: (
    i64,
    i64,
))
    requires
        labels_on_multiples_of > 0,
        i64::MIN <= latest_timestamp - (width - 10) * unit_size_seconds,
        latest_timestamp - (width - 10) * unit_size_seconds + labels_on_multiples_of - 1 <= i64::MAX,
    ensures
        r.0 == tdiv(
            latest_timestamp - (width - 10) * unit_size_seconds + labels_on_multiples_of - 1,
            labels_on_multiples_of as int,
        ) * labels_on_multiples_of,
        r.1 == tdiv(latest_timestamp as int, labels_on_multiples_of as int) * labels_on_multiples_of,
{
    let m = labels_on_multiples_of as i64;
    let columns = width as i64 - 10;
    let unit = unit_size_seconds as i64;
    assert(-10 * 0x1_0000_0000 <= columns * unit <= 0x1_0000 * 0x1_0000_0000) by (nonlinear_arith)
        requires
            -10 <= columns <= 0x1_0000,
            0 <= unit <= 0x1_0000_0000,
    ;
    let span = columns * unit;
    assert(span == (width - 10) * unit_size_seconds);
    let oldest_char_timestamp = latest_timestamp - span;
    let shifted = oldest_char_timestamp + (m - 1);
    let q_oldest = shifted / m;
    let q_latest = latest_timestamp / m;
    proof {
        assert(q_oldest == tdiv(shifted as int, m as int));
        assert(q_latest == tdiv(latest_timestamp as int, m as int));
        crate::tui::main_view::usage_tracker::lemma_tdiv_mul_bounds(shifted as int, m as int);
        crate::tui::main_view::usage_tracker::lemma_tdiv_mul_bounds(latest_timestamp as int, m as int);
    }
    (q_oldest * m, q_latest * m)
}

/// The time a column of the axis line stands for, counting `k` columns left from its last one:
/// the last column stands for the latest time, the one before it for the start of the unit
/// before the latest time (rounding as integer division does), and each further column for one
/// unit earlier.
pub open spec fn axis_column_time(latest_timestamp: i64, unit_size_seconds: int, k: int) -> int {
    if k == 0 {
        latest_timestamp as int
    } else {
        tdiv(latest_timestamp - 1, unit_size_seconds) * unit_size_seconds - (k - 1) * unit_size_seconds
    }
}

/// Whether a column of the axis line shows a marker: where its time is a multiple of the
/// marker spacing.
pub open spec fn axis_marker_at(latest_timestamp: i64, unit_size_seconds: int, markers_on_multiples_of: int, k: int) -> bool {
    let t = axis_column_time(latest_timestamp, unit_size_seconds, k);
    tdiv(t, markers_on_multiples_of) * markers_on_multiples_of == t
}

/// Whether `t` is a multiple of `m`.
fn is_multiple(t: i64, m: i64) -> (r: bool)
    requires
        m > 0,
    ensures
        r == (tdiv(t as int, m as int) * m == t),
{
    let q = t / m;
    assert(q == tdiv(t as int, m as int));
    proof {
        crate::tui::main_view::usage_tracker::lemma_tdiv_mul_bounds(t as int, m as int);
    }
    q * m == t
}

/// The axis line of a graph `width` columns wide, from its last column leftwards over all but
/// the ten columns of the vertical axis: `true` where a marker goes, `false` for plain line.
pub fn axis_marker_row(latest_timestamp: i64, unit_size_seconds: u32, markers_on_multiples_of: u32, width: u16) -> (row:
    Vec<bool>)
    requires
        unit_size_seconds > 0,
        markers_on_multiples_of > 0,
        width >= 11,
        latest_timestamp > i64::MIN,
        tdiv(latest_timestamp - 1, unit_size_seconds as int) * unit_size_seconds - (width - 11) * unit_size_seconds
            >= i64::MIN,
    ensures
        row@.len() == width - 10,
        forall|k: int|
            0 <= k < row@.len() ==> #[trigger] row@[k] == axis_marker_at(
                latest_timestamp,
                unit_size_seconds as int,
                markers_on_multiples_of as int,
                k,
            ),
{
    let m = markers_on_multiples_of as i64;
    let unit = unit_size_seconds as i64;
    let mut row: Vec<bool> = Vec::new();
    let first = is_multiple(latest_timestamp, m);
    row.push(first);
    proof {
        crate::tui::main_view::usage_tracker::lemma_tdiv_mul_bounds((latest_timestamp - 1) as int, unit as int);
    }
    let q = (latest_timestamp - 1) / unit;
    assert(q == tdiv(latest_timestamp - 1, unit as int));
    let mut t: i64 = q * unit;
    let ghost base: int = t as int;
    let count: u16 = width - 11;
    let mut k: u16 = 0;
    assert(t - (count - k) * unit >= i64::MIN);
    while k < count
        invariant
            k <= count == width - 11,
            m == markers_on_multiples_of,
            unit == unit_size_seconds,
            unit > 0,
            m > 0,
            base == tdiv(latest_timestamp - 1, unit as int) * unit,
            row@.len() == k + 1,
            t == base - k * unit,
            t - (count - k) * unit >= i64::MIN,
            forall|j: int|
                0 <= j < row@.len() ==> #[trigger] row@[j] == axis_marker_at(
                    latest_timestamp,
                    unit_size_seconds as int,
                    markers_on_multiples_of as int,
                    j,
                ),
        decreases count - k,
    {
        assert((count - k) * unit >= unit) by (nonlinear_arith)
            requires
                count - k >= 1,
                unit > 0,
        ;
        assert(axis_column_time(latest_timestamp, unit as int, k + 1) == base - k * unit) by {
            assert((k + 1 - 1) * unit == k * unit);
        }
        let marker = is_multiple(t, m);
        row.push(marker);
        assert((k + 1) * unit == k * unit + unit) by (nonlinear_arith);
        assert((count - (k + 1)) * unit == (count - k) * unit - unit) by (nonlinear_arith);
        t = t - unit;
        k = k + 1;
    }
    row
}

/// The time axis: the clock times kept as labels, the latest of them, and how they are spaced.
pub struct HorizontalAxis {
    utc_offset_seconds: i32,
    unit_size_seconds: u32,
    labels_on_multiples_of: u32,
    markers_on_multiples_of: u32,
    print_seconds: bool,
    label_strings: VecDeque<String>,
    latest_label_timestamp: i64,
    label_times: Ghost<Seq<int>>,
}

impl HorizontalAxis {
    /// The text of each label, oldest first.
    pub closed spec fn spec_labels(&self) -> Seq<Seq<char>> {
        self.label_strings@.map_values(|s: String| s@)
    }

    /// The labels, oldest first.
    pub closed spec fn spec_label_strings(&self) -> Seq<String> {
        self.label_strings@
    }

    /// The time of each label, oldest first.
    pub closed spec fn spec_times(&self) -> Seq<int> {
        self.label_times@
    }

    /// The time of the latest label.
    pub closed spec fn spec_latest(&self) -> i64 {
        self.latest_label_timestamp
    }

    /// The seconds between labels.
    pub closed spec fn spec_label_step(&self) -> u32 {
        self.labels_on_multiples_of
    }

    /// The seconds between markers on the axis.
    pub closed spec fn spec_marker_step(&self) -> u32 {
        self.markers_on_multiples_of
    }

    /// The seconds each column of the graph stands for, as last set.
    pub closed spec fn spec_unit_size(&self) -> u32 {
        self.unit_size_seconds
    }

    /// Whether the labels show seconds.
    pub closed spec fn spec_print_seconds(&self) -> bool {
        self.print_seconds
    }

    /// The UTC offset, in seconds east of UTC, times are shown at.
    pub closed spec fn spec_offset(&self) -> i32 {
        self.utc_offset_seconds
    }

    /// Each label is the clock time of its time.
    pub open spec fn wf(&self) -> bool {
        labels_match(self.spec_label_strings(), self.spec_times(), self.spec_offset(), self.spec_print_seconds())
    }

    /// An axis with no labels yet, showing times at the given UTC offset.
    pub fn new(utc_offset_seconds: i32) -> (a: Self)
        ensures
            a.wf(),
            a.spec_times().len() == 0,
            a.spec_offset() == utc_offset_seconds,
            a.spec_unit_size() == 0,
            a.spec_label_step() == 0,
            a.spec_marker_step() == 0,
            !a.spec_print_seconds(),
            a.spec_latest() == 0,
    {
        let a = Self {
            utc_offset_seconds,
            unit_size_seconds: 0,
            labels_on_multiples_of: 0,
            markers_on_multiples_of: 0,
            print_seconds: false,
            label_strings: VecDeque::new(),
            latest_label_timestamp: 0,
            label_times: Ghost(Seq::empty()),
        };
        assert(a.spec_labels() =~= Seq::<Seq<char>>::empty());
        a
    }

    /// The labels, oldest first.
    pub fn labels(&self) -> (r: &VecDeque<String>)
        ensures
            r@.map_values(|s: String| s@) == self.spec_labels(),
    {
        &self.label_strings
    }

    /// The seconds between labels and between markers, and whether labels show seconds.
    pub fn spacing(&self) -> (r: (u32, u32, bool))
        ensures
            r == (self.spec_label_step(), self.spec_marker_step(), self.spec_print_seconds()),
    {
        (self.labels_on_multiples_of, self.markers_on_multiples_of, self.print_seconds)
    }

    /// The time of the latest label.
    pub fn latest_label_timestamp(&self) -> (r: i64)
        ensures
            r == self.spec_latest(),
    {
        self.latest_label_timestamp
    }

    /// On a new size of the graph's columns, sets the spacing of the labels (one every fifteen
    /// seconds, markers every five, seconds shown, whatever the size asked for) and writes the
    /// labels again: with none yet, the label of the latest multiple of fifteen seconds;
    /// otherwise each kept label becomes the time that many steps before that multiple.
    pub fn recalculate_if_needed(&mut self, unit_size_seconds: u32, latest_timestamp: i64)
        requires
            old(self).wf(),
            all_fit(latest_timestamp - 15 * (old(self).spec_times().len() + 1), latest_timestamp + 15, old(self).spec_offset()),
        ensures
            final(self).wf(),
            final(self).spec_offset() == old(self).spec_offset(),
            old(self).spec_unit_size() == unit_size_seconds ==> *final(self) == *old(self),
            old(self).spec_unit_size() != unit_size_seconds ==> ({
                let latest_label = tdiv(latest_timestamp as int, 15) * 15;
                let n = old(self).spec_times().len();
                &&& final(self).spec_unit_size() == 1
                &&& final(self).spec_label_step() == 15
                &&& final(self).spec_marker_step() == 5
                &&& final(self).spec_print_seconds()
                &&& n == 0 ==> final(self).spec_times() == seq![latest_label] && final(self).spec_latest() == latest_label
                &&& n > 0 ==> final(self).spec_times() == Seq::new(n, |i: int| latest_label - (n - i) * 15)
                    && final(self).spec_latest() == old(self).spec_latest()
            }),
    {
        if self.unit_size_seconds == unit_size_seconds {
            return;
        }
        self.unit_size_seconds = 1;
        self.labels_on_multiples_of = 15;
        self.markers_on_multiples_of = 5;
        self.print_seconds = true;

        let labels_on_multiples_of: i64 = 15;
        let quotient = latest_timestamp / labels_on_multiples_of;
        proof {
            assert(quotient == tdiv(latest_timestamp as int, 15));
            crate::tui::main_view::usage_tracker::lemma_tdiv_mul_bounds(latest_timestamp as int, 15);
        }
        let latest_label_timestamp = quotient * labels_on_multiples_of;
        let ghost n = self.label_times@.len();
        let mut deque_index = self.label_strings.len();
        if self.label_strings.len() == 0 {
            self.latest_label_timestamp = latest_label_timestamp;
            let s = write_timestamp_to_string(latest_label_timestamp, self.utc_offset_seconds, true);
            self.label_strings.push_back(s);
            proof {
                self.label_times@ = seq![latest_label_timestamp as int];
            }
            assert(self.spec_labels() =~= seq![s@]);
        }
        let mut label_timestamp = latest_label_timestamp;
        proof {
            if n > 0 {
                assert forall|i: int| 0 <= i < n implies i64::MIN <= #[trigger] self.label_times@[i] <= i64::MAX by {
                    assert(old(self).label_strings@[i]@ == label_text(
                        old(self).spec_times()[i] as i64,
                        old(self).spec_offset(),
                        old(self).spec_print_seconds(),
                    ));
                }
            }
        }
        let ghost target = Seq::new(n, |i: int| latest_label_timestamp - (n - i) * 15);
        while deque_index > 0
            invariant
                n == 0 ==> deque_index == 0,
                n > 0 ==> self.label_strings@.len() == n,
                deque_index <= n,
                label_timestamp == latest_label_timestamp - (n - deque_index) * 15,
                labels_on_multiples_of == 15,
                target == Seq::new(n, |i: int| latest_label_timestamp - (n - i) * 15),
                self.print_seconds,
                self.utc_offset_seconds == old(self).utc_offset_seconds,
                all_fit(latest_timestamp - 15 * (n + 1), latest_timestamp + 15, self.utc_offset_seconds),
                latest_timestamp - 15 <= latest_label_timestamp <= latest_timestamp + 15,
                n > 0 ==> self.label_times@.len() == n,
                n > 0 ==> forall|i: int| deque_index <= i < n ==> #[trigger] self.label_times@[i] == target[i],
                n > 0 ==> forall|i: int| 0 <= i < n ==> i64::MIN <= #[trigger] self.label_times@[i] <= i64::MAX,
                n > 0 ==> forall|i: int|
                    deque_index <= i < n ==> #[trigger] self.label_strings@[i]@ == label_text(
                        self.label_times@[i] as i64,
                        self.utc_offset_seconds,
                        true,
                    ),
                n > 0 ==> forall|i: int|
                    0 <= i < deque_index ==> #[trigger] self.label_strings@[i]@ == old(self).spec_labels()[i],
                n > 0 ==> forall|i: int| 0 <= i < deque_index ==> #[trigger] self.label_times@[i] == old(self).spec_times()[i],
                n == 0 ==> self.wf() && self.spec_times() == seq![latest_label_timestamp as int],
                self.latest_label_timestamp == (if n == 0 { latest_label_timestamp } else { old(self).spec_latest() }),
                self.unit_size_seconds == 1,
                self.labels_on_multiples_of == 15,
                self.markers_on_multiples_of == 5,
            decreases deque_index,
        {
            deque_index = deque_index - 1;
            assert(label_timestamp - 15 >= latest_timestamp - 15 * (n + 1));
            label_timestamp = label_timestamp - labels_on_multiples_of;
            assert(offset_fits(label_timestamp, self.utc_offset_seconds));
            let s = write_timestamp_to_string(label_timestamp, self.utc_offset_seconds, true);
            deque_set(&mut self.label_strings, deque_index, s);
            proof {
                self.label_times@ = self.label_times@.update(deque_index as int, label_timestamp as int);
            }
        }
        proof {
            if n > 0 {
                assert(self.spec_times() =~= target);
            }
        }
    }

    /// Makes the labels run from `oldest_label_timestamp` to `latest_label_timestamp`, a step
    /// apart: labels older than the oldest wanted are dropped, then the missing older ones
    /// are written in front (down to the oldest wanted), then the missing newer ones behind
    /// (up to the latest wanted).
    pub fn ensure_has_labels(&mut self, oldest_label_timestamp: i64, latest_label_timestamp: i64)
        requires
            old(self).wf(),
            old(self).spec_label_step() > 0,
            old(self).spec_latest() <= latest_label_timestamp,
            old(self).spec_times().len() * old(self).spec_label_step() <= i64::MAX,
            old(self).spec_latest() - old(self).spec_times().len() * old(self).spec_label_step() >= i64::MIN,
            all_fit(
                (if oldest_label_timestamp < old(self).spec_latest() {
                    oldest_label_timestamp as int
                } else {
                    old(self).spec_latest() as int
                }) - old(self).spec_label_step(),
                (if oldest_label_timestamp < latest_label_timestamp {
                    latest_label_timestamp as int
                } else {
                    oldest_label_timestamp as int
                }) + old(self).spec_label_step(),
                old(self).spec_offset(),
            ),
        ensures
            final(self).wf(),
            final(self).spec_offset() == old(self).spec_offset(),
            final(self).spec_unit_size() == old(self).spec_unit_size(),
            final(self).spec_label_step() == old(self).spec_label_step(),
            final(self).spec_marker_step() == old(self).spec_marker_step(),
            final(self).spec_print_seconds() == old(self).spec_print_seconds(),
            ({
                let step = old(self).spec_label_step() as int;
                let first = old(self).spec_latest() - (old(self).spec_times().len() - 1) * step;
                let dropped = drop_old_labels(old(self).spec_times(), first, oldest_label_timestamp as int, step);
                let added = add_old_labels(dropped.0, dropped.1, oldest_label_timestamp as int, step);
                let grown = add_new_labels(added.0, old(self).spec_latest() as int, latest_label_timestamp as int, step);
                final(self).spec_times() == grown.0 && final(self).spec_latest() == grown.1
            }),
    {
        let ghost step = self.labels_on_multiples_of as int;
        let ghost oldest = oldest_label_timestamp as int;
        let ghost lo = (if oldest_label_timestamp < self.latest_label_timestamp {
            oldest_label_timestamp as int
        } else {
            self.latest_label_timestamp as int
        }) - step;
        let ghost hi = (if oldest_label_timestamp < latest_label_timestamp {
            latest_label_timestamp as int
        } else {
            oldest_label_timestamp as int
        }) + step;
        let ghost old_latest = self.latest_label_timestamp as int;
        let labels_on_multiples_of = self.labels_on_multiples_of as i64;
        let ghost n = self.spec_times().len();
        proof {
            assert(n <= i64::MAX && (n - 1) * step <= n * step && n * step >= 0 && (n - 1) * step >= -step)
                by (nonlinear_arith)
                requires
                    n * step <= i64::MAX,
                    step > 0,
                    n >= 0,
            ;
        }
        assert(self.label_strings@.len() == n);
        let len_minus_one = self.label_strings.len() as i64 - 1;
        assert(len_minus_one == n - 1);
        assert(old_latest + step <= hi);
        assert(labels_on_multiples_of == step);
        assert(len_minus_one * labels_on_multiples_of == (n - 1) * step);
        let mut current_oldest_label_timestamp = self.latest_label_timestamp - len_minus_one * labels_on_multiples_of;
        let ghost first = current_oldest_label_timestamp as int;
        let ghost dropped = drop_old_labels(self.spec_times(), first, oldest, step);
        let ghost added = add_old_labels(dropped.0, dropped.1, oldest, step);
        let ghost grown = add_new_labels(added.0, old_latest, latest_label_timestamp as int, step);

        // Drop the labels too old.
        while current_oldest_label_timestamp < oldest_label_timestamp
            invariant
                self.wf(),
                step == labels_on_multiples_of == self.labels_on_multiples_of,
                step > 0,
                self.utc_offset_seconds == old(self).utc_offset_seconds,
                self.print_seconds == old(self).print_seconds,
                self.unit_size_seconds == old(self).unit_size_seconds,
                self.markers_on_multiples_of == old(self).markers_on_multiples_of,
                self.latest_label_timestamp == old_latest,
                oldest == oldest_label_timestamp,
                hi <= i64::MAX,
                oldest_label_timestamp + step <= hi,
                current_oldest_label_timestamp <= (if first > oldest + step - 1 { first } else { oldest + step - 1 }),
                drop_old_labels(self.spec_times(), current_oldest_label_timestamp as int, oldest, step) == dropped,
            decreases (if current_oldest_label_timestamp < oldest_label_timestamp {
                oldest_label_timestamp - current_oldest_label_timestamp
            } else {
                0
            }),
        {
            let ghost before = self.spec_times();
            let ghost before_labels = self.label_strings@;
            self.label_strings.pop_front();
            proof {
                if before.len() > 0 {
                    lemma_labels_match_drop_first(before_labels, before, self.utc_offset_seconds, self.print_seconds);
                    self.label_times@ = before.drop_first();
                }
            }
            current_oldest_label_timestamp = current_oldest_label_timestamp + labels_on_multiples_of;
        }

        // Drop the labels too new (none: the latest label is never past the latest wanted).
        proof {
            assert(dropped == (self.spec_times(), current_oldest_label_timestamp as int));
        }
        while self.latest_label_timestamp > latest_label_timestamp
            invariant
                self.latest_label_timestamp <= latest_label_timestamp,
                self.wf(),
                step == labels_on_multiples_of == self.labels_on_multiples_of,
                step > 0,
                self.utc_offset_seconds == old(self).utc_offset_seconds,
                self.print_seconds == old(self).print_seconds,
                self.unit_size_seconds == old(self).unit_size_seconds,
                self.markers_on_multiples_of == old(self).markers_on_multiples_of,
                self.latest_label_timestamp == old_latest,
                oldest == oldest_label_timestamp,
                lo >= i64::MIN,
                oldest_label_timestamp - step >= lo,
                current_oldest_label_timestamp - step <= (if old_latest > oldest - 1 { old_latest } else { oldest - 1 }),
                all_fit(lo, hi, self.utc_offset_seconds),
                hi >= (if oldest_label_timestamp < latest_label_timestamp {
                    latest_label_timestamp as int
                } else {
                    oldest_label_timestamp as int
                }),
                old_latest <= latest_label_timestamp,
                add_old_labels(self.spec_times(), current_oldest_label_timestamp as int, oldest, step) == added,
            decreases 0nat,
        {
            self.label_strings.pop_back();
            current_oldest_label_timestamp = current_oldest_label_timestamp - labels_on_multiples_of;
        }

        // Write the missing older labels.
        while current_oldest_label_timestamp > oldest_label_timestamp
            invariant
                self.wf(),
                step == labels_on_multiples_of == self.labels_on_multiples_of,
                step > 0,
                self.utc_offset_seconds == old(self).utc_offset_seconds,
                self.print_seconds == old(self).print_seconds,
                self.unit_size_seconds == old(self).unit_size_seconds,
                self.markers_on_multiples_of == old(self).markers_on_multiples_of,
                self.latest_label_timestamp == old_latest,
                oldest == oldest_label_timestamp,
                lo >= i64::MIN,
                oldest_label_timestamp - step >= lo,
                current_oldest_label_timestamp - step <= (if old_latest > oldest - 1 { old_latest } else { oldest - 1 }),
                all_fit(lo, hi, self.utc_offset_seconds),
                hi >= (if oldest_label_timestamp < latest_label_timestamp {
                    latest_label_timestamp as int
                } else {
                    oldest_label_timestamp as int
                }),
                old_latest <= latest_label_timestamp,
                add_old_labels(self.spec_times(), current_oldest_label_timestamp as int, oldest, step) == added,
            decreases (if current_oldest_label_timestamp > oldest_label_timestamp {
                current_oldest_label_timestamp - oldest_label_timestamp
            } else {
                0
            }),
        {
            current_oldest_label_timestamp = current_oldest_label_timestamp - labels_on_multiples_of;
            assert(offset_fits(current_oldest_label_timestamp, self.utc_offset_seconds));
            let s = write_timestamp_to_string(current_oldest_label_timestamp, self.utc_offset_seconds, self.print_seconds);
            let ghost before = self.spec_times();
            let ghost before_labels = self.label_strings@;
            self.label_strings.push_front(s);
            proof {
                lemma_labels_match_prepend(
                    before_labels,
                    before,
                    self.utc_offset_seconds,
                    self.print_seconds,
                    s,
                    current_oldest_label_timestamp,
                );
                self.label_times@ = seq![current_oldest_label_timestamp as int] + before;
            }
        }

        // Write the missing newer labels.
        while latest_label_timestamp > self.latest_label_timestamp
            invariant
                self.wf(),
                step == labels_on_multiples_of == self.labels_on_multiples_of,
                step > 0,
                self.utc_offset_seconds == old(self).utc_offset_seconds,
                self.print_seconds == old(self).print_seconds,
                self.unit_size_seconds == old(self).unit_size_seconds,
                self.markers_on_multiples_of == old(self).markers_on_multiples_of,
                all_fit(lo, hi, self.utc_offset_seconds),
                lo <= old_latest,
                old_latest <= self.latest_label_timestamp,
                latest_label_timestamp + step <= hi,
                add_new_labels(self.spec_times(), self.latest_label_timestamp as int, latest_label_timestamp as int, step)
                    == grown,
            decreases (if latest_label_timestamp > self.latest_label_timestamp {
                latest_label_timestamp - self.latest_label_timestamp
            } else {
                0
            }),
        {
            self.latest_label_timestamp = self.latest_label_timestamp + labels_on_multiples_of;
            assert(offset_fits(self.latest_label_timestamp, self.utc_offset_seconds));
            let s = write_timestamp_to_string(self.latest_label_timestamp, self.utc_offset_seconds, self.print_seconds);
            let ghost before = self.spec_times();
            let ghost before_labels = self.label_strings@;
            self.label_strings.push_back(s);
            proof {
                lemma_labels_match_push(
                    before_labels,
                    before,
                    self.utc_offset_seconds,
                    self.print_seconds,
                    s,
                    self.latest_label_timestamp,
                );
                self.label_times@ = before.push(self.latest_label_timestamp as int);
            }
        }
    }
}

} // verus!