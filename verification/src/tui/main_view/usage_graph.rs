use vstd::prelude::*;

use crate::text::push_str;
use crate::tui::pretty_print::{pretty_bytes, PrettyByteDisplayer};

verus! {

/// How many seconds of usage the graph keeps: six hours.
pub const MAX_HISTORY_SECONDS: usize = 21600;

/// The width, in columns, of the graph's vertical labels.
pub const VERTICAL_LABELS_AREA_WIDTH: u16 = 9;

/// How far `p` is below `b`.
pub open spec fn gap(b: nat, p: nat) -> nat {
    if p >= b { 0 } else { (b - p) as nat }
}

/// The smallest power of two, starting the doubling at `p`, that is at least `b`.
pub open spec fn ceil_pow2_from(b: nat, p: nat) -> nat
    decreases gap(b, p),
    when p >= 1
{
    if p >= b {
        p
    } else {
        ceil_pow2_from(b, 2 * p)
    }
}

/// Whether `n` is a power of two.
pub open spec fn is_power_of_two(n: nat) -> bool
    decreases n,
{
    if n == 1 {
        true
    } else if n >= 2 && n % 2 == 0 {
        is_power_of_two(n / 2)
    } else {
        false
    }
}

/// The value the graph's vertical axis goes up to for a maximum `m`: zero for zero, else the
/// smallest power of two that is at least `m` and at least 64, or `m` itself where that power
/// does not fit in a `u64`.
pub open spec fn pretty_round_max_spec(m: nat) -> nat {
    if m == 0 {
        0
    } else {
        let b = if m < 64 { 64 } else { m };
        let p = ceil_pow2_from(b, 1);
        if p <= u64::MAX { p } else { m }
    }
}

proof fn lemma_ceil_pow2_from(b: nat, p: nat)
    requires
        p >= 1,
        is_power_of_two(p),
    ensures
        is_power_of_two(ceil_pow2_from(b, p)),
        ceil_pow2_from(b, p) >= b,
        ceil_pow2_from(b, p) >= p,
        p < b ==> ceil_pow2_from(b, p) < 2 * b,
    decreases gap(b, p),
{
    if p < b {
        assert(is_power_of_two(2 * p)) by {
            assert((2 * p) / 2 == p);
        }
        lemma_ceil_pow2_from(b, 2 * p);
    }
}

/// Rounds the maximum of the plotted values up to a pretty value for the vertical axis.
pub fn pretty_round_max_bytes_value(max: u64) -> (r: u64)
    ensures
        r == pretty_round_max_spec(max as nat),
{
    if max == 0 {
        return 0;
    }
    let b: u64 = if max < 64 { 64 } else { max };
    let mut p: u64 = 1;
    while p < b
        invariant
            1 <= p,
            b == (if max < 64 { 64 } else { max }),
            ceil_pow2_from(b as nat, p as nat) == ceil_pow2_from(b as nat, 1),
        decreases gap(b as nat, p as nat),
    {
        if p > u64::MAX / 2 {
            proof {
                lemma_ceil_pow2_geq(b as nat, (2 * p) as nat);
            }
            return max;
        }
        p = p * 2;
    }
    p
}

proof fn lemma_ceil_pow2_geq(b: nat, p: nat)
    requires
        p >= 1,
    ensures
        ceil_pow2_from(b, p) >= p,
    decreases gap(b, p),
{
    if p < b {
        lemma_ceil_pow2_geq(b, 2 * p);
    }
}

/// The rounded maximum is zero only for zero; otherwise it is at least the maximum, and where
/// it is not the maximum itself it is a power of two, at least 64, and less than twice the
/// larger of the maximum and 64.
pub proof fn lemma_pretty_round_max(m: nat)
    requires
        m <= u64::MAX,
    ensures
        (pretty_round_max_spec(m) == 0) == (m == 0),
        pretty_round_max_spec(m) >= m,
        m != 0 && pretty_round_max_spec(m) != m ==> {
            &&& is_power_of_two(pretty_round_max_spec(m))
            &&& pretty_round_max_spec(m) >= 64
            &&& pretty_round_max_spec(m) < 2 * (if m < 64 { 64 } else { m })
        },
{
    if m != 0 {
        let b: nat = if m < 64 { 64 } else { m };
        lemma_ceil_pow2_from(b, 1);
    }
}

/// `v`, or one where `v` is zero.
pub open spec fn at_least_one(v: nat) -> nat {
    if v < 1 { 1 } else { v }
}

/// The heights, in half characters, of the sent and received parts of one column of the graph
/// for the given amounts, plot height in characters and axis maximum.
pub open spec fn column_heights_spec(sent: nat, received: nat, height: nat, max: nat) -> (nat, nat) {
    if sent == 0 && received == 0 {
        (0, 0)
    } else if received == 0 {
        (at_least_one(sent * 2 * height / max), 0)
    } else if sent == 0 {
        (0, at_least_one(received * 2 * height / max))
    } else {
        let desired = at_least_one((sent + received) * 2 * height / max);
        let send = at_least_one(sent * height / max) * 2;
        let receive: nat = if desired > send { (desired - send) as nat } else { 0 };
        if receive == 0 {
            ((send - 2) as nat, 1)
        } else {
            (send, receive)
        }
    }
}

fn at_least_one_exec(v: u64) -> (r: u64)
    ensures
        r == at_least_one(v as nat),
{
    if v < 1 { 1 } else { v }
}

/// The heights, in half characters, of the sent (bottom) and received (top) parts of one
/// column of the graph. A column that has any usage is at least half a character tall, and
/// when the amounts add up to no more than the axis maximum the column fits in the plot.
pub fn column_heights(sent: u64, received: u64, height: u16, max: u64) -> (r: (u64, u64))
    requires
        max > 0,
        (sent + received) * 2 <= u64::MAX,
        (sent + received) * 2 * height <= u64::MAX,
    ensures
        (r.0 as nat, r.1 as nat) == column_heights_spec(sent as nat, received as nat, height as nat, max as nat),
        sent + received > 0 ==> r.0 + r.1 >= 1,
        sent + received <= max && height >= 1 ==> r.0 + r.1 <= 2 * height,
{
    let h: u64 = height as u64;
    proof {
        assert(sent * 2 * h <= (sent + received) * 2 * h) by (nonlinear_arith)
            requires
                h >= 0,
        ;
        assert(received * 2 * h <= (sent + received) * 2 * h) by (nonlinear_arith)
            requires
                h >= 0,
        ;
        assert(sent * h <= sent * 2 * h) by (nonlinear_arith)
            requires
                h >= 0,
        ;
    }
    let r: (u64, u64) = if sent == 0 && received == 0 {
        (0, 0)
    } else if received == 0 {
        (at_least_one_exec(sent * 2 * h / max), 0)
    } else if sent == 0 {
        (0, at_least_one_exec(received * 2 * h / max))
    } else {
        let desired: u64 = at_least_one_exec((sent + received) * 2 * h / max);
        let f: u64 = sent * h / max;
        proof {
            assert(f <= sent * h) by (nonlinear_arith)
                requires
                    f == (sent * h) as int / (max as int),
                    max > 0,
            ;
            assert(sent * h * 2 <= (sent + received) * 2 * h) by (nonlinear_arith)
                requires
                    h >= 0,
            ;
        }
        let mut send_height: u64 = at_least_one_exec(f) * 2;
        let mut receive_height: u64 = if desired > send_height { desired - send_height } else { 0 };
        if receive_height == 0 {
            send_height = send_height - 2;
            receive_height = 1;
        }
        (send_height, receive_height)
    };
    proof {
        if sent + received <= max && height >= 1 {
            lemma_column_fits(sent as nat, received as nat, h as nat, max as nat);
        }
    }
    r
}

proof fn lemma_column_fits(sent: nat, received: nat, height: nat, max: nat)
    requires
        max > 0,
        height >= 1,
        sent + received <= max,
    ensures
        ({
            let r = column_heights_spec(sent, received, height, max);
            r.0 + r.1 <= 2 * height
        }),
{
    assert(sent * 2 * height / max <= 2 * height) by (nonlinear_arith)
        requires
            sent <= max,
            max > 0,
    ;
    assert(received * 2 * height / max <= 2 * height) by (nonlinear_arith)
        requires
            received <= max,
            max > 0,
    ;
    assert((sent + received) * 2 * height / max <= 2 * height) by (nonlinear_arith)
        requires
            sent + received <= max,
            max > 0,
    ;
    assert(sent * height / max <= height) by (nonlinear_arith)
        requires
            sent <= max,
            max > 0,
    ;
}

/// The vertical axis of the usage graph: where its markers go and what their labels say.
pub struct VerticalAxis {
    current_max: u64,
    distance_between_markers: u16,
    marker_labels: Vec<String>,
}

/// The distance, in characters, between two markers of an axis of the given height.
pub open spec fn marker_distance(height: int) -> int {
    if height % 3 == 0 {
        3
    } else if height % 4 == 0 {
        4
    } else if (height - 1) % 3 == 0 {
        3
    } else if (height - 1) % 4 == 0 {
        4
    } else {
        3
    }
}

/// The label of the marker at `index` of `count` markers for an axis that goes up to `max`:
/// the marker's share of the maximum, pretty-printed as bytes per second.
pub open spec fn marker_label(max: nat, index: int, count: nat) -> Seq<char> {
    let bytes = ((max * (index + 1)) / (count as int)) as u64;
    pretty_bytes((bytes as usize) as nat) + "/s"@
}

impl VerticalAxis {
    /// The maximum the labels were last computed for.
    pub closed spec fn current_max(&self) -> u64 {
        self.current_max
    }

    /// The distance between two markers.
    pub closed spec fn distance(&self) -> u16 {
        self.distance_between_markers
    }

    /// The text of each marker label, from the bottom up.
    pub closed spec fn labels(&self) -> Seq<Seq<char>> {
        self.marker_labels@.map_values(|s: String| s@)
    }

    /// The axis column of an axis `height` rows tall, from the row above the bottom one
    /// upwards: `true` where a marker goes. With no maximum the column is plain line; otherwise
    /// every row at a multiple of the distance between markers has one.
    pub fn marker_rows(&self, max: u64, height: u16) -> (rows: Vec<bool>)
        requires
            height >= 1,
            max != 0 ==> self.distance() > 0,
        ensures
            rows@.len() == height - 1,
            forall|i: int|
                0 <= i < rows@.len() ==> #[trigger] rows@[i] == (max != 0 && (i + 1) % (self.distance() as int) == 0),
    {
        let mut rows: Vec<bool> = Vec::new();
        let mut i: u16 = 1;
        while i < height
            invariant
                1 <= i <= height,
                rows@.len() == i - 1,
                max != 0 ==> self.distance() > 0,
                forall|j: int|
                    0 <= j < rows@.len() ==> #[trigger] rows@[j] == (max != 0 && (j + 1) % (self.distance() as int)
                        == 0),
            decreases height - i,
        {
            let marker = max != 0 && i % self.distance_between_markers == 0;
            rows.push(marker);
            i = i + 1;
        }
        rows
    }

    /// The marker labels, from the bottom up.
    pub fn marker_labels(&self) -> (r: &Vec<String>)
        ensures
            r@.map_values(|s: String| s@) == self.labels(),
    {
        &self.marker_labels
    }

    pub fn new() -> (a: Self)
        ensures
            a.current_max() == 0,
            a.distance() == 0,
            a.labels() == Seq::<Seq<char>>::empty(),
    {
        let a = Self { current_max: 0, distance_between_markers: 0, marker_labels: Vec::new() };
        assert(a.labels() =~= Seq::<Seq<char>>::empty());
        a
    }

    /// Sets the axis up for a new height: chooses the distance between markers, keeps one
    /// label per marker (new ones empty), and forgets the maximum so the labels get recomputed.
    pub fn resize(&mut self, height: u16)
        requires
            height >= 1,
        ensures
            final(self).current_max() == 0,
            final(self).distance() == marker_distance(height as int),
            final(self).labels().len() == (height - 1) as int / marker_distance(height as int),
            forall|i: int|
                0 <= i < final(self).labels().len() ==> #[trigger] final(self).labels()[i] == (if i
                    < old(self).labels().len() {
                    old(self).labels()[i]
                } else {
                    Seq::<char>::empty()
                }),
    {
        self.current_max = 0;
        let d: u16 = if height % 3 == 0 {
            3
        } else if height % 4 == 0 {
            4
        } else if (height - 1) % 3 == 0 {
            3
        } else if (height - 1) % 4 == 0 {
            4
        } else {
            3
        };
        self.distance_between_markers = d;
        let marker_count: usize = ((height - 1) / d) as usize;
        let ghost old_labels = self.labels();
        if self.marker_labels.len() < marker_count {
            while self.marker_labels.len() < marker_count
                invariant
                    marker_count == (height - 1) as int / (d as int),
                    self.marker_labels.len() <= marker_count,
                    self.current_max == 0,
                    self.distance_between_markers == d,
                    self.marker_labels.len() >= old_labels.len(),
                    forall|i: int|
                        0 <= i < self.marker_labels.len() ==> #[trigger] self.marker_labels@[i]@ == (
                        if i < old_labels.len() {
                            old_labels[i]
                        } else {
                            Seq::<char>::empty()
                        }),
                decreases marker_count - self.marker_labels.len(),
            {
                self.marker_labels.push(String::new());
            }
        } else {
            self.marker_labels.truncate(marker_count);
        }
        assert forall|i: int| 0 <= i < self.labels().len() implies #[trigger] self.labels()[i] == (if i
            < old_labels.len() {
            old_labels[i]
        } else {
            Seq::<char>::empty()
        }) by {
            assert(self.labels()[i] == self.marker_labels@[i]@);
        }
    }

    /// Recomputes the labels for a new maximum. For a maximum of zero no labels are shown, so
    /// they are left as they are.
    pub fn recalculate_if_needed(&mut self, max: u64)
        ensures
            final(self).current_max() == max,
            final(self).distance() == old(self).distance(),
            final(self).labels().len() == old(self).labels().len(),
            old(self).current_max() == max || max == 0 ==> final(self).labels() == old(self).labels(),
            old(self).current_max() != max && max != 0 ==> forall|i: int|
                0 <= i < final(self).labels().len() ==> #[trigger] final(self).labels()[i]
                    == marker_label(max as nat, i, old(self).labels().len()),
    {
        if self.current_max == max {
            return;
        }
        self.current_max = max;
        if max != 0 {
            let marker_count: usize = self.marker_labels.len();
            let ghost old_labels = self.labels();
            let mut i: usize = 0;
            while i < marker_count
                invariant
                    i <= marker_count,
                    marker_count == self.marker_labels.len(),
                    marker_count == old_labels.len(),
                    self.current_max == max,
                    self.distance_between_markers == old(self).distance_between_markers,
                    forall|j: int|
                        0 <= j < i ==> #[trigger] self.marker_labels@[j]@ == marker_label(
                            max as nat,
                            j,
                            marker_count as nat,
                        ),
                decreases marker_count - i,
            {
                proof {
                    assert((max as int) * ((i + 1) as int) <= u64::MAX * u64::MAX) by (nonlinear_arith)
                        requires
                            max <= u64::MAX,
                            i + 1 <= u64::MAX,
                    ;
                }
                let product: u128 = (max as u128) * ((i + 1) as u128);
                let quotient: u128 = product / (marker_count as u128);
                let bytes: u64 = #[verifier::truncate] (quotient as u64);
                let shown: usize = #[verifier::truncate] (bytes as usize);
                let mut label = PrettyByteDisplayer(shown).to_string();
                push_str(&mut label, "/s");
                self.marker_labels.set(i, label);
                i = i + 1;
            }
            assert forall|j: int| 0 <= j < self.labels().len() implies #[trigger] self.labels()[j]
                == marker_label(max as nat, j, old_labels.len()) by {
                assert(self.labels()[j] == self.marker_labels@[j]@);
            }
        }
    }
}

} // verus!
