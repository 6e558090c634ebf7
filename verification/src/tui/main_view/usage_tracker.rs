use std::collections::VecDeque;

use vstd::prelude::*;

verus! {

/// An amount of bytes sent and received.
#[derive(Debug, Clone, Copy, PartialEq, Eq, Structural)]
pub struct UsageMeasure {
    pub sent: u64,
    pub received: u64,
}

/// Whether two measures can be added without overflowing.
pub open spec fn can_add(a: UsageMeasure, b: UsageMeasure) -> bool {
    a.sent + b.sent <= u64::MAX && a.received + b.received <= u64::MAX
}

/// The field-wise sum of two measures.
pub open spec fn add_spec(a: UsageMeasure, b: UsageMeasure) -> UsageMeasure {
    UsageMeasure { sent: (a.sent + b.sent) as u64, received: (a.received + b.received) as u64 }
}

pub open spec fn zero_measure() -> UsageMeasure {
    UsageMeasure { sent: 0, received: 0 }
}

impl UsageMeasure {
    pub fn new(sent: u64, received: u64) -> (m: Self)
        ensures
            m.sent == sent,
            m.received == received,
    {
        Self { sent, received }
    }

    pub fn zero() -> (m: Self)
        ensures
            m == zero_measure(),
    {
        Self::new(0, 0)
    }

    /// The total of bytes sent and received.
    pub fn sum(&self) -> (s: u64)
        requires
            self.sent + self.received <= u64::MAX,
        ensures
            s == self.sent + self.received,
    {
        self.sent + self.received
    }

    /// The field-wise sum of two measures.
    pub fn add(self, rhs: Self) -> (m: Self)
        requires
            can_add(self, rhs),
        ensures
            m == add_spec(self, rhs),
    {
        Self { sent: self.sent + rhs.sent, received: self.received + rhs.received }
    }

    /// Adds another measure to this one.
    pub fn add_assign(&mut self, rhs: Self)
        requires
            can_add(*old(self), rhs),
        ensures
            *final(self) == add_spec(*old(self), rhs),
    {
        self.sent = self.sent + rhs.sent;
        self.received = self.received + rhs.received;
    }

    pub fn default() -> (m: Self)
        ensures
            m == zero_measure(),
    {
        Self::zero()
    }
}

/// Replaces the element at `i` of a double-ended queue (`VecDeque`'s `IndexMut`).
#[verifier::external_body]
pub(crate) fn deque_set<T>(v: &mut VecDeque<T>, i: usize, x: T)
    requires
        i < old(v)@.len(),
    ensures
        final(v)@ == old(v)@.update(i as int, x),
{
    v[i] = x;
}

/// The current Unix time in seconds (`time::OffsetDateTime::now_utc` then `unix_timestamp`).
/// Nothing is promised of the value: it is the clock's.
#[verifier::external_body]
fn now_unix_timestamp() -> (t: i64) {
    time::OffsetDateTime::now_utc().unix_timestamp()
}

/// `m0` with `m` added when `cond` holds.
pub open spec fn bump(m0: UsageMeasure, cond: bool, m: UsageMeasure) -> UsageMeasure {
    if cond {
        add_spec(m0, m)
    } else {
        m0
    }
}

pub open spec fn min(a: int, b: int) -> int {
    if a <= b { a } else { b }
}

/// Rounding `h` up to a multiple of a positive `u` (with Rust's division, which rounds
/// towards zero) never gives less than `h`.
pub proof fn lemma_round_up(h: int, u: int)
    requires
        u > 0,
    ensures
        tdiv(h + u - 1, u) * u >= h,
{
    let x = h + u - 1;
    if x >= 0 {
        assert((x / u) * u > x - u) by (nonlinear_arith)
            requires
                u > 0,
                x >= 0,
        ;
    } else {
        assert(-((-x) / u) * u >= x) by (nonlinear_arith)
            requires
                u > 0,
                x < 0,
        ;
    }
}

/// A multiple of `u` obtained by dividing with Rust's division lies between zero and the
/// dividend.
pub proof fn lemma_tdiv_mul_bounds(x: int, u: int)
    requires
        u > 0,
    ensures
        x >= 0 ==> 0 <= tdiv(x, u) * u <= x,
        x < 0 ==> x <= tdiv(x, u) * u <= 0,
{
    if x >= 0 {
        assert(0 <= (x / u) * u <= x) by (nonlinear_arith)
            requires
                u > 0,
                x >= 0,
        ;
    } else {
        assert(x <= -((-x) / u) * u <= 0) by (nonlinear_arith)
            requires
                u > 0,
                x < 0,
        ;
    }
}

/// Rust's integer division, which rounds towards zero, for a positive divisor.
pub open spec fn tdiv(a: int, b: int) -> int {
    if a >= 0 {
        a / b
    } else {
        -((-a) / b)
    }
}

/// Keeps a history of usage by second, over a window of at most `max_history_seconds` seconds
/// that follows the latest recorded second, and the same history grouped in units of several
/// seconds.
pub struct UsageTracker {
    history_by_second: VecDeque<UsageMeasure>,
    history_start_timestamp: i64,
    history_by_unit: VecDeque<UsageMeasure>,
    history_by_unit_start_timestamp: i64,
    unit_size_seconds: i64,
    max_history_seconds: usize,
}

impl UsageTracker {
    /// The tracker keeps at least one second of history, and units longer than a second
    /// whenever it keeps a unit history.
    pub closed spec fn wf(self) -> bool {
        &&& self.max_history_seconds >= 1
        &&& self.history_by_unit@.len() > 0 ==> self.unit_size_seconds > 1
    }

    /// The usage of each second of the window, oldest first.
    pub closed spec fn seconds(self) -> Seq<UsageMeasure> {
        self.history_by_second@
    }

    /// The Unix time of the first second of the window.
    pub closed spec fn start(self) -> int {
        self.history_start_timestamp as int
    }

    /// The usage of each unit, oldest first; empty while the unit is one second or less.
    pub closed spec fn units(self) -> Seq<UsageMeasure> {
        self.history_by_unit@
    }

    /// The Unix time at which the first unit starts.
    pub closed spec fn unit_start(self) -> int {
        self.history_by_unit_start_timestamp as int
    }

    /// The length of a unit, in seconds.
    pub closed spec fn unit_size(self) -> int {
        self.unit_size_seconds as int
    }

    /// The most seconds the window holds when it moves forward.
    pub closed spec fn max_history(self) -> nat {
        self.max_history_seconds as nat
    }

    /// The usage recorded for the second at Unix time `x`: zero outside the window.
    pub open spec fn second_usage(self, x: int) -> UsageMeasure {
        if self.start() <= x < self.start() + self.seconds().len() {
            self.seconds()[x - self.start()]
        } else {
            zero_measure()
        }
    }

    /// Creates a tracker whose window starts now, holding one empty second, and keeps at most
    /// `max_history_seconds` seconds. The unit is one second.
    pub fn new(max_history_seconds: usize) -> (r: Self)
        requires
            max_history_seconds >= 1,
        ensures
            r.wf(),
            r.seconds() == seq![zero_measure()],
            r.units().len() == 0,
            r.unit_start() == r.start(),
            r.unit_size() == 1,
            r.max_history() == max_history_seconds,
    {
        let timestamp_now = now_unix_timestamp();

        let mut history_by_second: VecDeque<UsageMeasure> = VecDeque::with_capacity(max_history_seconds);
        history_by_second.push_front(UsageMeasure::zero());
        assert(history_by_second@ =~= seq![zero_measure()]);

        Self {
            history_by_second,
            history_start_timestamp: timestamp_now,
            history_by_unit: VecDeque::new(),
            history_by_unit_start_timestamp: timestamp_now,
            unit_size_seconds: 1,
            max_history_seconds,
        }
    }

    /// How many seconds the window grows by when usage is recorded at Unix time `t`.
    pub open spec fn new_seconds(self, t: int) -> int {
        let n = t - self.start() + 1 - self.seconds().len();
        if n > 0 { n } else { 0 }
    }

    /// How many of its oldest seconds the window drops when usage is recorded at `t`, so as not
    /// to hold more than `max_history()` seconds.
    pub open spec fn removed(self, t: int) -> int {
        let n = self.seconds().len() + self.new_seconds(t) - self.max_history();
        if n > 0 { n } else { 0 }
    }

    /// Where the window starts after usage is recorded at `t`.
    pub open spec fn shifted_start(self, t: int) -> int {
        self.start() + self.removed(t)
    }

    /// How many seconds the window holds after usage is recorded at `t`.
    pub open spec fn shifted_len(self, t: int) -> int {
        let kept = self.seconds().len() - self.removed(t);
        (if kept > 0 { kept } else { 0 }) + self.new_seconds(t)
    }

    /// How many units are dropped from the front of the unit history once the window starts at
    /// `new_start`: those that end at or before it.
    pub open spec fn unit_pops(self, new_start: int) -> int {
        if new_start - self.unit_start() >= 0 {
            (new_start - self.unit_start()) / self.unit_size()
        } else {
            0
        }
    }

    /// The position, within the window of seconds, that recording at `t` also adds to while a
    /// unit history is kept: the index of the unit of `t` counted from the first unit.
    pub open spec fn unit_slot(self, t: int) -> int {
        let new_unit_start = self.unit_start() + self.unit_pops(self.shifted_start(t)) * self.unit_size();
        tdiv(t - new_unit_start, self.unit_size())
    }

    /// Recording usage never moves the end of the window (the latest timestamp,
    /// `start() + seconds().len()`) back: usage before the window leaves it as it is (see
    /// `record_usage`), and usage at `t` within or after the window leaves it past `t`.
    pub proof fn lemma_latest_never_decreases(self, t: int)
        requires
            t >= self.start(),
        ensures
            self.shifted_start(t) + self.shifted_len(t) >= self.start() + self.seconds().len(),
            self.shifted_start(t) + self.shifted_len(t) >= t + 1,
    {
    }

    /// The Unix time just after the last second of the window, as `get_latest_timestamp`
    /// gives it.
    pub open spec fn latest(self) -> int {
        self.start() + self.seconds().len()
    }

    /// Whether the window of `f` is what the window of `self` becomes after one call: with
    /// `Some(t)`, `record_usage` at Unix time `t` (as its contract gives the window), and with
    /// `None`, `set_unit_size` or `get_usage_by_unit`, which keep the window.
    pub open spec fn window_step(self, f: UsageTracker, call: Option<int>) -> bool {
        match call {
            Some(t) => {
                &&& f.max_history() == self.max_history()
                &&& t < self.start() ==> f.seconds() == self.seconds() && f.start() == self.start()
                &&& t >= self.start() ==> f.start() == self.shifted_start(t) && f.seconds().len()
                    == self.shifted_len(t)
            },
            None => {
                &&& f.max_history() == self.max_history()
                &&& f.seconds() == self.seconds()
                &&& f.start() == self.start()
            },
        }
    }

    /// Over any run of calls on one tracker (`trackers[k + 1]` is `trackers[k]` after
    /// `calls[k]`), the latest timestamp never goes back: it is at least as late after every
    /// later call as after an earlier one.
    pub proof fn lemma_latest_never_decreases_over_calls(
        trackers: Seq<UsageTracker>,
        calls: Seq<Option<int>>,
        i: int,
        j: int,
    )
        requires
            trackers.len() == calls.len() + 1,
            forall|k: int| 0 <= k < calls.len() ==> #[trigger] trackers[k].window_step(trackers[k + 1], calls[k]),
            0 <= i <= j < trackers.len(),
        ensures
            trackers[i].latest() <= trackers[j].latest(),
        decreases j - i,
    {
        if i < j {
            Self::lemma_latest_never_decreases_over_calls(trackers, calls, i, j - 1);
            let o = trackers[j - 1];
            let f = trackers[j];
            assert(o.window_step(trackers[(j - 1) + 1], calls[j - 1]));
            assert(trackers[(j - 1) + 1] == f);
            match calls[j - 1] {
                Some(t) => {
                    if t >= o.start() {
                        o.lemma_latest_never_decreases(t);
                    }
                },
                None => {},
            }
        }
    }

    /// Recording usage at `t` stays within the machine's integers: the differences and sums of
    /// timestamps fit in `i64`, indices in `usize`, and byte counts in `u64`.
    pub open spec fn record_fits(self, t: int, m: UsageMeasure) -> bool {
        &&& i64::MIN <= t - self.start() <= i64::MAX
        &&& t >= self.start() ==> {
            &&& t - self.start() < usize::MAX
            &&& t - self.start() >= self.removed(t)
            &&& self.shifted_start(t) <= i64::MAX
            &&& can_add(self.second_usage(t), m)
            &&& self.units().len() > 0 ==> {
                let new_start = self.shifted_start(t);
                let pops = self.unit_pops(new_start);
                let new_unit_start = self.unit_start() + pops * self.unit_size();
                &&& self.unit_start() + (pops + 1) * self.unit_size() <= i64::MAX
                &&& self.shifted_len(t) <= i64::MAX
                &&& new_start + self.shifted_len(t) + self.unit_size() <= i64::MAX
                &&& i64::MIN <= t - new_unit_start <= i64::MAX
                &&& 0 <= self.unit_slot(t) < self.shifted_len(t)
                &&& can_add(
                    bump(self.second_usage(new_start + self.unit_slot(t)), new_start + self.unit_slot(t) == t, m),
                    m,
                )
            }
        }
    }

    /// Records `bytes_sent` and `bytes_received` at Unix time `timestamp`. Times before the
    /// window are ignored. Times after it move the window forward: new seconds start empty and
    /// the oldest are dropped so that at most `max_history()` remain (if the window jumps
    /// further than that, it restarts with empty seconds). While a unit history is kept, the
    /// units that end before the window are dropped, and the same usage is added once more to
    /// the second at the position of the unit of `timestamp`.
    pub fn record_usage(&mut self, timestamp: i64, bytes_sent: u64, bytes_received: u64)
        requires
            old(self).wf(),
            old(self).record_fits(timestamp as int, UsageMeasure { sent: bytes_sent, received: bytes_received }),
        ensures
            final(self).wf(),
            ({
                let m = UsageMeasure { sent: bytes_sent, received: bytes_received };
                let t = timestamp as int;
                let o = *old(self);
                let f = *final(self);
                &&& f.max_history() == o.max_history()
                &&& f.unit_size() == o.unit_size()
                &&& t < o.start() ==> f.seconds() == o.seconds() && f.start() == o.start() && f.units() == o.units()
                    && f.unit_start() == o.unit_start()
                &&& t >= o.start() ==> {
                    &&& f.start() == o.shifted_start(t)
                    &&& f.seconds().len() == o.shifted_len(t)
                    &&& forall|j: int| 0 <= j < f.seconds().len() ==> #[trigger] f.seconds()[j] == bump(
                        bump(o.second_usage(f.start() + j), f.start() + j == t, m),
                        o.units().len() > 0 && j == o.unit_slot(t),
                        m,
                    )
                    &&& o.units().len() > 0 ==> {
                        &&& f.unit_start() == o.unit_start() + o.unit_pops(f.start()) * o.unit_size()
                        &&& f.units() == o.units().skip(min(o.unit_pops(f.start()), o.units().len() as int))
                    }
                    &&& o.units().len() == 0 ==> f.units() == o.units() && f.unit_start() == o.unit_start()
                }
            }),
    {
        let ghost o = *self;
        let ghost m = UsageMeasure { sent: bytes_sent, received: bytes_received };
        let diff = timestamp - self.history_start_timestamp;
        if diff < 0 {
            return;
        }
        let ghost t = timestamp as int;
        let timestamp_index = self.advance_window(diff as usize, Ghost(t));
        let ghost shifted = *self;

        let mut measure = self.history_by_second[timestamp_index];
        measure.add_assign(UsageMeasure { sent: bytes_sent, received: bytes_received });
        deque_set(&mut self.history_by_second, timestamp_index, measure);
        let ghost first = *self;
        assert(forall|j: int| 0 <= j < first.seconds().len() ==> #[trigger] first.seconds()[j] == bump(o.second_usage(first.start() + j), first.start() + j == t, m));

        if self.history_by_unit.len() != 0 {
            self.drop_old_units();
            let ghost dropped = *self;
            assert(dropped.unit_start() == o.unit_start() + o.unit_pops(shifted.start()) * o.unit_size());

            let history_end_timestamp = self.history_start_timestamp + (self.history_by_second.len() as i64);
            let rounded_end = history_end_timestamp + self.unit_size_seconds - 1;
            proof {
                lemma_round_up(history_end_timestamp as int, self.unit_size_seconds as int);
                lemma_tdiv_mul_bounds(rounded_end as int, self.unit_size_seconds as int);
            }
            let rounded_units = rounded_end / self.unit_size_seconds;
            assert(rounded_units == tdiv(rounded_end as int, self.unit_size_seconds as int));
            let mut history_by_unit_end_timestamp = rounded_units * self.unit_size_seconds;

            while history_by_unit_end_timestamp < history_end_timestamp
                invariant
                    history_by_unit_end_timestamp >= history_end_timestamp,
                    *self == dropped,
                decreases history_end_timestamp - history_by_unit_end_timestamp,
            {
                history_by_unit_end_timestamp = history_by_unit_end_timestamp + self.unit_size_seconds;
                self.history_by_unit.push_back(UsageMeasure::zero());
            }

            let unit_index = (timestamp - self.history_by_unit_start_timestamp) / self.unit_size_seconds;
            assert(unit_index == o.unit_slot(t));
            let mut measure = self.history_by_second[unit_index as usize];
            measure.add_assign(UsageMeasure { sent: bytes_sent, received: bytes_received });
            deque_set(&mut self.history_by_second, unit_index as usize, measure);
        }
    }

    /// Moves the window so that it reaches the second at index `timestamp_index` from its
    /// start, and gives that second's index in the moved window.
    fn advance_window(&mut self, timestamp_index: usize, Ghost(t): Ghost<int>) -> (idx: usize)
        requires
            old(self).wf(),
            t == old(self).start() + timestamp_index,
            old(self).record_fits(t, zero_measure()),
            timestamp_index < usize::MAX,
        ensures
            final(self).wf(),
            final(self).start() == old(self).shifted_start(t),
            final(self).seconds().len() == old(self).shifted_len(t),
            forall|j: int| 0 <= j < final(self).seconds().len() ==> #[trigger] final(self).seconds()[j] == old(self).second_usage(final(self).start() + j),
            idx == t - final(self).start(),
            idx < final(self).seconds().len(),
            final(self).units() == old(self).units(),
            final(self).unit_start() == old(self).unit_start(),
            final(self).unit_size() == old(self).unit_size(),
            final(self).max_history() == old(self).max_history(),
    {
        let ghost o = *self;
        let len = self.history_by_second.len();
        let new_seconds_count = (timestamp_index + 1).saturating_sub(len);
        let remove_count = (len + new_seconds_count).saturating_sub(self.max_history_seconds);
        assert(new_seconds_count == o.new_seconds(t));
        assert(remove_count == o.removed(t));
        self.history_start_timestamp = self.history_start_timestamp + (remove_count as i64);
        let idx = timestamp_index - remove_count;
        let ghost moved = *self;

        let mut p: usize = 0;
        while p < remove_count
            invariant
                p <= remove_count,
                self.history_by_second@ == o.seconds().skip(min(p as int, o.seconds().len() as int)),
                self.history_by_unit == moved.history_by_unit,
                self.history_start_timestamp == moved.history_start_timestamp,
                self.history_by_unit_start_timestamp == moved.history_by_unit_start_timestamp,
                self.unit_size_seconds == moved.unit_size_seconds,
                self.max_history_seconds == moved.max_history_seconds,
            decreases remove_count - p,
        {
            let _ = self.history_by_second.pop_front();
            assert(o.seconds().skip(min(p + 1, o.seconds().len() as int)) =~= (if p < o.seconds().len() { o.seconds().skip(min(p as int, o.seconds().len() as int)).subrange(1, o.seconds().len() - p) } else { o.seconds().skip(min(p as int, o.seconds().len() as int)) }));
            p = p + 1;
        }

        let ghost kept = self.history_by_second@;
        let mut q: usize = 0;
        while q < new_seconds_count
            invariant
                q <= new_seconds_count,
                self.history_by_second@ == kept + Seq::new(q as nat, |x: int| zero_measure()),
                self.history_by_unit == moved.history_by_unit,
                self.history_start_timestamp == moved.history_start_timestamp,
                self.history_by_unit_start_timestamp == moved.history_by_unit_start_timestamp,
                self.unit_size_seconds == moved.unit_size_seconds,
                self.max_history_seconds == moved.max_history_seconds,
            decreases new_seconds_count - q,
        {
            self.history_by_second.push_back(UsageMeasure::zero());
            assert(kept + Seq::new((q + 1) as nat, |x: int| zero_measure()) =~= (kept + Seq::new(q as nat, |x: int| zero_measure())).push(zero_measure()));
            q = q + 1;
        }

        let ghost shifted = self.history_by_second@;
        assert(shifted.len() == o.shifted_len(t));
        assert forall|j: int| 0 <= j < shifted.len() implies #[trigger] shifted[j] == o.second_usage(o.shifted_start(t) + j) by {
            if j < kept.len() {
                assert(shifted[j] == o.seconds()[j + o.removed(t)]);
            }
        }
        idx
    }

    /// Drops from the unit history the units that end at or before the window's start.
    fn drop_old_units(&mut self)
        requires
            old(self).wf(),
            old(self).units().len() > 0,
            old(self).unit_start() + (old(self).unit_pops(old(self).start()) + 1) * old(self).unit_size() <= i64::MAX,
        ensures
            final(self).wf(),
            final(self).unit_start() == old(self).unit_start() + old(self).unit_pops(old(self).start()) * old(self).unit_size(),
            final(self).units() == old(self).units().skip(min(old(self).unit_pops(old(self).start()), old(self).units().len() as int)),
            final(self).seconds() == old(self).seconds(),
            final(self).start() == old(self).start(),
            final(self).unit_size() == old(self).unit_size(),
            final(self).max_history() == old(self).max_history(),
    {
        let ghost o = *self;
        let ghost new_start = o.start();
        let ghost mut pops: int = 0;
        assert(1 * o.unit_size() <= (o.unit_pops(new_start) + 1) * o.unit_size()) by (nonlinear_arith)
            requires
                o.unit_pops(new_start) >= 0,
                o.unit_size() > 1,
        ;
        while self.history_by_unit_start_timestamp + self.unit_size_seconds <= self.history_start_timestamp
            invariant
                new_start == o.start(),
                self.history_by_second == o.history_by_second,
                self.history_start_timestamp == o.history_start_timestamp,
                self.unit_size_seconds == o.unit_size_seconds,
                self.max_history_seconds == o.max_history_seconds,
                o.unit_size() > 1,
                self.history_by_unit_start_timestamp == o.unit_start() + pops * o.unit_size(),
                0 <= pops <= o.unit_pops(new_start),
                self.history_by_unit@ == o.units().skip(min(pops, o.units().len() as int)),
                o.unit_start() + (o.unit_pops(new_start) + 1) * o.unit_size() <= i64::MAX,
                o.unit_start() + (pops + 1) * o.unit_size() <= i64::MAX,
                self.history_by_unit_start_timestamp + o.unit_size() <= i64::MAX,
            decreases new_start - self.history_by_unit_start_timestamp,
        {
            proof {
                assert(pops + 1 <= o.unit_pops(new_start)) by (nonlinear_arith)
                    requires
                        o.unit_start() + pops * o.unit_size() + o.unit_size() <= new_start,
                        o.unit_size() > 1,
                        o.unit_pops(new_start) == (if new_start - o.unit_start() >= 0 {
                            (new_start - o.unit_start()) / o.unit_size()
                        } else {
                            0
                        }),
                        pops >= 0,
                ;
                assert((pops + 2) * o.unit_size() <= (o.unit_pops(new_start) + 1) * o.unit_size()) by (nonlinear_arith)
                    requires
                        pops + 1 <= o.unit_pops(new_start),
                        o.unit_size() > 1,
                ;
                assert((pops + 1) * o.unit_size() == pops * o.unit_size() + o.unit_size()) by (nonlinear_arith);
                assert((pops + 2) * o.unit_size() == (pops + 1) * o.unit_size() + o.unit_size()) by (nonlinear_arith);
            }
            self.history_by_unit_start_timestamp = self.history_by_unit_start_timestamp + self.unit_size_seconds;
            let _ = self.history_by_unit.pop_front();
            assert(o.units().skip(min(pops + 1, o.units().len() as int)) =~= (if pops < o.units().len() { o.units().skip(min(pops, o.units().len() as int)).subrange(1, o.units().len() - pops) } else { o.units().skip(min(pops, o.units().len() as int)) }));
            proof {
                pops = pops + 1;
            }
        }
        proof {
            assert(pops == o.unit_pops(new_start)) by (nonlinear_arith)
                requires
                    o.unit_start() + pops * o.unit_size() + o.unit_size() > new_start,
                    pops <= o.unit_pops(new_start),
                    o.unit_size() > 1,
                    o.unit_pops(new_start) == (if new_start - o.unit_start() >= 0 {
                        (new_start - o.unit_start()) / o.unit_size()
                    } else {
                        0
                    }),
                    pops >= 0,
            ;
        }
    }

    /// The first unit's start when units of `u` seconds are set: the window's start rounded
    /// to a multiple of `u` (towards zero).
    pub open spec fn rebucket_start(self, u: int) -> int {
        tdiv(self.start(), u) * u
    }

    /// How many units the window spans once units of `u` seconds are set.
    pub open spec fn rebucket_count(self, u: int) -> int {
        let end = tdiv(self.start() + self.seconds().len() + u - 1, u) * u;
        tdiv(end - self.rebucket_start(u), u)
    }

    /// The unit that the second at index `i` of the window falls in, once units of `u` seconds
    /// are set.
    pub open spec fn rebucket_index(self, u: int, i: int) -> int {
        tdiv(self.start() + i - self.rebucket_start(u), u)
    }

    /// The total bytes sent and received over the first `n` seconds of the window that fall in
    /// unit `k` once units of `u` seconds are set.
    pub open spec fn unit_total(self, u: int, k: int, n: int) -> (int, int)
        decreases n,
    {
        if n <= 0 {
            (0, 0)
        } else {
            let prev = self.unit_total(u, k, n - 1);
            if self.rebucket_index(u, n - 1) == k {
                (prev.0 + self.seconds()[n - 1].sent, prev.1 + self.seconds()[n - 1].received)
            } else {
                prev
            }
        }
    }

    /// The totals grow with the number of seconds counted.
    pub proof fn lemma_unit_total_le(self, u: int, k: int, n: int, m: int)
        requires
            n <= m,
        ensures
            self.unit_total(u, k, n).0 <= self.unit_total(u, k, m).0,
            self.unit_total(u, k, n).1 <= self.unit_total(u, k, m).1,
        decreases m - n,
    {
        if n < m {
            self.lemma_unit_total_le(u, k, n, m - 1);
        }
    }

    /// Whether this tracker's unit history is the one `o`'s history by second gives for units
    /// of `u` seconds (more than one).
    pub open spec fn rebucketed_from(self, o: UsageTracker, u: int) -> bool {
        &&& self.unit_start() == o.rebucket_start(u)
        &&& self.units().len() == (if o.rebucket_count(u) > 0 { o.rebucket_count(u) } else { 0 })
        &&& forall|k: int| 0 <= k < self.units().len() ==> {
            let total = o.unit_total(u, k, o.seconds().len() as int);
            &&& (#[trigger] self.units()[k]).sent == total.0
            &&& self.units()[k].received == total.1
        }
    }

    /// Setting units of `u` seconds stays within the machine's integers and every second of the
    /// window falls in one of the units that are created.
    pub open spec fn rebucket_fits(self, u: int) -> bool {
        u > 1 ==> {
            &&& self.seconds().len() <= i64::MAX
            &&& self.start() + self.seconds().len() + u <= i64::MAX
            &&& i64::MIN <= tdiv(self.start() + self.seconds().len() + u - 1, u) * u - self.rebucket_start(u) <= i64::MAX
            &&& forall|i: int| 0 <= i < self.seconds().len() ==> i64::MIN <= #[trigger] (self.start() + i) - self.rebucket_start(u) <= i64::MAX
            &&& forall|i: int| 0 <= i < self.seconds().len() ==> 0 <= #[trigger] self.rebucket_index(u, i) < self.rebucket_count(u)
            &&& forall|k: int| 0 <= k < self.rebucket_count(u) ==> {
                &&& #[trigger] self.unit_total(u, k, self.seconds().len() as int).0 <= u64::MAX
                &&& self.unit_total(u, k, self.seconds().len() as int).1 <= u64::MAX
            }
        }
    }

    /// Sets the unit to `unit_size_seconds` seconds. For units longer than a second, the
    /// unit history is rebuilt from the history by second: the units start at the window's start
    /// rounded to a multiple of the unit, and each holds the total usage of its seconds. For
    /// shorter units no unit history is kept.
    pub fn set_unit_size(&mut self, unit_size_seconds: i64)
        requires
            old(self).wf(),
            old(self).rebucket_fits(unit_size_seconds as int),
        ensures
            final(self).wf(),
            final(self).unit_size() == unit_size_seconds,
            final(self).seconds() == old(self).seconds(),
            final(self).start() == old(self).start(),
            final(self).max_history() == old(self).max_history(),
            unit_size_seconds <= 1 ==> final(self).units().len() == 0 && final(self).unit_start() == old(self).unit_start(),
            unit_size_seconds > 1 ==> final(self).rebucketed_from(*old(self), unit_size_seconds as int),
    {
        let ghost o = *self;
        self.history_by_unit.clear();
        self.unit_size_seconds = unit_size_seconds;
        if self.unit_size_seconds <= 1 {
            return;
        }
        let ghost u = unit_size_seconds as int;

        proof {
            lemma_tdiv_mul_bounds(self.history_start_timestamp as int, u);
        }
        let start_units = self.history_start_timestamp / unit_size_seconds;
        assert(start_units == tdiv(self.history_start_timestamp as int, u));
        self.history_by_unit_start_timestamp = start_units * unit_size_seconds;

        let history_end_timestamp = self.history_start_timestamp + (self.history_by_second.len() as i64);
        let rounded_end = history_end_timestamp + unit_size_seconds - 1;
        proof {
            lemma_tdiv_mul_bounds(rounded_end as int, u);
        }
        let end_units = rounded_end / unit_size_seconds;
        assert(end_units == tdiv(rounded_end as int, u));
        let history_by_unit_end_timestamp = end_units * unit_size_seconds;

        let span = history_by_unit_end_timestamp - self.history_by_unit_start_timestamp;
        let total_units = span / unit_size_seconds;
        assert(total_units == o.rebucket_count(u));

        let mut n: i64 = 0;
        while n < total_units
            invariant
                0 <= n,
                n <= total_units || total_units < 0,
                total_units < 0 ==> n == 0,
                self.history_by_unit@ == Seq::new(n as nat, |x: int| zero_measure()),
                self.history_by_second == o.history_by_second,
                self.history_start_timestamp == o.history_start_timestamp,
                self.max_history_seconds == o.max_history_seconds,
                self.unit_size_seconds == unit_size_seconds,
                self.history_by_unit_start_timestamp == o.rebucket_start(u),
                u == unit_size_seconds,
            decreases total_units - n,
        {
            self.history_by_unit.push_back(UsageMeasure::zero());
            assert(Seq::new((n + 1) as nat, |x: int| zero_measure()) =~= Seq::new(n as nat, |x: int| zero_measure()).push(zero_measure()));
            n = n + 1;
        }
        let ghost count = self.history_by_unit@.len();
        assert(count == (if o.rebucket_count(u) > 0 { o.rebucket_count(u) } else { 0 }));

        let len = self.history_by_second.len();
        let mut i: usize = 0;
        while i < len
            invariant
                i <= len,
                len == o.seconds().len(),
                self.history_by_unit@.len() == count,
                count == (if o.rebucket_count(u) > 0 { o.rebucket_count(u) } else { 0 }),
                self.history_by_second == o.history_by_second,
                self.history_start_timestamp == o.history_start_timestamp,
                self.max_history_seconds == o.max_history_seconds,
                self.unit_size_seconds == unit_size_seconds,
                self.history_by_unit_start_timestamp == o.rebucket_start(u),
                u == unit_size_seconds,
                u > 1,
                o.rebucket_fits(u),
                forall|k: int| 0 <= k < count ==> {
                    &&& (#[trigger] self.history_by_unit@[k]).sent == o.unit_total(u, k, i as int).0
                    &&& self.history_by_unit@[k].received == o.unit_total(u, k, i as int).1
                },
            decreases len - i,
        {
            let measure = self.history_by_second[i];
            let timestamp = self.history_start_timestamp + (i as i64);
            assert(i64::MIN <= (o.start() + i) - o.rebucket_start(u) <= i64::MAX);
            let timestamp_index = (timestamp - self.history_by_unit_start_timestamp) / unit_size_seconds;
            assert(timestamp_index == o.rebucket_index(u, i as int));
            assert(0 <= timestamp_index < count);
            let unit_count = self.history_by_unit.len();
            assert(timestamp_index < unit_count);
            let k = timestamp_index as usize;
            let mut bucket = self.history_by_unit[k];
            proof {
                o.lemma_unit_total_le(u, k as int, i as int + 1, len as int);
            }
            bucket.add_assign(measure);
            deque_set(&mut self.history_by_unit, k, bucket);
            i = i + 1;
        }
        assert(self.history_by_unit@ == self.units());
        assert(self.history_by_unit@.len() == count);
    }

    /// The history grouped in units of `unit_size_seconds` seconds, switching to that unit first
    /// if needed; the history by second when units are a second or shorter.
    pub fn get_usage_by_unit(&mut self, unit_size_seconds: i64) -> (r: &VecDeque<UsageMeasure>)
        requires
            old(self).wf(),
            unit_size_seconds != old(self).unit_size() ==> old(self).rebucket_fits(unit_size_seconds as int),
        ensures
            final(self).wf(),
            final(self).unit_size() == unit_size_seconds,
            final(self).seconds() == old(self).seconds(),
            final(self).start() == old(self).start(),
            final(self).max_history() == old(self).max_history(),
            unit_size_seconds == old(self).unit_size() ==> final(self).units() == old(self).units()
                && final(self).unit_start() == old(self).unit_start(),
            unit_size_seconds != old(self).unit_size() && unit_size_seconds <= 1 ==> final(self).units().len() == 0,
            unit_size_seconds != old(self).unit_size() && unit_size_seconds > 1 ==> final(self).rebucketed_from(
                *old(self),
                unit_size_seconds as int,
            ),
            r@ == (if final(self).units().len() == 0 { final(self).seconds() } else { final(self).units() }),
    {
        if unit_size_seconds != self.unit_size_seconds {
            self.set_unit_size(unit_size_seconds);
        }

        if self.history_by_unit.len() == 0 {
            &self.history_by_second
        } else {
            &self.history_by_unit
        }
    }

    /// The Unix time just after the last second of the window.
    pub fn get_latest_timestamp(&self) -> (t: i64)
        requires
            self.seconds().len() <= i64::MAX,
            self.start() + self.seconds().len() <= i64::MAX,
        ensures
            t == self.start() + self.seconds().len(),
    {
        self.history_start_timestamp + (self.history_by_second.len() as i64)
    }
}

} // verus!
