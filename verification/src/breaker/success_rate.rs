//! The exact success ratio over a trailing window of time.
//!
//! A ring of fixed-width slices spans the window. Each slice counts the responses that arrived in
//! it, so the ratio is the exact quotient over the live slices and does not depend on how fast
//! requests arrive.

use crate::time::{Duration, Instant};
use vstd::prelude::*;

verus! {

/// The number of slices that span the window.
pub const BUCKETS: usize = 10;

/// The narrowest slice: one millisecond.
pub const MIN_BUCKET_WIDTH: u128 = 1_000_000;

/// The shortest window: one narrowest slice for each bucket.
pub const MIN_WINDOW: u128 = 10_000_000;

/// A success ratio in hundredths of a percent: 10 000 stands for every response a success.
pub const FULL_RATIO: u32 = 10_000;

/// One slice of the window.
#[derive(Clone, Copy, Debug, PartialEq, Eq, Structural)]
pub struct Bucket {
    pub successes: u32,
    pub total: u32,
}

impl Bucket {
    pub open spec fn empty() -> Bucket {
        Bucket { successes: 0, total: 0 }
    }

    pub fn clear(&mut self)
        ensures
            *final(self) == Bucket::empty(),
    {
        self.successes = 0;
        self.total = 0;
    }

    /// The slice with one more response in it. Counts stop at the largest number they can hold.
    pub open spec fn with_sample(self, success: bool) -> Bucket {
        Bucket {
            successes: if success && self.successes < u32::MAX {
                (self.successes + 1) as u32
            } else {
                self.successes
            },
            total: if self.total < u32::MAX {
                (self.total + 1) as u32
            } else {
                self.total
            },
        }
    }
}

/// The window as its slices ordered by age: the slice at index 0 covers the present, the one at
/// index 9 is the next to fall out.
pub struct WindowView {
    pub slices: Seq<Bucket>,
    pub width: nat,
    pub start: nat,
}

/// The responses counted in the slices, as successes and total.
pub open spec fn sums(slices: Seq<Bucket>) -> (nat, nat)
    decreases slices.len(),
{
    if slices.len() == 0 {
        (0, 0)
    } else {
        let (s, t) = sums(slices.drop_last());
        (s + slices.last().successes as nat, t + slices.last().total as nat)
    }
}

/// The slices after `steps` widths have passed: each is older by `steps`, the oldest are gone, and
/// the new ones are empty.
pub open spec fn aged(slices: Seq<Bucket>, steps: nat) -> Seq<Bucket> {
    Seq::new(
        slices.len(),
        |age: int|
            if age < steps {
                Bucket::empty()
            } else {
                slices[age - steps]
            },
    )
}

impl WindowView {
    /// The whole widths that have passed at `now` since the present slice began.
    pub open spec fn steps(self, now: Instant) -> nat {
        if now.nanos as nat >= self.start {
            ((now.nanos as nat - self.start) as nat) / self.width
        } else {
            0
        }
    }

    /// The window once its present slice is the one that covers `now`.
    pub open spec fn rolled(self, now: Instant) -> WindowView {
        WindowView {
            slices: aged(self.slices, self.steps(now)),
            width: self.width,
            start: self.start + self.steps(now) * self.width,
        }
    }

    /// The window once a response that arrived at `now` is counted.
    pub open spec fn recorded(self, success: bool, now: Instant) -> WindowView {
        let w = self.rolled(now);
        WindowView { slices: w.slices.update(0, w.slices[0].with_sample(success)), ..w }
    }

    /// A window of the same width that holds no responses.
    pub open spec fn emptied(self, now: Instant) -> WindowView {
        WindowView {
            slices: Seq::new(BUCKETS as nat, |age: int| Bucket::empty()),
            width: self.width,
            start: now.nanos as nat,
        }
    }

    /// Whether there are enough responses to act on, and too few of them were successes: fewer
    /// than `threshold` in ten thousand.
    pub open spec fn trips(self, min_requests: nat, threshold: nat) -> bool {
        let (successes, total) = sums(self.slices);
        &&& total > 0
        &&& total >= min_requests
        &&& successes * FULL_RATIO < threshold * total
    }
}

/// The width of a slice of a window that is asked to span `window`.
pub open spec fn width_of(window: Duration) -> nat {
    (if window.nanos > MIN_WINDOW {
        window.nanos as nat
    } else {
        MIN_WINDOW as nat
    }) / BUCKETS as nat
}

/// A ring of slices that counts the responses of a trailing window.
#[derive(Debug)]
pub struct SuccessRateWindow {
    buckets: [Bucket; 10],
    bucket_width: Duration,
    current: usize,
    last_roll: Instant,
}

/// The place in the ring of the slice that is `age` older than the one at `current`.
pub closed spec fn place(current: int, age: int) -> int {
    if age <= current {
        current - age
    } else {
        current - age + BUCKETS
    }
}

impl View for SuccessRateWindow {
    type V = WindowView;

    closed spec fn view(&self) -> WindowView {
        WindowView {
            slices: Seq::new(
                BUCKETS as nat,
                |age: int| self.buckets@[place(self.current as int, age)],
            ),
            width: self.bucket_width.nanos as nat,
            start: self.last_roll.nanos as nat,
        }
    }
}

impl SuccessRateWindow {
    /// The ring position is in range, slices are not too narrow, and no slice counts more
    /// successes than responses.
    pub closed spec fn wf(self) -> bool {
        &&& self.current < BUCKETS
        &&& self.bucket_width.nanos >= MIN_BUCKET_WIDTH
        &&& forall|i: int|
            0 <= i < BUCKETS ==> (#[trigger] self.buckets@[i]).successes <= self.buckets@[i].total
    }

    /// An empty window that spans `window`, or the shortest window when that is longer, and whose
    /// present slice begins at `now`.
    pub fn new(window: Duration, now: Instant) -> (w: SuccessRateWindow)
        ensures
            w.wf(),
            w@.width == width_of(window),
            w@.start == now.nanos,
            w@.slices == Seq::new(BUCKETS as nat, |age: int| Bucket::empty()),
    {
        let span: u128 = if window.nanos > MIN_WINDOW {
            window.nanos
        } else {
            MIN_WINDOW
        };
        let w = SuccessRateWindow {
            buckets: [Bucket { successes: 0, total: 0 };10],
            bucket_width: Duration { nanos: span / BUCKETS as u128 },
            current: 0,
            last_roll: now,
        };
        proof {
            assert(span / 10 >= MIN_BUCKET_WIDTH);
            assert forall|i: int| 0 <= i < BUCKETS implies #[trigger] w.buckets@[i]
                == Bucket::empty() by {}
            assert(w@.slices =~= Seq::new(BUCKETS as nat, |age: int| Bucket::empty()));
        }
        w
    }

    /// The width of one slice.
    pub fn bucket_width(&self) -> (d: Duration)
        ensures
            d.nanos == self@.width,
    {
        self.bucket_width
    }

    fn clear_all(&mut self)
        requires
            old(self).wf(),
        ensures
            final(self).wf(),
            final(self).current == old(self).current,
            final(self).bucket_width == old(self).bucket_width,
            final(self).last_roll == old(self).last_roll,
            forall|i: int| 0 <= i < BUCKETS ==> final(self).buckets@[i] == Bucket::empty(),
    {
        let mut i: usize = 0;
        while i < BUCKETS
            invariant
                i <= BUCKETS,
                self.wf(),
                self.current == old(self).current,
                self.bucket_width == old(self).bucket_width,
                self.last_roll == old(self).last_roll,
                forall|j: int| 0 <= j < i ==> self.buckets@[j] == Bucket::empty(),
            decreases BUCKETS - i,
        {
            self.buckets[i] = Bucket { successes: 0, total: 0 };
            i = i + 1;
        }
    }

    /// Moves on to the slice that covers `now`, and drops every slice whose time has passed out of
    /// the window.
    pub fn roll(&mut self, now: Instant)
        requires
            old(self).wf(),
        ensures
            final(self).wf(),
            final(self)@ == old(self)@.rolled(now),
    {
        let elapsed: u128 = now.saturating_duration_since(self.last_roll).nanos;
        let width: u128 = self.bucket_width.nanos;
        let steps: u128 = elapsed / width;
        let remainder: u128 = elapsed % width;
        let ghost before = self@;
        proof {
            vstd::arithmetic::div_mod::lemma_fundamental_div_mod(elapsed as int, width as int);
            vstd::arithmetic::div_mod::lemma_mod_bound(elapsed as int, width as int);
            assert(before.steps(now) == steps);
            assert(before.steps(now) * before.width == elapsed - remainder) by (nonlinear_arith)
                requires
                    elapsed == width as int * steps as int + remainder,
                    before.steps(now) == steps,
                    before.width == width,
            ;
            assert(remainder <= elapsed) by (nonlinear_arith)
                requires
                    elapsed == width as int * steps as int + remainder,
                    width >= 0,
                    steps >= 0,
            ;
        }
        if steps == 0 {
            proof {
                assert(self@.rolled(now).slices =~= self@.slices);
                assert(before.steps(now) * before.width == 0) by (nonlinear_arith)
                    requires
                        before.steps(now) == 0,
                ;
            }
            return ;
        }
        let ghost cur = self.current as int;
        let ghost ring = self.buckets@;
        if steps >= BUCKETS as u128 {
            self.clear_all();
        } else {
            let n: usize = steps as usize;
            let mut i: usize = 1;
            while i <= n
                invariant
                    1 <= i <= n + 1,
                    1 <= n < BUCKETS,
                    self.wf(),
                    self.current == cur,
                    ring.len() == BUCKETS,
                    self.bucket_width == old(self).bucket_width,
                    self.last_roll == old(self).last_roll,
                    forall|j: int|
                        0 <= j < BUCKETS ==> #[trigger] self.buckets@[j] == cleared_ahead(
                            ring,
                            cur,
                            i - 1,
                        )[j],
                decreases n + 1 - i,
            {
                let idx: usize = if self.current + i < BUCKETS {
                    self.current + i
                } else {
                    self.current + i - BUCKETS
                };
                self.buckets[idx] = Bucket { successes: 0, total: 0 };
                i = i + 1;
            }
        }
        let shift: usize = (steps % BUCKETS as u128) as usize;
        proof {
            if steps < BUCKETS {
                vstd::arithmetic::div_mod::lemma_small_mod(steps as nat, BUCKETS as nat);
            }
        }
        self.current = if self.current + shift < BUCKETS {
            self.current + shift
        } else {
            self.current + shift - BUCKETS
        };
        self.last_roll = Instant { nanos: self.last_roll.nanos + (elapsed - remainder) };
        proof {
            let s = steps as int;
            assert forall|age: int| 0 <= age < BUCKETS implies self@.slices[age] == before.rolled(
                now,
            ).slices[age] by {
                let j = place(self.current as int, age);
                assert(self@.slices[age] == self.buckets@[j]);
                if s < BUCKETS {
                    assert(shift == s);
                    assert(self.buckets@[j] == cleared_ahead(ring, cur, s)[j]);
                    if age >= s {
                        assert(j == place(cur, age - s));
                    }
                }
            }
            assert(self@.slices =~= before.rolled(now).slices);
        }
    }

    /// Counts one response that arrived at `now`. `success` is false for a response that lowers
    /// the ratio.
    pub fn record(&mut self, success: bool, now: Instant)
        requires
            old(self).wf(),
        ensures
            final(self).wf(),
            final(self)@ == old(self)@.recorded(success, now),
    {
        self.roll(now);
        let ghost rolled = self@;
        let ghost ring = self.buckets@;
        let mut bucket = self.buckets[self.current];
        if bucket.total < u32::MAX {
            bucket.total = bucket.total + 1;
        }
        if success && bucket.successes < u32::MAX {
            bucket.successes = bucket.successes + 1;
        }
        self.buckets[self.current] = bucket;
        proof {
            assert(self.buckets@ == ring.update(self.current as int, bucket));
            assert(ring[self.current as int] == rolled.slices[0]);
            assert forall|i: int| 0 <= i < BUCKETS implies (
            #[trigger] self.buckets@[i]).successes <= self.buckets@[i].total by {
                assert(ring[i].successes <= ring[i].total);
            }
            assert(self@.slices =~= rolled.slices.update(0, rolled.slices[0].with_sample(success)));
        }
    }

    /// The responses in the window as it stood at the last response recorded, as successes and
    /// total.
    pub fn totals(&self) -> (r: (u64, u64))
        requires
            self.wf(),
        ensures
            (r.0 as nat, r.1 as nat) == sums(self@.slices),
            r.0 <= r.1,
            r.1 <= BUCKETS * u32::MAX,
    {
        let mut successes: u64 = 0;
        let mut total: u64 = 0;
        let mut age: usize = 0;
        while age < BUCKETS
            invariant
                age <= BUCKETS,
                self.wf(),
                (successes as nat, total as nat) == sums(self@.slices.take(age as int)),
                successes <= total,
                total <= age * u32::MAX,
            decreases BUCKETS - age,
        {
            let i: usize = if age <= self.current {
                self.current - age
            } else {
                self.current + BUCKETS - age
            };
            let b = self.buckets[i];
            proof {
                assert(b == self@.slices[age as int]);
                assert(self.buckets@[i as int].successes <= self.buckets@[i as int].total);
                assert(self@.slices.take(age + 1).drop_last() =~= self@.slices.take(age as int));
                assert(self@.slices.take(age + 1).last() == b);
            }
            successes = successes + b.successes as u64;
            total = total + b.total as u64;
            age = age + 1;
        }
        proof {
            assert(self@.slices.take(BUCKETS as int) =~= self@.slices);
        }
        (successes, total)
    }

    /// The success ratio as successes over total, or nothing when the window holds no responses.
    pub fn ratio(&self) -> (r: Option<(u64, u64)>)
        requires
            self.wf(),
        ensures
            r is None <==> sums(self@.slices).1 == 0,
            r matches Some(q) ==> (q.0 as nat, q.1 as nat) == sums(self@.slices) && q.0 <= q.1,
    {
        let (successes, total) = self.totals();
        if total == 0 {
            None
        } else {
            Some((successes, total))
        }
    }

    /// Whether the ratio has fallen below `threshold` in ten thousand, with at least
    /// `min_requests` responses in the window and at least one.
    pub fn should_trip(&self, min_requests: usize, threshold: u32) -> (b: bool)
        requires
            self.wf(),
        ensures
            b == self@.trips(min_requests as nat, threshold as nat),
    {
        match self.ratio() {
            Some((successes, total)) => {
                proof {
                    assert(successes as u128 * FULL_RATIO as u128 <= u64::MAX as u128
                        * u32::MAX as u128) by (nonlinear_arith)
                        requires
                            successes <= u64::MAX,
                            FULL_RATIO <= u32::MAX,
                    ;
                    assert(threshold as u128 * total as u128 <= u64::MAX as u128
                        * u32::MAX as u128) by (nonlinear_arith)
                        requires
                            total <= u64::MAX,
                            threshold <= u32::MAX,
                    ;
                }
                total >= min_requests as u64 && successes as u128 * (FULL_RATIO as u128)
                    < threshold as u128 * total as u128
            },
            None => false,
        }
    }

    /// Empties the window and begins its present slice at `now`.
    pub fn reset(&mut self, now: Instant)
        requires
            old(self).wf(),
        ensures
            final(self).wf(),
            final(self)@ == old(self)@.emptied(now),
    {
        self.clear_all();
        self.current = 0;
        self.last_roll = now;
        proof {
            assert(self@.slices =~= old(self)@.emptied(now).slices);
        }
    }
}

/// The ring with the `n` slices ahead of the one at `current` emptied.
closed spec fn cleared_ahead(ring: Seq<Bucket>, current: int, n: int) -> Seq<Bucket> {
    Seq::new(
        ring.len(),
        |j: int|
            if current < j <= current + n || j <= current + n - BUCKETS {
                Bucket::empty()
            } else {
                ring[j]
            },
    )
}

/// A response that arrived at time `at`.
pub struct Sample {
    pub at: nat,
    pub success: bool,
}

/// The number of the slice that covers `at`, when slice 0 begins at `origin`.
pub open spec fn slot(at: nat, width: nat, origin: nat) -> int {
    (at - origin) / width as int
}

/// The responses of a history that arrived in a given slice, as successes and total.
pub open spec fn count_in(history: Seq<Sample>, width: nat, origin: nat, which: int) -> (nat, nat)
    decreases history.len(),
{
    if history.len() == 0 {
        (0, 0)
    } else {
        let (s, t) = count_in(history.drop_last(), width, origin, which);
        let sample = history.last();
        if slot(sample.at, width, origin) == which {
            (s + if sample.success {
                1nat
            } else {
                0nat
            }, t + 1)
        } else {
            (s, t)
        }
    }
}

/// The responses of a history that arrived at `from` or later, as successes and total.
pub open spec fn count_since(history: Seq<Sample>, from: int) -> (nat, nat)
    decreases history.len(),
{
    if history.len() == 0 {
        (0, 0)
    } else {
        let (s, t) = count_since(history.drop_last(), from);
        let sample = history.last();
        if sample.at >= from {
            (s + if sample.success {
                1nat
            } else {
                0nat
            }, t + 1)
        } else {
            (s, t)
        }
    }
}

impl WindowView {
    /// The slices are counted from `origin`, and each holds exactly the responses of `history`
    /// that arrived in its span of time.
    pub open spec fn represents(self, history: Seq<Sample>, origin: nat) -> bool {
        &&& self.slices.len() == BUCKETS
        &&& self.width > 0
        &&& self.start >= origin
        &&& (self.start - origin) % (self.width as int) == 0
        &&& forall|i: int|
            0 <= i < history.len() ==> origin <= (#[trigger] history[i]).at < self.start
                + self.width
        &&& forall|age: int|
            0 <= age < BUCKETS ==> ((#[trigger] self.slices[age]).successes as nat,
                self.slices[age].total as nat) == count_in(
                history,
                self.width,
                origin,
                slot(self.start, self.width, origin) - age,
            )
    }
}

proof fn lemma_count_in_bounded(history: Seq<Sample>, width: nat, origin: nat, which: int)
    ensures
        count_in(history, width, origin, which).0 <= count_in(history, width, origin, which).1
            <= history.len(),
    decreases history.len(),
{
    if history.len() > 0 {
        lemma_count_in_bounded(history.drop_last(), width, origin, which);
    }
}

proof fn lemma_slots_bounded(history: Seq<Sample>, width: nat, origin: nat, which: int)
    requires
        forall|i: int|
            0 <= i < history.len() ==> slot((#[trigger] history[i]).at, width, origin) != which,
    ensures
        count_in(history, width, origin, which) == (0nat, 0nat),
    decreases history.len(),
{
    if history.len() > 0 {
        let rest = history.drop_last();
        assert forall|i: int| 0 <= i < rest.len() implies slot(
            (#[trigger] rest[i]).at,
            width,
            origin,
        ) != which by {
            assert(rest[i] == history[i]);
        }
        lemma_slots_bounded(rest, width, origin, which);
        assert(history.last() == history[history.len() - 1]);
    }
}

/// An empty window represents the empty history.
pub proof fn new_window_represents_nothing(w: WindowView, now: Instant)
    requires
        w.width > 0,
    ensures
        w.emptied(now).represents(Seq::empty(), now.nanos as nat),
{
    vstd::arithmetic::div_mod::lemma_small_mod(0, w.width);
}

proof fn lemma_slot_after_roll(start: int, width: int, origin: int, steps: int)
    requires
        width > 0,
        (start - origin) % width == 0,
    ensures
        (start + steps * width - origin) % width == 0,
        (start + steps * width - origin) / width == (start - origin) / width + steps,
{
    vstd::arithmetic::div_mod::lemma_fundamental_div_mod(start - origin, width);
    let q = (start - origin) / width;
    assert(start + steps * width - origin == (q + steps) * width) by (nonlinear_arith)
        requires
            start - origin == width * q,
    ;
    vstd::arithmetic::div_mod::lemma_fundamental_div_mod_converse(
        start + steps * width - origin,
        width,
        q + steps,
        0,
    );
}

/// The window counts exactly: whatever the spacing of responses in time, each slice holds the
/// responses of its own span, before and after one more response is recorded.
pub proof fn window_counts_exactly(
    w: WindowView,
    history: Seq<Sample>,
    origin: nat,
    success: bool,
    now: Instant,
)
    requires
        w.represents(history, origin),
        w.start <= now.nanos,
        history.len() < u32::MAX,
    ensures
        w.recorded(success, now).represents(
            history.push(Sample { at: now.nanos as nat, success }),
            origin,
        ),
{
    let steps = w.steps(now);
    let width = w.width as int;
    let r = w.rolled(now);
    let after = w.recorded(success, now);
    let sample = Sample { at: now.nanos as nat, success };
    let longer = history.push(sample);
    let base = slot(w.start, w.width, origin);
    lemma_slot_after_roll(w.start as int, width, origin as int, steps as int);
    let top = slot(r.start, w.width, origin);
    assert(top == base + steps);
    vstd::arithmetic::div_mod::lemma_fundamental_div_mod(now.nanos - w.start, width);
    vstd::arithmetic::div_mod::lemma_mod_bound(now.nanos - w.start, width);
    assert(r.start <= now.nanos < r.start + w.width) by (nonlinear_arith)
        requires
            now.nanos - w.start == width * steps + (now.nanos - w.start) % width,
            0 <= (now.nanos - w.start) % width < width,
            r.start == w.start + steps * w.width,
            width == w.width,
    ;
    // The new response falls in the present slice.
    let within = now.nanos - r.start;
    vstd::arithmetic::div_mod::lemma_fundamental_div_mod(r.start - origin, width);
    assert(now.nanos - origin == top * width + within) by (nonlinear_arith)
        requires
            r.start - origin == width * top + 0,
            within == now.nanos - r.start,
    ;
    vstd::arithmetic::div_mod::lemma_fundamental_div_mod_converse(
        now.nanos - origin,
        width,
        top,
        within,
    );
    assert(slot(sample.at, w.width, origin) == top);
    // Earlier responses fall in slices no younger than the one that was present before.
    assert forall|i: int| 0 <= i < history.len() implies slot(
        (#[trigger] history[i]).at,
        w.width,
        origin,
    ) <= base by {
        let d = history[i].at - origin;
        vstd::arithmetic::div_mod::lemma_fundamental_div_mod(w.start - origin, width);
        vstd::arithmetic::div_mod::lemma_fundamental_div_mod(d, width);
        vstd::arithmetic::div_mod::lemma_mod_bound(d, width);
        assert(d / width <= base) by (nonlinear_arith)
            requires
                d < (w.start - origin) + width,
                w.start - origin == width * base + 0,
                d == width * (d / width) + d % width,
                0 <= d % width,
                width > 0,
        ;
    }
    assert(longer.drop_last() =~= history);
    assert forall|age: int| 0 <= age < BUCKETS implies ((
    #[trigger] after.slices[age]).successes as nat, after.slices[age].total as nat) == count_in(
        longer,
        w.width,
        origin,
        top - age,
    ) by {
        lemma_count_in_bounded(history, w.width, origin, top - age);
        if age < steps {
            lemma_slots_bounded(history, w.width, origin, top - age);
        } else {
            assert(w.slices[age - steps].total as nat == count_in(
                history,
                w.width,
                origin,
                base - (age - steps),
            ).1);
        }
    }
    assert forall|i: int| 0 <= i < longer.len() implies origin <= (#[trigger] longer[i]).at
        < after.start + after.width by {
        if i < history.len() {
            assert(longer[i] == history[i]);
            assert(r.start >= w.start) by (nonlinear_arith)
                requires
                    r.start == w.start + steps * w.width,
            ;
        }
    }
}

proof fn lemma_sums_update(slices: Seq<Bucket>, i: int, b: Bucket)
    requires
        0 <= i < slices.len(),
    ensures
        sums(slices.update(i, b)).0 + slices[i].successes == sums(slices).0 + b.successes,
        sums(slices.update(i, b)).1 + slices[i].total == sums(slices).1 + b.total,
    decreases slices.len(),
{
    let last = slices.len() - 1;
    if i < last {
        lemma_sums_update(slices.drop_last(), i, b);
        assert(slices.update(i, b).drop_last() =~= slices.drop_last().update(i, b));
        assert(slices.update(i, b).last() == slices.last());
    } else {
        assert(slices.update(i, b).drop_last() =~= slices.drop_last());
    }
}

proof fn lemma_sums_empty(slices: Seq<Bucket>)
    requires
        forall|i: int| 0 <= i < slices.len() ==> (#[trigger] slices[i]) == Bucket::empty(),
    ensures
        sums(slices) == (0nat, 0nat),
    decreases slices.len(),
{
    if slices.len() > 0 {
        let rest = slices.drop_last();
        assert forall|i: int| 0 <= i < rest.len() implies (#[trigger] rest[i])
            == Bucket::empty() by {
            assert(rest[i] == slices[i]);
        }
        lemma_sums_empty(rest);
        assert(slices.last() == slices[slices.len() - 1]);
    }
}

/// The sums over the window are the counts of exactly those responses that arrived no earlier than
/// nine widths before the present slice began. Nothing else about their timing matters.
pub proof fn sums_count_live_responses(w: WindowView, history: Seq<Sample>, origin: nat)
    requires
        w.represents(history, origin),
        history.len() <= u32::MAX,
    ensures
        sums(w.slices) == count_since(history, w.start - (BUCKETS - 1) * w.width),
    decreases history.len(),
{
    let from = w.start - (BUCKETS - 1) * w.width;
    let width = w.width as int;
    let top = slot(w.start, w.width, origin);
    if history.len() == 0 {
        assert forall|i: int| 0 <= i < w.slices.len() implies (#[trigger] w.slices[i])
            == Bucket::empty() by {
            assert(count_in(history, w.width, origin, top - i) == (0nat, 0nat));
        }
        lemma_sums_empty(w.slices);
    } else {
        let rest = history.drop_last();
        let sample = history.last();
        assert(sample == history[history.len() - 1]);
        let which = slot(sample.at, w.width, origin);
        let age = top - which;
        let d = sample.at - origin;
        vstd::arithmetic::div_mod::lemma_fundamental_div_mod(w.start - origin, width);
        vstd::arithmetic::div_mod::lemma_fundamental_div_mod(d, width);
        vstd::arithmetic::div_mod::lemma_mod_bound(d, width);
        assert(age >= 0 && (age < BUCKETS <==> sample.at >= from)) by (nonlinear_arith)
            requires
                d < (w.start - origin) + width,
                w.start - origin == width * top + 0,
                d == width * which + d % width,
                0 <= d % width < width,
                age == top - which,
                d == sample.at - origin,
                width == w.width,
                from == w.start - (BUCKETS - 1) * width,
                BUCKETS == 10,
        ;
        let fewer = |a: int|
            {
                let c = count_in(rest, w.width, origin, top - a);
                Bucket { successes: c.0 as u32, total: c.1 as u32 }
            };
        let before = WindowView { slices: Seq::new(BUCKETS as nat, fewer), ..w };
        assert forall|a: int| 0 <= a < BUCKETS implies ((
        #[trigger] before.slices[a]).successes as nat, before.slices[a].total as nat) == count_in(
            rest,
            w.width,
            origin,
            top - a,
        ) by {
            lemma_count_in_bounded(rest, w.width, origin, top - a);
        }
        assert forall|i: int| 0 <= i < rest.len() implies origin <= (#[trigger] rest[i]).at
            < before.start + before.width by {
            assert(rest[i] == history[i]);
        }
        sums_count_live_responses(before, rest, origin);
        if age < BUCKETS {
            assert forall|a: int| 0 <= a < BUCKETS && a != age implies #[trigger] w.slices[a]
                == before.slices[a] by {
                let c = count_in(history, w.width, origin, top - a);
                assert(c == count_in(rest, w.width, origin, top - a));
                assert((w.slices[a].successes as nat, w.slices[a].total as nat) == c);
                assert((before.slices[a].successes as nat, before.slices[a].total as nat) == c);
            }
            assert(w.slices =~= before.slices.update(age, w.slices[age]));
            lemma_sums_update(before.slices, age, w.slices[age]);
            assert(w.slices[age].total as nat == count_in(history, w.width, origin, which).1);
            assert(before.slices[age].total as nat == count_in(rest, w.width, origin, which).1);
        } else {
            assert forall|a: int| 0 <= a < BUCKETS implies #[trigger] w.slices[a]
                == before.slices[a] by {
                let c = count_in(history, w.width, origin, top - a);
                assert(c == count_in(rest, w.width, origin, top - a));
                assert((w.slices[a].successes as nat, w.slices[a].total as nat) == c);
                assert((before.slices[a].successes as nat, before.slices[a].total as nat) == c);
            }
            assert(w.slices =~= before.slices);
        }
    }
}

/// The outcomes of a history, without their times.
pub open spec fn outcomes(history: Seq<Sample>) -> Seq<bool> {
    history.map_values(|s: Sample| s.success)
}

proof fn lemma_same_outcomes_same_counts(a: Seq<Sample>, from_a: int, b: Seq<Sample>, from_b: int)
    requires
        outcomes(a) == outcomes(b),
        forall|i: int| 0 <= i < a.len() ==> (#[trigger] a[i]).at >= from_a,
        forall|i: int| 0 <= i < b.len() ==> (#[trigger] b[i]).at >= from_b,
    ensures
        count_since(a, from_a) == count_since(b, from_b),
    decreases a.len(),
{
    assert(outcomes(a).len() == a.len());
    assert(outcomes(b).len() == b.len());
    if a.len() > 0 {
        let last = a.len() - 1;
        assert(a[last].success == outcomes(a)[last]);
        assert(b[last].success == outcomes(b)[last]);
        assert(a.last() == a[last] && b.last() == b[last]);
        assert(outcomes(a.drop_last()) =~= outcomes(a).drop_last());
        assert(outcomes(b.drop_last()) =~= outcomes(b).drop_last());
        assert forall|i: int| 0 <= i < last implies (#[trigger] a.drop_last()[i]).at >= from_a by {
            assert(a.drop_last()[i] == a[i]);
        }
        assert forall|i: int| 0 <= i < last implies (#[trigger] b.drop_last()[i]).at >= from_b by {
            assert(b.drop_last()[i] == b[i]);
        }
        lemma_same_outcomes_same_counts(a.drop_last(), from_a, b.drop_last(), from_b);
    }
}

/// The decision does not depend on the rate of requests: two windows that saw the same outcomes in
/// the same order, all of them still live, decide alike, however the responses were spaced.
pub proof fn decision_is_independent_of_rate(
    fast: WindowView,
    fast_history: Seq<Sample>,
    fast_origin: nat,
    slow: WindowView,
    slow_history: Seq<Sample>,
    slow_origin: nat,
    min_requests: nat,
    threshold: nat,
)
    requires
        fast.represents(fast_history, fast_origin),
        slow.represents(slow_history, slow_origin),
        fast_history.len() <= u32::MAX,
        outcomes(fast_history) == outcomes(slow_history),
        forall|i: int|
            0 <= i < fast_history.len() ==> (#[trigger] fast_history[i]).at >= fast.start - (BUCKETS
                - 1) * fast.width,
        forall|i: int|
            0 <= i < slow_history.len() ==> (#[trigger] slow_history[i]).at >= slow.start - (BUCKETS
                - 1) * slow.width,
    ensures
        sums(fast.slices) == sums(slow.slices),
        fast.trips(min_requests, threshold) == slow.trips(min_requests, threshold),
{
    assert(outcomes(fast_history).len() == fast_history.len());
    assert(outcomes(slow_history).len() == slow_history.len());
    sums_count_live_responses(fast, fast_history, fast_origin);
    sums_count_live_responses(slow, slow_history, slow_origin);
    lemma_same_outcomes_same_counts(
        fast_history,
        fast.start - (BUCKETS - 1) * fast.width,
        slow_history,
        slow.start - (BUCKETS - 1) * slow.width,
    );
}

/// After a gap of a whole window nothing recorded before it counts any more: one more response is
/// then the only one in the window.
pub proof fn gap_clears_window(w: WindowView, success: bool, now: Instant)
    requires
        w.slices.len() == BUCKETS,
        w.width > 0,
        now.nanos >= w.start + BUCKETS * w.width,
    ensures
        sums(w.rolled(now).slices) == (0nat, 0nat),
        sums(w.recorded(success, now).slices) == (if success {
            1nat
        } else {
            0nat
        }, 1nat),
{
    let gap = now.nanos - w.start;
    let width = w.width as int;
    vstd::arithmetic::div_mod::lemma_fundamental_div_mod(gap, width);
    vstd::arithmetic::div_mod::lemma_mod_bound(gap, width);
    assert(w.steps(now) >= BUCKETS) by (nonlinear_arith)
        requires
            w.steps(now) == gap / width,
            gap == width * (gap / width) + gap % width,
            gap % width < width,
            gap >= BUCKETS * width,
            width > 0,
    ;
    let slices = w.rolled(now).slices;
    assert forall|i: int| 0 <= i < slices.len() implies (#[trigger] slices[i])
        == Bucket::empty() by {}
    lemma_sums_empty(slices);
    lemma_sums_update(slices, 0, slices[0].with_sample(success));
}

/// A window that was reset holds no responses and cannot trip, whatever the floor and threshold.
pub proof fn reset_window_cannot_trip(
    w: WindowView,
    now: Instant,
    min_requests: nat,
    threshold: nat,
)
    ensures
        sums(w.emptied(now).slices) == (0nat, 0nat),
        !w.emptied(now).trips(min_requests, threshold),
{
    lemma_sums_empty(w.emptied(now).slices);
}

proof fn lemma_sums_bounded(slices: Seq<Bucket>)
    ensures
        sums(slices).1 <= slices.len() * u32::MAX,
    decreases slices.len(),
{
    if slices.len() > 0 {
        lemma_sums_bounded(slices.drop_last());
        let n = slices.len() as int;
        assert((n - 1) * u32::MAX + u32::MAX == n * u32::MAX) by (nonlinear_arith);
    }
}

/// A floor above what the slices can count keeps the window from ever tripping.
pub proof fn unreachable_floor_never_trips(w: WindowView, min_requests: nat, threshold: nat)
    requires
        w.slices.len() == BUCKETS,
        min_requests > BUCKETS * u32::MAX,
    ensures
        !w.trips(min_requests, threshold),
{
    lemma_sums_bounded(w.slices);
}

/// The slices together span exactly the window that was asked for, when that is no shorter than
/// the shortest one and divides evenly into slices.
pub proof fn realized_window_is_configured_window(window: Duration)
    requires
        window.nanos >= MIN_WINDOW,
        window.nanos % (BUCKETS as u128) == 0,
    ensures
        width_of(window) * BUCKETS == window.nanos,
{
}

/// A floor of zero acts like a floor of one: without responses nothing trips.
pub proof fn zero_floor_is_floor_of_one(w: WindowView, threshold: nat)
    ensures
        w.trips(0, threshold) == w.trips(1, threshold),
{
}

/// With the highest threshold a single response that is no success trips, once the floor is met.
pub proof fn full_threshold_tolerates_nothing(w: WindowView, min_requests: nat)
    ensures
        w.trips(min_requests, FULL_RATIO as nat) <==> {
            &&& sums(w.slices).1 > 0
            &&& sums(w.slices).1 >= min_requests
            &&& sums(w.slices).0 < sums(w.slices).1
        },
{
}

/// The decision is on the exact ratio: with the responses of a history, a window trips exactly if
/// there is one that is live, there are as many live ones as the floor asks for, and fewer than
/// `threshold` in ten thousand of them are successes.
pub proof fn live_ratio_decides(
    w: WindowView,
    history: Seq<Sample>,
    origin: nat,
    min_requests: nat,
    threshold: nat,
)
    requires
        w.represents(history, origin),
        history.len() <= u32::MAX,
    ensures
        w.trips(min_requests, threshold) <==> {
            let (successes, total) = count_since(history, w.start - 9 * w.width);
            &&& total >= 1
            &&& total >= min_requests
            &&& successes * 10_000 < threshold * total
        },
{
    sums_count_live_responses(w, history, origin);
}

/// A window is no shorter than ten milliseconds, and otherwise at most nine nanoseconds shorter than
/// the one that was asked for.
pub proof fn slices_span_the_window(window: Duration)
    ensures
        window.nanos <= 10_000_000 ==> width_of(window) == 1_000_000,
        window.nanos >= 10_000_000 ==> width_of(window) * 10 <= window.nanos < width_of(window) * 10
            + 10,
{
}

/// A slice counts each response once, and successes apart, until it is full.
pub proof fn slice_counts_each_response(b: Bucket, success: bool)
    ensures
        b.total < u32::MAX ==> b.with_sample(success).total == b.total + 1,
        b.successes < u32::MAX ==> b.with_sample(true).successes == b.successes + 1,
        b.with_sample(false).successes == b.successes,
        Bucket::empty().total == 0 && Bucket::empty().successes == 0,
{
}

} // verus!
