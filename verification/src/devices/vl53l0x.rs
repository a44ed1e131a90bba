//! VL53L0X time-of-flight ranging sensor (I²C 0x29): identity registers, the reference-SPAD
//! selection of its init sequence, and the coarse approach/recede classifier the supervisor uses
//! for wake-on-approach.
use vstd::prelude::*;
use crate::devices::error::Error;

verus! {

/// A range at or above this (mm) means "no target in the cone".
pub const NO_TARGET_MM: u16 = 2000;

/// Coarse attention classification from a short range history.
#[derive(Debug, Clone, Copy, PartialEq, Eq, Structural)]
pub enum Attention {
    NoTarget,
    Approaching,
    Receding,
    Stationary,
}

/// Sum of a run of ranges.
pub open spec fn range_sum(s: Seq<u16>) -> int
    decreases s.len(),
{
    if s.len() == 0 {
        0
    } else {
        range_sum(s.drop_last()) + s.last() as int
    }
}

/// The classification of a chronological range history (oldest first): compare the mean of the
/// older half with the mean of the newer half.
pub open spec fn classify_history(h: Seq<u16>, hysteresis_mm: u16) -> Attention {
    if h.len() == 0 {
        Attention::NoTarget
    } else if h.len() < 4 {
        Attention::Stationary
    } else {
        let half = h.len() / 2;
        let older_avg = range_sum(h.take(half as int)) / (half as int);
        let newer_avg = range_sum(h.skip(half as int)) / ((h.len() - half) as int);
        let delta = newer_avg - older_avg;
        if delta <= -(hysteresis_mm as int) {
            Attention::Approaching
        } else if delta >= hysteresis_mm as int {
            Attention::Receding
        } else {
            Attention::Stationary
        }
    }
}

proof fn lemma_range_sum_nonneg(s: Seq<u16>)
    ensures
        0 <= range_sum(s) <= 65535 * s.len(),
    decreases s.len(),
{
    if s.len() > 0 {
        lemma_range_sum_nonneg(s.drop_last());
    }
}

proof fn lemma_sum_at_least(s: Seq<u16>, c: int)
    requires
        forall|i: int| 0 <= i < s.len() ==> s[i] as int >= c,
    ensures
        range_sum(s) >= c * s.len(),
    decreases s.len(),
{
    if s.len() > 0 {
        let n = s.len() as int;
        assert forall|i: int| 0 <= i < s.drop_last().len() implies s.drop_last()[i] as int >= c by {
            assert(s.drop_last()[i] == s[i]);
        }
        lemma_sum_at_least(s.drop_last(), c);
        assert(s.last() as int >= c) by { assert(s.last() == s[n - 1]); }
        assert(c * (n - 1) + c == c * n) by (nonlinear_arith);
    }
}

proof fn lemma_sum_at_most(s: Seq<u16>, d: int)
    requires
        forall|i: int| 0 <= i < s.len() ==> s[i] as int <= d,
    ensures
        range_sum(s) <= d * s.len(),
    decreases s.len(),
{
    if s.len() > 0 {
        let n = s.len() as int;
        assert forall|i: int| 0 <= i < s.drop_last().len() implies s.drop_last()[i] as int <= d by {
            assert(s.drop_last()[i] == s[i]);
        }
        lemma_sum_at_most(s.drop_last(), d);
        assert(s.last() as int <= d) by { assert(s.last() == s[n - 1]); }
        assert(d * (n - 1) + d == d * n) by (nonlinear_arith);
    }
}

/// The integer mean of a run whose samples all lie in `[lo, hi]` lies in `[lo, hi]` too.
proof fn lemma_mean_between(s: Seq<u16>, lo: int, hi: int)
    requires
        s.len() > 0,
        forall|i: int| 0 <= i < s.len() ==> lo <= (#[trigger] s[i] as int) && (s[i] as int) <= hi,
    ensures
        lo <= range_sum(s) / (s.len() as int) <= hi,
{
    lemma_sum_at_least(s, lo);
    lemma_sum_at_most(s, hi);
    let n = s.len() as int;
    let t = range_sum(s);
    assert(lo <= t / n <= hi) by (nonlinear_arith)
        requires n > 0, t >= lo * n, t <= hi * n;
}

/// The older half and the newer half of a window, as the trend compares them.
proof fn lemma_halves(h: Seq<u16>, lo_old: int, hi_old: int, lo_new: int, hi_new: int)
    requires
        h.len() >= 4,
        forall|i: int| 0 <= i < h.len() / 2 ==> lo_old <= (#[trigger] h[i] as int) && (h[i] as int) <= hi_old,
        forall|i: int| h.len() / 2 <= i < h.len() ==> lo_new <= (#[trigger] h[i] as int) && (h[i] as int) <= hi_new,
    ensures
        ({
            let half = h.len() / 2;
            let older_avg = range_sum(h.take(half as int)) / (half as int);
            let newer_avg = range_sum(h.skip(half as int)) / ((h.len() - half) as int);
            &&& lo_old <= older_avg <= hi_old
            &&& lo_new <= newer_avg <= hi_new
        }),
{
    let half = (h.len() / 2) as int;
    let older = h.take(half);
    let newer = h.skip(half);
    assert forall|i: int| 0 <= i < older.len() implies lo_old <= (older[i] as int) && (older[i] as int) <= hi_old by {
        assert(older[i] == h[i]);
    }
    assert forall|i: int| 0 <= i < newer.len() implies lo_new <= (newer[i] as int) && (newer[i] as int) <= hi_new by {
        assert(newer[i] == h[half + i]);
    }
    lemma_mean_between(older, lo_old, hi_old);
    lemma_mean_between(newer, lo_new, hi_new);
}

/// The integer mean (rounded down) of a run of ranges.
pub open spec fn mean_mm(s: Seq<u16>) -> int {
    s.fold_left(0int, |acc: int, x: u16| acc + x) / (s.len() as int)
}

proof fn lemma_sum_is_fold(s: Seq<u16>)
    ensures
        range_sum(s) == s.fold_left(0int, |acc: int, x: u16| acc + x),
    decreases s.len(),
{
    if s.len() > 0 {
        lemma_sum_is_fold(s.drop_last());
    }
}

/// The trend of a window of at least four samples compares the means of its two halves: the
/// older half is the first `len / 2` samples, the newer half the rest; a newer mean lower by at
/// least the hysteresis is an approach, higher by at least the hysteresis a recession, anything
/// in between stationary.
pub proof fn trend_compares_half_means(h: Seq<u16>, hysteresis_mm: u16)
    requires
        h.len() >= 4,
    ensures
        ({
            let k = (h.len() / 2) as int;
            let d = mean_mm(h.subrange(k, h.len() as int)) - mean_mm(h.subrange(0, k));
            classify_history(h, hysteresis_mm) == (if d <= -(hysteresis_mm as int) {
                Attention::Approaching
            } else if d >= hysteresis_mm as int {
                Attention::Receding
            } else {
                Attention::Stationary
            })
        }),
{
    let k = (h.len() / 2) as int;
    assert(h.take(k) =~= h.subrange(0, k));
    assert(h.skip(k) =~= h.subrange(k, h.len() as int));
    lemma_sum_is_fold(h.take(k));
    lemma_sum_is_fold(h.skip(k));
}

/// An approach is seen: when every sample of the newer half of a window of at least four lies
/// at least the hysteresis below every sample of the older half (all of them at or above `c`,
/// the newer ones at or below `c - hysteresis`), the window is classified `Approaching`,
/// whatever its length.
pub proof fn approach_is_seen(h: Seq<u16>, hysteresis_mm: u16, c: int)
    requires
        h.len() >= 4,
        forall|i: int| 0 <= i < h.len() / 2 ==> #[trigger] h[i] as int >= c,
        forall|i: int| h.len() / 2 <= i < h.len() ==> #[trigger] h[i] as int + hysteresis_mm <= c,
    ensures
        classify_history(h, hysteresis_mm) == Attention::Approaching,
{
    lemma_halves(h, c, 65535, 0, c - hysteresis_mm);
}

/// A recession is seen: when every sample of the newer half lies at least the (nonzero)
/// hysteresis above every sample of the older half, the window is classified `Receding`.
pub proof fn recession_is_seen(h: Seq<u16>, hysteresis_mm: u16, c: int)
    requires
        h.len() >= 4,
        hysteresis_mm > 0,
        forall|i: int| 0 <= i < h.len() / 2 ==> #[trigger] h[i] as int <= c,
        forall|i: int| h.len() / 2 <= i < h.len() ==> #[trigger] h[i] as int >= c + hysteresis_mm,
    ensures
        classify_history(h, hysteresis_mm) == Attention::Receding,
{
    lemma_halves(h, 0, c, c + hysteresis_mm, 65535);
}

/// A target holding still is seen: when every sample of a window of at least four lies within a
/// band narrower than the (nonzero) hysteresis, the window is classified `Stationary`.
pub proof fn stillness_is_seen(h: Seq<u16>, hysteresis_mm: u16, c: int)
    requires
        h.len() >= 4,
        hysteresis_mm > 0,
        forall|i: int| 0 <= i < h.len() ==> c <= (#[trigger] h[i] as int) && (h[i] as int) < c + hysteresis_mm,
    ensures
        classify_history(h, hysteresis_mm) == Attention::Stationary,
{
    lemma_halves(h, c, c + hysteresis_mm - 1, c, c + hysteresis_mm - 1);
}

/// The history after feeding `mm`: a no-target reading clears it; otherwise `mm` is appended and
/// only the newest eight samples are kept.
pub open spec fn pushed_history(h: Seq<u16>, mm: u16) -> Seq<u16> {
    if mm >= NO_TARGET_MM {
        Seq::empty()
    } else if h.len() < 8 {
        h.push(mm)
    } else {
        h.push(mm).skip(h.len() + 1 - 8)
    }
}

/// Tracks recent ranges (a fixed eight-sample ring) to classify approach / recede / threshold.
pub struct RangeTracker {
    samples: [u16; 8],
    len: usize,
    head: usize,
    /// "Near" threshold in mm.
    pub near_mm: u16,
    /// Trend hysteresis in mm: a mean change below this is stationary.
    pub hysteresis_mm: u16,
}

impl RangeTracker {
    /// The ring's internal consistency.
    pub closed spec fn wf(&self) -> bool {
        &&& self.len <= 8
        &&& self.head < 8
    }

    /// The tracked ranges, oldest first.
    pub closed spec fn history(&self) -> Seq<u16> {
        Seq::new(self.len as nat, |k: int| self.samples@[(self.head + 8 - self.len + k) % 8])
    }

    /// The near threshold (mm): the field `near_mm`.
    pub closed spec fn near_threshold(&self) -> u16 {
        self.near_mm
    }

    /// The trend hysteresis (mm): the field `hysteresis_mm`.
    pub closed spec fn hysteresis(&self) -> u16 {
        self.hysteresis_mm
    }

    /// An empty tracker with the given near threshold and trend hysteresis.
    pub fn new(near_mm: u16, hysteresis_mm: u16) -> (t: Self)
        ensures
            t.wf(),
            t.history() == Seq::<u16>::empty(),
            t.near_threshold() == near_mm,
            t.hysteresis() == hysteresis_mm,
    {
        RangeTracker { samples: [0u16; 8], len: 0, head: 0, near_mm, hysteresis_mm }
    }

    /// Feed a fresh range (mm). A no-target reading resets the history.
    pub fn push(&mut self, mm: u16)
        requires
            old(self).wf(),
        ensures
            final(self).wf(),
            final(self).history() == pushed_history(old(self).history(), mm),
            final(self).near_threshold() == old(self).near_threshold(),
            final(self).hysteresis() == old(self).hysteresis(),
    {
        if mm >= NO_TARGET_MM {
            self.len = 0;
            self.head = 0;
            assert(self.history() =~= pushed_history(old(self).history(), mm));
            return;
        }
        let ghost h0 = old(self).history();
        self.samples[self.head] = mm;
        self.head = (self.head + 1) % 8;
        if self.len < 8 {
            self.len = self.len + 1;
        }
        assert(self.history() =~= pushed_history(h0, mm));
    }
    /// The sample `k` places after the oldest one.
    fn at(&self, k: usize) -> (v: u16)
        requires
            self.wf(),
            k < self.len,
        ensures
            v == self.history()[k as int],
    {
        self.samples[(self.head + 8 - self.len + k) % 8]
    }

    /// Classify the current trend: compare the mean of the older half of the window with the
    /// mean of the newer half.
    pub fn classify(&self) -> (a: Attention)
        requires
            self.wf(),
        ensures
            a == classify_history(self.history(), self.hysteresis()),
    {
        if self.len == 0 {
            return Attention::NoTarget;
        }
        if self.len < 4 {
            return Attention::Stationary;
        }
        let ghost h = self.history();
        let half = self.len / 2;
        let mut older: i32 = 0;
        let mut k: usize = 0;
        while k < half
            invariant
                self.wf(),
                h == self.history(),
                half == self.len / 2,
                4 <= self.len,
                k <= half,
                older as int == range_sum(h.take(k as int)),
                older as int <= 65535 * k,
            decreases half - k,
        {
            assert(h.take(k + 1).drop_last() =~= h.take(k as int));
            older = older + self.at(k) as i32;
            k = k + 1;
        }
        let mut newer: i32 = 0;
        let mut k: usize = half;
        while k < self.len
            invariant
                self.wf(),
                h == self.history(),
                half == self.len / 2,
                4 <= self.len,
                half <= k <= self.len,
                newer as int == range_sum(h.subrange(half as int, k as int)),
                newer as int <= 65535 * (k - half),
            decreases self.len - k,
        {
            assert(h.subrange(half as int, k + 1).drop_last() =~= h.subrange(half as int, k as int));
            newer = newer + self.at(k) as i32;
            k = k + 1;
        }
        proof {
            assert(h.skip(half as int) =~= h.subrange(half as int, self.len as int));
            lemma_range_sum_nonneg(h.take(half as int));
            lemma_range_sum_nonneg(h.skip(half as int));
        }
        let older_avg = older / half as i32;
        let newer_avg = newer / (self.len - half) as i32;
        let delta = newer_avg - older_avg;
        if delta <= -(self.hysteresis_mm as i32) {
            Attention::Approaching
        } else if delta >= self.hysteresis_mm as i32 {
            Attention::Receding
        } else {
            Attention::Stationary
        }
    }

    /// The most recent range (mm), or `None` when no target is tracked.
    pub fn last(&self) -> (r: Option<u16>)
        requires
            self.wf(),
        ensures
            r == (if self.history().len() == 0 { None } else { Some(self.history().last()) }),
    {
        if self.len == 0 {
            None
        } else {
            Some(self.samples[(self.head + 8 - 1) % 8])
        }
    }

    /// Is the tracked target within the near threshold?
    pub fn is_near(&self) -> (b: bool)
        requires
            self.wf(),
        ensures
            b == (self.history().len() > 0 && self.history().last() < self.near_threshold()),
    {
        match self.last() {
            Some(mm) => mm < self.near_mm,
            None => false,
        }
    }
}

/// A no-target reading clears the tracked history, so the tracker then reports no target and
/// a later re-entry starts a fresh trend.
pub proof fn no_target_resets_tracking(h: Seq<u16>, mm: u16, hysteresis_mm: u16)
    requires
        mm >= NO_TARGET_MM,
    ensures
        pushed_history(h, mm).len() == 0,
        classify_history(pushed_history(h, mm), hysteresis_mm) == Attention::NoTarget,
{
}

/// Feeding an in-range reading makes it the most recent range, and the window never holds more
/// than eight samples.
pub proof fn push_then_last(h: Seq<u16>, mm: u16)
    requires
        mm < NO_TARGET_MM,
        h.len() <= 8,
    ensures
        pushed_history(h, mm).len() == (if h.len() < 8 { h.len() + 1 } else { 8 }),
        pushed_history(h, mm).last() == mm,
{
}

/// The tracker's history after feeding `pushes` one by one into a fresh tracker.
pub open spec fn history_of(pushes: Seq<u16>) -> Seq<u16>
    decreases pushes.len(),
{
    if pushes.len() == 0 {
        Seq::empty()
    } else {
        pushed_history(history_of(pushes.drop_last()), pushes.last())
    }
}

/// After any run of pushes into a fresh tracker, the latest range is the latest push when that
/// push was in range, and there is none when nothing was pushed or the latest push was a
/// no-target reading; the window never holds more than eight samples.
pub proof fn last_is_latest_push(pushes: Seq<u16>)
    ensures
        history_of(pushes).len() <= 8,
        (history_of(pushes).len() == 0) <==> (pushes.len() == 0 || pushes.last() >= NO_TARGET_MM),
        history_of(pushes).len() > 0 ==> history_of(pushes).last() == pushes.last(),
    decreases pushes.len(),
{
    if pushes.len() > 0 {
        last_is_latest_push(pushes.drop_last());
        if pushes.last() < NO_TARGET_MM {
            push_then_last(history_of(pushes.drop_last()), pushes.last());
        }
    }
}

/// Every range shifted by `c`.
pub open spec fn shifted(h: Seq<u16>, c: int) -> Seq<u16> {
    h.map_values(|x: u16| (x + c) as u16)
}

proof fn lemma_range_sum_shifted(h: Seq<u16>, c: int)
    requires
        forall|i: int| 0 <= i < h.len() ==> 0 <= #[trigger] h[i] + c <= 65535,
    ensures
        range_sum(shifted(h, c)) == range_sum(h) + c * h.len(),
    decreases h.len(),
{
    if h.len() > 0 {
        assert(shifted(h, c).drop_last() =~= shifted(h.drop_last(), c));
        lemma_range_sum_shifted(h.drop_last(), c);
        assert(c * h.len() == c * (h.len() - 1) + c) by (nonlinear_arith);
    }
}

proof fn lemma_mean_shifted(a: int, n: int, c: int)
    requires
        n > 0,
    ensures
        (a + c * n) / n == a / n + c,
{
    vstd::arithmetic::div_mod::lemma_fundamental_div_mod(a, n);
    assert(a + c * n == (a / n + c) * n + a % n) by (nonlinear_arith)
        requires a == n * (a / n) + a % n;
    vstd::arithmetic::div_mod::lemma_fundamental_div_mod_converse(a + c * n, n, a / n + c, a % n);
}

proof fn lemma_classify_shifted(h: Seq<u16>, c: int, hysteresis_mm: u16)
    requires
        forall|i: int| 0 <= i < h.len() ==> 0 <= #[trigger] h[i] + c <= 65535,
    ensures
        classify_history(shifted(h, c), hysteresis_mm) == classify_history(h, hysteresis_mm),
{
    if h.len() >= 4 {
        let half = h.len() / 2;
        let g = shifted(h, c);
        assert(g.take(half as int) =~= shifted(h.take(half as int), c));
        assert(g.skip(half as int) =~= shifted(h.skip(half as int), c));
        assert forall|i: int| 0 <= i < h.take(half as int).len() implies
            0 <= #[trigger] h.take(half as int)[i] + c <= 65535 by {
            assert(h.take(half as int)[i] == h[i]);
        }
        assert forall|i: int| 0 <= i < h.skip(half as int).len() implies
            0 <= #[trigger] h.skip(half as int)[i] + c <= 65535 by {
            assert(h.skip(half as int)[i] == h[i + half]);
        }
        lemma_range_sum_shifted(h.take(half as int), c);
        lemma_range_sum_shifted(h.skip(half as int), c);
        lemma_mean_shifted(range_sum(h.take(half as int)), half as int, c);
        lemma_mean_shifted(range_sum(h.skip(half as int)), (h.len() - half) as int, c);
    }
}

proof fn lemma_history_shifted(pushes: Seq<u16>, c: int)
    requires
        forall|i: int| 0 <= i < pushes.len() ==> #[trigger] pushes[i] < NO_TARGET_MM
            && 0 <= pushes[i] + c < NO_TARGET_MM,
    ensures
        history_of(shifted(pushes, c)) == shifted(history_of(pushes), c),
        forall|i: int| 0 <= i < history_of(pushes).len() ==> 0 <= #[trigger] history_of(pushes)[i] + c
            < NO_TARGET_MM,
    decreases pushes.len(),
{
    if pushes.len() > 0 {
        let p = pushes.drop_last();
        assert(shifted(pushes, c).drop_last() =~= shifted(p, c));
        assert forall|i: int| 0 <= i < p.len() implies #[trigger] p[i] < NO_TARGET_MM
            && 0 <= p[i] + c < NO_TARGET_MM by {
            assert(p[i] == pushes[i]);
        }
        lemma_history_shifted(p, c);
        let h = history_of(p);
        let x = pushes.last();
        assert(shifted(pushes, c).last() == (x + c) as u16);
        assert(h.push(x).len() == h.len() + 1);
        assert(shifted(h, c).push((x + c) as u16) =~= shifted(h.push(x), c));
        if h.len() >= 8 {
            assert(shifted(h, c).push((x + c) as u16).skip(h.len() + 1 - 8)
                =~= shifted(h.push(x).skip(h.len() + 1 - 8), c));
        }
    }
}

/// The trend is shift-invariant: shifting every in-range reading of a run by the same
/// amount (keeping them in range) leaves every classification unchanged, since both half-means
/// move by exactly that amount.
pub proof fn trend_is_shift_invariant(pushes: Seq<u16>, c: int, hysteresis_mm: u16)
    requires
        forall|i: int| 0 <= i < pushes.len() ==> #[trigger] pushes[i] < NO_TARGET_MM
            && 0 <= pushes[i] + c < NO_TARGET_MM,
    ensures
        classify_history(history_of(shifted(pushes, c)), hysteresis_mm)
            == classify_history(history_of(pushes), hysteresis_mm),
{
    lemma_history_shifted(pushes, c);
    lemma_classify_shifted(history_of(pushes), c, hysteresis_mm);
}

proof fn lemma_range_sum_constant(s: Seq<u16>, c: u16)
    requires
        forall|i: int| 0 <= i < s.len() ==> s[i] == c,
    ensures
        range_sum(s) == (c as int) * (s.len() as int),
    decreases s.len(),
{
    if s.len() > 0 {
        lemma_range_sum_constant(s.drop_last(), c);
        assert((c as int) * ((s.len() - 1) as int) + c as int == (c as int) * (s.len() as int)) by (nonlinear_arith);
    }
}

/// A target holding a constant distance is stationary (given a nonzero hysteresis).
pub proof fn constant_range_is_stationary(h: Seq<u16>, c: u16, hysteresis_mm: u16)
    requires
        h.len() > 0,
        hysteresis_mm > 0,
        forall|i: int| 0 <= i < h.len() ==> h[i] == c,
    ensures
        classify_history(h, hysteresis_mm) == Attention::Stationary,
{
    if h.len() >= 4 {
        let half = h.len() / 2;
        lemma_range_sum_constant(h.take(half as int), c);
        lemma_range_sum_constant(h.skip(half as int), c);
        let a = half as int;
        let b = (h.len() - half) as int;
        assert((c as int) * a / a == c as int) by (nonlinear_arith) requires a > 0;
        assert((c as int) * b / b == c as int) by (nonlinear_arith) requires b > 0;
    }
}

/// I²C address.
pub const ADDR: u8 = 0x29;
/// MODEL_ID register (reads 0xEE).
pub const REG_MODEL_ID: u8 = 0xC0;
/// Revision register.
pub const REG_REVISION_ID: u8 = 0xC1;
/// Module register.
pub const REG_MODULE_ID: u8 = 0xC2;
/// The VL53L0X model id.
pub const MODEL_ID: u8 = 0xEE;
/// Bounded poll of status/measurement flags.
pub const POLL: u16 = 4000;

/// Identity readout.
#[derive(Debug, Clone, Copy, PartialEq, Eq, Structural)]
pub struct Ids {
    pub model: u8,
    pub revision: u8,
    pub module: u8,
}

/// Marker for the identity-level device.
pub struct Vl53l0x;

impl Vl53l0x {
    /// WHO_AM_I: the model register reads 0xEE.
    pub fn identity_ok(model: u8) -> (b: bool)
        ensures
            b == (model == MODEL_ID),
    {
        model == MODEL_ID
    }

    /// The on-demand state: the identity registers, refused as `Identity` when the model
    /// register is not the VL53L0X's.
    pub fn measure_result<E>(ids: Ids) -> (r: Result<Ids, Error<E>>)
        ensures
            ids.model == MODEL_ID ==> r == Ok::<Ids, Error<E>>(ids),
            ids.model != MODEL_ID ==> r == Err::<Ids, Error<E>>(Error::Identity),
    {
        if ids.model == MODEL_ID {
            Ok(ids)
        } else {
            Err(Error::Identity)
        }
    }
}

/// An initialised ranging handle: holds the device-specific stop variable that each range read
/// writes back.
pub struct Vl53l0xRanging {
    stop_variable: u8,
}

impl Vl53l0xRanging {
    /// The stop variable captured during init.
    pub closed spec fn stop_variable_spec(&self) -> u8 {
        self.stop_variable
    }

    /// A handle over the stop variable read during init.
    pub fn from_stop_variable(stop_variable: u8) -> (r: Vl53l0xRanging)
        ensures
            r.stop_variable_spec() == stop_variable,
    {
        Vl53l0xRanging { stop_variable }
    }

    /// The stop variable to write back before a range read.
    pub fn stop_variable(&self) -> (v: u8)
        ensures
            v == self.stop_variable_spec(),
    {
        self.stop_variable
    }

    /// A 16-bit register value from its two big-endian bytes.
    pub fn be16(hi: u8, lo: u8) -> (v: u16)
        ensures
            v == hi as int * 256 + lo as int,
    {
        let v = ((hi as u16) << 8) | lo as u16;
        assert(v == hi as u16 * 256 + lo as u16) by (bit_vector)
            requires v == ((hi as u16) << 8u16) | lo as u16;
        v
    }

    /// The two big-endian bytes of a 16-bit register value.
    pub fn be16_bytes(val: u16) -> (b: [u8; 2])
        ensures
            b@[0] as int * 256 + b@[1] as int == val,
    {
        let hi = (val >> 8) as u8;
        let lo = val as u8;
        assert(hi as u16 * 256 + lo as u16 == val) by (bit_vector)
            requires hi == (val >> 8u16) as u8, lo == val as u8;
        [hi, lo]
    }

    /// SPAD info from register 0x92: the reference SPAD count (low 7 bits) and whether they are
    /// aperture SPADs (bit 7).
    pub fn spad_info(tmp: u8) -> (r: (u8, bool))
        ensures
            r.0 == tmp % 128,
            r.1 == (tmp >= 128),
    {
        let count = tmp & 0x7F;
        let aperture = (tmp >> 7) & 0x01 != 0;
        assert(count == tmp % 128 && aperture == (tmp >= 128)) by (bit_vector)
            requires count == tmp & 0x7F, aperture == ((tmp >> 7) & 0x01 != 0);
        (count, aperture)
    }

    /// A measurement has completed (interrupt status low bits).
    pub fn sample_ready(status: u8) -> (b: bool)
        ensures
            b == (status & 0x07 != 0),
    {
        status & 0x07 != 0
    }

    /// The single-shot start bit has cleared.
    pub fn start_cleared(sysrange: u8) -> (b: bool)
        ensures
            b == (sysrange & 0x01 == 0),
    {
        sysrange & 0x01 == 0
    }
}

/// Bit `i` (0..48) of a reference-SPAD map.
pub open spec fn spad_bit(map: Seq<u8>, i: int) -> bool {
    (map[i / 8] >> ((i % 8) as u8)) & 1 == 1
}

/// Number of SPADs set in `[first, i)`.
pub open spec fn spads_between(map: Seq<u8>, first: int, i: int) -> nat
    decreases i - first,
{
    if i <= first {
        0
    } else {
        spads_between(map, first, i - 1) + (if spad_bit(map, i - 1) { 1nat } else { 0nat })
    }
}

/// The reference SPADs kept: a set SPAD at or after the first usable one (12 for aperture SPADs,
/// else 0) while fewer than `count` have been kept before it.
pub open spec fn spad_kept(map: Seq<u8>, count: u8, aperture: bool, i: int) -> bool {
    let first = if aperture { 12int } else { 0int };
    spad_bit(map, i) && i >= first && spads_between(map, first, i) < count
}

proof fn lemma_clear_bit(b: u8, k: u8, j: u8)
    requires
        k < 8,
        j < 8,
    ensures
        ((b & !(1u8 << k)) >> j) & 1 == (if j == k { 0u8 } else { (b >> j) & 1 }),
{
    assert(((b & !(1u8 << k)) >> j) & 1 == (if j == k { 0u8 } else { (b >> j) & 1 })) by (bit_vector)
        requires k < 8, j < 8;
}

/// Enable the requested number of reference SPADs: keep the first `count` set SPADs from the
/// first usable one on and clear all others.
pub fn select_ref_spads(map: [u8; 6], count: u8, aperture: bool) -> (out: [u8; 6])
    ensures
        forall|i: int| 0 <= i < 48 ==> #[trigger] spad_bit(out@, i) == spad_kept(map@, count, aperture, i),
{
    let first: u8 = if aperture { 12 } else { 0 };
    let mut m = map;
    let mut enabled: u8 = 0;
    let mut i: u8 = 0;
    while i < 48
        invariant
            i <= 48,
            first == (if aperture { 12u8 } else { 0u8 }),
            enabled as int == (if spads_between(map@, first as int, i as int) < count {
                spads_between(map@, first as int, i as int) as int } else { count as int }),
            forall|j: int| 0 <= j < i ==> #[trigger] spad_bit(m@, j) == spad_kept(map@, count, aperture, j),
            forall|j: int| i <= j < 48 ==> #[trigger] spad_bit(m@, j) == spad_bit(map@, j),
        decreases 48 - i,
    {
        let byte = (i / 8) as usize;
        let k = i % 8;
        let b = m[byte];
        let ghost m0 = m@;
        proof {
            if i >= first {
                assert(spads_between(map@, first as int, i as int + 1)
                    == spads_between(map@, first as int, i as int) + (if spad_bit(map@, i as int) { 1nat } else { 0nat }));
            } else {
                assert(spads_between(map@, first as int, i as int + 1) == 0);
            }
            assert(spad_bit(m0, i as int) == spad_bit(map@, i as int));
            assert(byte as int == i as int / 8 && k as int == i as int % 8);
            assert(((b >> k) & 1 != 0) == ((b >> k) & 1 == 1)) by (bit_vector);
        }
        if i < first || enabled == count {
            m[byte] = b & !(1u8 << k);
            assert forall|j: int| 0 <= j < 48 && j != i implies #[trigger] spad_bit(m@, j) == spad_bit(m0, j) by {
                if j / 8 == byte as int {
                    lemma_clear_bit(b, k, (j % 8) as u8);
                }
            }
            proof { lemma_clear_bit(b, k, k); }
        } else if (b >> k) & 1 != 0 {
            enabled = enabled + 1;
        }
        i = i + 1;
    }
    m
}

} // verus!
