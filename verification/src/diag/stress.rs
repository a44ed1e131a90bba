//! I²C stress & margin runner, as a cooperative state machine. Two tests, each driven one
//! bounded batch of verified reads (a known-valued ID register compared) per poll:
//!   1. the clock-margin sweep raises SCL 100 kHz → 1 MHz and finds the highest zero-error clock;
//!   2. the error-rate soak holds 100 kHz and counts NACKs, corruptions and latency.
//! The caller performs the reads, clock changes and report lines this machine asks for.
use vstd::prelude::*;
use crate::diag::tasks::{Cx, Mode};
use crate::uart::{decimal, dec, dec32, push_str};
use vstd::string::StringSliceAdditionalSpecFns;

verus! {

/// A device with a fixed-value register, so each read is checkable.
#[derive(Clone, Copy, PartialEq, Eq, Debug, Structural)]
pub struct Target {
    pub addr: u8,
    pub reg: u8,
    pub val: u8,
}

/// Number of targets.
pub const TARGET_COUNT: usize = 2;
/// Number of clock steps.
pub const LADDER_LEN: usize = 5;
/// 100 kHz divider (the operating clock).
pub const NOMINAL_BRW: u16 = 10;
/// Verified reads per target per clock step.
pub const MARGIN_REPS: u16 = 200;
/// Soak report cadence (s).
pub const REPORT_EVERY_SECS: u32 = 10;
/// Reads per poll during the sweep.
pub const MARGIN_BATCH: u16 = 24;
/// Read rounds per poll during the soak.
pub const SOAK_BATCH: u16 = 40;
/// Consecutive NACKs at one clock that make it unusable.
pub const FAIL_CUTOFF: u16 = 24;
/// Delay (ms) before the next poll while a sweep or soak is running.
pub const BATCH_GAP_MS: u32 = 1;
/// Delay (ms) before the next poll once the sweep has handed back to POST.
pub const SWEEP_DONE_GAP_MS: u32 = 200;

/// Target `i`: the APDS-9960 and VL53L0X ID registers.
pub open spec fn target_spec(i: int) -> Target {
    if i == 0 { Target { addr: 0x39, reg: 0x92, val: 0xAB } } else { Target { addr: 0x29, reg: 0xC0, val: 0xEE } }
}

impl Target {
    /// The outcome of one timed read of this target's register: `Ok(µs)` when the transfer was
    /// acknowledged and gave the expected value, `Err(false)` on a NACK or timeout, `Err(true)`
    /// when the device answered with a wrong value.
    pub fn judge(&self, acked: bool, value: u8, elapsed_us: u16) -> (r: Result<u16, bool>)
        ensures
            r == (if !acked {
                Err::<u16, bool>(false)
            } else if value != self.val {
                Err::<u16, bool>(true)
            } else {
                Ok::<u16, bool>(elapsed_us)
            }),
    {
        if !acked {
            Err(false)
        } else if value != self.val {
            Err(true)
        } else {
            Ok(elapsed_us)
        }
    }
}

/// Clock step `i`: (kHz, divider of the 1 MHz SMCLK).
pub open spec fn ladder_spec(i: int) -> (u16, u16) {
    if i == 0 { (100, 10) } else if i == 1 { (200, 5) } else if i == 2 { (333, 3) }
    else if i == 3 { (500, 2) } else { (1000, 1) }
}

/// Target `i`.
pub fn target(i: usize) -> (t: Target)
    requires
        i < TARGET_COUNT,
    ensures
        t == target_spec(i as int),
{
    if i == 0 { Target { addr: 0x39, reg: 0x92, val: 0xAB } } else { Target { addr: 0x29, reg: 0xC0, val: 0xEE } }
}

/// Clock step `i` as (kHz, divider).
pub fn ladder(i: usize) -> (s: (u16, u16))
    requires
        i < LADDER_LEN,
    ensures
        s == ladder_spec(i as int),
{
    if i == 0 { (100, 10) } else if i == 1 { (200, 5) } else if i == 2 { (333, 3) }
    else if i == 3 { (500, 2) } else { (1000, 1) }
}

/// The highest clean clock among the first `n` steps (0 if none was clean).
pub open spec fn best_clean(clean: Seq<bool>, n: int) -> u16
    decreases n,
{
    if n <= 0 {
        0
    } else if clean[n - 1] {
        ladder_spec(n - 1).0
    } else {
        best_clean(clean, n - 1)
    }
}

/// Running soak totals: transactions as millions plus remainder, error counts and cumulative
/// latency bounds.
pub struct Totals {
    pub txn_m: u32,
    pub txn: u32,
    pub nack: u32,
    pub corrupt: u32,
    pub lat_min: u16,
    pub lat_max: u16,
    pub any_ok: bool,
}

impl Totals {
    /// Nothing counted.
    pub fn new() -> (t: Totals)
        ensures
            t.txn_m == 0 && t.txn == 0 && t.nack == 0 && t.corrupt == 0,
            t.lat_min == 0xFFFF && t.lat_max == 0 && !t.any_ok,
    {
        Totals { txn_m: 0, txn: 0, nack: 0, corrupt: 0, lat_min: 0xFFFF, lat_max: 0, any_ok: false }
    }

    /// Count one transaction; the remainder rolls over into millions.
    pub fn bump_txn(&mut self)
        requires
            old(self).txn < 1_000_000,
            old(self).txn_m < u32::MAX,
        ensures
            final(self).txn < 1_000_000,
            final(self).txn_m as int * 1_000_000 + final(self).txn
                == old(self).txn_m as int * 1_000_000 + old(self).txn + 1,
            final(self).nack == old(self).nack && final(self).corrupt == old(self).corrupt,
            final(self).lat_min == old(self).lat_min && final(self).lat_max == old(self).lat_max,
            final(self).any_ok == old(self).any_ok,
    {
        self.txn = self.txn + 1;
        if self.txn >= 1_000_000 {
            self.txn_m = self.txn_m + 1;
            self.txn = self.txn - 1_000_000;
        }
    }

    /// No NACK and no corruption so far.
    pub fn clean(&self) -> (b: bool)
        ensures
            b == (self.nack == 0 && self.corrupt == 0),
    {
        self.nack == 0 && self.corrupt == 0
    }
}

/// The end of one clock step of the sweep.
#[derive(Clone, Copy, PartialEq, Eq, Debug, Structural)]
pub struct StepResult {
    /// The step's clock.
    pub khz: u16,
    /// Reads at this clock.
    pub txn: u16,
    /// NACKs / timeouts.
    pub nack: u16,
    /// Wrong values read.
    pub corrupt: u16,
    /// Divider to switch to for the next step, if any.
    pub next_brw: Option<u16>,
    /// The sweep is complete: the highest clean clock.
    pub margin_khz: Option<u16>,
}

/// The soak's periodic report line.
#[derive(Clone, Copy, PartialEq, Eq, Debug, Structural)]
pub struct SoakReport {
    pub secs: u32,
    pub txn_m: u32,
    pub txn: u32,
    pub nack: u32,
    pub corrupt: u32,
    pub rate: u32,
    pub lat_min: u16,
    pub lat_max: u16,
    pub any_ok: bool,
    pub clean: bool,
}

/// The stress runner. It watches the blackboard's mode: idle unless Margin or Soak, at which
/// point it re-initialises on entry and then advances one bounded batch per poll.
pub struct StressTask {
    last_mode: Option<Mode>,
    li: usize,
    ti: usize,
    rep: u16,
    consec: u16,
    nack: u16,
    corrupt: u16,
    txn: u16,
    best_khz: u16,
    best_brw: u16,
    clean_steps: Ghost<Seq<bool>>,
    tot: Totals,
    start_ms: u32,
    next_report: u32,
    window: u32,
}

impl StressTask {
    /// Internal consistency of the sweep state.
    pub closed spec fn wf(&self) -> bool {
        &&& self.li <= LADDER_LEN
        &&& self.ti < TARGET_COUNT
        &&& self.rep < MARGIN_REPS
        &&& self.consec < FAIL_CUTOFF
        &&& self.txn as int <= 200 * self.ti + self.rep
        &&& self.nack as int + self.corrupt as int <= self.txn
        &&& self.clean_steps@.len() == self.li
        &&& self.best_khz == best_clean(self.clean_steps@, self.li as int)
        &&& self.tot.txn < 1_000_000
    }

    /// The mode seen at the previous poll.
    pub closed spec fn last_mode_spec(&self) -> Option<Mode> {
        self.last_mode
    }

    /// The sweep's current clock-step index.
    pub closed spec fn step_index(&self) -> int {
        self.li as int
    }

    /// The target currently being read.
    pub closed spec fn target_index(&self) -> int {
        self.ti as int
    }

    /// Which of the finished clock steps were clean.
    pub closed spec fn clean_history(&self) -> Seq<bool> {
        self.clean_steps@
    }

    /// Reads done on the current target at this step.
    pub closed spec fn reps(&self) -> u16 {
        self.rep
    }

    /// NACKs in a row on the current target.
    pub closed spec fn consecutive_nacks(&self) -> u16 {
        self.consec
    }

    /// Reads, NACKs and corrupt reads of the current step so far.
    pub closed spec fn step_tallies(&self) -> (u16, u16, u16) {
        (self.txn, self.nack, self.corrupt)
    }

    /// The highest clean clock found so far.
    pub closed spec fn best(&self) -> u16 {
        self.best_khz
    }

    /// The soak totals.
    pub closed spec fn totals(&self) -> Totals {
        self.tot
    }

    /// Idle runner.
    pub fn new() -> (t: StressTask)
        ensures
            t.wf(),
            t.last_mode_spec() is None,
    {
        StressTask {
            last_mode: None,
            li: 0,
            ti: 0,
            rep: 0,
            consec: 0,
            nack: 0,
            corrupt: 0,
            txn: 0,
            best_khz: 0,
            best_brw: NOMINAL_BRW,
            clean_steps: Ghost(Seq::empty()),
            tot: Totals::new(),
            start_ms: 0,
            next_report: 0,
            window: 0,
        }
    }

    /// Outside the stress modes: remember the mode so a re-entry re-initialises; poll again in
    /// 100 ms.
    pub fn idle(&mut self, m: Mode) -> (delay: u32)
        requires
            old(self).wf(),
        ensures
            final(self).wf(),
            final(self).last_mode_spec() == Some(m),
            delay == 100,
    {
        self.last_mode = Some(m);
        100
    }

    /// Start of a sweep poll. On entry to Margin the sweep restarts from 100 kHz and the divider
    /// to set is returned.
    pub fn margin_enter(&mut self, cx: &mut Cx) -> (brw: Option<u16>)
        requires
            old(self).wf(),
        ensures
            final(self).wf(),
            final(self).last_mode_spec() == Some(Mode::Margin),
            old(self).last_mode_spec() != Some(Mode::Margin) ==> {
                &&& brw == Some(10u16)
                &&& final(self).step_index() == 0
                &&& final(self).best() == 0
                &&& final(self).clean_history() == Seq::<bool>::empty()
                &&& *final(cx) == (Cx { st_phase: 1, st_max: 0, st_khz: 100, ..*old(cx) })
            },
            old(self).last_mode_spec() == Some(Mode::Margin) ==> brw is None && *final(self) == *old(self)
                && *final(cx) == *old(cx),
            final(self).best() == best_clean(final(self).clean_history(), final(self).step_index()),
            final(self).clean_history().len() == final(self).step_index(),
    {
        if self.last_mode == Some(Mode::Margin) {
            return None;
        }
        self.last_mode = Some(Mode::Margin);
        self.li = 0;
        self.ti = 0;
        self.rep = 0;
        self.consec = 0;
        self.nack = 0;
        self.corrupt = 0;
        self.txn = 0;
        self.best_khz = 0;
        self.best_brw = NOMINAL_BRW;
        self.clean_steps = Ghost(Seq::empty());
        cx.st_phase = 1;
        cx.st_max = 0;
        let (khz, brw) = ladder(0);
        cx.st_khz = khz;
        Some(brw)
    }

    /// Has the sweep run through the whole ladder? Then it returns to POST (phase 2). Otherwise
    /// publish the current step's clock.
    pub fn margin_done(&mut self, cx: &mut Cx) -> (done: bool)
        requires
            old(self).wf(),
        ensures
            *final(self) == *old(self),
            done == (old(self).step_index() >= LADDER_LEN),
            done ==> *final(cx) == (Cx { st_phase: 2, mode: Mode::Post, ..*old(cx) }),
            !done ==> *final(cx) == (Cx { st_khz: ladder_spec(old(self).step_index()).0, ..*old(cx) }),
    {
        if self.li >= LADDER_LEN {
            cx.st_phase = 2;
            cx.mode = Mode::Post;
            return true;
        }
        let (khz, _) = ladder(self.li);
        cx.st_khz = khz;
        false
    }

    /// The register to read next.
    pub fn margin_target(&self) -> (t: Target)
        requires
            self.wf(),
        ensures
            t == target_spec(self.target_index()),
    {
        target(self.ti)
    }

    /// Count one verified read (`Ok(latency)`, `Err(false)` = NACK/timeout, `Err(true)` =
    /// corrupt). A target is done after its reps or a run of consecutive NACKs; after the last
    /// target the step ends: it is clean when nothing failed, the best clock is raised, and the
    /// sweep moves to the next clock or completes.
    pub fn margin_record(&mut self, cx: &mut Cx, r: Result<u16, bool>) -> (ev: Option<StepResult>)
        requires
            old(self).wf(),
            old(self).step_index() < LADDER_LEN,
        ensures
            final(self).wf(),
            final(self).last_mode_spec() == old(self).last_mode_spec(),
            ({
                let (txn0, nack0, corrupt0) = old(self).step_tallies();
                let txn1 = (txn0 + 1) as u16;
                let nack1 = (nack0 + (if r == Err::<u16, bool>(false) { 1int } else { 0int })) as u16;
                let corrupt1 = (corrupt0 + (if r == Err::<u16, bool>(true) { 1int } else { 0int })) as u16;
                let consec1 = (if r is Ok { 0int } else if r == Err::<u16, bool>(false) {
                    old(self).consecutive_nacks() + 1 } else { old(self).consecutive_nacks() as int }) as u16;
                let rep1 = (old(self).reps() + 1) as u16;
                let target_done = rep1 >= MARGIN_REPS || consec1 >= FAIL_CUTOFF;
                let step_done = target_done && old(self).target_index() + 1 >= TARGET_COUNT;
                &&& (ev is Some) == step_done
                &&& !target_done ==> final(self).reps() == rep1 && final(self).consecutive_nacks() == consec1
                    && final(self).target_index() == old(self).target_index()
                    && final(self).step_tallies() == (txn1, nack1, corrupt1)
                &&& target_done && !step_done ==> final(self).reps() == 0
                    && final(self).consecutive_nacks() == 0
                    && final(self).target_index() == old(self).target_index() + 1
                    && final(self).step_tallies() == (txn1, nack1, corrupt1)
                &&& step_done ==> final(self).reps() == 0 && final(self).consecutive_nacks() == 0
                    && final(self).target_index() == 0 && final(self).step_tallies() == (0u16, 0u16, 0u16)
                &&& ev matches Some(step) ==> step.txn == txn1 && step.nack == nack1 && step.corrupt == corrupt1
            }),
            ev is None ==> final(self).step_index() == old(self).step_index() && *final(cx) == *old(cx)
                && final(self).clean_history() == old(self).clean_history()
                && final(self).best() == old(self).best(),
            final(self).best() == best_clean(final(self).clean_history(), final(self).step_index()),
            final(self).clean_history().len() == final(self).step_index(),
            ev matches Some(step) ==> {
                &&& step.khz == ladder_spec(old(self).step_index()).0
                &&& final(self).step_index() == old(self).step_index() + 1
                &&& final(self).clean_history() == old(self).clean_history().push(step.nack == 0 && step.corrupt == 0)
                &&& step.next_brw == (if final(self).step_index() < LADDER_LEN {
                        Some(ladder_spec(final(self).step_index()).1) } else { None })
                &&& step.margin_khz == (if final(self).step_index() < LADDER_LEN {
                        None } else { Some(final(self).best()) })
                &&& *final(cx) == (if final(self).step_index() < LADDER_LEN { *old(cx) } else {
                        Cx { st_max: final(self).best(), st_phase: 2, ..*old(cx) } })
            },
    {
        self.txn = self.txn + 1;
        match r {
            Ok(_) => self.consec = 0,
            Err(false) => {
                self.nack = self.nack + 1;
                self.consec = self.consec + 1;
            },
            Err(true) => self.corrupt = self.corrupt + 1,
        }
        self.rep = self.rep + 1;
        if self.rep >= MARGIN_REPS || self.consec >= FAIL_CUTOFF {
            self.rep = 0;
            self.consec = 0;
            self.ti = self.ti + 1;
            if self.ti >= TARGET_COUNT {
                self.ti = 0;
                let (khz, brw) = ladder(self.li);
                let clean = self.nack == 0 && self.corrupt == 0;
                let step_txn = self.txn;
                let step_nack = self.nack;
                let step_corrupt = self.corrupt;
                if clean && khz > self.best_khz {
                    self.best_khz = khz;
                    self.best_brw = brw;
                }
                proof {
                    let ghost old_clean = self.clean_steps@;
                    assert(old_clean.push(clean).drop_last() =~= old_clean);
                    lemma_best_clean_ladder(old_clean, self.li as int);
                }
                self.clean_steps = Ghost(self.clean_steps@.push(clean));
                self.nack = 0;
                self.corrupt = 0;
                self.txn = 0;
                self.li = self.li + 1;
                let mut next_brw: Option<u16> = None;
                let mut margin: Option<u16> = None;
                if self.li < LADDER_LEN {
                    let (_, b) = ladder(self.li);
                    next_brw = Some(b);
                } else {
                    cx.st_max = self.best_khz;
                    cx.st_phase = 2;
                    margin = Some(self.best_khz);
                }
                return Some(StepResult {
                    khz,
                    txn: step_txn,
                    nack: step_nack,
                    corrupt: step_corrupt,
                    next_brw,
                    margin_khz: margin,
                });
            }
        }
        None
    }

    /// The soak counters have room for another read round (they are never expected to fill).
    pub open spec fn soak_room(&self) -> bool {
        &&& self.totals().txn_m < u32::MAX
        &&& self.totals().nack < u32::MAX - TARGET_COUNT
        &&& self.totals().corrupt < u32::MAX - TARGET_COUNT
        &&& self.window_count() < u32::MAX - TARGET_COUNT
        &&& self.totals().nack as int + self.totals().corrupt as int <= u32::MAX
    }

    /// Transactions since the last report line.
    pub closed spec fn window_count(&self) -> u32 {
        self.window
    }

    /// Start of a soak poll. On entry to Soak the totals restart at `now` and `true` asks the
    /// caller to set the 100 kHz operating clock.
    pub fn soak_enter(&mut self, cx: &mut Cx, now: u32) -> (entered: bool)
        requires
            old(self).wf(),
        ensures
            final(self).wf(),
            final(self).last_mode_spec() == Some(Mode::Soak),
            entered == (old(self).last_mode_spec() != Some(Mode::Soak)),
            entered ==> final(self).totals().txn == 0 && final(self).totals().txn_m == 0
                && final(self).totals().nack == 0 && final(self).totals().corrupt == 0
                && final(self).window_count() == 0
                && final(self).totals().any_ok == false && final(self).totals().lat_min == 0xFFFF
                && final(self).totals().lat_max == 0
                && final(self).start_at() == now
                && final(self).next_report_at() == vstd::wrapping::u32_specs::wrapping_add(now, 10000)
                && *final(cx) == (Cx { st_phase: 3, ..*old(cx) }),
            !entered ==> *final(self) == *old(self) && *final(cx) == *old(cx),
    {
        if self.last_mode == Some(Mode::Soak) {
            return false;
        }
        self.last_mode = Some(Mode::Soak);
        self.tot = Totals::new();
        self.start_ms = now;
        self.next_report = now.wrapping_add(REPORT_EVERY_SECS * 1000);
        self.window = 0;
        cx.st_phase = 3;
        true
    }

    /// Count one soak read (`Ok(latency)`, `Err(false)` = NACK/timeout, `Err(true)` = corrupt).
    pub fn soak_record(&mut self, r: Result<u16, bool>)
        requires
            old(self).wf(),
            old(self).soak_room(),
            old(self).window_count() < u32::MAX,
        ensures
            final(self).wf(),
            final(self).last_mode_spec() == old(self).last_mode_spec(),
            final(self).window_count() == old(self).window_count() + 1,
            final(self).start_at() == old(self).start_at(),
            final(self).next_report_at() == old(self).next_report_at(),
            soak_recorded(*old(self), *final(self), r),
            final(self).totals().txn < 1_000_000,
            final(self).totals().txn_m as int * 1_000_000 + final(self).totals().txn
                == old(self).totals().txn_m as int * 1_000_000 + old(self).totals().txn + 1,
            final(self).totals().nack == old(self).totals().nack + (if r == Err::<u16, bool>(false) { 1u32 } else { 0u32 }),
            final(self).totals().corrupt == old(self).totals().corrupt + (if r == Err::<u16, bool>(true) { 1u32 } else { 0u32 }),
            final(self).totals().any_ok == (old(self).totals().any_ok || r is Ok),
            r matches Ok(dt) ==> final(self).totals().lat_min == (if dt < old(self).totals().lat_min { dt } else { old(self).totals().lat_min })
                && final(self).totals().lat_max == (if dt > old(self).totals().lat_max { dt } else { old(self).totals().lat_max }),
            r is Err ==> final(self).totals().lat_min == old(self).totals().lat_min
                && final(self).totals().lat_max == old(self).totals().lat_max,
    {
        self.tot.bump_txn();
        self.window = self.window + 1;
        match r {
            Ok(dt) => {
                self.tot.any_ok = true;
                if dt < self.tot.lat_min {
                    self.tot.lat_min = dt;
                }
                if dt > self.tot.lat_max {
                    self.tot.lat_max = dt;
                }
            },
            Err(false) => self.tot.nack = self.tot.nack + 1,
            Err(true) => self.tot.corrupt = self.tot.corrupt + 1,
        }
    }

    /// The soak counters have room for `n` more reads (at most a million, so the millions count
    /// steps at most once).
    pub open spec fn batch_room(&self, n: int) -> bool {
        &&& 0 <= n <= 1_000_000
        &&& self.totals().txn_m + 1 < u32::MAX
        &&& self.totals().nack + n < u32::MAX - TARGET_COUNT
        &&& self.totals().corrupt + n < u32::MAX - TARGET_COUNT
        &&& self.window_count() + n < u32::MAX - TARGET_COUNT
        &&& self.totals().nack as int + self.totals().corrupt as int + n <= u32::MAX
    }

    /// The soak counters have room for `n` more reads (checked by the caller before a batch).
    pub fn has_batch_room(&self, n: usize) -> (b: bool)
        ensures
            b == self.batch_room(n as int),
    {
        n <= 1_000_000 && self.tot.txn_m < u32::MAX - 1
            && (self.tot.nack as u64) + (n as u64) < (u32::MAX - 2) as u64
            && (self.tot.corrupt as u64) + (n as u64) < (u32::MAX - 2) as u64
            && (self.window as u64) + (n as u64) < (u32::MAX - 2) as u64
            && self.tot.nack as u64 + self.tot.corrupt as u64 + n as u64 <= u32::MAX as u64
    }

    /// Count a batch of soak reads, in order: every read is counted, and every failed one as an
    /// error.
    pub fn soak_batch(&mut self, rs: &[Result<u16, bool>])
        requires
            old(self).wf(),
            old(self).batch_room(rs@.len() as int),
        ensures
            final(self).wf(),
            final(self).last_mode_spec() == old(self).last_mode_spec(),
            final(self).window_count() == old(self).window_count() + rs@.len(),
            soak_reads(*final(self)) == soak_reads(*old(self)) + rs@.len(),
            soak_errors(*final(self)) == soak_errors(*old(self)) + failures(rs@, rs@.len() as int),
            0 <= failures(rs@, rs@.len() as int) <= rs@.len(),
            totals_after(old(self).totals(), final(self).totals(), rs@, rs@.len() as int),
            final(self).totals().nack as int + final(self).totals().corrupt as int <= u32::MAX,
            final(self).start_at() == old(self).start_at(),
            final(self).next_report_at() == old(self).next_report_at(),
    {
        let mut i: usize = 0;
        while i < rs.len()
            invariant
                i <= rs@.len(),
                old(self).wf(),
                old(self).batch_room(rs@.len() as int),
                self.wf(),
                self.last_mode_spec() == old(self).last_mode_spec(),
                self.window_count() == old(self).window_count() + i,
                soak_reads(*self) == soak_reads(*old(self)) + i,
                soak_errors(*self) == soak_errors(*old(self)) + failures(rs@, i as int),
                0 <= failures(rs@, i as int) <= i,
                totals_after(old(self).totals(), self.totals(), rs@, i as int),
                0 <= nacks(rs@, i as int) <= i,
                0 <= corrupts(rs@, i as int) <= i,
                self.totals().txn_m <= old(self).totals().txn_m + 1,
                self.start_at() == old(self).start_at(),
                self.next_report_at() == old(self).next_report_at(),
            decreases rs@.len() - i,
        {
            self.soak_record(rs[i]);
            i = i + 1;
        }
    }

    /// End of a soak poll at `now`: publish elapsed seconds and counts to the blackboard, and
    /// when the report deadline has passed return the cumulative report line (rate = reads per
    /// second over the window) and schedule the next one.
    pub fn soak_publish(&mut self, cx: &mut Cx, now: u32) -> (rep: Option<SoakReport>)
        requires
            old(self).wf(),
            old(self).totals().nack as int + old(self).totals().corrupt as int <= u32::MAX,
        ensures
            final(self).wf(),
            final(self).totals() == old(self).totals(),
            final(self).last_mode_spec() == old(self).last_mode_spec(),
            ({
                let secs = (vstd::wrapping::u32_specs::wrapping_sub(now, old(self).start_at()) / 1000) as u32;
                &&& *final(cx) == (Cx {
                    st_secs: secs,
                    st_txn_m: old(self).totals().txn_m,
                    st_txn: old(self).totals().txn,
                    st_err: (old(self).totals().nack + old(self).totals().corrupt) as u32,
                    ..*old(cx)
                })
                &&& (now >= old(self).next_report_at()) == (rep is Some)
                &&& rep matches Some(r) ==> r.secs == secs && r.rate == old(self).window_count() / REPORT_EVERY_SECS
                    && r.lat_min == old(self).totals().lat_min && r.lat_max == old(self).totals().lat_max
                    && r.any_ok == old(self).totals().any_ok
                    && final(self).start_at() == old(self).start_at()
                    && r.txn_m == old(self).totals().txn_m && r.txn == old(self).totals().txn
                    && r.nack == old(self).totals().nack && r.corrupt == old(self).totals().corrupt
                    && r.clean == (old(self).totals().nack == 0 && old(self).totals().corrupt == 0)
                    && final(self).window_count() == 0
                    && final(self).next_report_at() == vstd::wrapping::u32_specs::wrapping_add(old(self).next_report_at(), 10000)
                &&& rep is None ==> final(self).window_count() == old(self).window_count()
                    && final(self).next_report_at() == old(self).next_report_at()
                    && final(self).start_at() == old(self).start_at()
            }),
    {
        let secs = now.wrapping_sub(self.start_ms) / 1000;
        let mut rep: Option<SoakReport> = None;
        if now >= self.next_report {
            rep = Some(SoakReport {
                secs,
                txn_m: self.tot.txn_m,
                txn: self.tot.txn,
                nack: self.tot.nack,
                corrupt: self.tot.corrupt,
                rate: self.window / REPORT_EVERY_SECS,
                lat_min: self.tot.lat_min,
                lat_max: self.tot.lat_max,
                any_ok: self.tot.any_ok,
                clean: self.tot.clean(),
            });
            self.window = 0;
            self.next_report = self.next_report.wrapping_add(REPORT_EVERY_SECS * 1000);
        }
        cx.st_secs = secs;
        cx.st_txn_m = self.tot.txn_m;
        cx.st_txn = self.tot.txn;
        cx.st_err = self.tot.nack + self.tot.corrupt;
        rep
    }

    /// When the soak started (ms).
    pub closed spec fn start_at(&self) -> u32 {
        self.start_ms
    }

    /// When the next soak report is due (ms).
    pub closed spec fn next_report_at(&self) -> u32 {
        self.next_report
    }
}

/// The ladder's clocks strictly increase, and the best clean clock never exceeds the clock of
/// the last step counted.
proof fn lemma_best_clean_ladder(clean: Seq<bool>, n: int)
    requires
        0 <= n < LADDER_LEN,
        clean.len() == n,
    ensures
        best_clean(clean, n) < ladder_spec(n).0,
        forall|b: bool| #[trigger] best_clean(clean.push(b), n + 1)
            == (if b { ladder_spec(n).0 } else { best_clean(clean, n) }),
    decreases n,
{
    if n > 0 {
        lemma_best_clean_ladder(clean.drop_last(), n - 1);
        assert forall|j: int| 0 <= j < n - 1 implies clean.drop_last()[j] == clean[j] by {}
        lemma_best_clean_prefix(clean, clean.drop_last(), n - 1);
    }
    assert forall|b: bool| #[trigger] best_clean(clean.push(b), n + 1)
        == (if b { ladder_spec(n).0 } else { best_clean(clean, n) }) by {
        lemma_best_clean_prefix(clean.push(b), clean, n);
    }
}

/// `best_clean` only looks at the first `n` entries.
proof fn lemma_best_clean_prefix(a: Seq<bool>, b: Seq<bool>, n: int)
    requires
        0 <= n <= a.len(),
        n <= b.len(),
        forall|j: int| 0 <= j < n ==> a[j] == b[j],
    ensures
        best_clean(a, n) == best_clean(b, n),
    decreases n,
{
    if n > 0 {
        lemma_best_clean_prefix(a, b, n - 1);
    }
}

/// Soak reads counted so far (millions folded back in).
pub open spec fn soak_reads(t: StressTask) -> int {
    t.totals().txn_m as int * 1_000_000 + t.totals().txn as int
}

/// Soak errors (NACKs plus corrupt reads) counted so far.
pub open spec fn soak_errors(t: StressTask) -> int {
    t.totals().nack as int + t.totals().corrupt as int
}

/// What recording one soak read does to the counts: one more read, and one more error when the
/// read failed.
pub open spec fn soak_recorded(before: StressTask, after: StressTask, r: Result<u16, bool>) -> bool {
    &&& soak_reads(after) == soak_reads(before) + 1
    &&& soak_errors(after) == soak_errors(before) + (if r is Err { 1int } else { 0int })
}

/// Failed reads among the first `k` results.
pub open spec fn failures(rs: Seq<Result<u16, bool>>, k: int) -> int
    decreases k,
{
    if k <= 0 { 0 } else { failures(rs, k - 1) + (if rs[k - 1] is Err { 1int } else { 0int }) }
}

/// NACKed (or timed-out) reads among the first `k` results.
pub open spec fn nacks(rs: Seq<Result<u16, bool>>, k: int) -> int
    decreases k,
{
    if k <= 0 { 0 } else { nacks(rs, k - 1) + (if rs[k - 1] == Err::<u16, bool>(false) { 1int } else { 0int }) }
}

/// Corrupt reads among the first `k` results.
pub open spec fn corrupts(rs: Seq<Result<u16, bool>>, k: int) -> int
    decreases k,
{
    if k <= 0 { 0 } else { corrupts(rs, k - 1) + (if rs[k - 1] == Err::<u16, bool>(true) { 1int } else { 0int }) }
}

/// Whether any of the first `k` results succeeded.
pub open spec fn any_success(rs: Seq<Result<u16, bool>>, k: int) -> bool
    decreases k,
{
    if k <= 0 { false } else { any_success(rs, k - 1) || rs[k - 1] is Ok }
}

/// The smallest of `m` and the latencies of the successful reads among the first `k` results.
pub open spec fn min_latency(m: u16, rs: Seq<Result<u16, bool>>, k: int) -> u16
    decreases k,
{
    if k <= 0 {
        m
    } else {
        let p = min_latency(m, rs, k - 1);
        match rs[k - 1] {
            Ok(dt) => if dt < p { dt } else { p },
            Err(_) => p,
        }
    }
}

/// The largest of `m` and the latencies of the successful reads among the first `k` results.
pub open spec fn max_latency(m: u16, rs: Seq<Result<u16, bool>>, k: int) -> u16
    decreases k,
{
    if k <= 0 {
        m
    } else {
        let p = max_latency(m, rs, k - 1);
        match rs[k - 1] {
            Ok(dt) => if dt > p { dt } else { p },
            Err(_) => p,
        }
    }
}

/// What counting the first `k` results `rs` does to the totals `t0`: `k` more reads (the
/// remainder kept below a million), each NACK and each corruption counted in its own total, the
/// latency range widened by each successful read, and `any_ok` set by one.
pub open spec fn totals_after(t0: Totals, t: Totals, rs: Seq<Result<u16, bool>>, k: int) -> bool {
    &&& t.txn < 1_000_000
    &&& t.txn_m as int * 1_000_000 + t.txn == t0.txn_m as int * 1_000_000 + t0.txn + k
    &&& t.nack == t0.nack + nacks(rs, k)
    &&& t.corrupt == t0.corrupt + corrupts(rs, k)
    &&& t.any_ok == (t0.any_ok || any_success(rs, k))
    &&& t.lat_min == min_latency(t0.lat_min, rs, k)
    &&& t.lat_max == max_latency(t0.lat_max, rs, k)
}

/// A batch of soak reads is counted in full: after recording the results `rs` one by one, the
/// read count has grown by their number and the error count by the failures among them.
pub proof fn soak_batch_counts_every_read(states: Seq<StressTask>, rs: Seq<Result<u16, bool>>, k: int)
    requires
        states.len() == rs.len() + 1,
        forall|i: int| 0 <= i < rs.len() ==> soak_recorded(#[trigger] states[i], states[i + 1], rs[i]),
        0 <= k <= rs.len(),
    ensures
        soak_reads(states[k]) == soak_reads(states[0]) + k,
        soak_errors(states[k]) == soak_errors(states[0]) + failures(rs, k),
        0 <= failures(rs, k) <= k,
    decreases k,
{
    if k > 0 {
        soak_batch_counts_every_read(states, rs, k - 1);
        assert(soak_recorded(states[k - 1], states[k], rs[k - 1]));
    }
}

/// The best clock a consistent runner holds is the highest clean clock among the steps it has
/// finished, and it holds one clean-or-not flag per finished step.
pub proof fn best_is_highest_clean_so_far(t: StressTask)
    requires
        t.wf(),
    ensures
        t.best() == best_clean(t.clean_history(), t.step_index()),
        t.clean_history().len() == t.step_index(),
        0 <= t.step_index() <= LADDER_LEN,
{
}

/// The margin reported when the sweep completes is the highest clock whose step was clean
/// (0 if none was).
pub proof fn margin_is_highest_clean_clock(clean: Seq<bool>)
    requires
        clean.len() == LADDER_LEN,
    ensures
        best_clean(clean, 5) == (if clean[4] { 1000u16 } else if clean[3] { 500u16 } else if clean[2] { 333u16 }
            else if clean[1] { 200u16 } else if clean[0] { 100u16 } else { 0u16 }),
{
    reveal_with_fuel(best_clean, 6);
}

/// The console line closing one sweep step: its clock, reads, NACKs and corruptions, and the
/// step's verdict.
pub open spec fn step_text(khz: u16, txn: u16, nack: u16, corrupt: u16) -> Seq<u8> {
    "  ".spec_bytes() + decimal(khz as nat) + " kHz: ".spec_bytes() + decimal(txn as nat)
        + " txn, ".spec_bytes() + decimal(nack as nat) + " nack, ".spec_bytes()
        + decimal(corrupt as nat) + " corrupt  ".spec_bytes()
        + (if nack == 0 && corrupt == 0 { "OK\n".spec_bytes() } else { "FAIL\n".spec_bytes() })
}

/// Render the line of a finished sweep step.
pub fn step_line(khz: u16, txn: u16, nack: u16, corrupt: u16) -> (out: Vec<u8>)
    ensures
        out@ == step_text(khz, txn, nack, corrupt),
{
    let mut out: Vec<u8> = Vec::new();
    push_str(&mut out, "  ");
    let mut d = dec(khz);
    out.append(&mut d);
    push_str(&mut out, " kHz: ");
    let mut d = dec(txn);
    out.append(&mut d);
    push_str(&mut out, " txn, ");
    let mut d = dec(nack);
    out.append(&mut d);
    push_str(&mut out, " nack, ");
    let mut d = dec(corrupt);
    out.append(&mut d);
    push_str(&mut out, " corrupt  ");
    if nack == 0 && corrupt == 0 {
        push_str(&mut out, "OK\n");
    } else {
        push_str(&mut out, "FAIL\n");
    }
    out
}

/// The periodic soak line: elapsed seconds, cumulative reads (millions split off when nonzero),
/// NACKs + corruptions, the read rate, the latency range (when any read succeeded) and the verdict.
pub open spec fn report_text(r: SoakReport) -> Seq<u8> {
    "  [t=".spec_bytes() + decimal(r.secs as nat) + "s] txns=".spec_bytes()
        + (if r.txn_m > 0 { decimal(r.txn_m as nat) + "M ".spec_bytes() } else { Seq::empty() })
        + decimal(r.txn as nat) + "  err=".spec_bytes() + decimal(r.nack as nat) + "+".spec_bytes()
        + decimal(r.corrupt as nat) + "  rate=".spec_bytes() + decimal(r.rate as nat)
        + "/s  lat=".spec_bytes()
        + (if r.any_ok {
            decimal(r.lat_min as nat) + "-".spec_bytes() + decimal(r.lat_max as nat) + "us".spec_bytes()
        } else {
            "n/a".spec_bytes()
        })
        + (if r.clean { "  PASS\n".spec_bytes() } else { "  FAIL\n".spec_bytes() })
}

/// Render a soak report line.
#[verifier::spinoff_prover]
pub fn report(r: &SoakReport) -> (out: Vec<u8>)
    ensures
        out@ == report_text(*r),
{
    let mut out: Vec<u8> = Vec::new();
    push_str(&mut out, "  [t=");
    let mut d = dec32(r.secs);
    out.append(&mut d);
    push_str(&mut out, "s] txns=");
    if r.txn_m > 0 {
        let mut d = dec32(r.txn_m);
        out.append(&mut d);
        push_str(&mut out, "M ");
    }
    let mut d = dec32(r.txn);
    out.append(&mut d);
    push_str(&mut out, "  err=");
    let mut d = dec32(r.nack);
    out.append(&mut d);
    push_str(&mut out, "+");
    let mut d = dec32(r.corrupt);
    out.append(&mut d);
    push_str(&mut out, "  rate=");
    let mut d = dec32(r.rate);
    out.append(&mut d);
    push_str(&mut out, "/s  lat=");
    if r.any_ok {
        let mut d = dec(r.lat_min);
        out.append(&mut d);
        push_str(&mut out, "-");
        let mut d = dec(r.lat_max);
        out.append(&mut d);
        push_str(&mut out, "us");
    } else {
        push_str(&mut out, "n/a");
    }
    if r.clean {
        push_str(&mut out, "  PASS\n");
    } else {
        push_str(&mut out, "  FAIL\n");
    }
    out
}

} // verus!
