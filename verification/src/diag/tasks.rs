//! The diagnostic firmware's cooperative tasks and the blackboard they share. Each task's
//! decisions are a step from its state, the blackboard and what it just sampled to its next state
//! and the delay until it wants to run again; the caller samples the hardware and performs the
//! requested actions.
use vstd::prelude::*;
use crate::uart::{decimal, push_str, push_dec};
use vstd::string::StringSliceAdditionalSpecFns;

verus! {

/// What the firmware is doing. One button cycles Post → Margin → Soak → Post.
#[derive(Clone, Copy, PartialEq, Eq, Debug, Structural)]
pub enum Mode {
    Post,
    Margin,
    Soak,
}

/// The next mode in the one-button cycle.
pub open spec fn next_mode(m: Mode) -> Mode {
    match m {
        Mode::Post => Mode::Margin,
        Mode::Margin => Mode::Soak,
        Mode::Soak => Mode::Post,
    }
}

impl Mode {
    /// The next state in the one-button cycle.
    pub fn next(self) -> (m: Mode)
        ensures
            m == next_mode(self),
    {
        match self {
            Mode::Post => Mode::Margin,
            Mode::Margin => Mode::Soak,
            Mode::Soak => Mode::Post,
        }
    }

    /// Short label for the OLED / console.
    pub fn label(self) -> (s: &'static str)
        ensures
            s@ == (match self { Mode::Post => "POST"@, Mode::Margin => "I2C MARGIN"@, Mode::Soak => "I2C SOAK"@ }),
    {
        match self {
            Mode::Post => "POST",
            Mode::Margin => "I2C MARGIN",
            Mode::Soak => "I2C SOAK",
        }
    }
}

/// Three presses of the button bring any mode back to itself, each press moving to a different
/// mode.
pub proof fn button_cycle_has_period_three(m: Mode)
    ensures
        next_mode(next_mode(next_mode(m))) == m,
        next_mode(m) != m,
        next_mode(next_mode(m)) != m,
{
}

/// The cross-task blackboard handed to every task.
pub struct Cx {
    /// Any motion seen since the last POST report.
    pub radar_seen: bool,
    /// Rising edges counted since the last POST report.
    pub radar_edges: u16,
    /// Latest APDS-9960 proximity; `None` if absent / not yet valid.
    pub apds_prox: Option<u8>,
    /// Current mode.
    pub mode: Mode,
    /// Latest POST verdict.
    pub post_ok: bool,
    /// Devices present in the latest POST.
    pub post_present: u16,
    /// Registry size in the latest POST.
    pub post_total: u16,
    /// Whether the OLED took its last init.
    pub oled_ok: bool,
    /// Stress phase: 0 idle, 1 sweeping, 2 sweep done, 3 soaking.
    pub st_phase: u8,
    /// Current sweep step (kHz).
    pub st_khz: u16,
    /// Best clean clock found (kHz).
    pub st_max: u16,
    /// Soak elapsed seconds.
    pub st_secs: u32,
    /// Soak transactions, millions.
    pub st_txn_m: u32,
    /// Soak transactions, remainder.
    pub st_txn: u32,
    /// Soak errors (NACK + corrupt).
    pub st_err: u32,
}

impl Cx {
    /// The boot blackboard: POST mode, nothing seen, OLED assumed fine.
    pub fn new() -> (cx: Cx)
        ensures
            !cx.radar_seen && cx.radar_edges == 0 && cx.apds_prox is None && cx.mode == Mode::Post,
            !cx.post_ok && cx.post_present == 0 && cx.post_total == 0 && cx.oled_ok,
            cx.st_phase == 0 && cx.st_khz == 0 && cx.st_max == 0,
            cx.st_secs == 0 && cx.st_txn_m == 0 && cx.st_txn == 0 && cx.st_err == 0,
    {
        Cx {
            radar_seen: false,
            radar_edges: 0,
            apds_prox: None,
            mode: Mode::Post,
            post_ok: false,
            post_present: 0,
            post_total: 0,
            oled_ok: true,
            st_phase: 0,
            st_khz: 0,
            st_max: 0,
            st_secs: 0,
            st_txn_m: 0,
            st_txn: 0,
            st_err: 0,
        }
    }
}

/// Samples the radar OUT line and accumulates a motion window into the blackboard.
pub struct RadarTask {
    prev: bool,
}

/// Radar cadence while OUT is high.
pub const RADAR_FAST_MS: u32 = 5;
/// Radar cadence while OUT is idle.
pub const RADAR_IDLE_MS: u32 = 50;

impl RadarTask {
    /// The previous level.
    pub closed spec fn prev_level(&self) -> bool {
        self.prev
    }

    /// Idle (line previously low).
    pub fn new() -> (t: RadarTask)
        ensures
            !t.prev_level(),
    {
        RadarTask { prev: false }
    }

    /// One sample `hi` of the OUT line: a rising edge counts a trigger (saturating), any high
    /// level marks motion seen; sample fast while high, slowly while idle.
    pub fn step(&mut self, cx: &mut Cx, hi: bool) -> (delay: u32)
        ensures
            final(self).prev_level() == hi,
            *final(cx) == (Cx {
                radar_edges: if hi && !old(self).prev_level() {
                    if old(cx).radar_edges == u16::MAX { u16::MAX } else { (old(cx).radar_edges + 1) as u16 }
                } else {
                    old(cx).radar_edges
                },
                radar_seen: old(cx).radar_seen || hi,
                ..*old(cx)
            }),
            delay == (if hi { RADAR_FAST_MS } else { RADAR_IDLE_MS }),
    {
        if hi && !self.prev {
            cx.radar_edges = cx.radar_edges.saturating_add(1);
        }
        cx.radar_seen = cx.radar_seen || hi;
        self.prev = hi;
        if hi { RADAR_FAST_MS } else { RADAR_IDLE_MS }
    }
}

/// What the proximity task asks the caller to do next.
#[derive(Clone, Copy, PartialEq, Eq, Debug, Structural)]
pub enum ProxStep {
    /// Step finished; run again after this many ms.
    Done(u32),
    /// Power on + enable the sensor, then report with [`ProximityTask::enabled_result`].
    Enable,
    /// Read the latest sample, then report with [`ProximityTask::sample_result`].
    Sample,
    /// Probe the sensor's address, then report with [`ProximityTask::presence_result`].
    Probe,
}

/// Proximity cadence once running.
pub const PROX_RATE_MS: u32 = 200;
/// Proximity retry cadence while absent or paused.
pub const PROX_RETRY_MS: u32 = 1000;

/// Exercises the APDS-9960 proximity engine: enables it once (retrying while absent), then
/// samples into the blackboard; a failed read from an absent sensor re-arms the enable.
pub struct ProximityTask {
    enabled: bool,
}

impl ProximityTask {
    /// The engine has been enabled.
    pub closed spec fn is_enabled(&self) -> bool {
        self.enabled
    }

    /// Not yet enabled.
    pub fn new() -> (t: ProximityTask)
        ensures
            !t.is_enabled(),
    {
        ProximityTask { enabled: false }
    }

    /// Start a step: paused (no reading published) outside POST; else enable first if needed,
    /// then sample.
    pub fn begin(&mut self, cx: &mut Cx) -> (step: ProxStep)
        ensures
            *final(self) == *old(self),
            old(cx).mode != Mode::Post ==> step == ProxStep::Done(PROX_RETRY_MS)
                && *final(cx) == (Cx { apds_prox: None, ..*old(cx) }),
            old(cx).mode == Mode::Post ==> *final(cx) == *old(cx)
                && step == (if old(self).is_enabled() { ProxStep::Sample } else { ProxStep::Enable }),
    {
        if cx.mode != Mode::Post {
            cx.apds_prox = None;
            return ProxStep::Done(PROX_RETRY_MS);
        }
        if self.enabled { ProxStep::Sample } else { ProxStep::Enable }
    }

    /// The enable attempt's result: on success go on to sample; else still absent, back off.
    pub fn enabled_result(&mut self, cx: &mut Cx, ok: bool) -> (step: ProxStep)
        ensures
            ok ==> final(self).is_enabled() && *final(cx) == *old(cx) && step == ProxStep::Sample,
            !ok ==> *final(self) == *old(self) && *final(cx) == (Cx { apds_prox: None, ..*old(cx) })
                && step == ProxStep::Done(PROX_RETRY_MS),
    {
        if ok {
            self.enabled = true;
            ProxStep::Sample
        } else {
            cx.apds_prox = None;
            ProxStep::Done(PROX_RETRY_MS)
        }
    }

    /// The sample's result: a value is published; no value means "not ready" or "gone", which a
    /// presence probe tells apart.
    pub fn sample_result(&mut self, cx: &mut Cx, v: Option<u8>) -> (step: ProxStep)
        ensures
            *final(self) == *old(self),
            *final(cx) == (Cx { apds_prox: v, ..*old(cx) }),
            step == (if v is Some { ProxStep::Done(PROX_RATE_MS) } else { ProxStep::Probe }),
    {
        cx.apds_prox = v;
        match v {
            Some(_) => ProxStep::Done(PROX_RATE_MS),
            None => ProxStep::Probe,
        }
    }

    /// The probe's result: present but not valid this instant keeps the rate; absent (unplugged)
    /// re-arms the enable and backs off.
    pub fn presence_result(&mut self, present: bool) -> (delay: u32)
        ensures
            present ==> *final(self) == *old(self) && delay == PROX_RATE_MS,
            !present ==> !final(self).is_enabled() && delay == PROX_RETRY_MS,
    {
        if present {
            PROX_RATE_MS
        } else {
            self.enabled = false;
            PROX_RETRY_MS
        }
    }
}

/// The POST report of the window accumulated since the previous pass.
#[derive(Clone, Copy, PartialEq, Eq, Debug, Structural)]
pub struct PostReport {
    pub oled_ok: bool,
    pub radar_seen: bool,
    pub radar_edges: u16,
    pub apds_prox: Option<u8>,
}

/// The periodic self-test (fixed ~3 s cadence).
pub struct PostTask;

/// POST idle cadence while a stress mode runs.
pub const POST_IDLE_MS: u32 = 3000;

impl PostTask {
    /// Only the live POST runs the scan/verdict; stress modes take over the bus.
    pub fn active(cx: &Cx) -> (b: bool)
        ensures
            b == (cx.mode == Mode::Post),
    {
        cx.mode == Mode::Post
    }

    /// Publish a pass's verdict for the display, snapshot the window for the report, and clear
    /// the latching radar window.
    pub fn finish(cx: &mut Cx, ok: bool, present: u16, total: u16) -> (r: PostReport)
        ensures
            r == (PostReport {
                oled_ok: old(cx).oled_ok,
                radar_seen: old(cx).radar_seen,
                radar_edges: old(cx).radar_edges,
                apds_prox: old(cx).apds_prox,
            }),
            *final(cx) == (Cx {
                post_ok: ok,
                post_present: present,
                post_total: total,
                radar_seen: false,
                radar_edges: 0,
                ..*old(cx)
            }),
    {
        cx.post_ok = ok;
        cx.post_present = present;
        cx.post_total = total;
        let r = PostReport {
            oled_ok: cx.oled_ok,
            radar_seen: cx.radar_seen,
            radar_edges: cx.radar_edges,
            apds_prox: cx.apds_prox,
        };
        cx.radar_seen = false;
        cx.radar_edges = 0;
        r
    }
}

/// The one physical button: each press edge advances the mode one step.
pub struct ButtonTask {
    prev: bool,
}

/// Button scan interval (the debounce).
pub const BUTTON_MS: u32 = 25;

impl ButtonTask {
    /// The previous level.
    pub closed spec fn prev_level(&self) -> bool {
        self.prev
    }

    /// Released.
    pub fn new() -> (t: ButtonTask)
        ensures
            !t.prev_level(),
    {
        ButtonTask { prev: false }
    }

    /// One sample of the button (`true` = held). Only a press edge acts: it advances the mode and
    /// tells the stress runner a fresh run is starting. Returns whether the mode changed.
    pub fn step(&mut self, cx: &mut Cx, pressed: bool) -> (changed: bool)
        ensures
            final(self).prev_level() == pressed,
            changed == (pressed && !old(self).prev_level()),
            changed ==> *final(cx) == (Cx { mode: next_mode(old(cx).mode), st_phase: 0, ..*old(cx) }),
            !changed ==> *final(cx) == *old(cx),
    {
        let edge = pressed && !self.prev;
        self.prev = pressed;
        if edge {
            cx.mode = cx.mode.next();
            cx.st_phase = 0;
        }
        edge
    }
}

/// One line of the status screen: the page, its text, and whether the rest of the row is wiped
/// (so a shrinking value leaves no stale glyphs).
pub struct UiLine {
    pub page: u8,
    pub text: Vec<u8>,
    pub clear_eol: bool,
}

/// A line as a value.
pub open spec fn line_view(l: UiLine) -> (u8, Seq<u8>, bool) {
    (l.page, l.text@, l.clear_eol)
}

/// The status screen for the blackboard `cx`, line by line.
pub open spec fn screen(cx: Cx) -> Seq<(u8, Seq<u8>, bool)> {
    match cx.mode {
        Mode::Post => seq![
            (0u8, "POST".spec_bytes(), false),
            (1u8, "FOUND ".spec_bytes() + decimal(cx.post_present as nat) + "/".spec_bytes()
                + decimal(cx.post_total as nat), true),
            (3u8, if cx.post_ok { "OK".spec_bytes() } else { "FAULT".spec_bytes() }, false),
        ],
        Mode::Margin => seq![
            (0u8, "I2C MARGIN".spec_bytes(), false),
            if cx.st_phase >= 2 {
                (2u8, "MAX:".spec_bytes() + decimal(cx.st_max as nat) + "KHZ".spec_bytes(), true)
            } else {
                (2u8, "SWEEP ".spec_bytes() + decimal(cx.st_khz as nat) + "K".spec_bytes(), true)
            },
        ],
        Mode::Soak => seq![
            (0u8, "I2C SOAK".spec_bytes(), false),
            (1u8, "T=".spec_bytes() + decimal(cx.st_secs as nat) + "S".spec_bytes(), true),
            (2u8, "N=".spec_bytes()
                + (if cx.st_txn_m > 0 { decimal(cx.st_txn_m as nat) + "M".spec_bytes() } else { Seq::empty() })
                + decimal(cx.st_txn as nat), true),
            (3u8, "ERR=".spec_bytes() + decimal(cx.st_err as nat)
                + (if cx.st_err == 0 { " PASS".spec_bytes() } else { " FAIL".spec_bytes() }), true),
        ],
    }
}

fn line(page: u8, text: Vec<u8>, clear_eol: bool) -> (l: UiLine)
    ensures
        line_view(l) == (page, text@, clear_eol),
{
    UiLine { page, text, clear_eol }
}

fn post_lines(cx: &Cx) -> (lines: Vec<UiLine>)
    requires
        cx.mode == Mode::Post,
    ensures
        lines@.map_values(|l: UiLine| line_view(l)) == screen(*cx),
{
    let mut lines: Vec<UiLine> = Vec::new();
    let mut t0: Vec<u8> = Vec::new();
    push_str(&mut t0, "POST");
    lines.push(line(0, t0, false));
    let mut t1: Vec<u8> = Vec::new();
    push_str(&mut t1, "FOUND ");
    push_dec(&mut t1, cx.post_present as u32);
    push_str(&mut t1, "/");
    push_dec(&mut t1, cx.post_total as u32);
    lines.push(line(1, t1, true));
    let mut t3: Vec<u8> = Vec::new();
    push_str(&mut t3, if cx.post_ok { "OK" } else { "FAULT" });
    lines.push(line(3, t3, false));
    assert(lines@.map_values(|l: UiLine| line_view(l)) =~= screen(*cx));
    lines
}

fn margin_lines(cx: &Cx) -> (lines: Vec<UiLine>)
    requires
        cx.mode == Mode::Margin,
    ensures
        lines@.map_values(|l: UiLine| line_view(l)) == screen(*cx),
{
    let mut lines: Vec<UiLine> = Vec::new();
    let mut t0: Vec<u8> = Vec::new();
    push_str(&mut t0, "I2C MARGIN");
    lines.push(line(0, t0, false));
    let mut t2: Vec<u8> = Vec::new();
    if cx.st_phase >= 2 {
        push_str(&mut t2, "MAX:");
        push_dec(&mut t2, cx.st_max as u32);
        push_str(&mut t2, "KHZ");
    } else {
        push_str(&mut t2, "SWEEP ");
        push_dec(&mut t2, cx.st_khz as u32);
        push_str(&mut t2, "K");
    }
    lines.push(line(2, t2, true));
    assert(lines@.map_values(|l: UiLine| line_view(l)) =~= screen(*cx));
    lines
}

fn soak_lines(cx: &Cx) -> (lines: Vec<UiLine>)
    requires
        cx.mode == Mode::Soak,
    ensures
        lines@.map_values(|l: UiLine| line_view(l)) == screen(*cx),
{
    let mut lines: Vec<UiLine> = Vec::new();
    let mut t0: Vec<u8> = Vec::new();
    push_str(&mut t0, "I2C SOAK");
    lines.push(line(0, t0, false));
    let mut t1: Vec<u8> = Vec::new();
    push_str(&mut t1, "T=");
    push_dec(&mut t1, cx.st_secs);
    push_str(&mut t1, "S");
    lines.push(line(1, t1, true));
    let mut t2: Vec<u8> = Vec::new();
    push_str(&mut t2, "N=");
    if cx.st_txn_m > 0 {
        push_dec(&mut t2, cx.st_txn_m);
        push_str(&mut t2, "M");
    }
    push_dec(&mut t2, cx.st_txn);
    assert(t2@ =~= "N=".spec_bytes()
        + (if cx.st_txn_m > 0 { decimal(cx.st_txn_m as nat) + "M".spec_bytes() } else { Seq::empty() })
        + decimal(cx.st_txn as nat));
    lines.push(line(2, t2, true));
    let mut t3: Vec<u8> = Vec::new();
    push_str(&mut t3, "ERR=");
    push_dec(&mut t3, cx.st_err);
    push_str(&mut t3, if cx.st_err == 0 { " PASS" } else { " FAIL" });
    lines.push(line(3, t3, true));
    assert(lines@.map_values(|l: UiLine| line_view(l)) =~= screen(*cx));
    lines
}

/// Build the status screen for the current blackboard.
pub fn render(cx: &Cx) -> (lines: Vec<UiLine>)
    ensures
        lines@.map_values(|l: UiLine| line_view(l)) == screen(*cx),
{
    match cx.mode {
        Mode::Post => post_lines(cx),
        Mode::Margin => margin_lines(cx),
        Mode::Soak => soak_lines(cx),
    }
}

/// What the display owner asks the caller to draw.
pub enum UiAction {
    /// First run: init the panel and fill it fully on (the raw-driver self-test); run again in
    /// 200 ms.
    Boot,
    /// Keep the self-test pattern up; run again in 100 ms.
    Hold,
    /// Draw the lines (after re-initialising and clearing the panel when `reinit`); run again in
    /// 200 ms.
    Draw { reinit: bool, lines: Vec<UiLine> },
}

impl UiAction {
    /// Delay (ms) before the display task runs again after this action.
    pub fn rerun_ms(&self) -> (ms: u32)
        ensures
            ms == (match self {
                UiAction::Hold => 100u32,
                _ => 200u32,
            }),
    {
        match self {
            UiAction::Hold => 100,
            _ => 200,
        }
    }
}

/// Boot self-test duration (ms).
pub const UI_BOOT_HOLD_MS: u32 = 1500;

/// Sole owner of the OLED: renders the current state as a status screen, after a boot self-test
/// that lights the whole panel for ~1.5 s.
pub struct UiTask {
    screen: Option<Mode>,
    started: bool,
    boot_end: u32,
}

impl UiTask {
    /// The mode last rendered (`None` until the first draw).
    pub closed spec fn shown(&self) -> Option<Mode> {
        self.screen
    }

    /// The self-test has started.
    pub closed spec fn is_started(&self) -> bool {
        self.started
    }

    /// When the self-test pattern ends.
    pub closed spec fn boot_end_at(&self) -> u32 {
        self.boot_end
    }

    /// Not started, nothing shown.
    pub fn new() -> (t: UiTask)
        ensures
            !t.is_started(),
            t.shown() is None,
    {
        UiTask { screen: None, started: false, boot_end: 0 }
    }

    /// One refresh at time `now`: the boot self-test first, then the status screen, re-initialising
    /// the panel whenever the mode changes.
    pub fn step(&mut self, cx: &Cx, now: u32) -> (a: UiAction)
        ensures
            !old(self).is_started() ==> a is Boot && final(self).is_started()
                && final(self).boot_end_at() == vstd::wrapping::u32_specs::wrapping_add(now, UI_BOOT_HOLD_MS)
                && final(self).shown() == old(self).shown(),
            old(self).is_started() && now < old(self).boot_end_at() ==> a is Hold && *final(self) == *old(self),
            old(self).is_started() && now >= old(self).boot_end_at() ==> {
                &&& final(self).shown() == Some(cx.mode)
                &&& final(self).is_started()
                &&& final(self).boot_end_at() == old(self).boot_end_at()
                &&& match a {
                    UiAction::Draw { reinit, lines } => reinit == (old(self).shown() != Some(cx.mode))
                        && lines@.map_values(|l: UiLine| line_view(l)) == screen(*cx),
                    _ => false,
                }
            },
    {
        if !self.started {
            self.started = true;
            self.boot_end = now.wrapping_add(UI_BOOT_HOLD_MS);
            return UiAction::Boot;
        }
        if now < self.boot_end {
            return UiAction::Hold;
        }
        let mode = cx.mode;
        let entering = match self.screen {
            Some(m) => m != mode,
            None => true,
        };
        if entering {
            self.screen = Some(mode);
        }
        UiAction::Draw { reinit: entering, lines: render(cx) }
    }
}

/// A count as the scheduler statistics show it: capped at 65535.
pub open spec fn capped(v: u32) -> nat {
    if v > 65535 { 65535 } else { v as nat }
}

/// One task's entry of the periodic scheduler statistics line: its name, worst lateness and
/// overrun count, each capped at 65535.
pub open spec fn sched_entry_text(name: Seq<u8>, late: u32, overruns: u32) -> Seq<u8> {
    " ".spec_bytes() + name + "(late".spec_bytes() + decimal(capped(late)) + "ms ovr".spec_bytes()
        + decimal(capped(overruns)) + ")".spec_bytes()
}

/// Render one task's entry of the scheduler statistics line.
pub fn sched_entry(name: &str, late: u32, overruns: u32) -> (out: Vec<u8>)
    ensures
        out@ == sched_entry_text(name.spec_bytes(), late, overruns),
{
    let mut out: Vec<u8> = Vec::new();
    push_str(&mut out, " ");
    push_str(&mut out, name);
    push_str(&mut out, "(late");
    push_dec(&mut out, if late > 65535 { 65535 } else { late });
    push_str(&mut out, "ms ovr");
    push_dec(&mut out, if overruns > 65535 { 65535 } else { overruns });
    push_str(&mut out, ")");
    assert(out@ =~= sched_entry_text(name.spec_bytes(), late, overruns));
    out
}

} // verus!
