//! The power-on self-test: the registry of expected devices (presence plus an optional
//! WHO_AM_I), the ordered bag of one-shot tests and the verdict of each test.
use vstd::prelude::*;
use crate::devices::mc6470::Accel;
use crate::devices::si7021::Reading;
use crate::uart::{decimal, dec, hex8, hex_digit, push_str};
use vstd::string::StringSliceAdditionalSpecFns;

verus! {

/// `id_reg == NO_ID`: presence only.
pub const NO_ID: u8 = 0xFF;
/// Registry size.
pub const DEVICE_COUNT: usize = 7;
/// Number of tests in the bag.
pub const TEST_COUNT: usize = 4;

/// A known device: address and an optional WHO_AM_I register with its expected value.
#[derive(Clone, Copy, Debug)]
pub struct Dev {
    /// Label (padded for the report column).
    pub name: &'static str,
    /// 7-bit address.
    pub addr: u8,
    /// WHO_AM_I register or [`NO_ID`].
    pub id_reg: u8,
    /// Expected WHO_AM_I value.
    pub id_val: u8,
}

/// Address of registry entry `i`.
pub open spec fn dev_addr(i: int) -> u8 {
    if i == 0 { 0x3C } else if i == 1 { 0x29 } else if i == 2 { 0x39 } else if i == 3 { 0x4C }
    else if i == 4 { 0x0C } else if i == 5 { 0x60 } else { 0x40 }
}

/// WHO_AM_I register and value of registry entry `i`.
pub open spec fn dev_id(i: int) -> (u8, u8) {
    if i == 1 { (0xC0, 0xEE) } else if i == 2 { (0x92, 0xAB) } else { (NO_ID, 0x00) }
}

/// The self-test registry agrees with the drivers: each entry sits at its driver's bus address,
/// the VL53L0X and APDS-9960 entries check the drivers' identity registers against their
/// identity values, the other entries are checked for presence only, and no two entries share
/// an address.
pub proof fn registry_matches_the_drivers()
    ensures
        dev_addr(0) == crate::diag::ssd1306_raw::ADDR,
        dev_addr(1) == crate::devices::vl53l0x::ADDR,
        dev_addr(2) == crate::devices::apds9960::ADDR,
        dev_addr(3) == crate::devices::mc6470::ADDR,
        dev_addr(4) == crate::devices::mc6470::MAG_ADDR,
        dev_addr(6) == crate::devices::si7021::ADDR,
        dev_id(1) == (crate::devices::vl53l0x::REG_MODEL_ID, crate::devices::vl53l0x::MODEL_ID),
        dev_id(2).0 == crate::devices::apds9960::ID,
        dev_id(2).1 == 0xAB,
        forall|i: int| 0 <= i < DEVICE_COUNT && i != 1 && i != 2 ==> #[trigger] dev_id(i).0 == NO_ID,
        forall|i: int, j: int| 0 <= i < j < DEVICE_COUNT ==> dev_addr(i) != dev_addr(j),
{
}

/// Registry entry `i`.
pub fn device(i: usize) -> (d: Dev)
    requires
        i < DEVICE_COUNT,
    ensures
        d.addr == dev_addr(i as int),
        (d.id_reg, d.id_val) == dev_id(i as int),
{
    if i == 0 {
        Dev { name: "SSD1306 OLED  ", addr: 0x3C, id_reg: NO_ID, id_val: 0x00 }
    } else if i == 1 {
        Dev { name: "VL53L0X ToF   ", addr: 0x29, id_reg: 0xC0, id_val: 0xEE }
    } else if i == 2 {
        Dev { name: "APDS-9960     ", addr: 0x39, id_reg: 0x92, id_val: 0xAB }
    } else if i == 3 {
        Dev { name: "MC6470 accel  ", addr: 0x4C, id_reg: NO_ID, id_val: 0x00 }
    } else if i == 4 {
        Dev { name: "MC6470 mag    ", addr: 0x0C, id_reg: NO_ID, id_val: 0x00 }
    } else if i == 5 {
        Dev { name: "IS31FL3730 LED", addr: 0x60, id_reg: NO_ID, id_val: 0x00 }
    } else {
        Dev { name: "Si7021 T/RH   ", addr: 0x40, id_reg: NO_ID, id_val: 0x00 }
    }
}

/// Is this address one of the expected devices? A scan hit that is not is configuration drift.
pub fn is_expected(addr: u8) -> (b: bool)
    ensures
        b == exists|i: int| 0 <= i < DEVICE_COUNT && dev_addr(i) == addr,
{
    let mut i: usize = 0;
    while i < DEVICE_COUNT
        invariant
            i <= DEVICE_COUNT,
            forall|j: int| 0 <= j < i ==> dev_addr(j) != addr,
        decreases DEVICE_COUNT - i,
    {
        if device(i).addr == addr {
            return true;
        }
        i = i + 1;
    }
    false
}

/// The verdict of one test.
#[derive(Clone, Copy, PartialEq, Eq, Debug, Structural)]
pub enum Outcome {
    Pass,
    Fail,
    /// Device absent / not applicable: reported, does not fail the verdict.
    Skip,
}

/// Number of tests in the bag.
pub fn test_count() -> (n: usize)
    ensures
        n == TEST_COUNT,
{
    TEST_COUNT
}

/// Name of test `i`, in run order.
pub open spec fn test_label(i: int) -> Seq<char> {
    if i == 0 { "bus scan"@ } else if i == 1 { "device inventory"@ }
    else if i == 2 { "MC6470 gravity"@ } else { "Si7021 T/RH"@ }
}

/// The short name of test `i`.
pub fn test_name(i: usize) -> (s: &'static str)
    requires
        i < TEST_COUNT,
    ensures
        s@ == test_label(i as int),
{
    if i == 0 { "bus scan" } else if i == 1 { "device inventory" }
    else if i == 2 { "MC6470 gravity" } else { "Si7021 T/RH" }
}

/// Bus scan: Fail if any unexpected address ACKed.
pub fn scan_outcome(unexpected: u16) -> (o: Outcome)
    ensures
        o == (if unexpected > 0 { Outcome::Fail } else { Outcome::Pass }),
{
    if unexpected > 0 { Outcome::Fail } else { Outcome::Pass }
}

/// What the inventory found for one registry entry.
#[derive(Clone, Copy, PartialEq, Eq, Debug, Structural)]
pub enum DevCheck {
    /// The address did not ACK.
    Absent,
    /// ACKed; presence-only entry.
    Present,
    /// ACKed but the WHO_AM_I read failed.
    IdReadFailed,
    /// ACKed with the expected WHO_AM_I.
    IdOk(u8),
    /// ACKed with a wrong WHO_AM_I.
    IdMismatch(u8),
}

/// Classify one registry entry from its probe and, when it has an ID register, the ID read.
pub fn check_device(d: Dev, acked: bool, id: Option<u8>) -> (c: DevCheck)
    ensures
        c == (if !acked {
            DevCheck::Absent
        } else if d.id_reg == NO_ID {
            DevCheck::Present
        } else {
            match id {
                None => DevCheck::IdReadFailed,
                Some(v) => if v == d.id_val { DevCheck::IdOk(v) } else { DevCheck::IdMismatch(v) },
            }
        }),
{
    if !acked {
        DevCheck::Absent
    } else if d.id_reg == NO_ID {
        DevCheck::Present
    } else {
        match id {
            None => DevCheck::IdReadFailed,
            Some(v) => if v == d.id_val { DevCheck::IdOk(v) } else { DevCheck::IdMismatch(v) },
        }
    }
}

/// Running inventory: devices that ACKed, registry size, and present-but-broken devices.
pub struct Inventory {
    pub present: u16,
    pub total: u16,
    pub faults: u16,
}

impl Inventory {
    /// An empty inventory over the whole registry.
    pub fn new() -> (inv: Inventory)
        ensures
            inv.present == 0 && inv.total == DEVICE_COUNT && inv.faults == 0,
    {
        Inventory { present: 0, total: DEVICE_COUNT as u16, faults: 0 }
    }

    /// Count one registry entry's check: anything not absent is present; a failed or mismatched
    /// ID read is a fault.
    pub fn record(&mut self, c: DevCheck)
        requires
            old(self).present < u16::MAX,
            old(self).faults < u16::MAX,
        ensures
            final(self).total == old(self).total,
            final(self).present == old(self).present + (if c == DevCheck::Absent { 0u16 } else { 1u16 }),
            final(self).faults == old(self).faults + (match c {
                DevCheck::IdReadFailed | DevCheck::IdMismatch(_) => 1u16,
                _ => 0u16,
            }),
    {
        match c {
            DevCheck::Absent => {},
            DevCheck::Present | DevCheck::IdOk(_) => {
                self.present = self.present + 1;
            },
            DevCheck::IdReadFailed | DevCheck::IdMismatch(_) => {
                self.present = self.present + 1;
                self.faults = self.faults + 1;
            },
        }
    }

    /// The inventory fails when any device that answered is faulty.
    pub fn outcome(&self) -> (o: Outcome)
        ensures
            o == (if self.faults > 0 { Outcome::Fail } else { Outcome::Pass }),
    {
        if self.faults > 0 { Outcome::Fail } else { Outcome::Pass }
    }
}

/// Reads of the accelerometer allowed for it to wake before the gravity test is skipped.
pub const WAKE_READS: u8 = 64;

/// What the gravity test does after one read of the accelerometer.
#[derive(Debug, Clone, Copy, PartialEq, Eq, Structural)]
pub enum WakeStep {
    /// Still asleep (every axis zero) with reads left: read again.
    Again,
    /// A woken sample: check it.
    Check(Accel),
    /// The read failed: the test fails.
    ReadFailed,
    /// Still asleep after the last allowed read: the test is skipped.
    Asleep,
}

/// Decide after read number `reads` (counting from 1) of the accelerometer, given its outcome
/// (`None` for a failed read).
pub fn wake_step(reads: u8, sample: Option<Accel>) -> (w: WakeStep)
    requires
        1 <= reads <= WAKE_READS,
    ensures
        w == (match sample {
            None => WakeStep::ReadFailed,
            Some(a) => if a.x != 0 || a.y != 0 || a.z != 0 {
                WakeStep::Check(a)
            } else if reads < WAKE_READS {
                WakeStep::Again
            } else {
                WakeStep::Asleep
            },
        }),
{
    match sample {
        None => WakeStep::ReadFailed,
        Some(a) => if a.awake_axes() != 0 {
            WakeStep::Check(a)
        } else if reads < WAKE_READS {
            WakeStep::Again
        } else {
            WakeStep::Asleep
        },
    }
}

/// Gravity test: Skip when the accelerometer is absent or not yet awake; Pass/Fail on the check.
pub fn gravity_outcome(acked: bool, check: Option<bool>) -> (o: Outcome)
    ensures
        o == (if !acked { Outcome::Skip } else {
            match check { Some(true) => Outcome::Pass, Some(false) => Outcome::Fail, None => Outcome::Skip }
        }),
{
    if !acked {
        return Outcome::Skip;
    }
    match check {
        Some(true) => Outcome::Pass,
        Some(false) => Outcome::Fail,
        None => Outcome::Skip,
    }
}

/// A T/RH reading is sane: its CRCs pass and both values lie within the sensor's operating
/// envelope (-40..+125 °C, 0..100 %RH).
pub open spec fn sane(r: Reading) -> bool {
    r.crc_ok && -4000 < r.temp_c_centi < 12500 && 0 <= r.rh_centi <= 10000
}

/// T/RH test: Skip when absent; Fail when the read failed or the reading is not sane.
pub fn temphum_outcome(acked: bool, reading: Option<Reading>) -> (o: Outcome)
    ensures
        o == (if !acked { Outcome::Skip } else {
            match reading { Some(r) => if sane(r) { Outcome::Pass } else { Outcome::Fail }, None => Outcome::Fail }
        }),
{
    if !acked {
        return Outcome::Skip;
    }
    match reading {
        Some(r) => {
            if r.crc_ok && r.temp_c_centi > -4000 && r.temp_c_centi < 12500 && 0 <= r.rh_centi && r.rh_centi <= 10000 {
                Outcome::Pass
            } else {
                Outcome::Fail
            }
        },
        None => Outcome::Fail,
    }
}

/// Pass / fail / skip counts of a POST pass.
pub struct Tally {
    pub pass: u16,
    pub fail: u16,
    pub skip: u16,
}

impl Tally {
    /// No test run yet.
    pub fn new() -> (t: Tally)
        ensures
            t.pass == 0 && t.fail == 0 && t.skip == 0,
    {
        Tally { pass: 0, fail: 0, skip: 0 }
    }

    /// Count one outcome.
    pub fn record(&mut self, o: Outcome)
        requires
            old(self).pass < u16::MAX && old(self).fail < u16::MAX && old(self).skip < u16::MAX,
        ensures
            final(self).pass == old(self).pass + (if o == Outcome::Pass { 1u16 } else { 0u16 }),
            final(self).fail == old(self).fail + (if o == Outcome::Fail { 1u16 } else { 0u16 }),
            final(self).skip == old(self).skip + (if o == Outcome::Skip { 1u16 } else { 0u16 }),
    {
        match o {
            Outcome::Pass => self.pass = self.pass + 1,
            Outcome::Fail => self.fail = self.fail + 1,
            Outcome::Skip => self.skip = self.skip + 1,
        }
    }

    /// The pass is OK when no test failed (skips do not fail it).
    pub fn ok(&self) -> (b: bool)
        ensures
            b == (self.fail == 0),
    {
        self.fail == 0
    }
}

/// The closing line of a POST pass: the passed count, then the failed and skipped counts where
/// they are not zero.
pub open spec fn summary_text(pass: u16, fail: u16, skip: u16) -> Seq<u8> {
    "summary: ".spec_bytes() + decimal(pass as nat) + " passed".spec_bytes()
        + (if fail > 0 { ", ".spec_bytes() + decimal(fail as nat) + " FAILED".spec_bytes() } else { Seq::empty() })
        + (if skip > 0 { ", ".spec_bytes() + decimal(skip as nat) + " skipped".spec_bytes() } else { Seq::empty() })
        + "\n".spec_bytes()
}

/// Render the summary line of a pass.
pub fn summary(pass: u16, fail: u16, skip: u16) -> (out: Vec<u8>)
    ensures
        out@ == summary_text(pass, fail, skip),
{
    let mut out: Vec<u8> = Vec::new();
    push_str(&mut out, "summary: ");
    let mut d = dec(pass);
    out.append(&mut d);
    push_str(&mut out, " passed");
    if fail > 0 {
        push_str(&mut out, ", ");
        let mut d = dec(fail);
        out.append(&mut d);
        push_str(&mut out, " FAILED");
    }
    if skip > 0 {
        push_str(&mut out, ", ");
        let mut d = dec(skip);
        out.append(&mut d);
        push_str(&mut out, " skipped");
    }
    push_str(&mut out, "\n");
    out
}

/// Two upper-case hex digits of `v`.
pub open spec fn hex2(v: u8) -> Seq<u8> {
    seq![hex_digit(v as int / 16), hex_digit(v as int % 16)]
}

/// The inventory line of device `d` with its check result.
pub open spec fn device_text(d: Dev, c: DevCheck) -> Seq<u8> {
    "  ".spec_bytes() + d.name.spec_bytes() + " @0x".spec_bytes() + hex2(d.addr) + ": ".spec_bytes()
        + match c {
        DevCheck::Absent => "absent\n".spec_bytes(),
        DevCheck::Present => "present\n".spec_bytes(),
        DevCheck::IdReadFailed => "present, id-read FAILED\n".spec_bytes(),
        DevCheck::IdOk(v) => "id=".spec_bytes() + hex2(v) + " OK\n".spec_bytes(),
        DevCheck::IdMismatch(v) => "id=".spec_bytes() + hex2(v) + " MISMATCH want=".spec_bytes()
            + hex2(d.id_val) + "\n".spec_bytes(),
    }
}

/// Render the inventory line of one device.
pub fn device_line(d: Dev, c: DevCheck) -> (out: Vec<u8>)
    ensures
        out@ == device_text(d, c),
{
    let mut out: Vec<u8> = Vec::new();
    push_str(&mut out, "  ");
    push_str(&mut out, d.name);
    push_str(&mut out, " @0x");
    let mut h = hex8(d.addr);
    out.append(&mut h);
    push_str(&mut out, ": ");
    match c {
        DevCheck::Absent => push_str(&mut out, "absent\n"),
        DevCheck::Present => push_str(&mut out, "present\n"),
        DevCheck::IdReadFailed => push_str(&mut out, "present, id-read FAILED\n"),
        DevCheck::IdOk(v) => {
            push_str(&mut out, "id=");
            let mut h = hex8(v);
            out.append(&mut h);
            push_str(&mut out, " OK\n");
        },
        DevCheck::IdMismatch(v) => {
            push_str(&mut out, "id=");
            let mut h = hex8(v);
            out.append(&mut h);
            push_str(&mut out, " MISMATCH want=");
            let mut h = hex8(d.id_val);
            out.append(&mut h);
            push_str(&mut out, "\n");
        },
    }
    out
}

/// The end of the scan line: "(none)" when nothing answered, the count of unexpected
/// addresses when there are any.
pub open spec fn scan_tail_text(found: u16, unexpected: u16) -> Seq<u8> {
    (if found == 0 { " (none)".spec_bytes() } else { Seq::empty() })
        + (if unexpected > 0 { "  (".spec_bytes() + decimal(unexpected as nat) + " UNEXPECTED)".spec_bytes() } else { Seq::empty() })
        + "\n".spec_bytes()
}

/// Render the end of the scan line.
pub fn scan_tail(found: u16, unexpected: u16) -> (out: Vec<u8>)
    ensures
        out@ == scan_tail_text(found, unexpected),
{
    let mut out: Vec<u8> = Vec::new();
    if found == 0 {
        push_str(&mut out, " (none)");
    }
    if unexpected > 0 {
        push_str(&mut out, "  (");
        let mut d = dec(unexpected);
        out.append(&mut d);
        push_str(&mut out, " UNEXPECTED)");
    }
    push_str(&mut out, "\n");
    out
}

/// One scan hit: " 0x" and the address, flagged with "?" when it is not in the registry.
pub open spec fn scan_hit_text(a: u8, expected: bool) -> Seq<u8> {
    " 0x".spec_bytes() + hex2(a) + (if expected { Seq::empty() } else { "?".spec_bytes() })
}

/// Render one scan hit.
pub fn scan_hit(a: u8) -> (out: Vec<u8>)
    ensures
        out@ == scan_hit_text(a, exists|i: int| 0 <= i < DEVICE_COUNT && dev_addr(i) == a),
{
    let mut out: Vec<u8> = Vec::new();
    push_str(&mut out, " 0x");
    let mut h = hex8(a);
    out.append(&mut h);
    if !is_expected(a) {
        push_str(&mut out, "?");
    }
    out
}

/// First address the bus scan probes.
pub const SCAN_FIRST: u8 = 0x08;
/// Number of addresses the bus scan probes (0x08 to 0x77).
pub const SCAN_COUNT: usize = 112;

/// Whether `a` is a registry device's address.
pub open spec fn expected_addr(a: u8) -> bool {
    exists|i: int| 0 <= i < DEVICE_COUNT && dev_addr(i) == a
}

/// Addresses that answered among the first `k` probes.
pub open spec fn found_count(acks: Seq<bool>, k: int) -> int
    decreases k,
{
    if k <= 0 { 0 } else { found_count(acks, k - 1) + (if acks[k - 1] { 1int } else { 0int }) }
}

/// Answering addresses outside the registry among the first `k` probes.
pub open spec fn unexpected_count(acks: Seq<bool>, k: int) -> int
    decreases k,
{
    if k <= 0 {
        0
    } else {
        unexpected_count(acks, k - 1) + (if acks[k - 1] && !expected_addr((SCAN_FIRST + k - 1) as u8) { 1int } else { 0int })
    }
}

/// The hits of the first `k` probes, in address order.
pub open spec fn hits_text(acks: Seq<bool>, k: int) -> Seq<u8>
    decreases k,
{
    if k <= 0 {
        Seq::empty()
    } else {
        let a = (SCAN_FIRST + k - 1) as u8;
        hits_text(acks, k - 1) + (if acks[k - 1] { scan_hit_text(a, expected_addr(a)) } else { Seq::empty() })
    }
}

/// What the bus scan made of the probe answers: the scan line (the hits, then its end) and the
/// number of unexpected devices.
pub struct ScanResult {
    pub line: Vec<u8>,
    pub unexpected: u16,
}

/// Tally the scan's probe answers (`acks[k]` for address 0x08 + `k`): every answering address is
/// listed (marked `?` when it is not a registry device), then the line's end with the count of
/// unexpected ones; the outcome fails on any unexpected device.
pub fn scan_result(acks: &[bool]) -> (r: ScanResult)
    requires
        acks@.len() == SCAN_COUNT,
    ensures
        r.line@ == hits_text(acks@, SCAN_COUNT as int)
            + scan_tail_text(found_count(acks@, SCAN_COUNT as int) as u16, unexpected_count(acks@, SCAN_COUNT as int) as u16),
        r.unexpected as int == unexpected_count(acks@, SCAN_COUNT as int),
{
    let mut line: Vec<u8> = Vec::new();
    let mut found: u16 = 0;
    let mut unexpected: u16 = 0;
    let mut k: usize = 0;
    while k < SCAN_COUNT
        invariant
            k <= SCAN_COUNT,
            acks@.len() == SCAN_COUNT,
            line@ == hits_text(acks@, k as int),
            found as int == found_count(acks@, k as int),
            unexpected as int == unexpected_count(acks@, k as int),
            0 <= unexpected <= found <= k,
        decreases SCAN_COUNT - k,
    {
        if acks[k] {
            let a = SCAN_FIRST + k as u8;
            let mut hit = scan_hit(a);
            line.append(&mut hit);
            if !is_expected(a) {
                unexpected = unexpected + 1;
            }
            found = found + 1;
        }
        k = k + 1;
    }
    let mut tail = scan_tail(found, unexpected);
    line.append(&mut tail);
    ScanResult { line, unexpected }
}

/// The inventory summary line: present of total, and how many are missing when any are.
pub open spec fn inventory_text(present: u16, total: u16) -> Seq<u8> {
    "  inventory: ".spec_bytes() + decimal(present as nat) + "/".spec_bytes() + decimal(total as nat)
        + " present".spec_bytes()
        + (if total > present {
            ", ".spec_bytes() + decimal((total - present) as nat) + " missing".spec_bytes()
        } else {
            Seq::empty()
        })
        + "\n".spec_bytes()
}

impl Inventory {
    /// Render the inventory summary line.
    pub fn line(&self) -> (out: Vec<u8>)
        requires
            self.present <= self.total,
        ensures
            out@ == inventory_text(self.present, self.total),
    {
        let mut out: Vec<u8> = Vec::new();
        push_str(&mut out, "  inventory: ");
        let mut d = dec(self.present);
        out.append(&mut d);
        push_str(&mut out, "/");
        let mut d = dec(self.total);
        out.append(&mut d);
        push_str(&mut out, " present");
        let missing = self.total - self.present;
        if missing > 0 {
            push_str(&mut out, ", ");
            let mut d = dec(missing);
            out.append(&mut d);
            push_str(&mut out, " missing");
        }
        push_str(&mut out, "\n");
        out
    }
}

} // verus!
