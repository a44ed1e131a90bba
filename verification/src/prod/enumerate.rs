//! Sensor-bus enumeration: the presence bitmap of a scan over the 7-bit addresses, and the
//! bus-health verdict that reports a wedged bus as a fault instead of a bus full of phantom
//! devices.
use vstd::prelude::*;
use vstd::string::StringSliceAdditionalSpecFns;
use crate::devices::known::{known, label_of};
use crate::uart::{decimal, dec, hex8, hex_digit, push_str};

verus! {

/// First 7-bit address a scan probes.
pub const LO: u8 = 0x08;
/// Last 7-bit address a scan probes.
pub const HI: u8 = 0x77;
/// A real sensor bus never has more devices than this; more means a stuck SDA false-ACKs.
pub const SANITY_MAX: u16 = 24;

/// Bit `k` of byte `b`.
pub open spec fn bit_of(b: u8, k: int) -> bool {
    (b >> (k as u8)) & 1 == 1
}

/// Number of `true` entries.
pub open spec fn count_true(s: Seq<bool>) -> nat
    decreases s.len(),
{
    if s.len() == 0 {
        0
    } else {
        count_true(s.drop_last()) + (if s.last() { 1nat } else { 0nat })
    }
}

proof fn lemma_count_true_bounded(s: Seq<bool>)
    ensures
        count_true(s) <= s.len(),
    decreases s.len(),
{
    if s.len() > 0 {
        lemma_count_true_bounded(s.drop_last());
    }
}

proof fn lemma_set_bit(b: u8, k: u8, j: u8)
    requires
        k < 8,
        j < 8,
    ensures
        ((b | (1u8 << k)) >> j) & 1 == (if j == k { 1u8 } else { (b >> j) & 1 }),
{
    assert(((b | (1u8 << k)) >> j) & 1 == (if j == k { 1u8 } else { (b >> j) & 1 })) by (bit_vector)
        requires k < 8, j < 8;
}

/// Which 7-bit addresses ACKed on the last scan: a 128-bit presence bitmap.
pub struct Presence {
    bits: [u8; 16],
}

impl Presence {
    /// Whether address `a` (0..128) ACKed.
    pub closed spec fn view(&self) -> Seq<bool> {
        Seq::new(128, |a: int| bit_of(self.bits@[a / 8], a % 8))
    }

    /// No address present.
    pub fn new() -> (p: Self)
        ensures
            p@ == Seq::new(128, |a: int| false),
    {
        let p = Presence { bits: [0u8; 16] };
        assert forall|a: int| 0 <= a < 128 implies !#[trigger] bit_of(p.bits@[a / 8], a % 8) by {
            let k = (a % 8) as u8;
            assert((0u8 >> k) & 1 == 0) by (bit_vector);
        }
        assert(p@ =~= Seq::new(128, |a: int| false));
        p
    }

    /// Mark address `a` present.
    pub fn set(&mut self, a: u8)
        requires
            a < 128,
        ensures
            final(self)@ == old(self)@.update(a as int, true),
    {
        let i = (a >> 3) as usize;
        let k = a & 7;
        assert(i == a / 8 && k == a % 8) by (bit_vector)
            requires i == (a >> 3) as usize, k == a & 7, a < 128;
        let b = self.bits[i];
        self.bits[i] = b | (1u8 << k);
        assert forall|c: int| 0 <= c < 128 implies #[trigger] self@[c] == old(self)@.update(a as int, true)[c] by {
            if c / 8 == i {
                lemma_set_bit(b, k, (c % 8) as u8);
            }
        }
        assert(self@ =~= old(self)@.update(a as int, true));
    }

    /// Did address `a` ACK?
    pub fn get(&self, a: u8) -> (r: bool)
        requires
            a < 128,
        ensures
            r == self@[a as int],
    {
        let i = (a >> 3) as usize;
        let k = a & 7;
        assert(i == a / 8 && k == a % 8) by (bit_vector)
            requires i == (a >> 3) as usize, k == a & 7, a < 128;
        let b = self.bits[i];
        let r = b & (1u8 << k) != 0;
        assert(r == ((b >> k) & 1 == 1)) by (bit_vector)
            requires r == (b & (1u8 << k) != 0), k < 8;
        r
    }

    /// Number of addresses present.
    pub fn count(&self) -> (n: u16)
        ensures
            n == count_true(self@),
    {
        let mut n: u16 = 0;
        let mut a: u8 = 0;
        while a < 128
            invariant
                a <= 128,
                n == count_true(self@.take(a as int)),
            decreases 128 - a,
        {
            assert(self@.take(a + 1).drop_last() =~= self@.take(a as int));
            proof { lemma_count_true_bounded(self@.take(a as int)); }
            if self.get(a) {
                n = n + 1;
            }
            a = a + 1;
        }
        assert(self@.take(128) =~= self@);
        n
    }
}

/// Outcome of a scan: the presence bitmap plus whether the bus looked wedged.
pub struct Scan {
    /// Addresses that ACKed.
    pub present: Presence,
    /// The bus was wedged: the results are unreliable.
    pub faulted: bool,
}

impl Scan {
    /// The "no scan happened" result: nothing present, not faulted.
    pub fn absent() -> (s: Self)
        ensures
            s.present@ == Seq::new(128, |a: int| false),
            !s.faulted,
    {
        Scan { present: Presence::new(), faulted: false }
    }
}

/// Number of probed addresses, [`LO`] to [`HI`].
pub const PROBES: usize = 112;

/// The presence map of a scan whose probes answered `acks` (`acks[k]` for address `LO + k`):
/// an address is present exactly when it lies in the probed range and answered.
pub open spec fn probed(acks: Seq<bool>) -> Seq<bool> {
    Seq::new(128, |a: int| LO <= a <= HI && acks[a - LO])
}

/// The presence map of the probe answers `acks` (`acks[k]` for address `LO + k`).
pub fn presence_of(acks: &[bool]) -> (p: Presence)
    requires
        acks@.len() == PROBES,
    ensures
        p@ == probed(acks@),
{
    let mut p = Presence::new();
    let mut k: usize = 0;
    while k < PROBES
        invariant
            k <= PROBES,
            acks@.len() == PROBES,
            p@ == Seq::new(128, |a: int| LO <= a < LO + k && acks@[a - LO]),
        decreases PROBES - k,
    {
        if acks[k] {
            p.set(LO + k as u8);
        }
        k = k + 1;
        assert(p@ =~= Seq::new(128, |a: int| LO <= a < LO + k && acks@[a - LO]));
    }
    assert(p@ =~= probed(acks@));
    p
}

/// The verdict of a scan: `sda_idle` is whether SDA was high before probing, `recovered` whether
/// the stuck-bus recovery freed it (consulted only when it was low), `acks` the answers of the
/// probes of [`LO`] to [`HI`] in ascending order, and `sda_after` whether SDA was high after
/// probing. The present addresses are those that answered; the bus is faulted when it could not
/// be freed, SDA ended low, or implausibly many addresses answered.
pub fn scan(sda_idle: bool, recovered: bool, acks: &[bool], sda_after: bool) -> (s: Scan)
    requires
        acks@.len() == PROBES,
    ensures
        s.present@ == probed(acks@),
        s.faulted == (!(sda_idle || recovered) || !sda_after || count_true(probed(acks@)) > SANITY_MAX as nat),
{
    let present = presence_of(acks);
    let ok = sda_idle || recovered;
    let n = present.count();
    let faulted = !ok || !sda_after || n > SANITY_MAX;
    Scan { present, faulted }
}

/// `H` for a high line, `L` for a low one.
pub open spec fn level_char(high: bool) -> u8 {
    if high { 72u8 } else { 76u8 }
}

/// What the console lists for one present address: " 0x", two hex digits, then the known
/// device's label in brackets or a question mark.
pub open spec fn entry_text(a: u8) -> Seq<u8> {
    " 0x".spec_bytes() + seq![hex_digit(a as int / 16), hex_digit(a as int % 16)] + match label_of(a) {
        Some(l) => seq![40u8] + l + seq![41u8],
        None => seq![63u8],
    }
}

/// The entries of the present addresses below `hi` (from [`LO`] on), in address order.
pub open spec fn entries(present: Seq<bool>, hi: int) -> Seq<u8>
    decreases hi - LO,
{
    if hi <= LO {
        Seq::empty()
    } else {
        entries(present, hi - 1) + (if present[hi - 1] { entry_text((hi - 1) as u8) } else { Seq::empty() })
    }
}

/// The console report of a scan: the idle pad levels, then either the fault notice with the ACK
/// count, or the labelled list of present addresses ("(none)" when empty) with their count.
pub open spec fn report_text(present: Seq<bool>, faulted: bool, sda: bool, scl: bool) -> Seq<u8> {
    let head = "bus SDA=".spec_bytes() + seq![level_char(sda)] + " SCL=".spec_bytes() + seq![level_char(scl)];
    if faulted {
        head + "  !! BUS FAULT (SDA stuck / all-ACK) — scan unreliable [".spec_bytes()
            + decimal(count_true(present)) + " ACKs]\n".spec_bytes()
    } else {
        head + "\nI2C bus:".spec_bytes() + entries(present, HI + 1)
            + (if exists|a: int| LO <= a <= HI && #[trigger] present[a] { Seq::empty() } else { " (none)".spec_bytes() })
            + "  [".spec_bytes() + decimal(count_true(present)) + " found]\n".spec_bytes()
    }
}

/// The entry of one present address.
fn entry(a: u8) -> (out: Vec<u8>)
    ensures
        out@ == entry_text(a),
{
    let mut out: Vec<u8> = Vec::new();
    push_str(&mut out, " 0x");
    let mut h = hex8(a);
    out.append(&mut h);
    match known(a) {
        Some(k) => {
            out.push(40);
            push_str(&mut out, k.name);
            out.push(41);
        },
        None => {
            out.push(63);
        },
    }
    out
}

/// Render the console report of `scan`, given the idle levels of SDA and SCL.
pub fn report(scan: &Scan, sda: bool, scl: bool) -> (out: Vec<u8>)
    ensures
        out@ == report_text(scan.present@, scan.faulted, sda, scl),
{
    let mut out: Vec<u8> = Vec::new();
    push_str(&mut out, "bus SDA=");
    out.push(if sda { 72 } else { 76 });
    push_str(&mut out, " SCL=");
    out.push(if scl { 72 } else { 76 });
    let n = scan.present.count();
    if scan.faulted {
        push_str(&mut out, "  !! BUS FAULT (SDA stuck / all-ACK) — scan unreliable [");
        let mut d = dec(n);
        out.append(&mut d);
        push_str(&mut out, " ACKs]\n");
        return out;
    }
    push_str(&mut out, "\nI2C bus:");
    let ghost head = out@;
    let mut a: u8 = LO;
    let mut any = false;
    while a <= HI
        invariant
            LO <= a <= HI + 1,
            out@ == head + entries(scan.present@, a as int),
            any == exists|b: int| LO <= b < a && #[trigger] scan.present@[b],
        decreases HI + 1 - a,
    {
        let here = scan.present.get(a);
        if here {
            let mut e = entry(a);
            out.append(&mut e);
        }
        proof {
            assert(entries(scan.present@, a + 1) == entries(scan.present@, a as int)
                + (if scan.present@[a as int] { entry_text(a) } else { Seq::empty() }));
            if here {
                assert(LO <= a < a + 1 && scan.present@[a as int]);
            }
        }
        any = any || here;
        a = a + 1;
    }
    if !any {
        push_str(&mut out, " (none)");
    }
    push_str(&mut out, "  [");
    let mut d = dec(n);
    out.append(&mut d);
    push_str(&mut out, " found]\n");
    out
}

/// Marking an address that is already present changes nothing, so repeated marks of one
/// address count it once.
pub proof fn marking_present_address_changes_nothing(s: Seq<bool>, a: int)
    requires
        0 <= a < s.len(),
        s[a],
    ensures
        s.update(a, true) == s,
        count_true(s.update(a, true)) == count_true(s),
{
    assert(s.update(a, true) =~= s);
}

/// Marking an address that was absent adds exactly one to the count.
pub proof fn marking_new_address_counts_once(s: Seq<bool>, a: int)
    requires
        0 <= a < s.len(),
        !s[a],
    ensures
        count_true(s.update(a, true)) == count_true(s) + 1,
    decreases s.len(),
{
    if a == s.len() - 1 {
        assert(s.update(a, true).drop_last() =~= s.drop_last());
    } else {
        marking_new_address_counts_once(s.drop_last(), a);
        assert(s.update(a, true).drop_last() =~= s.drop_last().update(a, true));
    }
}


/// The presence map of an empty bus.
pub open spec fn no_address() -> Seq<bool> {
    Seq::new(128, |a: int| false)
}

/// The presence map after marking each address of `addrs` in turn, starting from `s`.
pub open spec fn marked(s: Seq<bool>, addrs: Seq<int>) -> Seq<bool>
    decreases addrs.len(),
{
    if addrs.len() == 0 {
        s
    } else {
        marked(s, addrs.drop_last()).update(addrs.last(), true)
    }
}

/// After marking addresses one by one on an empty map, an address reads present exactly when it
/// was marked.
pub proof fn present_exactly_when_marked(addrs: Seq<int>)
    requires
        forall|i: int| 0 <= i < addrs.len() ==> 0 <= #[trigger] addrs[i] < 128,
    ensures
        marked(no_address(), addrs).len() == 128,
        forall|a: int| 0 <= a < 128 ==> (#[trigger] marked(no_address(), addrs)[a]
            <==> addrs.contains(a)),
    decreases addrs.len(),
{
    if addrs.len() > 0 {
        let init = addrs.drop_last();
        assert forall|i: int| 0 <= i < init.len() implies 0 <= #[trigger] init[i] < 128 by {
            assert(init[i] == addrs[i]);
        }
        present_exactly_when_marked(init);
        assert forall|a: int| 0 <= a < 128 implies (#[trigger] marked(no_address(), addrs)[a]
            <==> addrs.contains(a)) by {
            if init.contains(a) {
                let j = choose|j: int| 0 <= j < init.len() && init[j] == a;
                assert(addrs[j] == a);
            }
            if addrs.contains(a) && a != addrs.last() {
                let j = choose|j: int| 0 <= j < addrs.len() && addrs[j] == a;
                assert(j < addrs.len() - 1);
                assert(init[j] == a);
            }
        }
    }
}

proof fn lemma_count_none(n: nat)
    ensures
        count_true(Seq::new(n, |a: int| false)) == 0,
    decreases n,
{
    if n > 0 {
        assert(Seq::new(n, |a: int| false).drop_last() =~= Seq::new((n - 1) as nat, |a: int| false));
        lemma_count_none((n - 1) as nat);
    }
}

/// Marking addresses one by one on an empty map, in any order and with any repeats, counts each
/// distinct address exactly once.
pub proof fn count_is_the_distinct_addresses_marked(addrs: Seq<int>)
    requires
        forall|i: int| 0 <= i < addrs.len() ==> 0 <= #[trigger] addrs[i] < 128,
    ensures
        count_true(marked(no_address(), addrs)) == addrs.to_set().len(),
    decreases addrs.len(),
{
    broadcast use vstd::seq_lib::group_seq_properties;
    if addrs.len() == 0 {
        lemma_count_none(128);
        assert(no_address() =~= Seq::new(128, |a: int| false));
        assert(addrs.to_set() =~= Set::<int>::empty());
    } else {
        let init = addrs.drop_last();
        let a = addrs.last();
        assert forall|i: int| 0 <= i < init.len() implies 0 <= #[trigger] init[i] < 128 by {
            assert(init[i] == addrs[i]);
        }
        count_is_the_distinct_addresses_marked(init);
        present_exactly_when_marked(init);
        let before = marked(no_address(), init);
        assert(addrs == init.push(a));
        assert(addrs.to_set() =~= init.to_set().insert(a)) by {
            init.lemma_push_to_set_commute(a);
        }
        if init.contains(a) {
            assert(before[a]);
            marking_present_address_changes_nothing(before, a);
            assert(init.to_set().contains(a));
            assert(init.to_set().insert(a) =~= init.to_set());
        } else {
            assert(!before[a]);
            marking_new_address_counts_once(before, a);
            assert(!init.to_set().contains(a));
        }
    }
}

} // verus!
