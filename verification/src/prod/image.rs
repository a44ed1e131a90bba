//! The firmware image's build configuration: which MSP430 family it targets, which operating
//! modes it carries, its version number and its build-stamp id.
use vstd::prelude::*;

verus! {

/// The register-/memory-map-compatible MSP430 family an image is built for.
#[derive(Clone, Copy, PartialEq, Eq, Debug, Structural)]
pub enum Family {
    /// FR2476 / FR2475 (dual I²C).
    Fr247x,
    /// FR2155 (dual I²C).
    Fr215x,
    /// FR2355 (dual I²C).
    Fr235x,
    /// FR2433 (single I²C, slave only).
    Fr24xx,
}

impl Family {
    /// A family with two eUSCI_B blocks (slave surface plus sensor master).
    pub open spec fn is_dual_spec(self) -> bool {
        self != Family::Fr24xx
    }
}

/// What an image was built with.
#[derive(Clone, Copy, PartialEq, Eq, Debug, Structural)]
pub struct BuildConfig {
    /// The target family.
    pub family: Family,
    /// The Passive mode is compiled in.
    pub mode_passive: bool,
    /// The Sensing mode is compiled in.
    pub mode_sensing: bool,
    /// Version, major.
    pub ver_major: u8,
    /// Version, minor.
    pub ver_minor: u8,
    /// Version, patch.
    pub ver_patch: u8,
    /// FNV-1a id of the build stamp.
    pub build_id: u32,
}

impl BuildConfig {
    /// A configuration the build accepts: at least one mode, and Sensing only on a dual-I²C
    /// family.
    pub open spec fn valid(self) -> bool {
        &&& (self.mode_passive || self.mode_sensing)
        &&& (self.mode_sensing ==> self.family.is_dual_spec())
    }
}

/// FNV-1a (32-bit) over `bytes`.
pub open spec fn fnv1a(bytes: Seq<u8>) -> u32
    decreases bytes.len(),
{
    if bytes.len() == 0 {
        0x811c_9dc5
    } else {
        let h = fnv1a(bytes.drop_last()) ^ (bytes.last() as u32);
        vstd::wrapping::u32_specs::wrapping_mul(h, 0x0100_0193)
    }
}

/// The build id: FNV-1a of the build stamp, a stable id the SoM can match against what it
/// flashed.
pub fn build_id(stamp: &[u8]) -> (h: u32)
    ensures
        h == fnv1a(stamp@),
{
    let mut h: u32 = 0x811c_9dc5;
    let mut i: usize = 0;
    while i < stamp.len()
        invariant
            i <= stamp@.len(),
            h == fnv1a(stamp@.take(i as int)),
        decreases stamp@.len() - i,
    {
        assert(stamp@.take(i + 1).drop_last() =~= stamp@.take(i as int));
        h = h ^ stamp[i] as u32;
        h = h.wrapping_mul(0x0100_0193);
        i = i + 1;
    }
    assert(stamp@.take(i as int) =~= stamp@);
    h
}

/// Decimal value of `digits` (wrapping at 256).
pub open spec fn decimal_u8(digits: Seq<u8>) -> u8
    decreases digits.len(),
{
    if digits.len() == 0 {
        0
    } else {
        let v = decimal_u8(digits.drop_last());
        vstd::wrapping::u8_specs::wrapping_add(
            vstd::wrapping::u8_specs::wrapping_mul(v, 10),
            (digits.last() - 48) as u8,
        )
    }
}

/// Decimal parse of a version field (wrapping at 256).
pub fn parse_u8(s: &[u8]) -> (v: u8)
    requires
        forall|i: int| 0 <= i < s@.len() ==> s@[i] >= 48,
    ensures
        v == decimal_u8(s@),
{
    let mut v: u8 = 0;
    let mut i: usize = 0;
    while i < s.len()
        invariant
            i <= s@.len(),
            forall|j: int| 0 <= j < s@.len() ==> s@[j] >= 48,
            v == decimal_u8(s@.take(i as int)),
        decreases s@.len() - i,
    {
        assert(s@.take(i + 1).drop_last() =~= s@.take(i as int));
        v = v.wrapping_mul(10).wrapping_add(s[i] - 48);
        i = i + 1;
    }
    assert(s@.take(i as int) =~= s@);
    v
}

} // verus!
