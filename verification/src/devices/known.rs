//! The expected device set of the sensor bus: labels for a scan and, where a part has one, a
//! single-register WHO_AM_I check.
use vstd::prelude::*;
use vstd::string::StringSliceAdditionalSpecFns;

verus! {

/// `id_reg == NO_ID`: the device has no single-register WHO_AM_I (presence only).
pub const NO_ID: u8 = 0xFF;

/// A known device on the Stem.
#[derive(Clone, Copy, Debug)]
pub struct Known {
    /// Human-readable name.
    pub name: &'static str,
    /// 7-bit I²C address.
    pub addr: u8,
    /// WHO_AM_I register, or [`NO_ID`].
    pub id_reg: u8,
    /// Expected WHO_AM_I value.
    pub id_val: u8,
}

/// Number of entries in the known-device table.
pub const KNOWN_COUNT: usize = 7;

/// Address of known-table entry `i`.
pub open spec fn known_addr(i: int) -> u8 {
    if i == 0 { 0x3C }
    else if i == 1 { 0x29 }
    else if i == 2 { 0x39 }
    else if i == 3 { 0x4C }
    else if i == 4 { 0x0C }
    else if i == 5 { 0x60 }
    else { 0x40 }
}

/// WHO_AM_I register and value of known-table entry `i`.
pub open spec fn known_id(i: int) -> (u8, u8) {
    if i == 1 { (0xC0, 0xEE) } else if i == 2 { (0x92, 0xAB) } else { (NO_ID, 0x00) }
}

/// Name of known-table entry `i`.
pub open spec fn known_name(i: int) -> Seq<char> {
    if i == 0 { "SSD1306 OLED"@ }
    else if i == 1 { "VL53L0X ToF"@ }
    else if i == 2 { "APDS-9960"@ }
    else if i == 3 { "MC6470 accel"@ }
    else if i == 4 { "MC6470 mag"@ }
    else if i == 5 { "IS31FL3730 LED"@ }
    else { "Si7021 T/RH"@ }
}

/// Name of known-table entry `i`, as the bytes a console prints.
pub open spec fn known_label(i: int) -> Seq<u8> {
    if i == 0 { "SSD1306 OLED".spec_bytes() }
    else if i == 1 { "VL53L0X ToF".spec_bytes() }
    else if i == 2 { "APDS-9960".spec_bytes() }
    else if i == 3 { "MC6470 accel".spec_bytes() }
    else if i == 4 { "MC6470 mag".spec_bytes() }
    else if i == 5 { "IS31FL3730 LED".spec_bytes() }
    else { "Si7021 T/RH".spec_bytes() }
}

/// The label of the device known at address `a`, if any.
pub open spec fn label_of(a: u8) -> Option<Seq<u8>> {
    if known_addr(0) == a { Some(known_label(0)) }
    else if known_addr(1) == a { Some(known_label(1)) }
    else if known_addr(2) == a { Some(known_label(2)) }
    else if known_addr(3) == a { Some(known_label(3)) }
    else if known_addr(4) == a { Some(known_label(4)) }
    else if known_addr(5) == a { Some(known_label(5)) }
    else if known_addr(6) == a { Some(known_label(6)) }
    else { None }
}

/// Entry `i` of the known-device table.
pub fn known_entry(i: usize) -> (k: Known)
    requires
        i < KNOWN_COUNT,
    ensures
        k.name@ == known_name(i as int),
        k.name.spec_bytes() == known_label(i as int),
        k.addr == known_addr(i as int),
        (k.id_reg, k.id_val) == known_id(i as int),
{
    if i == 0 {
        Known { name: "SSD1306 OLED", addr: 0x3C, id_reg: NO_ID, id_val: 0x00 }
    } else if i == 1 {
        Known { name: "VL53L0X ToF", addr: 0x29, id_reg: 0xC0, id_val: 0xEE }
    } else if i == 2 {
        Known { name: "APDS-9960", addr: 0x39, id_reg: 0x92, id_val: 0xAB }
    } else if i == 3 {
        Known { name: "MC6470 accel", addr: 0x4C, id_reg: NO_ID, id_val: 0x00 }
    } else if i == 4 {
        Known { name: "MC6470 mag", addr: 0x0C, id_reg: NO_ID, id_val: 0x00 }
    } else if i == 5 {
        Known { name: "IS31FL3730 LED", addr: 0x60, id_reg: NO_ID, id_val: 0x00 }
    } else {
        Known { name: "Si7021 T/RH", addr: 0x40, id_reg: NO_ID, id_val: 0x00 }
    }
}

/// Look up a scanned address in the known-device table (first match).
pub fn known(addr: u8) -> (k: Option<Known>)
    ensures
        match k {
            Some(e) => exists|i: int| 0 <= i < KNOWN_COUNT && known_addr(i) == addr && e.addr == addr
                && e.name@ == known_name(i) && e.name.spec_bytes() == known_label(i)
                && (e.id_reg, e.id_val) == known_id(i)
                && forall|j: int| 0 <= j < i ==> known_addr(j) != addr,
            None => forall|i: int| 0 <= i < KNOWN_COUNT ==> known_addr(i) != addr,
        },
{
    let mut i: usize = 0;
    while i < KNOWN_COUNT
        invariant
            i <= KNOWN_COUNT,
            forall|j: int| 0 <= j < i ==> known_addr(j) != addr,
        decreases KNOWN_COUNT - i,
    {
        let k = known_entry(i);
        if k.addr == addr {
            return Some(k);
        }
        i = i + 1;
    }
    None
}

/// The expected device set agrees with the drivers: each entry sits at its driver's bus
/// address, and the entries with a single-register WHO_AM_I read the driver's identity register
/// and expect the driver's identity value (the VL53L0X model register, the APDS-9960 ID
/// register); the others are checked for presence only.
pub proof fn known_table_matches_the_drivers()
    ensures
        known_addr(0) == crate::diag::ssd1306_raw::ADDR,
        known_addr(1) == crate::devices::vl53l0x::ADDR,
        known_addr(2) == crate::devices::apds9960::ADDR,
        known_addr(3) == crate::devices::mc6470::ADDR,
        known_addr(4) == crate::devices::mc6470::MAG_ADDR,
        known_addr(6) == crate::devices::si7021::ADDR,
        known_id(1) == (crate::devices::vl53l0x::REG_MODEL_ID, crate::devices::vl53l0x::MODEL_ID),
        known_id(2).0 == crate::devices::apds9960::ID,
        known_id(2).1 == 0xAB,
        forall|i: int| 0 <= i < KNOWN_COUNT && i != 1 && i != 2 ==> #[trigger] known_id(i).0 == NO_ID,
        forall|i: int, j: int| 0 <= i < j < KNOWN_COUNT ==> known_addr(i) != known_addr(j),
{
}

} // verus!
