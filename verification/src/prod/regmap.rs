//! I²C-slave register map: the Stembus expander's contract with the SoM master — a PCA9698
//! GPIO-expander emulation (eight 8-bit banks behind a command/index register) plus the
//! voltage/threshold extensions and a read-only debug window at 0x30–0x3F.
use vstd::prelude::*;

verus! {

/// Command byte: the low 6 bits are the register pointer.
pub const CMD_REG_MASK: u8 = 0x3F;
/// Command byte: the auto-increment flag.
pub const CMD_AI: u8 = 0x80;
/// Addressable GPIO banks per register group (the PCA9698 extended to eight ports).
pub const BANKS: u8 = 8;

/// Input Port group (read-only).
pub const IP_BASE: u8 = 0x00;
/// Output Port group.
pub const OP_BASE: u8 = 0x08;
/// Polarity Invert group (firmware shadow).
pub const PI_BASE: u8 = 0x10;
/// I/O Config group (direction; 1 = input).
pub const IOC_BASE: u8 = 0x18;
/// Mask Interrupt group (firmware shadow).
pub const MSK_BASE: u8 = 0x20;

/// Output structure configuration.
pub const OUTCONF: u8 = 0x28;
/// All-bank control.
pub const ALLBNK: u8 = 0x29;
/// PCA9698 mode selection.
pub const MODE: u8 = 0x2A;
/// Startup/reset init-function selector.
pub const INIT_CODE: u8 = 0x2B;
/// The SoM rail voltage.
pub const VSOM_VOLTAGE: u8 = 0x2C;
/// The charge rail voltage.
pub const CHARGE_VOLTAGE: u8 = 0x2D;
/// VSOM voltage thresholds.
pub const VSOM_THRESHOLD: u8 = 0x2E;
/// Optional STEM-MSG baud selection.
pub const BAUD_RATE: u8 = 0x2F;
/// First register of the extended / custom window.
pub const EXT_BASE: u8 = 0x30;
/// Last register of the extended / custom window.
pub const EXT_END: u8 = 0x3F;

/// Number of VSOM voltage thresholds.
pub const VSOM_THRESHOLDS: u8 = 3;

/// Debug window: magic identifying the debug interface.
pub const DBG_IFACE: u8 = 0x30;
/// Detected Device ID, low byte.
pub const DBG_MODEL_L: u8 = 0x31;
/// Detected Device ID, high byte.
pub const DBG_MODEL_H: u8 = 0x32;
/// Build id, byte 0 (least significant).
pub const DBG_BUILD_0: u8 = 0x33;
/// Build id, byte 1.
pub const DBG_BUILD_1: u8 = 0x34;
/// Build id, byte 2.
pub const DBG_BUILD_2: u8 = 0x35;
/// Build id, byte 3 (most significant).
pub const DBG_BUILD_3: u8 = 0x36;
/// Status flag bits.
pub const DBG_STATUS: u8 = 0x37;
/// Devices found on the sensor bus by the last scan.
pub const DBG_DEV_COUNT: u8 = 0x38;
/// Bitmap over the known-device table.
pub const DBG_KNOWN_PRESENT: u8 = 0x39;
/// Fault flags.
pub const DBG_FAULT: u8 = 0x3A;
/// Firmware version, major.
pub const DBG_FW_VER_MAJOR: u8 = 0x3B;
/// Firmware version, minor.
pub const DBG_FW_VER_MINOR: u8 = 0x3C;
/// Firmware version, patch.
pub const DBG_FW_VER_PATCH: u8 = 0x3D;
/// The current operating-mode code.
pub const MODE_CTRL: u8 = 0x3E;

/// Mode code: no mode reported yet.
pub const MODE_CODE_UNKNOWN: u8 = 0x00;
/// Mode code: Passive.
pub const MODE_CODE_PASSIVE: u8 = 0x01;
/// Mode code: Sensing.
pub const MODE_CODE_SENSING: u8 = 0x02;

/// Value read at [`DBG_IFACE`].
pub const DBG_IFACE_MAGIC: u8 = 0xD0;

/// A decoded command-register selection.
#[derive(Clone, Copy, PartialEq, Eq, Debug, Structural)]
pub enum RegSel {
    InputPort(u8),
    OutputPort(u8),
    PolarityInv(u8),
    IoConfig(u8),
    IntMask(u8),
    OutConf,
    AllBank,
    Mode,
    InitCode,
    VsomVoltage,
    ChargeVoltage,
    VsomThreshold,
    BaudRate,
    Extended(u8),
    Reserved(u8),
}

/// What a command index selects.
pub open spec fn decode_spec(reg: u8) -> RegSel {
    let bank = (reg % 8) as u8;
    if reg < 0x08 {
        RegSel::InputPort(bank)
    } else if reg < 0x10 {
        RegSel::OutputPort(bank)
    } else if reg < 0x18 {
        RegSel::PolarityInv(bank)
    } else if reg < 0x20 {
        RegSel::IoConfig(bank)
    } else if reg < 0x28 {
        RegSel::IntMask(bank)
    } else if reg == OUTCONF {
        RegSel::OutConf
    } else if reg == ALLBNK {
        RegSel::AllBank
    } else if reg == MODE {
        RegSel::Mode
    } else if reg == INIT_CODE {
        RegSel::InitCode
    } else if reg == VSOM_VOLTAGE {
        RegSel::VsomVoltage
    } else if reg == CHARGE_VOLTAGE {
        RegSel::ChargeVoltage
    } else if reg == VSOM_THRESHOLD {
        RegSel::VsomThreshold
    } else if reg == BAUD_RATE {
        RegSel::BaudRate
    } else if EXT_BASE <= reg <= EXT_END {
        RegSel::Extended((reg - EXT_BASE) as u8)
    } else {
        RegSel::Reserved(reg)
    }
}

/// Decode a command index (auto-increment flag already stripped).
pub fn decode(reg: u8) -> (sel: RegSel)
    ensures
        sel == decode_spec(reg),
{
    let bank = reg & 0x07;
    assert(bank == reg % 8) by (bit_vector)
        requires bank == reg & 0x07;
    let valid_bank = bank < BANKS;
    if reg <= 0x07 && valid_bank {
        RegSel::InputPort(bank)
    } else if 0x08 <= reg && reg <= 0x0F && valid_bank {
        RegSel::OutputPort(bank)
    } else if 0x10 <= reg && reg <= 0x17 && valid_bank {
        RegSel::PolarityInv(bank)
    } else if 0x18 <= reg && reg <= 0x1F && valid_bank {
        RegSel::IoConfig(bank)
    } else if 0x20 <= reg && reg <= 0x27 && valid_bank {
        RegSel::IntMask(bank)
    } else if reg == OUTCONF {
        RegSel::OutConf
    } else if reg == ALLBNK {
        RegSel::AllBank
    } else if reg == MODE {
        RegSel::Mode
    } else if reg == INIT_CODE {
        RegSel::InitCode
    } else if reg == VSOM_VOLTAGE {
        RegSel::VsomVoltage
    } else if reg == CHARGE_VOLTAGE {
        RegSel::ChargeVoltage
    } else if reg == VSOM_THRESHOLD {
        RegSel::VsomThreshold
    } else if reg == BAUD_RATE {
        RegSel::BaudRate
    } else if EXT_BASE <= reg && reg <= EXT_END {
        RegSel::Extended(reg - EXT_BASE)
    } else {
        RegSel::Reserved(reg)
    }
}

/// The next index under auto-increment: the bank (low three bits) steps within the group,
/// wrapping from 7 back to the group base.
pub open spec fn next_ai_spec(reg: u8) -> u8 {
    (reg - reg % 8 + (reg % 8 + 1) % 8) as u8
}

/// Next command index under auto-increment.
pub fn next_ai(reg: u8) -> (r: u8)
    ensures
        r == next_ai_spec(reg),
{
    let low = reg & 0x07u8;
    assert(low < 8 && low == reg % 8) by (bit_vector)
        requires low == reg & 0x07u8;
    let step: u8 = low + 1;
    let r = (reg & !0x07u8) | (step & 0x07u8);
    assert(r == (reg - reg % 8 + (reg % 8 + 1) % 8) as u8) by (bit_vector)
        requires r == (reg & !0x07u8) | (step & 0x07u8), step == low + 1, low == reg & 0x07u8;
    r
}

/// Auto-increment never leaves the register group: the bank steps by one, wrapping at eight.
pub proof fn auto_increment_stays_in_group(reg: u8)
    ensures
        next_ai_spec(reg) / 8 == reg / 8,
        next_ai_spec(reg) % 8 == (reg % 8 + 1) % 8,
{
}

/// Eight auto-increment steps bring the pointer back to where it started: sequential access
/// walks all eight banks of a group and wraps.
pub proof fn auto_increment_cycles_through_group(reg: u8)
    ensures
        next_ai_spec(next_ai_spec(next_ai_spec(next_ai_spec(
            next_ai_spec(next_ai_spec(next_ai_spec(next_ai_spec(reg)))))))) == reg,
{
    assert(next_ai_spec(next_ai_spec(next_ai_spec(next_ai_spec(
        next_ai_spec(next_ai_spec(next_ai_spec(next_ai_spec(reg)))))))) == reg) by (bit_vector);
}

/// The PCA9698 register layout, by address: bank `b` of the Input Port, Output Port, Polarity
/// Invert, I/O Config and Mask Interrupt groups sits at 0x00, 0x08, 0x10, 0x18 and 0x20 plus
/// `b`; 0x28 to 0x2F are the output configuration, all-bank, mode, init-code, VSOM voltage,
/// charge voltage, VSOM threshold and baud-rate registers; 0x30 to 0x3F are the extended
/// window, register `0x30 + k` selecting its entry `k`.
pub proof fn register_layout(b: u8, k: u8)
    requires
        b < 8,
        k < 16,
    ensures
        decode_spec(b) == RegSel::InputPort(b),
        decode_spec((0x08 + b) as u8) == RegSel::OutputPort(b),
        decode_spec((0x10 + b) as u8) == RegSel::PolarityInv(b),
        decode_spec((0x18 + b) as u8) == RegSel::IoConfig(b),
        decode_spec((0x20 + b) as u8) == RegSel::IntMask(b),
        decode_spec(0x28) == RegSel::OutConf,
        decode_spec(0x29) == RegSel::AllBank,
        decode_spec(0x2A) == RegSel::Mode,
        decode_spec(0x2B) == RegSel::InitCode,
        decode_spec(0x2C) == RegSel::VsomVoltage,
        decode_spec(0x2D) == RegSel::ChargeVoltage,
        decode_spec(0x2E) == RegSel::VsomThreshold,
        decode_spec(0x2F) == RegSel::BaudRate,
        decode_spec((0x30 + k) as u8) == RegSel::Extended(k),
{
}

/// Firmware-shadowed per-bank state of the emulation.
#[derive(Clone, Copy)]
pub struct ShadowState {
    /// Polarity-invert mask per bank.
    pub polarity: [u8; 8],
    /// Interrupt mask per bank.
    pub int_mask: [u8; 8],
    /// The init-function selector.
    pub init_code: u8,
    /// VSOM thresholds.
    pub vsom_threshold: [u16; 3],
}

impl ShadowState {
    /// All-zero shadow state.
    pub fn new() -> (s: Self)
        ensures
            s.polarity@ == seq![0u8; 8],
            s.int_mask@ == seq![0u8; 8],
            s.init_code == 0,
            s.vsom_threshold@ == seq![0u16; 3],
    {
        ShadowState { polarity: [0u8; 8], int_mask: [0u8; 8], init_code: 0, vsom_threshold: [0u16; 3] }
    }
}

} // verus!
