//! The VL53L0X's register scripts, the ranging bring-up and the single-shot range read, written
//! down as data, and a machine that walks one of them a bus operation at a time: the caller
//! performs each operation on the sensor's bus and hands back what it returned. Reads decide:
//! the model check, the read-modify-write masks, the captured stop variable, SPAD info and
//! reference map, and the bounded status polls.
use vstd::prelude::*;
use crate::devices::vl53l0x::{
    select_ref_spads, spad_bit, spad_kept, Vl53l0xRanging, MODEL_ID, POLL, REG_MODEL_ID,
};

verus! {

/// The condition a polled status register must reach.
#[derive(Clone, Copy, PartialEq, Eq, Debug, Structural)]
pub enum Until {
    /// Any nonzero value (SPAD info ready).
    NonZero,
    /// A measurement has completed (interrupt status, low three bits).
    SampleReady,
    /// The single-shot start bit has cleared.
    StartCleared,
}

/// Whether `v` satisfies `u`.
pub open spec fn reached(u: Until, v: u8) -> bool {
    match u {
        Until::NonZero => v != 0,
        Until::SampleReady => v & 0x07 != 0,
        Until::StartCleared => v & 0x01 == 0,
    }
}

fn is_reached(u: Until, v: u8) -> (b: bool)
    ensures
        b == reached(u, v),
{
    match u {
        Until::NonZero => v != 0,
        Until::SampleReady => v & 0x07 != 0,
        Until::StartCleared => v & 0x01 == 0,
    }
}

/// One instruction of a script.
#[derive(Clone, Copy, PartialEq, Eq, Debug, Structural)]
pub enum Instr {
    /// Read the model register; anything but the VL53L0X's model id ends the script.
    CheckModel,
    /// Write a register.
    Write(u8, u8),
    /// Write a 16-bit register (big-endian).
    Write16(u8, u16),
    /// Read a register and write it back with the mask's bits set.
    SetBits(u8, u8),
    /// Read a register and write it back with the mask's bits cleared.
    ClearBits(u8, u8),
    /// Read a register and keep it as the stop variable.
    KeepStop(u8),
    /// Write the kept stop variable to a register.
    PutStop(u8),
    /// Read the SPAD info register and keep the reference-SPAD count and kind.
    KeepSpadInfo(u8),
    /// Read the six bytes of the reference-SPAD map.
    TakeMap(u8),
    /// Write back the map with only the selected reference SPADs enabled.
    PutMap(u8),
    /// Read a status register until it reaches the condition, at most [`POLL`] times.
    Await(u8, Until),
    /// Read a 16-bit register and keep it as the range.
    KeepRange(u8),
}

/// Which script a machine walks.
#[derive(Clone, Copy, PartialEq, Eq, Debug, Structural)]
pub enum Script {
    /// Bring-up for single-shot ranging.
    Init,
    /// One single-shot range read.
    Range,
}

/// Entries of the default tuning table.
pub const TUNING_LEN: usize = 80;
/// Instructions of the bring-up before the tuning table.
pub const INIT_HEAD: usize = 40;
/// Instructions of the bring-up after the tuning table.
pub const INIT_TAIL: usize = 15;
/// Instructions of the range read.
pub const RANGE_LEN: usize = 12;

/// The sensor's default tuning settings: entry `i` as (register, value).
pub open spec fn tuning_spec(i: int) -> (u8, u8) {
    if i == 0 {
        (0xFF, 0x01)
    } else if i == 1 {
        (0x00, 0x00)
    } else if i == 2 {
        (0xFF, 0x00)
    } else if i == 3 {
        (0x09, 0x00)
    } else if i == 4 {
        (0x10, 0x00)
    } else if i == 5 {
        (0x11, 0x00)
    } else if i == 6 {
        (0x24, 0x01)
    } else if i == 7 {
        (0x25, 0xFF)
    } else if i == 8 {
        (0x75, 0x00)
    } else if i == 9 {
        (0xFF, 0x01)
    } else if i == 10 {
        (0x4E, 0x2C)
    } else if i == 11 {
        (0x48, 0x00)
    } else if i == 12 {
        (0x30, 0x20)
    } else if i == 13 {
        (0xFF, 0x00)
    } else if i == 14 {
        (0x30, 0x09)
    } else if i == 15 {
        (0x54, 0x00)
    } else if i == 16 {
        (0x31, 0x04)
    } else if i == 17 {
        (0x32, 0x03)
    } else if i == 18 {
        (0x40, 0x83)
    } else if i == 19 {
        (0x46, 0x25)
    } else if i == 20 {
        (0x60, 0x00)
    } else if i == 21 {
        (0x27, 0x00)
    } else if i == 22 {
        (0x50, 0x06)
    } else if i == 23 {
        (0x51, 0x00)
    } else if i == 24 {
        (0x52, 0x96)
    } else if i == 25 {
        (0x56, 0x08)
    } else if i == 26 {
        (0x57, 0x30)
    } else if i == 27 {
        (0x61, 0x00)
    } else if i == 28 {
        (0x62, 0x00)
    } else if i == 29 {
        (0x64, 0x00)
    } else if i == 30 {
        (0x65, 0x00)
    } else if i == 31 {
        (0x66, 0xA0)
    } else if i == 32 {
        (0xFF, 0x01)
    } else if i == 33 {
        (0x22, 0x32)
    } else if i == 34 {
        (0x47, 0x14)
    } else if i == 35 {
        (0x49, 0xFF)
    } else if i == 36 {
        (0x4A, 0x00)
    } else if i == 37 {
        (0xFF, 0x00)
    } else if i == 38 {
        (0x7A, 0x0A)
    } else if i == 39 {
        (0x7B, 0x00)
    } else if i == 40 {
        (0x78, 0x21)
    } else if i == 41 {
        (0xFF, 0x01)
    } else if i == 42 {
        (0x23, 0x34)
    } else if i == 43 {
        (0x42, 0x00)
    } else if i == 44 {
        (0x44, 0xFF)
    } else if i == 45 {
        (0x45, 0x26)
    } else if i == 46 {
        (0x46, 0x05)
    } else if i == 47 {
        (0x40, 0x40)
    } else if i == 48 {
        (0x0E, 0x06)
    } else if i == 49 {
        (0x20, 0x1A)
    } else if i == 50 {
        (0x43, 0x40)
    } else if i == 51 {
        (0xFF, 0x00)
    } else if i == 52 {
        (0x34, 0x03)
    } else if i == 53 {
        (0x35, 0x44)
    } else if i == 54 {
        (0xFF, 0x01)
    } else if i == 55 {
        (0x31, 0x04)
    } else if i == 56 {
        (0x4B, 0x09)
    } else if i == 57 {
        (0x4C, 0x05)
    } else if i == 58 {
        (0x4D, 0x04)
    } else if i == 59 {
        (0xFF, 0x00)
    } else if i == 60 {
        (0x44, 0x00)
    } else if i == 61 {
        (0x45, 0x20)
    } else if i == 62 {
        (0x47, 0x08)
    } else if i == 63 {
        (0x48, 0x28)
    } else if i == 64 {
        (0x67, 0x00)
    } else if i == 65 {
        (0x70, 0x04)
    } else if i == 66 {
        (0x71, 0x01)
    } else if i == 67 {
        (0x72, 0xFE)
    } else if i == 68 {
        (0x76, 0x00)
    } else if i == 69 {
        (0x77, 0x00)
    } else if i == 70 {
        (0xFF, 0x01)
    } else if i == 71 {
        (0x0D, 0x01)
    } else if i == 72 {
        (0xFF, 0x00)
    } else if i == 73 {
        (0x80, 0x01)
    } else if i == 74 {
        (0x01, 0xF8)
    } else if i == 75 {
        (0xFF, 0x01)
    } else if i == 76 {
        (0x8E, 0x01)
    } else if i == 77 {
        (0x00, 0x01)
    } else if i == 78 {
        (0xFF, 0x00)
    } else {
        (0x80, 0x00)
    }
}

/// Entry `i` of the tuning table.
pub fn tuning(i: usize) -> (r: (u8, u8))
    requires
        i < TUNING_LEN,
    ensures
        r == tuning_spec(i as int),
{
    match i {
        0 => (0xFF, 0x01),
        1 => (0x00, 0x00),
        2 => (0xFF, 0x00),
        3 => (0x09, 0x00),
        4 => (0x10, 0x00),
        5 => (0x11, 0x00),
        6 => (0x24, 0x01),
        7 => (0x25, 0xFF),
        8 => (0x75, 0x00),
        9 => (0xFF, 0x01),
        10 => (0x4E, 0x2C),
        11 => (0x48, 0x00),
        12 => (0x30, 0x20),
        13 => (0xFF, 0x00),
        14 => (0x30, 0x09),
        15 => (0x54, 0x00),
        16 => (0x31, 0x04),
        17 => (0x32, 0x03),
        18 => (0x40, 0x83),
        19 => (0x46, 0x25),
        20 => (0x60, 0x00),
        21 => (0x27, 0x00),
        22 => (0x50, 0x06),
        23 => (0x51, 0x00),
        24 => (0x52, 0x96),
        25 => (0x56, 0x08),
        26 => (0x57, 0x30),
        27 => (0x61, 0x00),
        28 => (0x62, 0x00),
        29 => (0x64, 0x00),
        30 => (0x65, 0x00),
        31 => (0x66, 0xA0),
        32 => (0xFF, 0x01),
        33 => (0x22, 0x32),
        34 => (0x47, 0x14),
        35 => (0x49, 0xFF),
        36 => (0x4A, 0x00),
        37 => (0xFF, 0x00),
        38 => (0x7A, 0x0A),
        39 => (0x7B, 0x00),
        40 => (0x78, 0x21),
        41 => (0xFF, 0x01),
        42 => (0x23, 0x34),
        43 => (0x42, 0x00),
        44 => (0x44, 0xFF),
        45 => (0x45, 0x26),
        46 => (0x46, 0x05),
        47 => (0x40, 0x40),
        48 => (0x0E, 0x06),
        49 => (0x20, 0x1A),
        50 => (0x43, 0x40),
        51 => (0xFF, 0x00),
        52 => (0x34, 0x03),
        53 => (0x35, 0x44),
        54 => (0xFF, 0x01),
        55 => (0x31, 0x04),
        56 => (0x4B, 0x09),
        57 => (0x4C, 0x05),
        58 => (0x4D, 0x04),
        59 => (0xFF, 0x00),
        60 => (0x44, 0x00),
        61 => (0x45, 0x20),
        62 => (0x47, 0x08),
        63 => (0x48, 0x28),
        64 => (0x67, 0x00),
        65 => (0x70, 0x04),
        66 => (0x71, 0x01),
        67 => (0x72, 0xFE),
        68 => (0x76, 0x00),
        69 => (0x77, 0x00),
        70 => (0xFF, 0x01),
        71 => (0x0D, 0x01),
        72 => (0xFF, 0x00),
        73 => (0x80, 0x01),
        74 => (0x01, 0xF8),
        75 => (0xFF, 0x01),
        76 => (0x8E, 0x01),
        77 => (0x00, 0x01),
        78 => (0xFF, 0x00),
        _ => (0x80, 0x00),
    }
}

/// The bring-up before the tuning table: identity, 2.8 V I/O, the stop variable, the signal-rate
/// limit, the SPAD info handshake and the reference-SPAD map.
pub open spec fn init_head_at(i: int) -> Instr {
    if i == 0 {
        Instr::CheckModel
    } else if i == 1 {
        Instr::SetBits(0x89, 0x01)
    } else if i == 2 {
        Instr::Write(0x88, 0x00)
    } else if i == 3 {
        Instr::Write(0x80, 0x01)
    } else if i == 4 {
        Instr::Write(0xFF, 0x01)
    } else if i == 5 {
        Instr::Write(0x00, 0x00)
    } else if i == 6 {
        Instr::KeepStop(0x91)
    } else if i == 7 {
        Instr::Write(0x00, 0x01)
    } else if i == 8 {
        Instr::Write(0xFF, 0x00)
    } else if i == 9 {
        Instr::Write(0x80, 0x00)
    } else if i == 10 {
        Instr::SetBits(0x60, 0x12)
    } else if i == 11 {
        Instr::Write16(0x44, 32)
    } else if i == 12 {
        Instr::Write(0x01, 0xFF)
    } else if i == 13 {
        Instr::Write(0x80, 0x01)
    } else if i == 14 {
        Instr::Write(0xFF, 0x01)
    } else if i == 15 {
        Instr::Write(0x00, 0x00)
    } else if i == 16 {
        Instr::Write(0xFF, 0x06)
    } else if i == 17 {
        Instr::SetBits(0x83, 0x04)
    } else if i == 18 {
        Instr::Write(0xFF, 0x07)
    } else if i == 19 {
        Instr::Write(0x81, 0x01)
    } else if i == 20 {
        Instr::Write(0x80, 0x01)
    } else if i == 21 {
        Instr::Write(0x94, 0x6B)
    } else if i == 22 {
        Instr::Write(0x83, 0x00)
    } else if i == 23 {
        Instr::Await(0x83, Until::NonZero)
    } else if i == 24 {
        Instr::Write(0x83, 0x01)
    } else if i == 25 {
        Instr::KeepSpadInfo(0x92)
    } else if i == 26 {
        Instr::Write(0x81, 0x00)
    } else if i == 27 {
        Instr::Write(0xFF, 0x06)
    } else if i == 28 {
        Instr::ClearBits(0x83, 0x04)
    } else if i == 29 {
        Instr::Write(0xFF, 0x01)
    } else if i == 30 {
        Instr::Write(0x00, 0x01)
    } else if i == 31 {
        Instr::Write(0xFF, 0x00)
    } else if i == 32 {
        Instr::Write(0x80, 0x00)
    } else if i == 33 {
        Instr::TakeMap(0xB0)
    } else if i == 34 {
        Instr::Write(0xFF, 0x01)
    } else if i == 35 {
        Instr::Write(0x4F, 0x00)
    } else if i == 36 {
        Instr::Write(0x4E, 0x2C)
    } else if i == 37 {
        Instr::Write(0xFF, 0x00)
    } else if i == 38 {
        Instr::Write(0xB6, 0xB4)
    } else {
        Instr::PutMap(0xB0)
    }
}

fn init_head(i: usize) -> (r: Instr)
    requires
        i < INIT_HEAD,
    ensures
        r == init_head_at(i as int),
{
    match i {
        0 => Instr::CheckModel,
        1 => Instr::SetBits(0x89, 0x01),
        2 => Instr::Write(0x88, 0x00),
        3 => Instr::Write(0x80, 0x01),
        4 => Instr::Write(0xFF, 0x01),
        5 => Instr::Write(0x00, 0x00),
        6 => Instr::KeepStop(0x91),
        7 => Instr::Write(0x00, 0x01),
        8 => Instr::Write(0xFF, 0x00),
        9 => Instr::Write(0x80, 0x00),
        10 => Instr::SetBits(0x60, 0x12),
        11 => Instr::Write16(0x44, 32),
        12 => Instr::Write(0x01, 0xFF),
        13 => Instr::Write(0x80, 0x01),
        14 => Instr::Write(0xFF, 0x01),
        15 => Instr::Write(0x00, 0x00),
        16 => Instr::Write(0xFF, 0x06),
        17 => Instr::SetBits(0x83, 0x04),
        18 => Instr::Write(0xFF, 0x07),
        19 => Instr::Write(0x81, 0x01),
        20 => Instr::Write(0x80, 0x01),
        21 => Instr::Write(0x94, 0x6B),
        22 => Instr::Write(0x83, 0x00),
        23 => Instr::Await(0x83, Until::NonZero),
        24 => Instr::Write(0x83, 0x01),
        25 => Instr::KeepSpadInfo(0x92),
        26 => Instr::Write(0x81, 0x00),
        27 => Instr::Write(0xFF, 0x06),
        28 => Instr::ClearBits(0x83, 0x04),
        29 => Instr::Write(0xFF, 0x01),
        30 => Instr::Write(0x00, 0x01),
        31 => Instr::Write(0xFF, 0x00),
        32 => Instr::Write(0x80, 0x00),
        33 => Instr::TakeMap(0xB0),
        34 => Instr::Write(0xFF, 0x01),
        35 => Instr::Write(0x4F, 0x00),
        36 => Instr::Write(0x4E, 0x2C),
        37 => Instr::Write(0xFF, 0x00),
        38 => Instr::Write(0xB6, 0xB4),
        _ => Instr::PutMap(0xB0),
    }
}

/// The bring-up after the tuning table: interrupt configuration and the two reference
/// calibrations (VHV, then phase).
pub open spec fn init_tail_at(i: int) -> Instr {
    if i == 0 {
        Instr::Write(0x0A, 0x04)
    } else if i == 1 {
        Instr::ClearBits(0x84, 0x10)
    } else if i == 2 {
        Instr::Write(0x0B, 0x01)
    } else if i == 3 {
        Instr::Write(0x01, 0xE8)
    } else if i == 4 {
        Instr::Write(0x01, 0x01)
    } else if i == 5 {
        Instr::Write(0x00, 0x41)
    } else if i == 6 {
        Instr::Await(0x13, Until::SampleReady)
    } else if i == 7 {
        Instr::Write(0x0B, 0x01)
    } else if i == 8 {
        Instr::Write(0x00, 0x00)
    } else if i == 9 {
        Instr::Write(0x01, 0x02)
    } else if i == 10 {
        Instr::Write(0x00, 0x01)
    } else if i == 11 {
        Instr::Await(0x13, Until::SampleReady)
    } else if i == 12 {
        Instr::Write(0x0B, 0x01)
    } else if i == 13 {
        Instr::Write(0x00, 0x00)
    } else {
        Instr::Write(0x01, 0xE8)
    }
}

fn init_tail(i: usize) -> (r: Instr)
    requires
        i < INIT_TAIL,
    ensures
        r == init_tail_at(i as int),
{
    match i {
        0 => Instr::Write(0x0A, 0x04),
        1 => Instr::ClearBits(0x84, 0x10),
        2 => Instr::Write(0x0B, 0x01),
        3 => Instr::Write(0x01, 0xE8),
        4 => Instr::Write(0x01, 0x01),
        5 => Instr::Write(0x00, 0x41),
        6 => Instr::Await(0x13, Until::SampleReady),
        7 => Instr::Write(0x0B, 0x01),
        8 => Instr::Write(0x00, 0x00),
        9 => Instr::Write(0x01, 0x02),
        10 => Instr::Write(0x00, 0x01),
        11 => Instr::Await(0x13, Until::SampleReady),
        12 => Instr::Write(0x0B, 0x01),
        13 => Instr::Write(0x00, 0x00),
        _ => Instr::Write(0x01, 0xE8),
    }
}

/// The single-shot range read: restore the stop variable, start, wait for the start bit to clear
/// and for the sample, read the range, clear the interrupt.
pub open spec fn range_at(i: int) -> Instr {
    if i == 0 {
        Instr::Write(0x80, 0x01)
    } else if i == 1 {
        Instr::Write(0xFF, 0x01)
    } else if i == 2 {
        Instr::Write(0x00, 0x00)
    } else if i == 3 {
        Instr::PutStop(0x91)
    } else if i == 4 {
        Instr::Write(0x00, 0x01)
    } else if i == 5 {
        Instr::Write(0xFF, 0x00)
    } else if i == 6 {
        Instr::Write(0x80, 0x00)
    } else if i == 7 {
        Instr::Write(0x00, 0x01)
    } else if i == 8 {
        Instr::Await(0x00, Until::StartCleared)
    } else if i == 9 {
        Instr::Await(0x13, Until::SampleReady)
    } else if i == 10 {
        Instr::KeepRange(0x1E)
    } else {
        Instr::Write(0x0B, 0x01)
    }
}

fn range_instr(i: usize) -> (r: Instr)
    requires
        i < RANGE_LEN,
    ensures
        r == range_at(i as int),
{
    match i {
        0 => Instr::Write(0x80, 0x01),
        1 => Instr::Write(0xFF, 0x01),
        2 => Instr::Write(0x00, 0x00),
        3 => Instr::PutStop(0x91),
        4 => Instr::Write(0x00, 0x01),
        5 => Instr::Write(0xFF, 0x00),
        6 => Instr::Write(0x80, 0x00),
        7 => Instr::Write(0x00, 0x01),
        8 => Instr::Await(0x00, Until::StartCleared),
        9 => Instr::Await(0x13, Until::SampleReady),
        10 => Instr::KeepRange(0x1E),
        _ => Instr::Write(0x0B, 0x01),
    }
}

/// Number of instructions of a script.
pub open spec fn script_len(s: Script) -> int {
    match s {
        Script::Init => INIT_HEAD + TUNING_LEN + INIT_TAIL,
        Script::Range => RANGE_LEN as int,
    }
}

/// Instruction `pc` of a script; the tuning table stands in the bring-up as plain writes.
pub open spec fn instr_at(s: Script, pc: int) -> Instr {
    match s {
        Script::Init => if pc < INIT_HEAD {
            init_head_at(pc)
        } else if pc < INIT_HEAD + TUNING_LEN {
            Instr::Write(tuning_spec(pc - INIT_HEAD).0, tuning_spec(pc - INIT_HEAD).1)
        } else {
            init_tail_at(pc - INIT_HEAD - TUNING_LEN)
        },
        Script::Range => range_at(pc),
    }
}

fn instr(s: Script, pc: usize) -> (r: Instr)
    requires
        pc < script_len(s),
    ensures
        r == instr_at(s, pc as int),
{
    match s {
        Script::Init => if pc < INIT_HEAD {
            init_head(pc)
        } else if pc < INIT_HEAD + TUNING_LEN {
            let (reg, val) = tuning(pc - INIT_HEAD);
            Instr::Write(reg, val)
        } else {
            init_tail(pc - INIT_HEAD - TUNING_LEN)
        },
        Script::Range => range_instr(pc),
    }
}

/// One operation on the sensor's bus.
#[derive(Clone, Copy, PartialEq, Eq, Debug, Structural)]
pub enum BusOp {
    /// Read one register; answer with [`Reply::Byte`].
    Read(u8),
    /// Read a 16-bit register; answer with [`Reply::Word`].
    ReadWord(u8),
    /// Read the six map bytes from a register on; answer with [`Reply::Block`].
    ReadMap(u8),
    /// Write one register.
    Write(u8, u8),
    /// Write a 16-bit register (big-endian).
    Write16(u8, u16),
    /// Write [`TofScript::selected_map`] from a register on.
    WriteMap(u8),
}

/// What the last bus operation gave back (`Ack` for a write).
#[derive(Clone, Copy, Debug)]
pub enum Reply {
    Ack,
    Byte(u8),
    Word(u16),
    Block([u8; 6]),
}

/// Why a script stopped early.
#[derive(Clone, Copy, PartialEq, Eq, Debug, Structural)]
pub enum Fault {
    /// The model register did not read the VL53L0X's id.
    Identity,
    /// A status poll did not reach its condition within [`POLL`] reads.
    NotReady,
}

/// What the caller does next.
#[derive(Clone, Copy, PartialEq, Eq, Debug, Structural)]
pub enum Step {
    /// Perform this operation and hand back its reply.
    Bus(BusOp),
    /// The bring-up finished; the stop variable it captured.
    Ready(u8),
    /// The range read finished; the range in mm.
    Ranged(u16),
    /// The script stopped early.
    Failed(Fault),
}

/// The byte a reply carries (0 for any other reply).
pub open spec fn reply_byte(r: Reply) -> u8 {
    match r {
        Reply::Byte(b) => b,
        _ => 0,
    }
}

/// The word a reply carries (0 for any other reply).
pub open spec fn reply_word(r: Reply) -> u16 {
    match r {
        Reply::Word(w) => w,
        _ => 0,
    }
}

/// The abstract state of a script in progress.
pub struct TofView {
    pub script: Script,
    /// The instruction being carried out.
    pub pc: int,
    /// Whether the instruction's read was issued and its reply is awaited.
    pub reading: bool,
    /// Reads issued by the current poll.
    pub polls: int,
    pub stop: u8,
    pub spad_count: u8,
    pub aperture: bool,
    /// The reference-SPAD map as read.
    pub map: Seq<u8>,
    pub range: u16,
    /// Whether the script has finished or failed.
    pub over: bool,
}

/// A script in progress.
pub struct TofScript {
    script: Script,
    pc: usize,
    reading: bool,
    polls: u16,
    stop: u8,
    spad_count: u8,
    aperture: bool,
    map: [u8; 6],
    range: u16,
    over: bool,
}

impl View for TofScript {
    type V = TofView;

    closed spec fn view(&self) -> TofView {
        TofView {
            script: self.script,
            pc: self.pc as int,
            reading: self.reading,
            polls: self.polls as int,
            stop: self.stop,
            spad_count: self.spad_count,
            aperture: self.aperture,
            map: self.map@,
            range: self.range,
            over: self.over,
        }
    }
}

/// The consistent states of a script.
pub open spec fn wf(v: TofView) -> bool {
    &&& 0 <= v.pc <= script_len(v.script)
    &&& v.reading ==> v.pc < script_len(v.script)
    &&& 0 <= v.polls <= POLL
    &&& v.map.len() == 6
}

/// `v` on the next instruction, with no read outstanding.
pub open spec fn advance(v: TofView) -> TofView {
    TofView { pc: v.pc + 1, reading: false, polls: 0, ..v }
}

/// `v` waiting for the reply to its read.
pub open spec fn awaiting(v: TofView, polls: int) -> TofView {
    TofView { reading: true, polls, ..v }
}

/// `v` finished or failed.
pub open spec fn ended(v: TofView) -> TofView {
    TofView { over: true, ..v }
}

/// The first operation of instruction `v.pc` (or the result, past the last instruction).
pub open spec fn issue(v: TofView) -> (TofView, Step) {
    if v.pc >= script_len(v.script) {
        (ended(v), match v.script {
            Script::Init => Step::Ready(v.stop),
            Script::Range => Step::Ranged(v.range),
        })
    } else {
        match instr_at(v.script, v.pc) {
            Instr::CheckModel => (awaiting(v, 0), Step::Bus(BusOp::Read(REG_MODEL_ID))),
            Instr::Write(r, x) => (advance(v), Step::Bus(BusOp::Write(r, x))),
            Instr::Write16(r, x) => (advance(v), Step::Bus(BusOp::Write16(r, x))),
            Instr::SetBits(r, _) => (awaiting(v, 0), Step::Bus(BusOp::Read(r))),
            Instr::ClearBits(r, _) => (awaiting(v, 0), Step::Bus(BusOp::Read(r))),
            Instr::KeepStop(r) => (awaiting(v, 0), Step::Bus(BusOp::Read(r))),
            Instr::PutStop(r) => (advance(v), Step::Bus(BusOp::Write(r, v.stop))),
            Instr::KeepSpadInfo(r) => (awaiting(v, 0), Step::Bus(BusOp::Read(r))),
            Instr::TakeMap(r) => (awaiting(v, 0), Step::Bus(BusOp::ReadMap(r))),
            Instr::PutMap(r) => (advance(v), Step::Bus(BusOp::WriteMap(r))),
            Instr::Await(r, _) => (awaiting(v, 1), Step::Bus(BusOp::Read(r))),
            Instr::KeepRange(r) => (awaiting(v, 0), Step::Bus(BusOp::ReadWord(r))),
        }
    }
}

/// One move: with a read outstanding, its reply is used first (a wrong model fails the
/// bring-up; a masked write-back goes out; a kept value is stored; an unmet poll reads again,
/// or fails after [`POLL`] reads); then the next instruction's first operation is issued.
pub open spec fn next(v: TofView, reply: Reply) -> (TofView, Step) {
    if !v.reading {
        issue(v)
    } else {
        let b = reply_byte(reply);
        match instr_at(v.script, v.pc) {
            Instr::CheckModel => if b == MODEL_ID {
                issue(advance(v))
            } else {
                (ended(v), Step::Failed(Fault::Identity))
            },
            Instr::SetBits(r, m) => (advance(v), Step::Bus(BusOp::Write(r, b | m))),
            Instr::ClearBits(r, m) => (advance(v), Step::Bus(BusOp::Write(r, b & !m))),
            Instr::KeepStop(_) => issue(TofView { stop: b, ..advance(v) }),
            Instr::KeepSpadInfo(_) => issue(TofView { spad_count: b % 128, aperture: b >= 128, ..advance(v) }),
            Instr::TakeMap(_) => issue(TofView {
                map: match reply {
                    Reply::Block(m) => m@,
                    _ => v.map,
                },
                ..advance(v)
            }),
            Instr::KeepRange(_) => issue(TofView { range: reply_word(reply), ..advance(v) }),
            Instr::Await(r, u) => if reached(u, b) {
                issue(advance(v))
            } else if v.polls >= POLL {
                (ended(v), Step::Failed(Fault::NotReady))
            } else {
                (awaiting(v, v.polls + 1), Step::Bus(BusOp::Read(r)))
            },
            _ => issue(advance(v)),
        }
    }
}

impl TofScript {
    /// The bring-up for single-shot ranging, not yet started.
    pub fn init() -> (t: Self)
        ensures
            t@.script == Script::Init,
            t@.pc == 0,
            !t@.reading,
            !t@.over,
            wf(t@),
    {
        TofScript {
            script: Script::Init,
            pc: 0,
            reading: false,
            polls: 0,
            stop: 0,
            spad_count: 0,
            aperture: false,
            map: [0u8; 6],
            range: 0,
            over: false,
        }
    }

    /// One range read with the handle's stop variable, not yet started.
    pub fn range(handle: &Vl53l0xRanging) -> (t: Self)
        ensures
            t@.script == Script::Range,
            t@.pc == 0,
            !t@.reading,
            !t@.over,
            t@.stop == handle.stop_variable_spec(),
            wf(t@),
    {
        TofScript {
            script: Script::Range,
            pc: 0,
            reading: false,
            polls: 0,
            stop: handle.stop_variable(),
            spad_count: 0,
            aperture: false,
            map: [0u8; 6],
            range: 0,
            over: false,
        }
    }

    /// The reference-SPAD map to write: the map as read, with only the first `spad_count`
    /// usable SPADs enabled.
    pub fn selected_map(&self) -> (m: [u8; 6])
        ensures
            forall|i: int| 0 <= i < 48 ==> #[trigger] spad_bit(m@, i) == spad_kept(self@.map, self@.spad_count, self@.aperture, i),
    {
        select_ref_spads(self.map, self.spad_count, self.aperture)
    }

    fn issue(&mut self) -> (s: Step)
        requires
            wf(old(self)@),
            !old(self)@.reading,
        ensures
            (final(self)@, s) == issue(old(self)@),
    {
        if self.pc >= INIT_HEAD + TUNING_LEN + INIT_TAIL && self.script == Script::Init
            || self.pc >= RANGE_LEN && self.script == Script::Range {
            self.over = true;
            return match self.script {
                Script::Init => Step::Ready(self.stop),
                Script::Range => Step::Ranged(self.range),
            };
        }
        match instr(self.script, self.pc) {
            Instr::CheckModel => {
                self.reading = true;
                self.polls = 0;
                Step::Bus(BusOp::Read(REG_MODEL_ID))
            },
            Instr::Write(r, x) => {
                self.pc = self.pc + 1;
                self.polls = 0;
                Step::Bus(BusOp::Write(r, x))
            },
            Instr::Write16(r, x) => {
                self.pc = self.pc + 1;
                self.polls = 0;
                Step::Bus(BusOp::Write16(r, x))
            },
            Instr::PutStop(r) => {
                self.pc = self.pc + 1;
                self.polls = 0;
                Step::Bus(BusOp::Write(r, self.stop))
            },
            Instr::PutMap(r) => {
                self.pc = self.pc + 1;
                self.polls = 0;
                Step::Bus(BusOp::WriteMap(r))
            },
            Instr::SetBits(r, _) | Instr::ClearBits(r, _) | Instr::KeepStop(r) | Instr::KeepSpadInfo(r) => {
                self.reading = true;
                self.polls = 0;
                Step::Bus(BusOp::Read(r))
            },
            Instr::TakeMap(r) => {
                self.reading = true;
                self.polls = 0;
                Step::Bus(BusOp::ReadMap(r))
            },
            Instr::KeepRange(r) => {
                self.reading = true;
                self.polls = 0;
                Step::Bus(BusOp::ReadWord(r))
            },
            Instr::Await(r, _) => {
                self.reading = true;
                self.polls = 1;
                Step::Bus(BusOp::Read(r))
            },
        }
    }

    /// Hand back the reply to the last operation (anything, before the first one); returns what
    /// to do next.
    pub fn step(&mut self, reply: Reply) -> (s: Step)
        requires
            wf(old(self)@),
            !old(self)@.over,
        ensures
            (final(self)@, s) == next(old(self)@, reply),
            wf(final(self)@),
    {
        if self.reading {
            let b: u8 = match reply {
                Reply::Byte(x) => x,
                _ => 0,
            };
            match instr(self.script, self.pc) {
                Instr::CheckModel => {
                    if b != MODEL_ID {
                        self.over = true;
                        return Step::Failed(Fault::Identity);
                    }
                },
                Instr::SetBits(r, m) => {
                    self.pc = self.pc + 1;
                    self.reading = false;
                    self.polls = 0;
                    return Step::Bus(BusOp::Write(r, b | m));
                },
                Instr::ClearBits(r, m) => {
                    self.pc = self.pc + 1;
                    self.reading = false;
                    self.polls = 0;
                    return Step::Bus(BusOp::Write(r, b & !m));
                },
                Instr::KeepStop(_) => {
                    self.stop = b;
                },
                Instr::KeepSpadInfo(_) => {
                    let (count, aperture) = Vl53l0xRanging::spad_info(b);
                    self.spad_count = count;
                    self.aperture = aperture;
                },
                Instr::TakeMap(_) => {
                    if let Reply::Block(m) = reply {
                        self.map = m;
                    }
                },
                Instr::KeepRange(_) => {
                    self.range = match reply {
                        Reply::Word(w) => w,
                        _ => 0,
                    };
                },
                Instr::Await(r, u) => {
                    if !is_reached(u, b) {
                        if self.polls >= POLL {
                            self.over = true;
                            return Step::Failed(Fault::NotReady);
                        }
                        self.polls = self.polls + 1;
                        return Step::Bus(BusOp::Read(r));
                    }
                },
                _ => {},
            }
            self.pc = self.pc + 1;
            self.reading = false;
            self.polls = 0;
        }
        self.issue()
    }
}

/// The work a script still has to do: every instruction left costs at most one read per poll
/// round plus its write, and an outstanding poll has its remaining reads.
pub open spec fn remaining(v: TofView) -> int {
    if v.reading {
        (script_len(v.script) - v.pc - 1) * (POLL + 2) + (POLL + 1 - v.polls)
    } else {
        (script_len(v.script) - v.pc) * (POLL + 2)
    }
}

/// Every script ends, whatever the sensor answers: each move either ends the script or lowers
/// the work still to do, which never goes below zero.
pub proof fn every_script_ends(v: TofView, reply: Reply)
    requires
        wf(v),
        !v.over,
    ensures
        remaining(v) >= 0,
        wf(next(v, reply).0),
        next(v, reply).0.over || remaining(next(v, reply).0) < remaining(v),
{
}

/// The bring-up reads the model register before anything else, and a model other than the
/// VL53L0X's ends it with `Identity` before any write.
pub proof fn bring_up_checks_identity_first(v: TofView, reply: Reply, model: u8)
    requires
        wf(v),
        v.script == Script::Init,
        v.pc == 0,
        !v.reading,
    ensures
        next(v, reply) == (awaiting(v, 0), Step::Bus(BusOp::Read(REG_MODEL_ID))),
        model != MODEL_ID ==> next(awaiting(v, 0), Reply::Byte(model))
            == (ended(awaiting(v, 0)), Step::Failed(Fault::Identity)),
{
}

/// A poll gives up after [`POLL`] unsuccessful reads, and reads again before that.
pub proof fn polls_are_bounded(v: TofView, reply: Reply)
    requires
        wf(v),
        v.reading,
        (instr_at(v.script, v.pc) matches Instr::Await(_, u) && !reached(u, reply_byte(reply))),
    ensures
        v.polls >= POLL ==> next(v, reply).1 == Step::Failed(Fault::NotReady),
        v.polls < POLL ==> (next(v, reply).1 matches Step::Bus(BusOp::Read(_))),
        v.polls < POLL ==> next(v, reply).0.polls == v.polls + 1,
{
}

/// A range read never changes the stop variable it was given, writes it back to register 0x91
/// as its fourth operation, and reports the range it read.
pub proof fn range_read_restores_the_stop_variable(v: TofView, reply: Reply)
    requires
        wf(v),
        v.script == Script::Range,
        !v.over,
    ensures
        next(v, reply).0.stop == v.stop,
        v.pc == 3 && !v.reading ==> next(v, reply).1 == Step::Bus(BusOp::Write(0x91, v.stop)),
        next(v, reply).1 matches Step::Ranged(r) ==> r == next(v, reply).0.range,
{
}

/// The bring-up ends `Ready` with the stop variable it holds.
pub proof fn bring_up_reports_its_stop_variable(v: TofView, reply: Reply)
    requires
        wf(v),
        v.script == Script::Init,
        !v.over,
    ensures
        next(v, reply).1 matches Step::Ready(x) ==> x == next(v, reply).0.stop,
        next(v, reply).1 !is Ranged,
{
}

} // verus!
