//! Runtime MSP430 model detection and pin mapping: one image covers a whole compatible family;
//! the Device ID read from the TLV descriptor names the part, and a part outside the image's
//! family is flagged as a wrong-family flash.
use vstd::prelude::*;
use crate::prod::image::Family;

verus! {

/// Device ID of the FR2476.
pub const DEVICE_ID_FR2476: u16 = 0x832A;
/// Device ID of the FR2475.
pub const DEVICE_ID_FR2475: u16 = 0x832B;
/// Device ID of the FR2433.
pub const DEVICE_ID_FR2433: u16 = 0x8240;
/// Device ID placeholder of the FR2155 (to be confirmed on hardware).
pub const DEVICE_ID_FR2155: u16 = 0xF215;
/// Device ID placeholder of the FR2355 (to be confirmed on hardware).
pub const DEVICE_ID_FR2355: u16 = 0xF235;

/// A recognised MSP430 model; `Unknown` carries the raw id of unrecognised silicon.
#[derive(Clone, Copy, PartialEq, Eq, Debug, Structural)]
pub enum Model {
    Fr2476,
    Fr2475,
    Fr2155,
    Fr2355,
    Fr2433,
    Unknown(u16),
}

/// Which buses and GPIO banks a model provides.
#[derive(Clone, Copy, PartialEq, Eq, Debug, Structural)]
pub struct PinMap {
    /// Physically backed GPIO banks.
    pub bank_count: u8,
    /// The MCU-bus slave surface (always present).
    pub mcu_i2c: bool,
    /// A second I²C block for the sensor-bus master.
    pub sensor_i2c: bool,
}

/// The model a Device ID names.
pub open spec fn model_of(id: u16) -> Model {
    if id == DEVICE_ID_FR2476 {
        Model::Fr2476
    } else if id == DEVICE_ID_FR2475 {
        Model::Fr2475
    } else if id == DEVICE_ID_FR2155 {
        Model::Fr2155
    } else if id == DEVICE_ID_FR2355 {
        Model::Fr2355
    } else if id == DEVICE_ID_FR2433 {
        Model::Fr2433
    } else {
        Model::Unknown(id)
    }
}

/// The Device ID of a model.
pub open spec fn id_of(m: Model) -> u16 {
    match m {
        Model::Fr2476 => DEVICE_ID_FR2476,
        Model::Fr2475 => DEVICE_ID_FR2475,
        Model::Fr2155 => DEVICE_ID_FR2155,
        Model::Fr2355 => DEVICE_ID_FR2355,
        Model::Fr2433 => DEVICE_ID_FR2433,
        Model::Unknown(id) => id,
    }
}

/// The family a recognised model belongs to.
pub open spec fn family_of(m: Model) -> Option<Family> {
    match m {
        Model::Fr2476 | Model::Fr2475 => Some(Family::Fr247x),
        Model::Fr2155 => Some(Family::Fr215x),
        Model::Fr2355 => Some(Family::Fr235x),
        Model::Fr2433 => Some(Family::Fr24xx),
        Model::Unknown(_) => None,
    }
}

/// The pin/bus assignment of a model.
pub open spec fn pin_map_of(m: Model) -> PinMap {
    match m {
        Model::Fr2476 | Model::Fr2475 | Model::Fr2155 | Model::Fr2355 =>
            PinMap { bank_count: 5, mcu_i2c: true, sensor_i2c: true },
        Model::Fr2433 => PinMap { bank_count: 3, mcu_i2c: true, sensor_i2c: false },
        Model::Unknown(_) => PinMap { bank_count: 0, mcu_i2c: true, sensor_i2c: false },
    }
}

impl Model {
    /// Classify a Device ID.
    pub fn from_device_id(id: u16) -> (m: Model)
        ensures
            m == model_of(id),
    {
        if id == DEVICE_ID_FR2476 {
            Model::Fr2476
        } else if id == DEVICE_ID_FR2475 {
            Model::Fr2475
        } else if id == DEVICE_ID_FR2155 {
            Model::Fr2155
        } else if id == DEVICE_ID_FR2355 {
            Model::Fr2355
        } else if id == DEVICE_ID_FR2433 {
            Model::Fr2433
        } else {
            Model::Unknown(id)
        }
    }

    /// The 16-bit Device ID of this model (`Unknown` carries its raw id).
    pub fn device_id(self) -> (id: u16)
        ensures
            id == id_of(self),
    {
        match self {
            Model::Fr2476 => DEVICE_ID_FR2476,
            Model::Fr2475 => DEVICE_ID_FR2475,
            Model::Fr2155 => DEVICE_ID_FR2155,
            Model::Fr2355 => DEVICE_ID_FR2355,
            Model::Fr2433 => DEVICE_ID_FR2433,
            Model::Unknown(id) => id,
        }
    }

    /// True if this model belongs to the family the image was built for.
    pub fn matches_build_family(self, family: Family) -> (b: bool)
        ensures
            b == (family_of(self) == Some(family)),
    {
        match self {
            Model::Fr2476 | Model::Fr2475 => family == Family::Fr247x,
            Model::Fr2155 => family == Family::Fr215x,
            Model::Fr2355 => family == Family::Fr235x,
            Model::Fr2433 => family == Family::Fr24xx,
            Model::Unknown(_) => false,
        }
    }

    /// The pin/bus assignment for this model.
    pub fn pin_map(self) -> (pm: PinMap)
        ensures
            pm == pin_map_of(self),
    {
        match self {
            Model::Fr2476 | Model::Fr2475 => PinMap { bank_count: 5, mcu_i2c: true, sensor_i2c: true },
            Model::Fr2155 | Model::Fr2355 => PinMap { bank_count: 5, mcu_i2c: true, sensor_i2c: true },
            Model::Fr2433 => PinMap { bank_count: 3, mcu_i2c: true, sensor_i2c: false },
            Model::Unknown(_) => PinMap { bank_count: 0, mcu_i2c: true, sensor_i2c: false },
        }
    }
}

/// Reading back a model's Device ID gives the id it was classified from, for every id.
pub proof fn device_id_round_trip(id: u16)
    ensures
        id_of(model_of(id)) == id,
{
}

/// Classifying a recognised model's Device ID gives that model back.
pub proof fn model_round_trip(m: Model)
    requires
        family_of(m) is Some,
    ensures
        model_of(id_of(m)) == m,
{
}

/// Every model keeps the MCU-bus slave surface, and exactly the models of a dual-I²C family
/// offer the sensor-bus master.
pub proof fn sensor_bus_only_on_dual_parts(m: Model)
    ensures
        pin_map_of(m).mcu_i2c,
        pin_map_of(m).sensor_i2c == (match family_of(m) { Some(f) => f.is_dual_spec(), None => false }),
{
}

/// Each datasheet Device ID names its own part, and no other ID names it: 0x832A is the FR2476,
/// 0x832B the FR2475 and 0x8240 the FR2433 (0xF215 and 0xF235 stand for the FR2155 and FR2355);
/// every other ID is unknown silicon and keeps its raw value. So the FR247x family is recognised
/// exactly from 0x832A and 0x832B, and no recognised ID falls outside its family.
pub proof fn device_ids_name_their_parts(id: u16)
    ensures
        (model_of(id) == Model::Fr2476) <==> id == 0x832A,
        (model_of(id) == Model::Fr2475) <==> id == 0x832B,
        (model_of(id) == Model::Fr2433) <==> id == 0x8240,
        (model_of(id) == Model::Fr2155) <==> id == 0xF215,
        (model_of(id) == Model::Fr2355) <==> id == 0xF235,
        (model_of(id) == Model::Unknown(id)) <==> !(id == 0x832A || id == 0x832B || id == 0x8240
            || id == 0xF215 || id == 0xF235),
        (family_of(model_of(id)) == Some(Family::Fr247x)) <==> (id == 0x832A || id == 0x832B),
        (family_of(model_of(id)) == Some(Family::Fr24xx)) <==> id == 0x8240,
{
}

} // verus!
