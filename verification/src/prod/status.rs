//! Debug / identity / status: the state model behind the debug window (0x30–0x3F) of the
//! register map. One model, two readers: the I²C-slave surface and the bench dump read the same
//! bytes through [`Status::read_reg`].
use vstd::prelude::*;
use crate::devices::known::{known_addr, known_entry, KNOWN_COUNT};
use crate::prod::enumerate::{count_true, Scan};
use crate::prod::image::BuildConfig;
use crate::prod::model::{family_of, id_of, Model};
use crate::prod::regmap;
use crate::uart::{decimal, dec, hex8, hex_digit, push_str};
use vstd::string::StringSliceAdditionalSpecFns;

verus! {

/// Status flag: firmware reached the run loop.
pub const FLAG_BOOTED: u8 = 0x01;
/// Status flag: a sensor-bus scan has completed.
pub const FLAG_ENUMERATED: u8 = 0x02;
/// Status flag: the sensor bus scanned cleanly.
pub const FLAG_BUS_OK: u8 = 0x04;
/// Status flag: the detected part is not in this image's family.
pub const FLAG_WRONG_FAMILY: u8 = 0x08;
/// Fault flag: SDA stuck low / all-ACK.
pub const FAULT_BUS_WEDGED: u8 = 0x01;

/// Bit `i` of the known-present bitmap: entry `i` of the known table ACKed.
pub open spec fn known_bits(present: Seq<bool>, upto: int) -> u8
    decreases upto,
{
    if upto <= 0 {
        0
    } else {
        let rest = known_bits(present, upto - 1);
        if present[known_addr(upto - 1) as int] {
            (rest | (1u8 << ((upto - 1) as u8))) as u8
        } else {
            rest
        }
    }
}

/// The debug/status snapshot.
pub struct Status {
    model_id: u16,
    build_id: u32,
    status: u8,
    dev_count: u8,
    known_present: u8,
    fault: u8,
    mode: u8,
    ver: (u8, u8, u8),
}

/// The status flags for `model` in `image`, before the scan adds its bits.
pub open spec fn base_flags(model: Model, image: BuildConfig, enumerated: bool) -> u8 {
    let booted = if enumerated { (FLAG_BOOTED | FLAG_ENUMERATED) as u8 } else { FLAG_BOOTED };
    if family_of(model) == Some(image.family) { booted } else { (booted | FLAG_WRONG_FAMILY) as u8 }
}

/// Two upper-case hex digits of `v`.
pub open spec fn hex2(v: u8) -> Seq<u8> {
    seq![hex_digit(v as int / 16), hex_digit(v as int % 16)]
}

/// The raw debug bytes from `EXT_BASE` up to (not including) `upto`, each after a space.
pub open spec fn window_bytes(s: Status, upto: int) -> Seq<u8>
    decreases upto - regmap::EXT_BASE,
{
    if upto <= regmap::EXT_BASE {
        Seq::empty()
    } else {
        window_bytes(s, upto - 1) + seq![32u8] + hex2(s.reg_value((upto - 1) as u8))
    }
}

/// The bench dump of the debug window: the raw bytes 0x30–0x3F, then a decoded line (Device ID,
/// build id, device count, known bitmap, flags, fault, version and mode).
pub open spec fn dump_text(s: Status) -> Seq<u8> {
    "dbg 30-3F:".spec_bytes() + window_bytes(s, regmap::EXT_END + 1)
        + "\n  model=".spec_bytes() + hex2(s.reg_value(regmap::DBG_MODEL_H))
        + hex2(s.reg_value(regmap::DBG_MODEL_L))
        + " build=".spec_bytes() + hex2(s.reg_value(regmap::DBG_BUILD_3))
        + hex2(s.reg_value(regmap::DBG_BUILD_2)) + hex2(s.reg_value(regmap::DBG_BUILD_1))
        + hex2(s.reg_value(regmap::DBG_BUILD_0))
        + " devs=".spec_bytes() + decimal(s.reg_value(regmap::DBG_DEV_COUNT) as nat)
        + " known=0x".spec_bytes() + hex2(s.reg_value(regmap::DBG_KNOWN_PRESENT))
        + " status=0x".spec_bytes() + hex2(s.reg_value(regmap::DBG_STATUS))
        + " fault=0x".spec_bytes() + hex2(s.reg_value(regmap::DBG_FAULT))
        + " ver=".spec_bytes() + decimal(s.reg_value(regmap::DBG_FW_VER_MAJOR) as nat) + seq![46u8]
        + decimal(s.reg_value(regmap::DBG_FW_VER_MINOR) as nat) + seq![46u8]
        + decimal(s.reg_value(regmap::DBG_FW_VER_PATCH) as nat)
        + " mode=0x".spec_bytes() + hex2(s.reg_value(regmap::MODE_CTRL)) + seq![10u8]
}

impl Status {
    /// The byte a master reads at debug register `reg`.
    pub closed spec fn reg_value(&self, reg: u8) -> u8 {
        if reg == regmap::DBG_IFACE { regmap::DBG_IFACE_MAGIC }
        else if reg == regmap::DBG_MODEL_L { (self.model_id % 256) as u8 }
        else if reg == regmap::DBG_MODEL_H { (self.model_id / 256) as u8 }
        else if reg == regmap::DBG_BUILD_0 { (self.build_id % 0x100) as u8 }
        else if reg == regmap::DBG_BUILD_1 { (self.build_id / 0x100 % 0x100) as u8 }
        else if reg == regmap::DBG_BUILD_2 { (self.build_id / 0x1_0000 % 0x100) as u8 }
        else if reg == regmap::DBG_BUILD_3 { (self.build_id / 0x100_0000) as u8 }
        else if reg == regmap::DBG_STATUS { self.status }
        else if reg == regmap::DBG_DEV_COUNT { self.dev_count }
        else if reg == regmap::DBG_KNOWN_PRESENT { self.known_present }
        else if reg == regmap::DBG_FAULT { self.fault }
        else if reg == regmap::DBG_FW_VER_MAJOR { self.ver.0 }
        else if reg == regmap::DBG_FW_VER_MINOR { self.ver.1 }
        else if reg == regmap::DBG_FW_VER_PATCH { self.ver.2 }
        else if reg == regmap::MODE_CTRL { self.mode }
        else { 0 }
    }

    /// The reported Device ID.
    pub closed spec fn model_id_spec(&self) -> u16 {
        self.model_id
    }

    /// The reported build id.
    pub closed spec fn build_id_spec(&self) -> u32 {
        self.build_id
    }

    /// Assemble the snapshot from the model and a sensor-bus scan. A faulted scan sets the fault
    /// flag and withholds BUS_OK and the presence data.
    pub fn from_scan(model: Model, scan: &Scan, image: &BuildConfig) -> (s: Status)
        ensures
            s.model_id_spec() == id_of(model),
            s.build_id_spec() == image.build_id,
            s.reg_value(regmap::DBG_FW_VER_MAJOR) == image.ver_major,
            s.reg_value(regmap::DBG_FW_VER_MINOR) == image.ver_minor,
            s.reg_value(regmap::DBG_FW_VER_PATCH) == image.ver_patch,
            s.reg_value(regmap::MODE_CTRL) == regmap::MODE_CODE_UNKNOWN,
            scan.faulted ==> {
                &&& s.reg_value(regmap::DBG_STATUS) == base_flags(model, *image, true)
                &&& s.reg_value(regmap::DBG_FAULT) == FAULT_BUS_WEDGED
                &&& s.reg_value(regmap::DBG_DEV_COUNT) == 0
                &&& s.reg_value(regmap::DBG_KNOWN_PRESENT) == 0
            },
            !scan.faulted ==> {
                &&& s.reg_value(regmap::DBG_STATUS) == (base_flags(model, *image, true) | FLAG_BUS_OK) as u8
                &&& s.reg_value(regmap::DBG_FAULT) == 0
                &&& s.reg_value(regmap::DBG_DEV_COUNT) == count_true(scan.present@) as u8
                &&& s.reg_value(regmap::DBG_KNOWN_PRESENT) == known_bits(scan.present@, KNOWN_COUNT as int)
            },
    {
        let mut status: u8 = FLAG_BOOTED | FLAG_ENUMERATED;
        if !model.matches_build_family(image.family) {
            status = status | FLAG_WRONG_FAMILY;
        }
        let ver = (image.ver_major, image.ver_minor, image.ver_patch);
        if scan.faulted {
            return Status {
                model_id: model.device_id(),
                build_id: image.build_id,
                status,
                dev_count: 0,
                known_present: 0,
                fault: FAULT_BUS_WEDGED,
                mode: regmap::MODE_CODE_UNKNOWN,
                ver,
            };
        }
        status = status | FLAG_BUS_OK;
        let mut known: u8 = 0;
        let mut i: usize = 0;
        while i < KNOWN_COUNT
            invariant
                i <= KNOWN_COUNT,
                known == known_bits(scan.present@, i as int),
            decreases KNOWN_COUNT - i,
        {
            let k = known_entry(i);
            if scan.present.get(k.addr) {
                known = known | (1u8 << (i as u8));
            }
            i = i + 1;
        }
        let n = scan.present.count();
        Status {
            model_id: model.device_id(),
            build_id: image.build_id,
            status,
            dev_count: n as u8,
            known_present: known,
            fault: 0,
            mode: regmap::MODE_CODE_UNKNOWN,
            ver,
        }
    }

    /// Booted but the sensor bus was not scanned (Passive): BOOTED only, no presence data.
    pub fn booted(model: Model, image: &BuildConfig) -> (s: Status)
        ensures
            s.model_id_spec() == id_of(model),
            s.build_id_spec() == image.build_id,
            s.reg_value(regmap::DBG_STATUS) == base_flags(model, *image, false),
            s.reg_value(regmap::DBG_FAULT) == 0,
            s.reg_value(regmap::DBG_DEV_COUNT) == 0,
            s.reg_value(regmap::DBG_KNOWN_PRESENT) == 0,
            s.reg_value(regmap::DBG_FW_VER_MAJOR) == image.ver_major,
            s.reg_value(regmap::DBG_FW_VER_MINOR) == image.ver_minor,
            s.reg_value(regmap::DBG_FW_VER_PATCH) == image.ver_patch,
            s.reg_value(regmap::MODE_CTRL) == regmap::MODE_CODE_UNKNOWN,
    {
        let mut status: u8 = FLAG_BOOTED;
        if !model.matches_build_family(image.family) {
            status = status | FLAG_WRONG_FAMILY;
        }
        Status {
            model_id: model.device_id(),
            build_id: image.build_id,
            status,
            dev_count: 0,
            known_present: 0,
            fault: 0,
            mode: regmap::MODE_CODE_UNKNOWN,
            ver: (image.ver_major, image.ver_minor, image.ver_patch),
        }
    }

    /// Set the operating-mode code reported at the mode register.
    pub fn set_mode(&mut self, code: u8)
        ensures
            forall|r: u8| #[trigger] final(self).reg_value(r)
                == if r == regmap::MODE_CTRL { code } else { old(self).reg_value(r) },
            final(self).model_id_spec() == old(self).model_id_spec(),
            final(self).build_id_spec() == old(self).build_id_spec(),
    {
        self.mode = code;
    }

    proof fn lemma_byte_split(m: u16, b: u32)
        ensures
            (m & 0xFF) as u8 == (m % 256) as u8,
            (m >> 8) as u8 == (m / 256) as u8,
            (b & 0xFF) as u8 == (b % 0x100) as u8,
            ((b >> 8) & 0xFF) as u8 == (b / 0x100 % 0x100) as u8,
            ((b >> 16) & 0xFF) as u8 == (b / 0x1_0000 % 0x100) as u8,
            (b >> 24) as u8 == (b / 0x100_0000) as u8,
    {
        assert((m & 0xFF) as u8 == (m % 256) as u8) by (bit_vector);
        assert((m >> 8) as u8 == (m / 256) as u8) by (bit_vector);
        assert((b & 0xFF) as u8 == (b % 0x100) as u8) by (bit_vector);
        assert(((b >> 8) & 0xFF) as u8 == (b / 0x100 % 0x100) as u8) by (bit_vector);
        assert(((b >> 16) & 0xFF) as u8 == (b / 0x1_0000 % 0x100) as u8) by (bit_vector);
        assert((b >> 24) as u8 == (b / 0x100_0000) as u8) by (bit_vector);
    }

    /// Read one debug register; unused offsets read 0.
    pub fn read_reg(&self, reg: u8) -> (v: u8)
        ensures
            v == self.reg_value(reg),
    {
        proof { Self::lemma_byte_split(self.model_id, self.build_id); }
        if reg == regmap::DBG_IFACE { regmap::DBG_IFACE_MAGIC }
        else if reg == regmap::DBG_MODEL_L { (self.model_id & 0xFF) as u8 }
        else if reg == regmap::DBG_MODEL_H { (self.model_id >> 8) as u8 }
        else if reg == regmap::DBG_BUILD_0 { (self.build_id & 0xFF) as u8 }
        else if reg == regmap::DBG_BUILD_1 { ((self.build_id >> 8) & 0xFF) as u8 }
        else if reg == regmap::DBG_BUILD_2 { ((self.build_id >> 16) & 0xFF) as u8 }
        else if reg == regmap::DBG_BUILD_3 { (self.build_id >> 24) as u8 }
        else if reg == regmap::DBG_STATUS { self.status }
        else if reg == regmap::DBG_DEV_COUNT { self.dev_count }
        else if reg == regmap::DBG_KNOWN_PRESENT { self.known_present }
        else if reg == regmap::DBG_FAULT { self.fault }
        else if reg == regmap::DBG_FW_VER_MAJOR { self.ver.0 }
        else if reg == regmap::DBG_FW_VER_MINOR { self.ver.1 }
        else if reg == regmap::DBG_FW_VER_PATCH { self.ver.2 }
        else if reg == regmap::MODE_CTRL { self.mode }
        else { 0 }
    }

    /// Render the bench dump of the debug window.
    pub fn dump(&self) -> (out: Vec<u8>)
        ensures
            out@ == dump_text(*self),
    {
        let mut out: Vec<u8> = Vec::new();
        push_str(&mut out, "dbg 30-3F:");
        let ghost head = out@;
        let mut r: u8 = regmap::EXT_BASE;
        while r <= regmap::EXT_END
            invariant
                regmap::EXT_BASE <= r <= regmap::EXT_END + 1,
                out@ == head + window_bytes(*self, r as int),
            decreases regmap::EXT_END + 1 - r,
        {
            out.push(32);
            let mut h = hex8(self.read_reg(r));
            out.append(&mut h);
            r = r + 1;
        }
        push_str(&mut out, "\n  model=");
        let mut h = hex8(self.read_reg(regmap::DBG_MODEL_H));
        out.append(&mut h);
        let mut h = hex8(self.read_reg(regmap::DBG_MODEL_L));
        out.append(&mut h);
        push_str(&mut out, " build=");
        let mut h = hex8(self.read_reg(regmap::DBG_BUILD_3));
        out.append(&mut h);
        let mut h = hex8(self.read_reg(regmap::DBG_BUILD_2));
        out.append(&mut h);
        let mut h = hex8(self.read_reg(regmap::DBG_BUILD_1));
        out.append(&mut h);
        let mut h = hex8(self.read_reg(regmap::DBG_BUILD_0));
        out.append(&mut h);
        push_str(&mut out, " devs=");
        let mut d = dec(self.read_reg(regmap::DBG_DEV_COUNT) as u16);
        out.append(&mut d);
        push_str(&mut out, " known=0x");
        let mut h = hex8(self.read_reg(regmap::DBG_KNOWN_PRESENT));
        out.append(&mut h);
        push_str(&mut out, " status=0x");
        let mut h = hex8(self.read_reg(regmap::DBG_STATUS));
        out.append(&mut h);
        push_str(&mut out, " fault=0x");
        let mut h = hex8(self.read_reg(regmap::DBG_FAULT));
        out.append(&mut h);
        push_str(&mut out, " ver=");
        let mut d = dec(self.read_reg(regmap::DBG_FW_VER_MAJOR) as u16);
        out.append(&mut d);
        out.push(46);
        let mut d = dec(self.read_reg(regmap::DBG_FW_VER_MINOR) as u16);
        out.append(&mut d);
        out.push(46);
        let mut d = dec(self.read_reg(regmap::DBG_FW_VER_PATCH) as u16);
        out.append(&mut d);
        push_str(&mut out, " mode=0x");
        let mut h = hex8(self.read_reg(regmap::MODE_CTRL));
        out.append(&mut h);
        out.push(10);
        out
    }
}

/// The two Device-ID registers read back the full Device ID, and the four build-id registers
/// the full build id (least significant byte first).
pub proof fn debug_ids_reassemble(s: Status)
    ensures
        s.reg_value(regmap::DBG_MODEL_L) as int + 256 * s.reg_value(regmap::DBG_MODEL_H) as int
            == s.model_id_spec() as int,
        s.reg_value(regmap::DBG_BUILD_0) as int + 0x100 * s.reg_value(regmap::DBG_BUILD_1) as int
            + 0x1_0000 * s.reg_value(regmap::DBG_BUILD_2) as int
            + 0x100_0000 * s.reg_value(regmap::DBG_BUILD_3) as int == s.build_id_spec() as int,
{
}

/// The debug window announces itself with the magic byte, and its reserved tail reads 0.
pub proof fn debug_window_layout(s: Status)
    ensures
        s.reg_value(regmap::DBG_IFACE) == regmap::DBG_IFACE_MAGIC,
        s.reg_value(0x3F) == 0,
{
}

} // verus!
