//! The Stem-bus I²C-slave surface: the register file a master reads and writes through the
//! command pointer, and the per-transaction slave state machine that services bus events.
use vstd::prelude::*;
use crate::prod::regmap::{self, decode_spec, next_ai_spec, RegSel, ShadowState};
use crate::prod::status::Status;

verus! {

/// eUSCI_B1 own slave address.
pub const STEM_ADDR: u16 = 0x20;

/// Interrupt flag: a byte was received.
pub const UCRXIFG0: u16 = 0x0001;
/// Interrupt flag: the transmit buffer wants a byte.
pub const UCTXIFG0: u16 = 0x0002;
/// Interrupt flag: START matching our own address.
pub const UCSTTIFG: u16 = 0x0004;
/// Interrupt flag: STOP.
pub const UCSTPIFG: u16 = 0x0008;
/// Interrupt flag: NACK.
pub const UCNACKIFG: u16 = 0x0020;

/// A master write to `reg` is stored (the GPIO shadow banks and the init code).
pub open spec fn writable(reg: u8) -> bool {
    match decode_spec(reg) {
        RegSel::OutputPort(_) | RegSel::IoConfig(_) | RegSel::PolarityInv(_) | RegSel::IntMask(_)
        | RegSel::InitCode => true,
        _ => false,
    }
}

/// The register image after a master writes `val` to `reg`: only a writable register changes.
pub open spec fn write_effect(regs: Seq<u8>, reg: u8, val: u8) -> Seq<u8> {
    if writable(reg) { regs.update(reg as int, val) } else { regs }
}

/// The register file behind the slave: the debug/identity status plus the PCA9698 GPIO shadow.
pub struct RegFile {
    /// Debug/identity/status snapshot (0x30–0x3F).
    pub status: Status,
    shadow: ShadowState,
    op: [u8; 8],
    ioc: [u8; 8],
}

impl RegFile {
    /// What a master reads at `reg`.
    pub closed spec fn reg_read(&self, reg: u8) -> u8 {
        match decode_spec(reg) {
            RegSel::Extended(_) => self.status.reg_value(reg),
            RegSel::InputPort(_) => 0,
            RegSel::OutputPort(b) => self.op@[b as int],
            RegSel::IoConfig(b) => self.ioc@[b as int],
            RegSel::PolarityInv(b) => self.shadow.polarity@[b as int],
            RegSel::IntMask(b) => self.shadow.int_mask@[b as int],
            RegSel::InitCode => self.shadow.init_code,
            _ => 0,
        }
    }

    /// The 64 registers a master can address, as it reads them.
    pub closed spec fn view(&self) -> Seq<u8> {
        Seq::new(64, |r: int| self.reg_read(r as u8))
    }

    /// A register file over `status` with all shadow registers zero.
    pub fn new(status: Status) -> (rf: RegFile)
        ensures
            forall|r: u8| r < 0x30 ==> #[trigger] rf.reg_read(r) == 0,
            forall|r: u8| 0x30 <= r <= 0x3F ==> #[trigger] rf.reg_read(r) == status.reg_value(r),
    {
        RegFile { status, shadow: ShadowState::new(), op: [0u8; 8], ioc: [0u8; 8] }
    }

    /// The byte a master gets for command index `reg`.
    fn read(&self, reg: u8) -> (v: u8)
        ensures
            v == self.reg_read(reg),
    {
        match regmap::decode(reg) {
            RegSel::Extended(_) => self.status.read_reg(reg),
            RegSel::InputPort(_) => 0,
            RegSel::OutputPort(b) => self.op[b as usize],
            RegSel::IoConfig(b) => self.ioc[b as usize],
            RegSel::PolarityInv(b) => self.shadow.polarity[b as usize],
            RegSel::IntMask(b) => self.shadow.int_mask[b as usize],
            RegSel::InitCode => self.shadow.init_code,
            _ => 0,
        }
    }

    /// Apply a master write of `val` to command index `reg`; read-only regions are ignored.
    fn write(&mut self, reg: u8, val: u8)
        requires
            reg < 64,
        ensures
            final(self)@ == write_effect(old(self)@, reg, val),
            final(self).status == old(self).status,
    {
        match regmap::decode(reg) {
            RegSel::OutputPort(b) => self.op[b as usize] = val,
            RegSel::IoConfig(b) => self.ioc[b as usize] = val,
            RegSel::PolarityInv(b) => self.shadow.polarity[b as usize] = val,
            RegSel::IntMask(b) => self.shadow.int_mask[b as usize] = val,
            RegSel::InitCode => self.shadow.init_code = val,
            _ => {},
        }
        assert(self@ =~= write_effect(old(self)@, reg, val));
    }
}

/// The slave's per-transaction state, as a value.
#[derive(Clone, Copy, PartialEq, Eq, Debug, Structural)]
pub struct SlaveView {
    /// The command pointer.
    pub reg_ptr: u8,
    /// Auto-increment is on.
    pub ai: bool,
    /// The next received byte is the command byte.
    pub first_byte: bool,
}

/// The pointer after one data byte: it steps within the group under auto-increment.
pub open spec fn advance(st: SlaveView) -> SlaveView {
    if st.ai { SlaveView { reg_ptr: next_ai_spec(st.reg_ptr), ..st } } else { st }
}

/// One service pass over the interrupt flags `ifg` (and the received byte `rx`, present exactly
/// when a byte was received): a START re-arms the command byte; a received byte is the command
/// (pointer plus auto-increment flag) when it is the first after a START, else data written to the
/// pointed register; a transmit request is answered with the pointed register; a STOP re-arms the
/// command byte. Returns the new state, the new register image and the byte transmitted.
pub open spec fn slave_step(st: SlaveView, regs: Seq<u8>, ifg: u16, rx: Option<u8>) -> (SlaveView, Seq<u8>, Option<u8>) {
    let st1 = if ifg & UCSTTIFG != 0 { SlaveView { first_byte: true, ..st } } else { st };
    let (st2, regs2) = match rx {
        None => (st1, regs),
        Some(b) => if st1.first_byte {
            (SlaveView { reg_ptr: b & regmap::CMD_REG_MASK, ai: b & regmap::CMD_AI != 0, first_byte: false }, regs)
        } else {
            (advance(st1), write_effect(regs, st1.reg_ptr, b))
        },
    };
    let (st3, tx) = if ifg & UCTXIFG0 != 0 { (advance(st2), Some(regs2[st2.reg_ptr as int])) } else { (st2, None) };
    let st4 = if ifg & UCSTPIFG != 0 { SlaveView { first_byte: true, ..st3 } } else { st3 };
    (st4, regs2, tx)
}

/// Per-transaction slave state: the command pointer, the auto-increment flag, and whether the
/// next received byte is the command byte.
pub struct Slave {
    reg_ptr: u8,
    ai: bool,
    first_byte: bool,
}

/// What the caller does on the hardware after a service pass.
#[derive(Clone, Copy, PartialEq, Eq, Debug, Structural)]
pub struct SlaveResponse {
    /// Interrupt flags to clear (START / NACK / STOP that were seen).
    pub clear: u16,
    /// Byte to load into the transmit buffer.
    pub tx: Option<u8>,
}

impl Slave {
    /// The command pointer always addresses one of the 64 registers.
    #[verifier::type_invariant]
    spec fn pointer_in_range(self) -> bool {
        self.reg_ptr < 64
    }

    /// The state as a value.
    pub closed spec fn view(&self) -> SlaveView {
        SlaveView { reg_ptr: self.reg_ptr, ai: self.ai, first_byte: self.first_byte }
    }

    /// Idle state: pointer 0, no auto-increment, expecting a command byte.
    pub fn new() -> (s: Slave)
        ensures
            s@ == (SlaveView { reg_ptr: 0, ai: false, first_byte: true }),
    {
        Slave { reg_ptr: 0, ai: false, first_byte: true }
    }
}

/// Service one pass of slave events: `ifg` is the interrupt-flag word, `rx` the received byte
/// (read from the receive buffer exactly when a byte was flagged).
pub fn poll(s: &mut Slave, rf: &mut RegFile, ifg: u16, rx: Option<u8>) -> (resp: SlaveResponse)
    requires
        (rx is Some) == (ifg & UCRXIFG0 != 0),
    ensures
        final(s)@.reg_ptr < 64,
        (final(s)@, final(rf)@, resp.tx) == slave_step(old(s)@, old(rf)@, ifg, rx),
        resp.clear == ifg & (UCSTTIFG | UCNACKIFG | UCSTPIFG),
{
    proof {
        use_type_invariant(&*s);
        let p = old(s)@.reg_ptr;
        assert(p < 64 ==> next_ai_spec(p) < 64);
    }
    if ifg & UCSTTIFG != 0 {
        s.first_byte = true;
    }
    match rx {
        Some(b) => {
            if s.first_byte {
                assert(b & 0x3F < 64) by (bit_vector);
                s.reg_ptr = b & regmap::CMD_REG_MASK;
                s.ai = b & regmap::CMD_AI != 0;
                s.first_byte = false;
            } else {
                rf.write(s.reg_ptr, b);
                if s.ai {
                    s.reg_ptr = regmap::next_ai(s.reg_ptr);
                }
            }
        },
        None => {},
    }
    let mut tx: Option<u8> = None;
    if ifg & UCTXIFG0 != 0 {
        let v = rf.read(s.reg_ptr);
        tx = Some(v);
        if s.ai {
            s.reg_ptr = regmap::next_ai(s.reg_ptr);
        }
    }
    if ifg & UCSTPIFG != 0 {
        s.first_byte = true;
    }
    SlaveResponse { clear: ifg & (UCSTTIFG | UCNACKIFG | UCSTPIFG), tx }
}

/// What a read gives back of a write: a master that writes `val` to a writable register `reg`
/// (START, command, data, STOP) and then reads it back (START, command, repeated START, read)
/// receives `val`, whatever state the slave was in before.
pub proof fn read_back_of_write(st0: SlaveView, regs0: Seq<u8>, reg: u8, val: u8)
    requires
        regs0.len() == 64,
        reg < 64,
        writable(reg),
    ensures
        ({
            let (st1, r1, _) = slave_step(st0, regs0, UCSTTIFG, None);
            let (st2, r2, _) = slave_step(st1, r1, UCRXIFG0, Some(reg));
            let (st3, r3, _) = slave_step(st2, r2, UCRXIFG0, Some(val));
            let (st4, r4, _) = slave_step(st3, r3, UCSTPIFG, None);
            let (st5, r5, _) = slave_step(st4, r4, UCSTTIFG, None);
            let (st6, r6, _) = slave_step(st5, r5, UCRXIFG0, Some(reg));
            let (st7, r7, _) = slave_step(st6, r6, UCSTTIFG, None);
            let (_, _, tx) = slave_step(st7, r7, UCTXIFG0, None);
            tx == Some(val)
        }),
{
    assert(reg & 0x3F == reg && reg & 0x80 == 0) by (bit_vector) requires reg < 64;
    assert(UCSTTIFG & UCSTTIFG != 0 && UCSTTIFG & UCTXIFG0 == 0 && UCSTTIFG & UCSTPIFG == 0) by (bit_vector);
    assert(UCRXIFG0 & UCSTTIFG == 0 && UCRXIFG0 & UCTXIFG0 == 0 && UCRXIFG0 & UCSTPIFG == 0) by (bit_vector);
    assert(UCSTPIFG & UCSTTIFG == 0 && UCSTPIFG & UCTXIFG0 == 0 && UCSTPIFG & UCSTPIFG != 0) by (bit_vector);
    assert(UCTXIFG0 & UCSTTIFG == 0 && UCTXIFG0 & UCTXIFG0 != 0 && UCTXIFG0 & UCSTPIFG == 0) by (bit_vector);
}

/// A refused write: a master writing to a read-only register (the input ports, the debug window,
/// the unbacked controls) leaves the whole register file unchanged.
pub proof fn read_only_registers_ignore_writes(st0: SlaveView, regs0: Seq<u8>, reg: u8, val: u8)
    requires
        regs0.len() == 64,
        reg < 64,
        !writable(reg),
    ensures
        ({
            let (st1, r1, _) = slave_step(st0, regs0, UCSTTIFG, None);
            let (st2, r2, _) = slave_step(st1, r1, UCRXIFG0, Some(reg));
            let (st3, r3, _) = slave_step(st2, r2, UCRXIFG0, Some(val));
            let (_, r4, _) = slave_step(st3, r3, UCSTPIFG, None);
            r4 == regs0
        }),
{
    assert(reg & 0x3F == reg && reg & 0x80 == 0) by (bit_vector) requires reg < 64;
    assert(UCSTTIFG & UCSTTIFG != 0 && UCSTTIFG & UCTXIFG0 == 0 && UCSTTIFG & UCSTPIFG == 0) by (bit_vector);
    assert(UCRXIFG0 & UCSTTIFG == 0 && UCRXIFG0 & UCTXIFG0 == 0 && UCRXIFG0 & UCSTPIFG == 0) by (bit_vector);
    assert(UCSTPIFG & UCSTTIFG == 0 && UCSTPIFG & UCTXIFG0 == 0 && UCSTPIFG & UCSTPIFG != 0) by (bit_vector);
}

/// The slave's events, for any state and register image: the byte received with a START is the
/// command (the pointer in its low six bits, auto-increment in its top bit) and writes nothing; a
/// data byte is written to the pointed register; a transmit request sends the pointed register;
/// after a data or transmitted byte the pointer moves to the next register of its group under
/// auto-increment and stays otherwise; a STOP re-arms the command byte.
pub proof fn slave_events(st: SlaveView, regs: Seq<u8>, b: u8)
    requires
        regs.len() == 64,
        st.reg_ptr < 64,
    ensures
        ({
            let (s1, r1, t1) = slave_step(st, regs, UCSTTIFG | UCRXIFG0, Some(b));
            &&& s1 == (SlaveView { reg_ptr: b & 0x3F, ai: b & 0x80 != 0, first_byte: false })
            &&& r1 == regs
            &&& t1 is None
        }),
        !st.first_byte ==> ({
            let (s2, r2, t2) = slave_step(st, regs, UCRXIFG0, Some(b));
            &&& r2 == write_effect(regs, st.reg_ptr, b)
            &&& s2.reg_ptr == (if st.ai { next_ai_spec(st.reg_ptr) } else { st.reg_ptr })
            &&& s2.ai == st.ai && !s2.first_byte
            &&& t2 is None
        }),
        ({
            let (s3, r3, t3) = slave_step(st, regs, UCTXIFG0, None);
            &&& t3 == Some(regs[st.reg_ptr as int])
            &&& r3 == regs
            &&& s3.reg_ptr == (if st.ai { next_ai_spec(st.reg_ptr) } else { st.reg_ptr })
            &&& s3.ai == st.ai && s3.first_byte == st.first_byte
        }),
        slave_step(st, regs, UCSTPIFG, None) == (SlaveView { first_byte: true, ..st }, regs, None::<u8>),
{
    assert({
        &&& (UCSTTIFG | UCRXIFG0) & UCSTTIFG != 0
        &&& (UCSTTIFG | UCRXIFG0) & UCTXIFG0 == 0
        &&& (UCSTTIFG | UCRXIFG0) & UCSTPIFG == 0
        &&& UCRXIFG0 & UCSTTIFG == 0 && UCRXIFG0 & UCTXIFG0 == 0 && UCRXIFG0 & UCSTPIFG == 0
        &&& UCTXIFG0 & UCSTTIFG == 0 && UCTXIFG0 & UCTXIFG0 != 0 && UCTXIFG0 & UCSTPIFG == 0
        &&& UCSTPIFG & UCSTTIFG == 0 && UCSTPIFG & UCTXIFG0 == 0 && UCSTPIFG & UCSTPIFG != 0
    }) by (bit_vector);
}

/// The writable registers are exactly the PCA9698 shadow groups a master configures, by address:
/// Output Port, Polarity Invert, I/O Config and Mask Interrupt (0x08 to 0x27) and the init-code
/// selector (0x2B); the input ports, the control and voltage registers and the debug window
/// are read-only.
pub proof fn writable_registers_by_address(reg: u8)
    requires
        reg < 64,
    ensures
        writable(reg) <==> (0x08 <= reg <= 0x27 || reg == 0x2B),
{
}

/// A master reads back what it wrote to any register of the configurable groups, 0x08 to 0x27,
/// or to the init-code selector 0x2B (START, command, data, STOP; then START, command,
/// repeated START, read), whatever state the slave was in.
pub proof fn configurable_registers_read_back(st0: SlaveView, regs0: Seq<u8>, reg: u8, val: u8)
    requires
        regs0.len() == 64,
        0x08 <= reg <= 0x27 || reg == 0x2B,
    ensures
        ({
            let (st1, r1, _) = slave_step(st0, regs0, UCSTTIFG, None);
            let (st2, r2, _) = slave_step(st1, r1, UCRXIFG0, Some(reg));
            let (st3, r3, _) = slave_step(st2, r2, UCRXIFG0, Some(val));
            let (st4, r4, _) = slave_step(st3, r3, UCSTPIFG, None);
            let (st5, r5, _) = slave_step(st4, r4, UCSTTIFG, None);
            let (st6, r6, _) = slave_step(st5, r5, UCRXIFG0, Some(reg));
            let (st7, r7, _) = slave_step(st6, r6, UCSTTIFG, None);
            let (_, _, tx) = slave_step(st7, r7, UCTXIFG0, None);
            tx == Some(val)
        }),
{
    writable_registers_by_address(reg);
    read_back_of_write(st0, regs0, reg, val);
}

} // verus!
