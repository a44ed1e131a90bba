//! The sensor-bus master (eUSCI_B0, 100 kHz): pad levels, stuck-bus recovery decisions and the
//! transfer engine behind probe / write / register read / bare read.
//!
//! The engine is a state machine fed with samples of the two status registers (`UCB0IFG` and
//! `UCB0CTLW0`); each sample yields the one register action the driver performs next. Every wait
//! is bounded by [`SPIN`] samples, so a stuck bus ends the transfer instead of hanging it.
use vstd::prelude::*;

verus! {

/// P1.2 / UCB0SDA.
pub const SDA_BIT: u8 = 0x04;
/// P1.3 / UCB0SCL.
pub const SCL_BIT: u8 = 0x08;
/// Poll bound of a bounded bus wait.
pub const SPIN: u16 = 4000;
/// Clock pulses a recovery gives a slave that holds SDA low.
pub const RECOVERY_PULSES: u8 = 9;

/// `UCB0CTLW0`: software reset.
pub const UCSWRST: u16 = 0x0001;
/// `UCB0CTLW0`: transmitter.
pub const UCTR: u16 = 0x0010;
/// `UCB0CTLW0`: generate START (clears once the address went out).
pub const UCTXSTT: u16 = 0x0002;
/// `UCB0CTLW0`: generate STOP (clears once it went out).
pub const UCTXSTP: u16 = 0x0004;
/// `UCB0IFG`: the address or a data byte was not acknowledged.
pub const UCNACKIFG: u16 = 0x0020;
/// `UCB0IFG`: the transmit buffer is empty.
pub const UCTXIFG0: u16 = 0x0002;
/// `UCB0IFG`: a byte was received.
pub const UCRXIFG0: u16 = 0x0001;

/// Idle levels `(sda, scl)` of the bus pads, from a P1IN sample.
pub fn bus_levels(p1in: u8) -> (r: (bool, bool))
    ensures
        r == (p1in & SDA_BIT != 0, p1in & SCL_BIT != 0),
{
    (p1in & SDA_BIT != 0, p1in & SCL_BIT != 0)
}

/// Recovery clocks SCL again while SDA is still held low, up to [`RECOVERY_PULSES`] pulses.
pub fn keep_clocking(pulses: u8, sda_high: bool) -> (b: bool)
    ensures
        b == (pulses < RECOVERY_PULSES && !sda_high),
{
    pulses < RECOVERY_PULSES && !sda_high
}

/// After a recovery the master state machine is resynchronised (a reset toggle), unless the
/// peripheral is already held in reset.
pub fn needs_resync(ctlw0: u16) -> (b: bool)
    ensures
        b == (ctlw0 & UCSWRST == 0),
{
    ctlw0 & UCSWRST == 0
}

/// A bounded wait's sample counter.
pub struct Spin {
    n: u16,
}

impl Spin {
    /// Samples taken so far.
    pub closed spec fn count(&self) -> nat {
        self.n as nat
    }

    /// A fresh wait.
    pub fn new() -> (s: Self)
        ensures
            s.count() == 0,
    {
        Spin { n: 0 }
    }

    /// One more unsuccessful sample; `true` once the bound is reached and the wait gives up.
    pub fn tick(&mut self) -> (expired: bool)
        requires
            old(self).count() < SPIN,
        ensures
            final(self).count() == old(self).count() + 1,
            expired == (final(self).count() >= SPIN),
    {
        self.n = self.n + 1;
        self.n >= SPIN
    }
}

/// The four transfer shapes of the bus master.
#[derive(Debug, Clone, Copy, PartialEq, Eq, Structural)]
pub enum Op {
    /// START + address (write) + STOP; the answer is whether the address was acknowledged.
    Probe,
    /// START + address (write) + the data bytes + STOP.
    Write,
    /// Register pointer as transmitter, repeated START as receiver, then the data bytes.
    ReadReg,
    /// START + address (read) + the data bytes, no register pointer.
    Read,
}

/// Where a transfer stands; each stage but the last waits for one register condition.
#[derive(Debug, Clone, Copy, PartialEq, Eq, Structural)]
pub enum Stage {
    /// Probe: waiting for the address phase to end (START bit clear).
    Address,
    /// Probe: STOP issued; the next sample gives the verdict.
    Verdict,
    /// Waiting for the transmit buffer (or a NACK) before sending the next byte.
    Transmit,
    /// The transmit wait ended: the next, fresh sample decides between a NACK and the byte.
    NackCheck,
    /// Waiting for the last transmitted byte to leave.
    Drain,
    /// Before the final received byte: waiting for the address phase to end.
    Addressing,
    /// Waiting for the next received byte.
    Receive,
    /// Waiting for the closing STOP to go out.
    Release,
    /// The transfer is over.
    Done,
}

/// The register action the driver performs after a sample.
#[derive(Debug, Clone, Copy, PartialEq, Eq, Structural)]
pub enum Action {
    /// The awaited condition does not hold yet: service the caller's pump, then sample again
    /// (or give up, once the wait has used all its samples).
    Wait,
    /// Sample again at once (the NACK flag is read afresh after a transmit wait).
    Recheck,
    /// Write this byte to the transmit buffer.
    Send(u8),
    /// Repeated START as receiver: clear the transmitter bit and set START.
    Turnaround,
    /// Set STOP, so that the final byte is not acknowledged and the bus is released.
    ArmStop,
    /// Read the receive buffer into this position of the caller's buffer.
    Take(usize),
    /// Issue STOP, then sample again for the probe's verdict.
    StopForVerdict,
    /// Issue STOP (and clear the NACK flag when told to); the transfer failed.
    Abort { clear_nack: bool },
    /// Issue STOP; the transfer succeeded.
    StopOk,
    /// Clear the NACK and transmit flags; the probe's answer (acknowledged or not).
    Verdict(bool),
    /// The transfer succeeded.
    Complete,
}

/// The abstract state of a transfer.
pub struct TransferView {
    pub op: Op,
    pub stage: Stage,
    /// Bytes to transmit (the data of a write, the register pointer of a register read).
    pub data: Seq<u8>,
    /// Bytes to receive.
    pub len: nat,
    /// Bytes sent so far (transmit stages) or received so far (receive stages).
    pub idx: nat,
    /// Unsuccessful samples of the current wait (at most [`SPIN`]; at [`SPIN`] the wait is over).
    pub spins: nat,
}

/// A transfer in progress.
pub struct Transfer {
    op: Op,
    stage: Stage,
    data: Vec<u8>,
    len: usize,
    idx: usize,
    spins: u16,
}

impl View for Transfer {
    type V = TransferView;

    closed spec fn view(&self) -> TransferView {
        TransferView {
            op: self.op,
            stage: self.stage,
            data: self.data@,
            len: self.len as nat,
            idx: self.idx as nat,
            spins: self.spins as nat,
        }
    }
}

/// The consistent states of a transfer.
pub open spec fn wf(v: TransferView) -> bool {
    &&& v.spins <= SPIN
    &&& v.len <= usize::MAX
    &&& v.data.len() <= usize::MAX
    &&& (v.op == Op::Probe ==> v.data.len() == 0 && v.len == 0)
    &&& (v.op == Op::Write ==> v.data.len() >= 1 && v.len == 0)
    &&& (v.op == Op::ReadReg ==> v.data.len() == 1 && v.len >= 1)
    &&& (v.op == Op::Read ==> v.data.len() == 0 && v.len >= 1)
    &&& match v.stage {
        Stage::Address | Stage::Verdict => v.op == Op::Probe,
        Stage::Transmit | Stage::NackCheck => (v.op == Op::Write || v.op == Op::ReadReg) && v.idx
            < v.data.len(),
        Stage::Drain => (v.op == Op::Write || v.op == Op::ReadReg) && v.idx == v.data.len(),
        Stage::Addressing => (v.op == Op::ReadReg || v.op == Op::Read) && v.idx + 1 == v.len,
        Stage::Receive => (v.op == Op::ReadReg || v.op == Op::Read) && v.idx < v.len,
        Stage::Release => (v.op == Op::ReadReg || v.op == Op::Read) && v.idx == v.len,
        Stage::Done => true,
    }
}

/// Whether a sample of `UCB0IFG` / `UCB0CTLW0` satisfies the wait of `stage`.
pub open spec fn ready(stage: Stage, ifg: u16, ctlw0: u16) -> bool {
    match stage {
        Stage::Address | Stage::Addressing => ctlw0 & UCTXSTT == 0,
        Stage::Transmit => ifg & (UCTXIFG0 | UCNACKIFG) != 0,
        Stage::Drain => ifg & UCTXIFG0 != 0,
        Stage::Receive => ifg & UCRXIFG0 != 0,
        Stage::Release => ctlw0 & UCTXSTP == 0,
        Stage::NackCheck | Stage::Verdict | Stage::Done => true,
    }
}

/// The stage before receiving byte `i` of `len`: the final byte first waits for the address
/// phase to end, so that STOP can be armed in time.
pub open spec fn receive_stage(i: nat, len: nat) -> Stage {
    if i + 1 == len {
        Stage::Addressing
    } else {
        Stage::Receive
    }
}

/// `v` moved to `stage` with progress `idx` and a fresh wait.
pub open spec fn moved(v: TransferView, stage: Stage, idx: nat) -> TransferView {
    TransferView { op: v.op, stage, data: v.data, len: v.len, idx, spins: 0 }
}

/// The move made when the awaited condition holds.
pub open spec fn advance(v: TransferView, ifg: u16) -> (TransferView, Action) {
    match v.stage {
        Stage::Address => (moved(v, Stage::Verdict, v.idx), Action::StopForVerdict),
        Stage::Verdict => (moved(v, Stage::Done, v.idx), Action::Verdict(ifg & UCNACKIFG == 0)),
        Stage::Transmit => (moved(v, Stage::NackCheck, v.idx), Action::Recheck),
        Stage::NackCheck => if ifg & UCNACKIFG != 0 {
            (moved(v, Stage::Done, v.idx), Action::Abort { clear_nack: true })
        } else {
            (
                moved(
                    v,
                    if v.idx + 1 == v.data.len() {
                        Stage::Drain
                    } else {
                        Stage::Transmit
                    },
                    v.idx + 1,
                ),
                Action::Send(v.data[v.idx as int]),
            )
        },
        Stage::Drain => if v.op == Op::Write {
            (moved(v, Stage::Done, v.idx), Action::StopOk)
        } else {
            (moved(v, receive_stage(0, v.len), 0), Action::Turnaround)
        },
        Stage::Addressing => (moved(v, Stage::Receive, v.idx), Action::ArmStop),
        Stage::Receive => (
            moved(
                v,
                if v.idx + 1 == v.len {
                    Stage::Release
                } else {
                    receive_stage(v.idx + 1, v.len)
                },
                v.idx + 1,
            ),
            Action::Take(v.idx as usize),
        ),
        Stage::Release | Stage::Done => (moved(v, Stage::Done, v.idx), Action::Complete),
    }
}

/// The move made when a wait has used all its samples: the address wait of a probe and the
/// closing STOP wait give up silently and carry on; every other wait fails the transfer.
pub open spec fn expire(v: TransferView) -> (TransferView, Action) {
    match v.stage {
        Stage::Address => (moved(v, Stage::Verdict, v.idx), Action::StopForVerdict),
        Stage::Release => (moved(v, Stage::Done, v.idx), Action::Complete),
        _ => (moved(v, Stage::Done, v.idx), Action::Abort { clear_nack: false }),
    }
}

/// One sample's move: the awaited move when the condition holds, else one more counted wait.
pub open spec fn next(v: TransferView, ifg: u16, ctlw0: u16) -> (TransferView, Action) {
    if ready(v.stage, ifg, ctlw0) {
        advance(v, ifg)
    } else {
        (
            TransferView {
                op: v.op,
                stage: v.stage,
                data: v.data,
                len: v.len,
                idx: v.idx,
                spins: v.spins + 1,
            },
            Action::Wait,
        )
    }
}

/// Progress still to make: every move but a wait lowers it.
pub open spec fn remaining(v: TransferView) -> nat {
    match v.stage {
        Stage::Done => 0,
        Stage::Release | Stage::Verdict => 1,
        Stage::Address => 2,
        Stage::Receive => (2 * (v.len - v.idx) + 1) as nat,
        Stage::Addressing => (2 * (v.len - v.idx) + 2) as nat,
        Stage::Drain => 2 * v.len + 3,
        Stage::NackCheck => (2 * (v.data.len() - v.idx) - 1 + 2 * v.len + 3) as nat,
        Stage::Transmit => (2 * (v.data.len() - v.idx) + 2 * v.len + 3) as nat,
    }
}

impl Transfer {
    /// An address-only presence probe.
    pub fn probe() -> (t: Self)
        ensures
            wf(t@),
            t@.op == Op::Probe,
            t@.stage == Stage::Address,
            t@.spins == 0,
    {
        Transfer { op: Op::Probe, stage: Stage::Address, data: Vec::new(), len: 0, idx: 0, spins: 0 }
    }

    /// A write of `data` (the caller includes any register pointer as its first byte); an empty
    /// write is a presence probe.
    pub fn write(data: Vec<u8>) -> (t: Self)
        ensures
            wf(t@),
            t@.spins == 0,
            data@.len() == 0 ==> t@.op == Op::Probe && t@.stage == Stage::Address,
            data@.len() > 0 ==> t@.op == Op::Write && t@.stage == Stage::Transmit && t@.data
                == data@ && t@.idx == 0,
    {
        if data.len() == 0 {
            Self::probe()
        } else {
            Transfer { op: Op::Write, stage: Stage::Transmit, data, len: 0, idx: 0, spins: 0 }
        }
    }

    /// A read of `len` bytes from register `reg`; `None` for an empty read, which the bus
    /// refuses.
    pub fn read_reg(reg: u8, len: usize) -> (t: Option<Self>)
        ensures
            t is None <==> len == 0,
            t matches Some(t) ==> wf(t@) && t@.op == Op::ReadReg && t@.stage == Stage::Transmit
                && t@.data == seq![reg] && t@.len == len && t@.idx == 0 && t@.spins == 0,
    {
        if len == 0 {
            None
        } else {
            let mut data: Vec<u8> = Vec::new();
            data.push(reg);
            proof {
                assert(data@ == seq![reg]);
            }
            Some(Transfer { op: Op::ReadReg, stage: Stage::Transmit, data, len, idx: 0, spins: 0 })
        }
    }

    /// A bare read of `len` bytes (no register pointer); `None` for an empty read.
    pub fn read(len: usize) -> (t: Option<Self>)
        ensures
            t is None <==> len == 0,
            t matches Some(t) ==> wf(t@) && t@.op == Op::Read && t@.stage == receive_stage(
                0,
                len as nat,
            ) && t@.data.len() == 0 && t@.len == len && t@.idx == 0 && t@.spins == 0,
    {
        if len == 0 {
            None
        } else {
            let stage = if len == 1 {
                Stage::Addressing
            } else {
                Stage::Receive
            };
            Some(Transfer { op: Op::Read, stage, data: Vec::new(), len, idx: 0, spins: 0 })
        }
    }

    /// Whether the transfer opens as transmitter (START with the transmit bit) rather than as
    /// receiver.
    pub fn transmits(&self) -> (b: bool)
        ensures
            b == (self@.op != Op::Read),
    {
        match self.op {
            Op::Read => false,
            _ => true,
        }
    }

    /// Whether the transfer is over.
    pub fn is_done(&self) -> (b: bool)
        ensures
            b == (self@.stage == Stage::Done),
    {
        match self.stage {
            Stage::Done => true,
            _ => false,
        }
    }

    /// Whether the current wait has used all its samples (the caller then gives up instead of
    /// sampling again).
    pub fn waited_out(&self) -> (b: bool)
        ensures
            b == (self@.spins == SPIN),
    {
        self.spins == SPIN
    }

    /// Feed one sample of `UCB0IFG` and `UCB0CTLW0`; returns the action to perform.
    pub fn step(&mut self, ifg: u16, ctlw0: u16) -> (a: Action)
        requires
            wf(old(self)@),
            old(self)@.stage != Stage::Done,
            old(self)@.spins < SPIN,
        ensures
            (final(self)@, a) == next(old(self)@, ifg, ctlw0),
            wf(final(self)@),
    {
        let is_ready = match self.stage {
            Stage::Address | Stage::Addressing => ctlw0 & UCTXSTT == 0,
            Stage::Transmit => ifg & (UCTXIFG0 | UCNACKIFG) != 0,
            Stage::Drain => ifg & UCTXIFG0 != 0,
            Stage::Receive => ifg & UCRXIFG0 != 0,
            Stage::Release => ctlw0 & UCTXSTP == 0,
            Stage::NackCheck | Stage::Verdict | Stage::Done => true,
        };
        if !is_ready {
            self.spins = self.spins + 1;
            return Action::Wait;
        }
        self.spins = 0;
        match self.stage {
            Stage::Address => {
                self.stage = Stage::Verdict;
                Action::StopForVerdict
            },
            Stage::Verdict => {
                self.stage = Stage::Done;
                Action::Verdict(ifg & UCNACKIFG == 0)
            },
            Stage::Transmit => {
                self.stage = Stage::NackCheck;
                Action::Recheck
            },
            Stage::NackCheck => {
                if ifg & UCNACKIFG != 0 {
                    self.stage = Stage::Done;
                    Action::Abort { clear_nack: true }
                } else {
                    assert(self.idx < self.data.len());
                    let b = self.data[self.idx];
                    self.idx = self.idx + 1;
                    if self.idx == self.data.len() {
                        self.stage = Stage::Drain;
                    } else {
                        self.stage = Stage::Transmit;
                    }
                    Action::Send(b)
                }
            },
            Stage::Drain => {
                match self.op {
                    Op::Write => {
                        self.stage = Stage::Done;
                        Action::StopOk
                    },
                    _ => {
                        self.idx = 0;
                        self.stage =
                            if self.len == 1 {
                                Stage::Addressing
                            } else {
                                Stage::Receive
                            };
                        Action::Turnaround
                    },
                }
            },
            Stage::Addressing => {
                self.stage = Stage::Receive;
                Action::ArmStop
            },
            Stage::Receive => {
                let i = self.idx;
                self.idx = self.idx + 1;
                if self.idx == self.len {
                    self.stage = Stage::Release;
                } else if self.idx + 1 == self.len {
                    self.stage = Stage::Addressing;
                }
                Action::Take(i)
            },
            Stage::Release | Stage::Done => {
                self.stage = Stage::Done;
                Action::Complete
            },
        }
    }

    /// End a wait that used all its samples; returns the action to perform.
    pub fn give_up(&mut self) -> (a: Action)
        requires
            wf(old(self)@),
            old(self)@.stage != Stage::Done,
            old(self)@.spins == SPIN,
        ensures
            (final(self)@, a) == expire(old(self)@),
            wf(final(self)@),
    {
        self.spins = 0;
        match self.stage {
            Stage::Address => {
                self.stage = Stage::Verdict;
                Action::StopForVerdict
            },
            Stage::Release => {
                self.stage = Stage::Done;
                Action::Complete
            },
            _ => {
                self.stage = Stage::Done;
                Action::Abort { clear_nack: false }
            },
        }
    }
}

/// Every transfer ends: a wait only counts a sample (at most [`SPIN`] of them), every other
/// move lowers the progress still to make, and a wait that used all its samples gives up with a
/// move that lowers it too; so a transfer is over after at most `remaining * (SPIN + 1)` steps,
/// whatever the bus does.
pub proof fn every_transfer_ends(v: TransferView, ifg: u16, ctlw0: u16)
    requires
        wf(v),
        v.stage != Stage::Done,
    ensures
        v.spins < SPIN ==> wf(next(v, ifg, ctlw0).0),
        v.spins < SPIN && next(v, ifg, ctlw0).1 == Action::Wait ==> remaining(next(v, ifg, ctlw0).0)
            == remaining(v) && next(v, ifg, ctlw0).0.spins == v.spins + 1,
        v.spins < SPIN && next(v, ifg, ctlw0).1 != Action::Wait ==> remaining(next(v, ifg, ctlw0).0)
            < remaining(v) && next(v, ifg, ctlw0).0.spins == 0,
        v.spins == SPIN ==> wf(expire(v).0) && remaining(expire(v).0) < remaining(v)
            && expire(v).0.spins == 0,
{
}

/// A transfer ends exactly on one of the closing actions (failure, STOP after success, the
/// probe's verdict, completion), whether a sample or giving up decided it.
pub proof fn closing_actions_end_the_transfer(v: TransferView, ifg: u16, ctlw0: u16)
    requires
        wf(v),
        v.stage != Stage::Done,
    ensures
        next(v, ifg, ctlw0).0.stage == Stage::Done <==> (next(v, ifg, ctlw0).1 is Abort || next(
            v,
            ifg,
            ctlw0,
        ).1 is StopOk || next(v, ifg, ctlw0).1 is Verdict || next(v, ifg, ctlw0).1 is Complete),
        expire(v).0.stage == Stage::Done <==> (expire(v).1 is Abort || expire(v).1 is Complete),
{
}

/// A NACK read on the fresh sample after a transmit wait fails the transfer at once, clearing
/// the flag.
pub proof fn nack_fails_the_transfer(v: TransferView, ifg: u16, ctlw0: u16)
    requires
        wf(v),
        v.stage == Stage::NackCheck,
        ifg & UCNACKIFG != 0,
    ensures
        next(v, ifg, ctlw0) == (moved(v, Stage::Done, v.idx), Action::Abort { clear_nack: true }),
{
}

/// The bytes go out in order, each once, each after a fresh NACK check: a send is the byte at
/// the current position, which then moves on by one.
pub proof fn bytes_go_out_in_order(v: TransferView, ifg: u16, ctlw0: u16)
    requires
        wf(v),
        v.stage != Stage::Done,
    ensures
        next(v, ifg, ctlw0).1 matches Action::Send(b) ==> v.stage == Stage::NackCheck && ifg
            & UCNACKIFG == 0 && b == v.data[v.idx as int] && next(v, ifg, ctlw0).0.idx == v.idx + 1,
{
}

/// Received bytes fill the caller's buffer in order, each position once, all within the
/// requested length.
pub proof fn reads_fill_in_order(v: TransferView, ifg: u16, ctlw0: u16)
    requires
        wf(v),
        v.stage != Stage::Done,
    ensures
        next(v, ifg, ctlw0).1 matches Action::Take(i) ==> i == v.idx && i < v.len && next(
            v,
            ifg,
            ctlw0,
        ).0.idx == v.idx + 1,
{
}

/// The final byte is awaited only after STOP was armed: the receive wait for the last position
/// is entered from the address wait, by arming STOP, and from nowhere else.
pub proof fn stop_is_armed_before_the_final_byte(v: TransferView, ifg: u16, ctlw0: u16)
    requires
        wf(v),
        v.stage != Stage::Done,
        next(v, ifg, ctlw0).0.stage == Stage::Receive,
        next(v, ifg, ctlw0).0.idx + 1 == v.len,
    ensures
        (v.stage == Stage::Addressing && next(v, ifg, ctlw0).1 == Action::ArmStop) || (v.stage
            == Stage::Receive && v.idx + 1 == v.len && next(v, ifg, ctlw0).1 == Action::Wait),
{
}

/// A probe's answer is "acknowledged" exactly when the NACK flag is clear after the STOP.
pub proof fn probe_answers_the_ack(v: TransferView, ifg: u16, ctlw0: u16)
    requires
        wf(v),
        v.stage == Stage::Verdict,
    ensures
        next(v, ifg, ctlw0).1 == Action::Verdict(ifg & UCNACKIFG == 0),
{
}

} // verus!
