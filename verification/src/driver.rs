//! Device protocol layer: named transactions against the
//! magnetometer, composed from the bus primitives.
//!
//! Every transaction follows the two-phase pattern the device asks
//! for: a write phase that sends the register address (and, for a
//! configuration write, the value), then a restart into a read phase
//! with automatic STOP. The driver never holds an open transaction
//! across calls: each public operation takes the bus from idle back
//! to idle, also on the error path, where the controller is reset
//! after the stall.

use vstd::prelude::*;
use crate::bus::{BusError, I2cBus, Phase, wrap_inc};
use crate::regs;
use crate::sample::{SampleTriple, decode_sample, decode_spec};

verus! {

/// Largest byte count a single transaction can program: the
/// controller's byte-count register holds one byte.
pub const MAX_BURST: usize = 255;

/// The result a register read is specified to deliver on a given bus
/// state: the addressed register's content when the slave responds,
/// a stall otherwise.
pub open spec fn read_register_spec(bus: I2cBus, addr: u8, reg: u8) -> Result<u8, BusError> {
    if bus.responds_to(addr) {
        Ok(bus.regs@[reg as int])
    } else {
        Err(BusError::BusStall)
    }
}

/// The post-write probe byte a register write is specified to
/// deliver: the restart-read taps the slave's register file one past
/// the written register (the pointer has moved on), so the byte is
/// device state, not an echo of the written value.
pub open spec fn write_register_spec(bus: I2cBus, addr: u8, reg: u8) -> Result<u8, BusError> {
    if bus.responds_to(addr) {
        Ok(bus.regs@[wrap_inc(reg) as int])
    } else {
        Err(BusError::BusStall)
    }
}

/// The register file after a register write: updated when the write
/// phase went through, untouched when the slave never took the bytes.
pub open spec fn regs_after_write(bus: I2cBus, addr: u8, reg: u8, value: u8) -> Seq<u8> {
    if addr == bus.slave_addr && !bus.stall_tx {
        bus.regs@.update(reg as int, value)
    } else {
        bus.regs@
    }
}

/// The register a burst that started at `start` reads in its `i`-th
/// byte: consecutive addresses, wrapping past the top of the
/// register file.
pub open spec fn burst_reg(start: u8, i: int) -> int {
    (start + i) % 256
}

/// The six burst bytes a sample read takes, starting at the X output
/// register.
pub open spec fn sample_bytes(regs: Seq<u8>) -> Seq<u8> {
    Seq::new(6, |i: int| regs[burst_reg(regs::OUTX_L_REG_M, i)])
}

/// Driver over one slave device. The slave address is configuration
/// the driver is handed, not a constant wired into the protocol
/// layer.
#[derive(Clone, Copy, PartialEq, Eq, Structural, Debug)]
pub struct Driver {
    /// 7-bit address of the device this driver talks to.
    pub addr: u8,
}

impl Driver {
    /// A driver for the slave at `addr`.
    pub fn new(addr: u8) -> (d: Driver)
        ensures
            d.addr == addr,
    {
        Driver { addr }
    }

    /// Read one register: a one-byte write phase carries the register
    /// address, a restart-read with auto-stop takes the content.
    /// Succeeds exactly when the slave responds; the device state is
    /// left as it was.
    pub fn read_register(&self, bus: &mut I2cBus, reg: u8) -> (r: Result<u8, BusError>)
        requires
            old(bus).wf(),
            old(bus).phase is Idle,
        ensures
            final(bus).wf(),
            final(bus).phase is Idle,
            final(bus).same_device(*old(bus)),
            r == read_register_spec(*old(bus), self.addr, reg),
            r is Ok ==> final(bus).pointer == wrap_inc(reg),
    {
        bus.start_write(self.addr, 1);
        match bus.send_byte(reg) {
            Ok(()) => (),
            Err(e) => {
                bus.bus_reset();
                return Err(e);
            },
        }
        match bus.await_transfer_complete() {
            Ok(()) => (),
            Err(e) => {
                bus.bus_reset();
                return Err(e);
            },
        }
        bus.start_read(self.addr, 1, true);
        match bus.recv_byte() {
            Ok(value) => Ok(value),
            Err(e) => {
                bus.bus_reset();
                Err(e)
            },
        }
    }

    /// Write one register: a two-byte write phase carries the
    /// register address and the value, then a restart-read with
    /// auto-stop returns the post-write probe byte. Callers must not
    /// assume the probe byte equals the written value; it is device
    /// state. Succeeds exactly when the slave responds; the register
    /// is updated whenever the write phase went through, even if a
    /// later flag stalled.
    pub fn write_register(&self, bus: &mut I2cBus, reg: u8, value: u8) -> (r: Result<
        u8,
        BusError,
    >)
        requires
            old(bus).wf(),
            old(bus).phase is Idle,
        ensures
            final(bus).wf(),
            final(bus).phase is Idle,
            final(bus).same_faults(*old(bus)),
            final(bus).regs@ == regs_after_write(*old(bus), self.addr, reg, value),
            r == write_register_spec(*old(bus), self.addr, reg),
            r is Ok ==> final(bus).pointer == wrap_inc(wrap_inc(reg)),
    {
        bus.start_write(self.addr, 2);
        match bus.send_byte(reg) {
            Ok(()) => (),
            Err(e) => {
                bus.bus_reset();
                return Err(e);
            },
        }
        match bus.send_byte(value) {
            Ok(()) => (),
            Err(e) => {
                bus.bus_reset();
                return Err(e);
            },
        }
        match bus.await_transfer_complete() {
            Ok(()) => (),
            Err(e) => {
                bus.bus_reset();
                return Err(e);
            },
        }
        bus.start_read(self.addr, 1, true);
        match bus.recv_byte() {
            Ok(probe) => Ok(probe),
            Err(e) => {
                bus.bus_reset();
                Err(e)
            },
        }
    }

    /// Burst-read `count` consecutive registers starting at
    /// `start_reg`, wrapping past the top of the register file: one
    /// addressed write phase, then a single read phase of `count`
    /// bytes with auto-stop. On success the buffer holds exactly
    /// `count` bytes in arrival order; a count the controller cannot
    /// program in one transaction is refused as
    /// [`BusError::MalformedBurst`] before the bus is touched.
    pub fn read_burst(&self, bus: &mut I2cBus, start_reg: u8, count: usize) -> (r: Result<
        Vec<u8>,
        BusError,
    >)
        requires
            old(bus).wf(),
            old(bus).phase is Idle,
        ensures
            final(bus).wf(),
            final(bus).phase is Idle,
            final(bus).same_device(*old(bus)),
            count > MAX_BURST ==> r == Err::<Vec<u8>, BusError>(BusError::MalformedBurst)
                && *final(bus) == *old(bus),
            count <= MAX_BURST ==> ((r is Ok) <==> (old(bus).responds_to(self.addr) || (count == 0
                && old(bus).write_phase_ok(self.addr)))),
            count <= MAX_BURST && !(r is Ok) ==> r == Err::<Vec<u8>, BusError>(BusError::BusStall),
            r matches Ok(v) ==> v@.len() == count && (forall|i: int|
                0 <= i < count ==> v@[i] == old(bus).regs@[burst_reg(start_reg, i)]),
    {
        if count > MAX_BURST {
            return Err(BusError::MalformedBurst);
        }
        bus.start_write(self.addr, 1);
        match bus.send_byte(start_reg) {
            Ok(()) => (),
            Err(e) => {
                bus.bus_reset();
                return Err(e);
            },
        }
        match bus.await_transfer_complete() {
            Ok(()) => (),
            Err(e) => {
                bus.bus_reset();
                return Err(e);
            },
        }
        bus.start_read(self.addr, count as u8, true);
        let mut buffer: Vec<u8> = Vec::new();
        let mut i: usize = 0;
        while i < count
            invariant
                i <= count,
                count <= MAX_BURST,
                bus.wf(),
                bus.same_device(*old(bus)),
                bus.addressed(),
                old(bus).write_phase_ok(self.addr),
                i > 0 ==> !bus.stall_rx,
                bus.dir is Read,
                bus.auto_stop,
                bus.remaining == count - i,
                bus.phase == (if i < count {
                    Phase::Transferring
                } else {
                    Phase::Idle
                }),
                bus.pointer as int == burst_reg(start_reg, i as int),
                buffer@.len() == i,
                forall|j: int| 0 <= j < i ==> buffer@[j] == old(bus).regs@[burst_reg(start_reg, j)],
            decreases count - i,
        {
            let b = match bus.recv_byte() {
                Ok(b) => b,
                Err(e) => {
                    bus.bus_reset();
                    return Err(e);
                },
            };
            proof {
                lemma_burst_reg_step(start_reg, i as int);
            }
            buffer.push(b);
            i = i + 1;
        }
        Ok(buffer)
    }

    /// Probe the identification register; the device is documented to
    /// answer `0x48` there.
    pub fn who_am_i(&self, bus: &mut I2cBus) -> (r: Result<u8, BusError>)
        requires
            old(bus).wf(),
            old(bus).phase is Idle,
        ensures
            final(bus).wf(),
            final(bus).phase is Idle,
            final(bus).same_device(*old(bus)),
            r == read_register_spec(*old(bus), self.addr, regs::WHO_AM_I_M),
    {
        self.read_register(bus, regs::WHO_AM_I_M)
    }

    /// Put the device in continuous measurement mode: write zero to
    /// configuration register A and hand back the post-write probe
    /// byte for verification by the caller.
    pub fn set_mode_continuous(&self, bus: &mut I2cBus) -> (r: Result<u8, BusError>)
        requires
            old(bus).wf(),
            old(bus).phase is Idle,
        ensures
            final(bus).wf(),
            final(bus).phase is Idle,
            final(bus).same_faults(*old(bus)),
            final(bus).regs@ == regs_after_write(*old(bus), self.addr, regs::CFG_REG_A_M, 0u8),
            r == write_register_spec(*old(bus), self.addr, regs::CFG_REG_A_M),
    {
        self.write_register(bus, regs::CFG_REG_A_M, 0x00)
    }

    /// Take one magnetometer sample: burst-read the six output
    /// registers and assemble the signed X, Y, Z triple.
    pub fn read_sample(&self, bus: &mut I2cBus) -> (r: Result<SampleTriple, BusError>)
        requires
            old(bus).wf(),
            old(bus).phase is Idle,
        ensures
            final(bus).wf(),
            final(bus).phase is Idle,
            final(bus).same_device(*old(bus)),
            (r is Ok) <==> old(bus).responds_to(self.addr),
            r is Ok ==> r == Ok::<SampleTriple, BusError>(
                decode_spec(sample_bytes(old(bus).regs@)),
            ),
            !(r is Ok) ==> r == Err::<SampleTriple, BusError>(BusError::BusStall),
    {
        let raw = match self.read_burst(bus, regs::OUTX_L_REG_M, 6) {
            Ok(v) => v,
            Err(e) => {
                return Err(e);
            },
        };
        let buffer: [u8; 6] = [raw[0], raw[1], raw[2], raw[3], raw[4], raw[5]];
        proof {
            assert(buffer@ =~= sample_bytes(old(bus).regs@));
        }
        Ok(decode_sample(&buffer))
    }
}

/// Law: a register read leaves the device in a state where an
/// immediate second read of the same register is specified to return
/// the very same result — reads are idempotent while the device
/// state stands still.
pub proof fn lemma_read_idempotent(pre: I2cBus, post: I2cBus, addr: u8, reg: u8)
    requires
        post.same_device(pre),
    ensures
        read_register_spec(post, addr, reg) == read_register_spec(pre, addr, reg),
{
}

/// The burst register sequence advances by the wrapping pointer
/// increment.
proof fn lemma_burst_reg_step(start: u8, i: int)
    requires
        0 <= i,
    ensures
        burst_reg(start, i + 1) == wrap_inc(burst_reg(start, i) as u8) as int,
{
    let p = burst_reg(start, i);
    assert(0 <= p < 256) by (nonlinear_arith)
        requires
            p == (start + i) % 256,
            0 <= i,
    ;
    assert((start + i + 1) % 256 == if p == 255 {
        0int
    } else {
        p + 1
    }) by (nonlinear_arith)
        requires
            p == (start + i) % 256,
            0 <= i,
    ;
}

} // verus!
