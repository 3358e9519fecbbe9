//! Bus primitive layer: blocking single-byte operations over the I2C
//! controller's control/status/data registers.
//!
//! [`I2cBus`] models the controller front-end (target address,
//! direction, byte count, auto-stop, transaction phase) together with
//! the addressed slave device (a 256-byte register file behind an
//! auto-incrementing register pointer) and the fault conditions a
//! real bus can exhibit (a status flag that never asserts).
//!
//! Every wait is a busy-poll of a status flag. On bare hardware such
//! a wait blocks indefinitely when the flag never comes; here each
//! poll is bounded by the configured `timeout` budget, and a flag
//! that never asserts within the budget surfaces as
//! [`BusError::BusStall`] instead of hanging the caller.

use vstd::prelude::*;

verus! {

/// Direction bit of the current transaction phase.
#[derive(Clone, Copy, PartialEq, Eq, Structural, Debug)]
pub enum Direction {
    Write,
    Read,
}

/// Transaction phase of the controller.
///
/// A full transaction walks `Idle` to `Transferring` (a START plus
/// the addressing phase completes within the start primitive) to
/// `Completing`, and back to `Idle` on a STOP. A restart walks
/// `Completing` back to `Transferring` without releasing the bus.
#[derive(Clone, Copy, PartialEq, Eq, Structural, Debug)]
pub enum Phase {
    /// No transaction is open; STOP was the last bus condition.
    Idle,
    /// Bytes of the current phase are still owed.
    Transferring,
    /// All programmed bytes moved; the controller awaits a restart or
    /// a stop.
    Completing,
}

/// Status flags of the controller's status register.
#[derive(Clone, Copy, PartialEq, Eq, Structural, Debug)]
pub enum StatusBit {
    /// Transmit register empty: one more byte may be sent.
    TxReady,
    /// All programmed bytes of the current phase have been moved.
    TransferComplete,
    /// Receive register holds an unread byte.
    RxNotEmpty,
}

/// Failures a transaction can surface.
#[derive(Clone, Copy, PartialEq, Eq, Structural, Debug)]
pub enum BusError {
    /// A polled status flag never asserted within the timeout budget
    /// (hardware fault, wiring fault, or slave absence).
    BusStall,
    /// The requested byte count cannot be made available in a single
    /// transaction (the controller's byte-count register holds one
    /// byte).
    MalformedBurst,
}

/// The I2C controller's register interface together with the slave
/// device on the wire.
///
/// `target`, `dir`, `remaining` and `auto_stop` mirror the fields of
/// the control register and persist across phases exactly as the
/// hardware fields do; `phase` tracks the transaction state. The
/// slave is a 256-byte register file: the first byte of a write phase
/// loads its register pointer, further bytes store through the
/// pointer, and received bytes read through it, the pointer
/// incrementing (mod 256) after each data byte.
pub struct I2cBus {
    /// Register file of the slave device.
    pub regs: Vec<u8>,
    /// The slave's internal register pointer.
    pub pointer: u8,
    /// Whether the current write phase has already loaded the pointer.
    pub ptr_loaded: bool,
    /// 7-bit address the slave answers to.
    pub slave_addr: u8,
    /// Address programmed into the control register.
    pub target: u8,
    /// Direction programmed into the control register.
    pub dir: Direction,
    /// Bytes of the current phase still owed.
    pub remaining: u8,
    /// Whether the controller issues STOP by itself after the
    /// programmed byte count completes.
    pub auto_stop: bool,
    /// Transaction phase.
    pub phase: Phase,
    /// Fault: the transmit-ready flag never asserts.
    pub stall_tx: bool,
    /// Fault: the transfer-complete flag never asserts.
    pub stall_tc: bool,
    /// Fault: the receive-not-empty flag never asserts.
    pub stall_rx: bool,
    /// Poll budget of each blocking wait.
    pub timeout: u32,
}

/// The register pointer's successor, wrapping past the top of the
/// address space.
pub open spec fn wrap_inc(p: u8) -> u8 {
    if p == 255 {
        0
    } else {
        (p + 1) as u8
    }
}

impl I2cBus {
    /// Well-formedness: a full 8-bit register file and a usable poll
    /// budget.
    pub open spec fn wf(self) -> bool {
        &&& self.regs@.len() == 256
        &&& self.timeout >= 1
    }

    /// The programmed target address matches the slave on the wire.
    pub open spec fn addressed(self) -> bool {
        self.target == self.slave_addr
    }

    /// The slave at `addr` acknowledges a write phase and lets it
    /// complete: both the transmit-ready and the transfer-complete
    /// flags assert.
    pub open spec fn write_phase_ok(self, addr: u8) -> bool {
        &&& addr == self.slave_addr
        &&& !self.stall_tx
        &&& !self.stall_tc
    }

    /// The slave at `addr` carries a whole write-then-read
    /// transaction: no status flag stalls.
    pub open spec fn responds_to(self, addr: u8) -> bool {
        &&& self.write_phase_ok(addr)
        &&& !self.stall_rx
    }

    /// Slave device and fault state are untouched: register file,
    /// slave address, stall faults and poll budget all agree.
    pub open spec fn same_device(self, other: I2cBus) -> bool {
        &&& self.regs@ == other.regs@
        &&& self.slave_addr == other.slave_addr
        &&& self.stall_tx == other.stall_tx
        &&& self.stall_tc == other.stall_tc
        &&& self.stall_rx == other.stall_rx
        &&& self.timeout == other.timeout
    }

    /// As [`Self::same_device`], but the register file may differ.
    pub open spec fn same_faults(self, other: I2cBus) -> bool {
        &&& self.slave_addr == other.slave_addr
        &&& self.stall_tx == other.stall_tx
        &&& self.stall_tc == other.stall_tc
        &&& self.stall_rx == other.stall_rx
        &&& self.timeout == other.timeout
    }

    /// Value of a status flag, as a function of the model state.
    pub open spec fn status_spec(self, bit: StatusBit) -> bool {
        match bit {
            StatusBit::TxReady => {
                &&& self.phase is Transferring
                &&& self.dir is Write
                &&& self.remaining > 0
                &&& self.addressed()
                &&& !self.stall_tx
            },
            StatusBit::TransferComplete => {
                &&& self.phase is Transferring
                &&& self.dir is Write
                &&& self.remaining == 0
                &&& self.addressed()
                &&& !self.stall_tc
            },
            StatusBit::RxNotEmpty => {
                &&& self.phase is Transferring
                &&& self.dir is Read
                &&& self.remaining > 0
                &&& self.addressed()
                &&& !self.stall_rx
            },
        }
    }

    /// A fresh bus: zeroed register file, slave listening at
    /// `slave_addr`, no fault injected, controller idle.
    pub fn new(slave_addr: u8, timeout: u32) -> (b: I2cBus)
        requires
            timeout >= 1,
        ensures
            b.wf(),
            b.phase is Idle,
            b.slave_addr == slave_addr,
            b.timeout == timeout,
            b.pointer == 0,
            !b.stall_tx,
            !b.stall_tc,
            !b.stall_rx,
            forall|i: int| 0 <= i < 256 ==> b.regs@[i] == 0u8,
    {
        let mut regs: Vec<u8> = Vec::new();
        let mut i: usize = 0;
        while i < 256
            invariant
                i <= 256,
                regs@.len() == i,
                forall|j: int| 0 <= j < i ==> regs@[j] == 0u8,
            decreases 256 - i,
        {
            regs.push(0);
            i = i + 1;
        }
        I2cBus {
            regs,
            pointer: 0,
            ptr_loaded: false,
            slave_addr,
            target: 0,
            dir: Direction::Write,
            remaining: 0,
            auto_stop: false,
            phase: Phase::Idle,
            stall_tx: false,
            stall_tc: false,
            stall_rx: false,
            timeout,
        }
    }

    /// Store `value` in the slave's register file directly, as the
    /// device itself would when it acquires a sample.
    pub fn set_register(&mut self, reg: u8, value: u8)
        requires
            old(self).wf(),
        ensures
            final(self).wf(),
            final(self).regs@ == old(self).regs@.update(reg as int, value),
            *final(self) == (I2cBus { regs: final(self).regs, ..*old(self) }),
    {
        let idx = reg as usize;
        self.regs.set(idx, value);
    }

    /// Read one status flag of the status register.
    fn read_status(&self, bit: StatusBit) -> (r: bool)
        ensures
            r == self.status_spec(bit),
    {
        let live = match bit {
            StatusBit::TxReady => {
                matches!(self.phase, Phase::Transferring) && matches!(self.dir, Direction::Write)
                    && self.remaining > 0 && !self.stall_tx
            },
            StatusBit::TransferComplete => {
                matches!(self.phase, Phase::Transferring) && matches!(self.dir, Direction::Write)
                    && self.remaining == 0 && !self.stall_tc
            },
            StatusBit::RxNotEmpty => {
                matches!(self.phase, Phase::Transferring) && matches!(self.dir, Direction::Read)
                    && self.remaining > 0 && !self.stall_rx
            },
        };
        live && self.target == self.slave_addr
    }

    /// Busy-poll a status flag until it asserts, at most `timeout`
    /// times. The flag is a pure function of the bus state, so the
    /// wait returns exactly that value: `true` as soon as the flag is
    /// up, `false` once the budget is spent on a flag that stays
    /// down.
    fn wait_for(&self, bit: StatusBit) -> (r: bool)
        requires
            self.wf(),
        ensures
            r == self.status_spec(bit),
    {
        let mut i: u32 = 0;
        while i < self.timeout
            invariant
                i <= self.timeout,
                i > 0 ==> !self.status_spec(bit),
            decreases self.timeout - i,
        {
            if self.read_status(bit) {
                return true;
            }
            i = i + 1;
        }
        false
    }

    /// Assert START, program the target address with write direction
    /// and the byte count, and clear auto-stop. The controller begins
    /// arbitration and addressing on the wire; the first byte sent
    /// afterwards will load the slave's register pointer.
    pub fn start_write(&mut self, addr: u8, nbytes: u8)
        requires
            old(self).wf(),
            !(old(self).phase is Transferring),
        ensures
            final(self).wf(),
            *final(self) == (I2cBus {
                target: addr,
                dir: Direction::Write,
                remaining: nbytes,
                auto_stop: false,
                ptr_loaded: false,
                phase: Phase::Transferring,
                ..*old(self)
            }),
    {
        self.target = addr;
        self.dir = Direction::Write;
        self.remaining = nbytes;
        self.auto_stop = false;
        self.ptr_loaded = false;
        self.phase = Phase::Transferring;
    }

    /// Assert START (a RESTART when a phase just completed without a
    /// stop), program read direction and the byte count, and request
    /// automatic STOP generation when `auto_stop` is set. A zero-byte
    /// read phase completes at once.
    pub fn start_read(&mut self, addr: u8, nbytes: u8, auto_stop: bool)
        requires
            old(self).wf(),
            !(old(self).phase is Transferring),
        ensures
            final(self).wf(),
            *final(self) == (I2cBus {
                target: addr,
                dir: Direction::Read,
                remaining: nbytes,
                auto_stop: auto_stop,
                phase: if nbytes > 0 {
                    Phase::Transferring
                } else if auto_stop {
                    Phase::Idle
                } else {
                    Phase::Completing
                },
                ..*old(self)
            }),
    {
        self.target = addr;
        self.dir = Direction::Read;
        self.remaining = nbytes;
        self.auto_stop = auto_stop;
        self.phase = if nbytes > 0 {
            Phase::Transferring
        } else if auto_stop {
            Phase::Idle
        } else {
            Phase::Completing
        };
    }

    /// Block until the transmit register is ready, then write `value`
    /// into it. The slave latches the first byte of the phase as its
    /// register pointer and stores every further byte through the
    /// pointer. A flag that never asserts surfaces as
    /// [`BusError::BusStall`] with the bus state untouched.
    pub fn send_byte(&mut self, value: u8) -> (r: Result<(), BusError>)
        requires
            old(self).wf(),
            old(self).phase is Transferring,
            old(self).dir is Write,
            old(self).remaining > 0,
        ensures
            final(self).wf(),
            r is Ok <==> old(self).status_spec(StatusBit::TxReady),
            r is Err ==> r == Err::<(), BusError>(BusError::BusStall) && *final(self) == *old(
                self,
            ),
            r is Ok && !old(self).ptr_loaded ==> *final(self) == (I2cBus {
                pointer: value,
                ptr_loaded: true,
                remaining: (old(self).remaining - 1) as u8,
                ..*old(self)
            }),
            r is Ok && old(self).ptr_loaded ==> final(self).regs@ == old(self).regs@.update(
                old(self).pointer as int,
                value,
            ) && *final(self) == (I2cBus {
                regs: final(self).regs,
                pointer: wrap_inc(old(self).pointer),
                remaining: (old(self).remaining - 1) as u8,
                ..*old(self)
            }),
    {
        if !self.wait_for(StatusBit::TxReady) {
            return Err(BusError::BusStall);
        }
        if !self.ptr_loaded {
            self.pointer = value;
            self.ptr_loaded = true;
        } else {
            let idx = self.pointer as usize;
            self.regs.set(idx, value);
            self.pointer = if self.pointer == 255 {
                0
            } else {
                self.pointer + 1
            };
        }
        self.remaining = self.remaining - 1;
        Ok(())
    }

    /// Block until the transfer-complete flag asserts after the last
    /// byte of a write phase; the controller is then ready for a
    /// restart or a stop. A flag that never asserts surfaces as
    /// [`BusError::BusStall`].
    pub fn await_transfer_complete(&mut self) -> (r: Result<(), BusError>)
        requires
            old(self).wf(),
            old(self).phase is Transferring,
            old(self).dir is Write,
            old(self).remaining == 0,
        ensures
            final(self).wf(),
            r is Ok <==> old(self).status_spec(StatusBit::TransferComplete),
            r is Err ==> r == Err::<(), BusError>(BusError::BusStall) && *final(self) == *old(
                self,
            ),
            r is Ok ==> *final(self) == (I2cBus { phase: Phase::Completing, ..*old(self) }),
    {
        if !self.wait_for(StatusBit::TransferComplete) {
            return Err(BusError::BusStall);
        }
        self.phase = Phase::Completing;
        Ok(())
    }

    /// Block until the receive register holds a byte, then read and
    /// return it. The byte is the slave register under the pointer;
    /// the pointer moves on. When the last programmed byte is taken
    /// and auto-stop was requested, the controller issues STOP by
    /// itself. A flag that never asserts surfaces as
    /// [`BusError::BusStall`] with the bus state untouched.
    pub fn recv_byte(&mut self) -> (r: Result<u8, BusError>)
        requires
            old(self).wf(),
            old(self).phase is Transferring,
            old(self).dir is Read,
            old(self).remaining > 0,
        ensures
            final(self).wf(),
            r is Ok <==> old(self).status_spec(StatusBit::RxNotEmpty),
            r is Err ==> r == Err::<u8, BusError>(BusError::BusStall) && *final(self) == *old(
                self,
            ),
            r is Ok ==> r == Ok::<u8, BusError>(old(self).regs@[old(self).pointer as int])
                && *final(self) == (I2cBus {
                pointer: wrap_inc(old(self).pointer),
                remaining: (old(self).remaining - 1) as u8,
                phase: if old(self).remaining == 1 {
                    if old(self).auto_stop {
                        Phase::Idle
                    } else {
                        Phase::Completing
                    }
                } else {
                    Phase::Transferring
                },
                ..*old(self)
            }),
    {
        if !self.wait_for(StatusBit::RxNotEmpty) {
            return Err(BusError::BusStall);
        }
        let idx = self.pointer as usize;
        let value = self.regs[idx];
        self.pointer = if self.pointer == 255 {
            0
        } else {
            self.pointer + 1
        };
        self.remaining = self.remaining - 1;
        if self.remaining == 0 {
            self.phase = if self.auto_stop {
                Phase::Idle
            } else {
                Phase::Completing
            };
        }
        Ok(value)
    }

    /// Reset the controller after a stalled transaction: the bus
    /// returns to idle. The slave device is untouched; its register
    /// pointer keeps whatever the partial transfer left in it.
    pub fn bus_reset(&mut self)
        requires
            old(self).wf(),
        ensures
            final(self).wf(),
            *final(self) == (I2cBus { remaining: 0u8, phase: Phase::Idle, ..*old(self) }),
    {
        self.remaining = 0;
        self.phase = Phase::Idle;
    }
}

} // verus!
