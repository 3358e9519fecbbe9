//! A verified I2C master driver for a fixed-address magnetometer.
//!
//! The driver is split in two layers. The bus primitive layer
//! ([`bus`]) offers thin, blocking operations over the controller's
//! control/status/data registers: start a write or read phase, move a
//! single byte, wait for transfer completion. The device protocol
//! layer ([`driver`]) composes those primitives into named
//! transactions against the magnetometer: single-register reads,
//! single-register writes with a post-write probe byte, and
//! multi-byte burst reads. Raw samples are assembled into signed
//! triples by [`sample`], and [`trace`] renders the human-readable
//! probe trace.
//!
//! The controller and the slave device are modelled by
//! [`bus::I2cBus`], so every transaction is verified end to end
//! against that model, including the bounded-poll timeout policy that
//! surfaces a stalled bus as an error instead of blocking forever.

use vstd::prelude::*;

pub mod bus;
pub mod driver;
pub mod regs;
pub mod sample;
pub mod trace;

verus! {

/// Advance a round-robin index: the successor of `led`, wrapping to 0
/// once `count` is reached.
pub fn update_pin(led: usize, count: usize) -> (r: usize)
    requires
        led < usize::MAX,
    ensures
        r as int == if led + 1 < count {
            (led + 1) as int
        } else {
            0int
        },
        count > 0 ==> r < count,
{
    if led + 1 < count {
        led + 1
    } else {
        0
    }
}

} // verus!
