//! A simulated bus: an in-memory register file for every seven-bit device
//! address, with the peripheral's configuration kept alongside.
use vstd::prelude::*;
use crate::i2cregacc::I2CRegAcc;

verus! {

/// A bus whose devices are plain register stores, all zero at start: 256
/// registers for each of the 128 device addresses.
pub struct SimDevice {
    regs: [u8; 0x8000],
    enabled: bool,
    scl: u8,
    sda: u8,
    fast: bool,
}

/// Position of register `reg_addr` of device `i2c_addr` in the store.
pub open spec fn slot(i2c_addr: u8, reg_addr: u8) -> int {
    i2c_addr as int * 256 + reg_addr as int
}

impl SimDevice {
    /// A bus with every register at zero and the peripheral disabled.
    pub fn new() -> (r: SimDevice)
        ensures
            forall|d: u8, a: u8| #[trigger] r.reg_value(d, a) == 0,
            !r.is_enabled(),
            r.pins() == (0u8, 0u8),
            !r.fast_mode(),
    {
        SimDevice { regs: [0u8; 0x8000], enabled: false, scl: 0, sda: 0, fast: false }
    }

    /// Sets a register directly, as the device itself would.
    pub fn poke(&mut self, i2c_addr: u8, reg_addr: u8, value: u8)
        requires
            i2c_addr < 0x80,
        ensures
            final(self).is_enabled() == old(self).is_enabled(),
            final(self).pins() == old(self).pins(),
            final(self).fast_mode() == old(self).fast_mode(),
            forall|d: u8, a: u8| #[trigger]
                final(self).reg_value(d, a) == if d == i2c_addr && a == reg_addr {
                    value
                } else {
                    old(self).reg_value(d, a)
                },
    {
        let i: usize = i2c_addr as usize * 256 + reg_addr as usize;
        self.regs[i] = value;
        assert forall|d: u8, a: u8| #[trigger]
            self.reg_value(d, a) == if d == i2c_addr && a == reg_addr {
                value
            } else {
                old(self).reg_value(d, a)
            } by {
            if d < 0x80 {
                assert(slot(d, a) == i ==> d == i2c_addr && a == reg_addr) by (nonlinear_arith)
                    requires
                        i == i2c_addr as int * 256 + reg_addr as int,
                        slot(d, a) == d as int * 256 + a as int,
                        a < 256,
                        reg_addr < 256,
                ;
            }
        }
    }

    /// Reads a register directly, without a bus transaction.
    pub fn peek(&self, i2c_addr: u8, reg_addr: u8) -> (r: u8)
        requires
            i2c_addr < 0x80,
        ensures
            r == self.reg_value(i2c_addr, reg_addr),
    {
        self.regs[i2c_addr as usize * 256 + reg_addr as usize]
    }

    /// Whether the peripheral is active.
    pub fn enabled(&self) -> (r: bool)
        ensures
            r == self.is_enabled(),
    {
        self.enabled
    }

    /// The clock and data pins last bound.
    pub fn bound_pins(&self) -> (r: (u8, u8))
        ensures
            r == self.pins(),
    {
        (self.scl, self.sda)
    }

    /// Whether the fast clock rate was last selected.
    pub fn fast(&self) -> (r: bool)
        ensures
            r == self.fast_mode(),
    {
        self.fast
    }
}

impl I2CRegAcc for SimDevice {
    closed spec fn reg_value(&self, i2c_addr: u8, reg_addr: u8) -> u8 {
        if i2c_addr < 0x80 {
            self.regs@[slot(i2c_addr, reg_addr)]
        } else {
            0
        }
    }

    closed spec fn is_enabled(&self) -> bool {
        self.enabled
    }

    closed spec fn pins(&self) -> (u8, u8) {
        (self.scl, self.sda)
    }

    closed spec fn fast_mode(&self) -> bool {
        self.fast
    }

    fn enable(&mut self, pn_scl: u8, pn_sda: u8, fast: bool) {
        self.scl = pn_scl;
        self.sda = pn_sda;
        self.fast = fast;
        self.enabled = true;
    }

    fn disable(&mut self) {
        self.enabled = false;
    }

    fn reg_read(&mut self, i2c_addr: u8, reg_addr: u8) -> (r: u8) {
        self.peek(i2c_addr, reg_addr)
    }

    fn reg_write(&mut self, i2c_addr: u8, reg_addr: u8, data: u8) {
        self.poke(i2c_addr, reg_addr, data);
    }
}

} // verus!
