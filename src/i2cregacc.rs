//! The bus transport: single-register reads and writes to devices on a
//! two-wire bus, described over a model of the devices' register files.
use vstd::prelude::*;

verus! {

/// Register access over a two-wire bus.
///
/// A transport is modelled by the registers of the devices on its bus and by
/// its own configuration (enabled or not, the two pins it drives, the clock
/// rate). A transport whose model is not spelled out has an unspecified one.
pub trait I2CRegAcc: Sized {
    /// Register `reg_addr` of the device at bus address `i2c_addr`.
    open spec fn reg_value(&self, i2c_addr: u8, reg_addr: u8) -> u8 {
        arbitrary()
    }

    /// Whether the bus peripheral is active.
    open spec fn is_enabled(&self) -> bool {
        arbitrary()
    }

    /// The clock and data pins bound to the peripheral.
    open spec fn pins(&self) -> (u8, u8) {
        arbitrary()
    }

    /// Whether the bus runs at the fast (400 kHz) rate rather than 100 kHz.
    open spec fn fast_mode(&self) -> bool {
        arbitrary()
    }

    /// Binds the pins, selects the clock rate and activates the peripheral.
    fn enable(&mut self, pn_scl: u8, pn_sda: u8, fast: bool)
        ensures
            final(self).is_enabled(),
            final(self).pins() == (pn_scl, pn_sda),
            final(self).fast_mode() == fast,
            forall|d: u8, r: u8| #[trigger] final(self).reg_value(d, r) == old(self).reg_value(d, r),
    ;

    /// Deactivates the peripheral; the pin bindings stay as they are.
    fn disable(&mut self)
        ensures
            !final(self).is_enabled(),
            final(self).pins() == old(self).pins(),
            final(self).fast_mode() == old(self).fast_mode(),
            forall|d: u8, r: u8| #[trigger] final(self).reg_value(d, r) == old(self).reg_value(d, r),
    ;

    /// Writes the register address, then reads one byte back in the same
    /// transaction.
    fn reg_read(&mut self, i2c_addr: u8, reg_addr: u8) -> (r: u8)
        requires
            old(self).is_enabled(),
            i2c_addr < 0x80,
        ensures
            r == old(self).reg_value(i2c_addr, reg_addr),
            final(self).is_enabled() == old(self).is_enabled(),
            final(self).pins() == old(self).pins(),
            final(self).fast_mode() == old(self).fast_mode(),
            forall|d: u8, r: u8| #[trigger] final(self).reg_value(d, r) == old(self).reg_value(d, r),
    ;

    /// Writes the register address followed by one data byte.
    fn reg_write(&mut self, i2c_addr: u8, reg_addr: u8, data: u8)
        requires
            old(self).is_enabled(),
            i2c_addr < 0x80,
        ensures
            final(self).is_enabled() == old(self).is_enabled(),
            final(self).pins() == old(self).pins(),
            final(self).fast_mode() == old(self).fast_mode(),
            forall|d: u8, r: u8| #[trigger]
                final(self).reg_value(d, r) == if d == i2c_addr && r == reg_addr {
                    data
                } else {
                    old(self).reg_value(d, r)
                },
    ;

    /// Read-modify-write: the bits selected by `mask` take their values from
    /// `data`, all other bits keep theirs.
    fn reg_write_mask(&mut self, i2c_addr: u8, reg_addr: u8, mask: u8, data: u8)
        requires
            old(self).is_enabled(),
            i2c_addr < 0x80,
        ensures
            final(self).is_enabled() == old(self).is_enabled(),
            final(self).pins() == old(self).pins(),
            final(self).fast_mode() == old(self).fast_mode(),
            forall|d: u8, r: u8| #[trigger]
                final(self).reg_value(d, r) == if d == i2c_addr && r == reg_addr {
                    masked_update(old(self).reg_value(d, r), mask, data)
                } else {
                    old(self).reg_value(d, r)
                },
    {
        let tmp = self.reg_read(i2c_addr, reg_addr);
        let tmp = tmp & !mask;
        let data = data & mask;
        let tmp = tmp | data;
        self.reg_write(i2c_addr, reg_addr, tmp);
    }
}

/// `old` with the bits of `mask` replaced by those of `data`.
pub open spec fn masked_update(old: u8, mask: u8, data: u8) -> u8 {
    (old & !mask) | (data & mask)
}

/// Every register of every device holds the same value in `a` and `b`.
pub open spec fn same_regs<B: I2CRegAcc>(a: B, b: B) -> bool {
    forall|d: u8, r: u8| #[trigger] b.reg_value(d, r) == a.reg_value(d, r)
}

/// The peripheral's own state is the same in `a` and `b`.
pub open spec fn same_config<B: I2CRegAcc>(a: B, b: B) -> bool {
    &&& b.is_enabled() == a.is_enabled()
    &&& b.pins() == a.pins()
    &&& b.fast_mode() == a.fast_mode()
}

/// `b` is `a` after `data` was written to register `reg_addr` of device
/// `i2c_addr`: that register holds `data`, every other one is unchanged.
pub open spec fn written<B: I2CRegAcc>(a: B, b: B, i2c_addr: u8, reg_addr: u8, data: u8) -> bool {
    &&& same_config(a, b)
    &&& forall|d: u8, r: u8| #[trigger]
        b.reg_value(d, r) == if d == i2c_addr && r == reg_addr {
            data
        } else {
            a.reg_value(d, r)
        }
}

/// A masked write sets each bit under the mask from `data` and keeps each
/// other bit of the register, whatever `data` holds elsewhere.
pub proof fn lemma_masked_update_bits(old: u8, mask: u8, data: u8)
    ensures
        forall|i: u8|
            i < 8 ==> #[trigger] crate::regmap::bit_set(masked_update(old, mask, data), i) == if crate::regmap::bit_set(mask, i) {
                crate::regmap::bit_set(data, i)
            } else {
                crate::regmap::bit_set(old, i)
            },
{
    let n = masked_update(old, mask, data);
    assert(forall|i: u8|
        i < 8 ==> ((n >> i) & 1u8 == 1u8) == if (mask >> i) & 1u8 == 1u8 {
            (data >> i) & 1u8 == 1u8
        } else {
            (old >> i) & 1u8 == 1u8
        }) by (bit_vector)
        requires
            n == (old & !mask) | (data & mask),
    ;
}

/// Of two masked writes in a row under the same mask, the second decides the
/// masked bits, and the bits outside the mask keep the value they had before
/// both.
pub proof fn lemma_masked_update_repeat(old: u8, mask: u8, d1: u8, d2: u8)
    ensures
        masked_update(masked_update(old, mask, d1), mask, d2) == masked_update(old, mask, d2),
        masked_update(masked_update(old, mask, d1), mask, d2) & !mask == old & !mask,
{
    assert((((old & !mask) | (d1 & mask)) & !mask) | (d2 & mask) == (old & !mask) | (d2 & mask))
        by (bit_vector);
    assert(((old & !mask) | (d2 & mask)) & !mask == old & !mask) by (bit_vector);
}

/// Reading a register back right after writing it gives the value written.
pub proof fn lemma_write_then_read<B: I2CRegAcc>(
    before: B,
    after: B,
    i2c_addr: u8,
    reg_addr: u8,
    data: u8,
)
    requires
        written(before, after, i2c_addr, reg_addr, data),
    ensures
        after.reg_value(i2c_addr, reg_addr) == data,
        after.is_enabled() == before.is_enabled(),
{
}

} // verus!
