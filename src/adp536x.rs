//! The ADP536X configuration layer: named operations on the PMIC, each a
//! masked write of one register field through the bus transport.
use vstd::prelude::*;
pub use crate::i2cregacc::I2CRegAcc;
use crate::i2cregacc::{same_regs, written};
use crate::regmap::{
    RegField, ADP536X_BUCKBST_VOUT_3V3, ADP536X_BUCK_VOUT_1V8, ADP536X_I2C_ADDR,
    ADP536X_MANUF_MODEL, ADP536X_MANUF_MODEL_ID, ADP536X_SILICON_REV, ADP536X_SILICON_REV_ID,
};

verus! {

/// Clock pin bound to the bus when the driver starts.
pub const ADP536X_PIN_SCL: u8 = 12;

/// Data pin bound to the bus when the driver starts.
pub const ADP536X_PIN_SDA: u8 = 11;

/// The identity registers held other values than the ADP536X reports.
#[derive(Clone, Copy, Debug, PartialEq, Eq, Structural)]
pub struct IdentityError {
    pub manuf_model: u8,
    pub silicon_rev: u8,
}

/// Whether the device behind `bus` reports the ADP536X's identity.
pub open spec fn identity_matches<B: I2CRegAcc>(bus: B) -> bool {
    &&& bus.reg_value(ADP536X_I2C_ADDR, ADP536X_MANUF_MODEL) == ADP536X_MANUF_MODEL_ID
    &&& bus.reg_value(ADP536X_I2C_ADDR, ADP536X_SILICON_REV) == ADP536X_SILICON_REV_ID
}

/// The code written for an on/off field.
pub open spec fn flag_code(on: bool) -> u8 {
    if on {
        1
    } else {
        0
    }
}

/// `b` is `a` after `code` was written into field `f` of the PMIC: that one
/// register changed as the field update says, nothing else did.
pub open spec fn field_written<B: I2CRegAcc>(a: B, b: B, f: RegField, code: u8) -> bool {
    written(
        a,
        b,
        ADP536X_I2C_ADDR,
        f.spec_reg(),
        f.update(a.reg_value(ADP536X_I2C_ADDR, f.spec_reg()), code),
    )
}

/// The ADP536X driver; it owns the bus from construction until release.
pub struct ADP536X<B: I2CRegAcc> {
    bus: B,
}

impl<B: I2CRegAcc> ADP536X<B> {
    /// The bus, with the registers of the devices on it.
    pub closed spec fn bus(&self) -> B {
        self.bus
    }

    /// The driver is configuring: its bus is enabled.
    pub open spec fn wf(&self) -> bool {
        self.bus().is_enabled()
    }

    /// Enables the bus on the board's pins at the fast rate and, when
    /// `verify_identity` is set, checks that the ADP536X answers with its
    /// manufacturer/model and silicon revision.
    pub fn new(bus: B, verify_identity: bool) -> (r: Result<ADP536X<B>, IdentityError>)
        ensures
            r is Ok <==> (!verify_identity || identity_matches(bus)),
            r matches Ok(d) ==> {
                &&& d.wf()
                &&& d.bus().pins() == (ADP536X_PIN_SCL, ADP536X_PIN_SDA)
                &&& d.bus().fast_mode()
                &&& same_regs(bus, d.bus())
            },
            r matches Err(e) ==> {
                &&& e.manuf_model == bus.reg_value(ADP536X_I2C_ADDR, ADP536X_MANUF_MODEL)
                &&& e.silicon_rev == bus.reg_value(ADP536X_I2C_ADDR, ADP536X_SILICON_REV)
            },
    {
        let mut bus = bus;
        bus.enable(ADP536X_PIN_SCL, ADP536X_PIN_SDA, true);
        if verify_identity {
            let manuf_model = bus.reg_read(ADP536X_I2C_ADDR, ADP536X_MANUF_MODEL);
            let silicon_rev = bus.reg_read(ADP536X_I2C_ADDR, ADP536X_SILICON_REV);
            if manuf_model != ADP536X_MANUF_MODEL_ID || silicon_rev != ADP536X_SILICON_REV_ID {
                return Err(IdentityError { manuf_model, silicon_rev });
            }
        }
        Ok(ADP536X { bus })
    }

    /// Disables the bus and hands it back.
    pub fn release(self) -> (r: B)
        ensures
            !r.is_enabled(),
            r.pins() == self.bus().pins(),
            r.fast_mode() == self.bus().fast_mode(),
            same_regs(self.bus(), r),
    {
        let mut bus = self.bus;
        bus.disable();
        bus
    }

    fn field_set(&mut self, f: RegField, code: u8)
        requires
            old(self).wf(),
        ensures
            final(self).wf(),
            field_written(old(self).bus(), final(self).bus(), f, code),
    {
        let reg = f.reg();
        let mask = f.mask();
        let shift = f.shift();
        self.bus.reg_write_mask(ADP536X_I2C_ADDR, reg, mask, code << shift);
    }

    /// Sets the buck regulator's output to 1.8 V.
    pub fn buck_1v8_set(&mut self)
        requires
            old(self).wf(),
        ensures
            final(self).wf(),
            field_written(old(self).bus(), final(self).bus(), RegField::BuckVout, ADP536X_BUCK_VOUT_1V8),
    {
        self.field_set(RegField::BuckVout, ADP536X_BUCK_VOUT_1V8);
    }

    /// Sets the buck/boost regulator's output to 3.3 V.
    pub fn buckbst_3v3_set(&mut self)
        requires
            old(self).wf(),
        ensures
            final(self).wf(),
            field_written(
                old(self).bus(),
                final(self).bus(),
                RegField::BuckbstVout,
                ADP536X_BUCKBST_VOUT_3V3,
            ),
    {
        self.field_set(RegField::BuckbstVout, ADP536X_BUCKBST_VOUT_3V3);
    }

    /// Switches the buck/boost regulator on or off.
    pub fn buckbst_enable(&mut self, enable: bool)
        requires
            old(self).wf(),
        ensures
            final(self).wf(),
            field_written(old(self).bus(), final(self).bus(), RegField::BuckbstEnable, flag_code(enable)),
    {
        let value: u8 = if enable { 1 } else { 0 };
        self.field_set(RegField::BuckbstEnable, value);
    }

    /// Connects or disconnects the buck regulator's discharge resistor.
    pub fn buck_discharge_set(&mut self, enable: bool)
        requires
            old(self).wf(),
        ensures
            final(self).wf(),
            field_written(old(self).bus(), final(self).bus(), RegField::BuckDischarge, flag_code(enable)),
    {
        let value: u8 = if enable { 1 } else { 0 };
        self.field_set(RegField::BuckDischarge, value);
    }

    /// Sets the VBUS input current limit to the datasheet code `value`.
    pub fn vbus_current_set(&mut self, value: u8)
        requires
            old(self).wf(),
        ensures
            final(self).wf(),
            field_written(old(self).bus(), final(self).bus(), RegField::VbusIlim, value),
    {
        self.field_set(RegField::VbusIlim, value);
    }

    /// Sets the charging current to the datasheet code `value`.
    pub fn charger_current_set(&mut self, value: u8)
        requires
            old(self).wf(),
        ensures
            final(self).wf(),
            field_written(old(self).bus(), final(self).bus(), RegField::ChargeCurrent, value),
    {
        self.field_set(RegField::ChargeCurrent, value);
    }

    /// Sets the overcharge current threshold to the datasheet code `value`.
    pub fn oc_chg_current_set(&mut self, value: u8)
        requires
            old(self).wf(),
        ensures
            final(self).wf(),
            field_written(old(self).bus(), final(self).bus(), RegField::OcCharge, value),
    {
        self.field_set(RegField::OcCharge, value);
    }

    /// Switches battery charging on or off.
    pub fn charging_enable(&mut self, enable: bool)
        requires
            old(self).wf(),
        ensures
            final(self).wf(),
            field_written(old(self).bus(), final(self).bus(), RegField::ChargeEnable, flag_code(enable)),
    {
        let value: u8 = if enable { 1 } else { 0 };
        self.field_set(RegField::ChargeEnable, value);
    }
}

} // verus!
