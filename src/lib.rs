//! Power-management bring-up for the nRF9160 PCA20035 board: a register-level
//! driver for the ADP536X PMIC on top of a two-wire bus transport.
use vstd::prelude::*;

pub mod adp536x;
pub mod i2cregacc;
pub mod regmap;
pub mod sim;
pub mod transfer;

use crate::adp536x::{identity_matches, IdentityError, ADP536X, ADP536X_PIN_SCL, ADP536X_PIN_SDA};
use crate::i2cregacc::I2CRegAcc;
use crate::regmap::{
    RegField, ADP536X_BAT_OC_CHG, ADP536X_BUCKBST_CFG, ADP536X_BUCKBST_OUTPUT,
    ADP536X_BUCKBST_VOUT_3V3, ADP536X_BUCK_CFG, ADP536X_BUCK_OUTPUT, ADP536X_BUCK_VOUT_1V8,
    ADP536X_CHG_CURRENT_320MA, ADP536X_CHG_CURRENT_SET, ADP536X_CHG_FUNC, ADP536X_CHG_VBUS_ILIM,
    ADP536X_I2C_ADDR, ADP536X_MANUF_MODEL, ADP536X_OC_CHG_THRESHOLD_400MA, ADP536X_SILICON_REV,
    ADP536X_VBUS_ILIM_500MA,
};

verus! {

/// The value that register `reg_addr` of the PMIC holds after bring-up, when
/// it held `v` before.
pub open spec fn bring_up_reg(reg_addr: u8, v: u8) -> u8 {
    if reg_addr == ADP536X_BUCK_OUTPUT {
        RegField::BuckVout.update(v, ADP536X_BUCK_VOUT_1V8)
    } else if reg_addr == ADP536X_BUCKBST_OUTPUT {
        RegField::BuckbstVout.update(v, ADP536X_BUCKBST_VOUT_3V3)
    } else if reg_addr == ADP536X_BUCKBST_CFG {
        RegField::BuckbstEnable.update(v, 1)
    } else if reg_addr == ADP536X_BUCK_CFG {
        RegField::BuckDischarge.update(v, 1)
    } else if reg_addr == ADP536X_CHG_VBUS_ILIM {
        RegField::VbusIlim.update(v, ADP536X_VBUS_ILIM_500MA)
    } else if reg_addr == ADP536X_CHG_CURRENT_SET {
        RegField::ChargeCurrent.update(v, ADP536X_CHG_CURRENT_320MA)
    } else if reg_addr == ADP536X_BAT_OC_CHG {
        RegField::OcCharge.update(v, ADP536X_OC_CHG_THRESHOLD_400MA)
    } else if reg_addr == ADP536X_CHG_FUNC {
        RegField::ChargeEnable.update(v, 1)
    } else {
        v
    }
}

/// Brings the board's power rails up: buck at 1.8 V, buck/boost at 3.3 V and
/// on, buck discharge on, VBUS limit 500 mA, charge current 320 mA,
/// overcharge threshold 400 mA, charging on. Then releases the bus.
///
/// Fails, having touched no register, when the PMIC does not report its
/// identity.
pub fn power_mgmt_init<B: I2CRegAcc>(twim: B) -> (r: Result<B, IdentityError>)
    ensures
        r is Ok <==> identity_matches(twim),
        r matches Ok(b) ==> {
            &&& !b.is_enabled()
            &&& b.pins() == (ADP536X_PIN_SCL, ADP536X_PIN_SDA)
            &&& b.fast_mode()
            &&& forall|d: u8, a: u8| #[trigger]
                b.reg_value(d, a) == if d == ADP536X_I2C_ADDR {
                    bring_up_reg(a, twim.reg_value(d, a))
                } else {
                    twim.reg_value(d, a)
                }
        },
        r matches Err(e) ==> {
            &&& e.manuf_model == twim.reg_value(ADP536X_I2C_ADDR, ADP536X_MANUF_MODEL)
            &&& e.silicon_rev == twim.reg_value(ADP536X_I2C_ADDR, ADP536X_SILICON_REV)
        },
{
    let mut adp536x = match ADP536X::new(twim, true) {
        Ok(d) => d,
        Err(e) => {
            return Err(e);
        },
    };

    adp536x.buck_1v8_set();

    adp536x.buckbst_3v3_set();

    adp536x.buckbst_enable(true);

    /* Enables discharge resistor for buck regulator that brings the voltage
     * on its output faster down when it's inactive. Needed because some
     * components require to boot up from ~0V.
     */
    adp536x.buck_discharge_set(true);

    adp536x.vbus_current_set(ADP536X_VBUS_ILIM_500MA);

    adp536x.charger_current_set(ADP536X_CHG_CURRENT_320MA);

    adp536x.oc_chg_current_set(ADP536X_OC_CHG_THRESHOLD_400MA);

    adp536x.charging_enable(true);

    Ok(adp536x.release())
}

} // verus!
