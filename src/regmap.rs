//! Register map of the ADP536X: device address, identity values, and the
//! bit fields that the configuration layer programs.
use vstd::prelude::*;

verus! {

/// Bit `i` of `v`.
pub open spec fn bit_set(v: u8, i: u8) -> bool {
    (v >> i) & 1u8 == 1u8
}

/// The byte whose set bits are exactly `l..=h`.
pub open spec fn bit_range(h: u8, l: u8) -> u8 {
    (0xffu8 >> ((7 - h) as u8)) & (0xffu8 << l)
}

proof fn lemma_mask_bits(h: u8, l: u8)
    by (bit_vector)
    requires
        l <= h,
        h < 8,
    ensures
        (1u8 << l) <= (1u8 << h),
        (((1u8 << h) - (1u8 << l)) as u8 | (1u8 << h)) == bit_range(h, l),
        forall|i: u8| i < 8 ==> (bit_set(bit_range(h, l), i) <==> (l <= i && i <= h)),
{
}

/// A mask with bits `l` through `h` (inclusive) set.
pub fn mask_bits(h: u8, l: u8) -> (r: u8)
    requires
        l <= h,
        h < 8,
    ensures
        r == bit_range(h, l),
        forall|i: u8| i < 8 ==> (#[trigger] bit_set(r, i) <==> (l <= i && i <= h)),
{
    proof {
        lemma_mask_bits(h, l);
    }
    let v: u8 = 1u8 << h;
    let v: u8 = v - (1u8 << l);
    let v: u8 = v | (1u8 << h);
    v
}

/// Seven-bit bus address of the ADP536X.
pub const ADP536X_I2C_ADDR: u8 = 0x46;

/// Manufacturer and model identity register, and the value the chip reports.
pub const ADP536X_MANUF_MODEL: u8 = 0x00;
pub const ADP536X_MANUF_MODEL_ID: u8 = 0x10;

/// Silicon revision register, and the value the chip reports.
pub const ADP536X_SILICON_REV: u8 = 0x01;
pub const ADP536X_SILICON_REV_ID: u8 = 0x08;

/* Register addresses */
pub const ADP536X_CHG_VBUS_ILIM: u8 = 0x02;
pub const ADP536X_CHG_CURRENT_SET: u8 = 0x04;
pub const ADP536X_CHG_FUNC: u8 = 0x07;
pub const ADP536X_BAT_OC_CHG: u8 = 0x15;
pub const ADP536X_BUCK_CFG: u8 = 0x29;
pub const ADP536X_BUCK_OUTPUT: u8 = 0x2A;
pub const ADP536X_BUCKBST_CFG: u8 = 0x2B;
pub const ADP536X_BUCKBST_OUTPUT: u8 = 0x2C;

/// Buck output code for 1.8 V (0b11000).
pub const ADP536X_BUCK_VOUT_1V8: u8 = 0x18;

/// Buck/boost output code for 3.3 V (0b10011).
pub const ADP536X_BUCKBST_VOUT_3V3: u8 = 0x13;

/// VBUS current limit code for 500 mA.
pub const ADP536X_VBUS_ILIM_500MA: u8 = 0x07;

/// Charging current code for 320 mA.
pub const ADP536X_CHG_CURRENT_320MA: u8 = 0x1F;

/// Overcharge protection threshold code for 400 mA.
pub const ADP536X_OC_CHG_THRESHOLD_400MA: u8 = 0x07;

/// The configurable bit fields of the ADP536X.
#[derive(Clone, Copy, Debug, PartialEq, Eq, Structural)]
pub enum RegField {
    /// Buck output voltage, bits 5..0 of the buck output register.
    BuckVout,
    /// Buck/boost output voltage, bits 5..0 of the buck/boost output register.
    BuckbstVout,
    /// Buck/boost enable, bit 0 of the buck/boost configuration register.
    BuckbstEnable,
    /// Buck active discharge, bit 1 of the buck configuration register.
    BuckDischarge,
    /// VBUS input current limit, bits 2..0 of the charger VBUS register.
    VbusIlim,
    /// Charge current, bits 4..0 of the charger current register.
    ChargeCurrent,
    /// Overcharge current threshold, bits 7..5 of the battery overcharge register.
    OcCharge,
    /// Charging enable, bit 0 of the charger function register.
    ChargeEnable,
}

impl RegField {
    /// The register that holds the field.
    pub open spec fn spec_reg(self) -> u8 {
        match self {
            RegField::BuckVout => ADP536X_BUCK_OUTPUT,
            RegField::BuckbstVout => ADP536X_BUCKBST_OUTPUT,
            RegField::BuckbstEnable => ADP536X_BUCKBST_CFG,
            RegField::BuckDischarge => ADP536X_BUCK_CFG,
            RegField::VbusIlim => ADP536X_CHG_VBUS_ILIM,
            RegField::ChargeCurrent => ADP536X_CHG_CURRENT_SET,
            RegField::OcCharge => ADP536X_BAT_OC_CHG,
            RegField::ChargeEnable => ADP536X_CHG_FUNC,
        }
    }

    /// Index of the field's highest bit.
    pub open spec fn spec_high(self) -> u8 {
        match self {
            RegField::BuckVout => 5,
            RegField::BuckbstVout => 5,
            RegField::BuckbstEnable => 0,
            RegField::BuckDischarge => 1,
            RegField::VbusIlim => 2,
            RegField::ChargeCurrent => 4,
            RegField::OcCharge => 7,
            RegField::ChargeEnable => 0,
        }
    }

    /// Index of the field's lowest bit.
    pub open spec fn spec_shift(self) -> u8 {
        match self {
            RegField::BuckDischarge => 1,
            RegField::OcCharge => 5,
            _ => 0,
        }
    }

    pub open spec fn spec_mask(self) -> u8 {
        bit_range(self.spec_high(), self.spec_shift())
    }

    /// The register value after writing `code` into this field of `v`.
    pub open spec fn update(self, v: u8, code: u8) -> u8 {
        (v & !self.spec_mask()) | (((code << self.spec_shift()) as u8) & self.spec_mask())
    }

    pub fn reg(&self) -> (r: u8)
        ensures
            r == self.spec_reg(),
    {
        match self {
            RegField::BuckVout => ADP536X_BUCK_OUTPUT,
            RegField::BuckbstVout => ADP536X_BUCKBST_OUTPUT,
            RegField::BuckbstEnable => ADP536X_BUCKBST_CFG,
            RegField::BuckDischarge => ADP536X_BUCK_CFG,
            RegField::VbusIlim => ADP536X_CHG_VBUS_ILIM,
            RegField::ChargeCurrent => ADP536X_CHG_CURRENT_SET,
            RegField::OcCharge => ADP536X_BAT_OC_CHG,
            RegField::ChargeEnable => ADP536X_CHG_FUNC,
        }
    }

    pub fn shift(&self) -> (r: u8)
        ensures
            r == self.spec_shift(),
            r < 8,
    {
        match self {
            RegField::BuckDischarge => 1,
            RegField::OcCharge => 5,
            _ => 0,
        }
    }

    pub fn mask(&self) -> (r: u8)
        ensures
            r == self.spec_mask(),
    {
        match self {
            RegField::BuckVout => mask_bits(5, 0),
            RegField::BuckbstVout => mask_bits(5, 0),
            RegField::BuckbstEnable => mask_bits(0, 0),
            RegField::BuckDischarge => mask_bits(1, 1),
            RegField::VbusIlim => mask_bits(2, 0),
            RegField::ChargeCurrent => mask_bits(4, 0),
            RegField::OcCharge => mask_bits(7, 5),
            RegField::ChargeEnable => mask_bits(0, 0),
        }
    }
}

/// `mask` is one unbroken run of set bits whose lowest bit is `shift`.
pub open spec fn contiguous_from(mask: u8, shift: u8) -> bool {
    &&& shift < 8
    &&& bit_set(mask, shift)
    &&& forall|i: u8| i < shift ==> !#[trigger] bit_set(mask, i)
    &&& forall|i: u8, j: u8, k: u8|
        i <= j && j <= k && k < 8 && #[trigger] bit_set(mask, i) && #[trigger] bit_set(mask, k)
            ==> #[trigger] bit_set(mask, j)
}

/// Every field of the register map is a contiguous run of bits within its
/// byte, and its shift is the index of the run's lowest bit.
pub proof fn lemma_register_map_fields(f: RegField)
    ensures
        contiguous_from(f.spec_mask(), f.spec_shift()),
{
    lemma_mask_bits(f.spec_high(), f.spec_shift());
}

/// Two different fields of the register map never share a bit: each lives in
/// a register of its own or under a mask disjoint from the other's.
pub proof fn lemma_register_map_disjoint(f: RegField, g: RegField)
    requires
        f != g,
    ensures
        f.spec_reg() != g.spec_reg() || f.spec_mask() & g.spec_mask() == 0,
{
}

/// Writing the same code into a field twice leaves the register as one write
/// does; a second write with another code overrides the first entirely.
pub proof fn lemma_field_rewrite(f: RegField, v: u8, c1: u8, c2: u8)
    ensures
        f.update(f.update(v, c1), c1) == f.update(v, c1),
        f.update(f.update(v, c1), c2) == f.update(v, c2),
{
    let m = f.spec_mask();
    let s = f.spec_shift();
    let d1 = ((c1 << s) as u8) & m;
    let d2 = ((c2 << s) as u8) & m;
    assert(d1 & !m == 0u8) by (bit_vector)
        requires
            d1 == ((c1 << s) as u8) & m,
    ;
    assert(((((v & !m) | d1) & !m) | d1) == ((v & !m) | d1)) by (bit_vector)
        requires
            d1 & !m == 0u8,
    {
    }
    assert(((((v & !m) | d1) & !m) | d2) == ((v & !m) | d2)) by (bit_vector)
        requires
            d1 & !m == 0u8,
    {
    }
}

/// Enabling the buck/boost regulator twice leaves its enable bit set, and
/// enabling then disabling it leaves the bit clear; no other bit of the
/// register changes either way.
pub proof fn lemma_buckbst_enable_toggle(v: u8)
    ensures
        bit_set(RegField::BuckbstEnable.update(RegField::BuckbstEnable.update(v, 1), 1), 0),
        !bit_set(RegField::BuckbstEnable.update(RegField::BuckbstEnable.update(v, 1), 0), 0),
        forall|i: u8|
            0 < i && i < 8 ==> #[trigger] bit_set(
                RegField::BuckbstEnable.update(RegField::BuckbstEnable.update(v, 1), 1),
                i,
            ) == bit_set(v, i) && bit_set(
                RegField::BuckbstEnable.update(RegField::BuckbstEnable.update(v, 1), 0),
                i,
            ) == bit_set(v, i),
{
    let f = RegField::BuckbstEnable;
    lemma_field_rewrite(f, v, 1, 1);
    lemma_field_rewrite(f, v, 1, 0);
    assert(bit_range(0, 0) == 1u8) by (bit_vector);
    assert((1u8 << 0u8) as u8 == 1u8 && (0u8 << 0u8) as u8 == 0u8) by (bit_vector);
    assert(f.spec_mask() == 1u8 && f.spec_shift() == 0u8);
    let a = f.update(v, 1);
    let b = f.update(v, 0);
    assert(a == (v & !1u8) | (1u8 & 1u8));
    assert(b == (v & !1u8) | (0u8 & 1u8));
    assert(bit_set(a, 0) && !bit_set(b, 0) && forall|i: u8|
        0 < i && i < 8 ==> bit_set(a, i) == bit_set(v, i) && bit_set(b, i) == bit_set(v, i))
        by (bit_vector)
        requires
            a == (v & !1u8) | (1u8 & 1u8),
            b == (v & !1u8) | (0u8 & 1u8),
    ;
}

} // verus!
