use nrf9160_pca20035::adp536x::{IdentityError, ADP536X};
use nrf9160_pca20035::i2cregacc::I2CRegAcc;
use nrf9160_pca20035::power_mgmt_init;
use nrf9160_pca20035::regmap::{mask_bits, RegField};
use nrf9160_pca20035::sim::SimDevice;
use nrf9160_pca20035::transfer::{frequency, Frequency, Shorts, Transfer, TransferError};

const ADDR: u8 = 0x46;

fn chip() -> SimDevice {
    let mut s = SimDevice::new();
    s.poke(ADDR, 0x00, 0x10);
    s.poke(ADDR, 0x01, 0x08);
    s
}

fn driver(s: SimDevice) -> ADP536X<SimDevice> {
    match ADP536X::new(s, true) {
        Ok(d) => d,
        Err(e) => panic!("identity rejected: {:?}", e),
    }
}

const ALL_FIELDS: [RegField; 8] = [
    RegField::BuckVout,
    RegField::BuckbstVout,
    RegField::BuckbstEnable,
    RegField::BuckDischarge,
    RegField::VbusIlim,
    RegField::ChargeCurrent,
    RegField::OcCharge,
    RegField::ChargeEnable,
];

#[test]
fn mask_bits_values() {
    assert_eq!(mask_bits(5, 0), 0x3F);
    assert_eq!(mask_bits(0, 0), 0x01);
    assert_eq!(mask_bits(1, 1), 0x02);
    assert_eq!(mask_bits(4, 0), 0x1F);
    assert_eq!(mask_bits(7, 5), 0xE0);
    assert_eq!(mask_bits(7, 0), 0xFF);
}

#[test]
fn register_map_masks_are_contiguous_from_shift() {
    for f in ALL_FIELDS {
        let mask = f.mask();
        let shift = f.shift();
        assert_ne!(mask, 0);
        assert_eq!(mask.trailing_zeros(), shift as u32);
        let run = mask >> shift;
        assert_eq!(run & run.wrapping_add(1), 0, "{:?} is not contiguous", f);
    }
}

#[test]
fn register_map_addresses() {
    assert_eq!(RegField::BuckVout.reg(), 0x2A);
    assert_eq!(RegField::BuckbstVout.reg(), 0x2C);
    assert_eq!(RegField::BuckbstEnable.reg(), 0x2B);
    assert_eq!(RegField::BuckDischarge.reg(), 0x29);
    assert_eq!(RegField::VbusIlim.reg(), 0x02);
    assert_eq!(RegField::ChargeCurrent.reg(), 0x04);
    assert_eq!(RegField::OcCharge.reg(), 0x15);
    assert_eq!(RegField::ChargeEnable.reg(), 0x07);
}

#[test]
fn reg_write_mask_changes_only_masked_bits() {
    let mut s = SimDevice::new();
    s.enable(1, 2, false);
    s.reg_write(ADDR, 0x30, 0xA5);
    s.reg_write_mask(ADDR, 0x30, 0x0F, 0x3C);
    assert_eq!(s.peek(ADDR, 0x30), 0xAC);
    for data in [0x00u8, 0xFF, 0x5A, 0x81] {
        s.reg_write_mask(ADDR, 0x30, 0x0F, data);
        let v = s.peek(ADDR, 0x30);
        assert_eq!(v & 0xF0, 0xA0);
        assert_eq!(v & 0x0F, data & 0x0F);
    }
    assert_eq!(s.peek(ADDR, 0x31), 0);
}

#[test]
fn buckbst_enable_twice_then_disable() {
    let mut s = chip();
    s.poke(ADDR, 0x2B, 0b1010_0100);
    let mut d = driver(s);
    d.buckbst_enable(true);
    d.buckbst_enable(true);
    let s = d.release();
    assert_eq!(s.peek(ADDR, 0x2B), 0b1010_0101);
    let mut d = driver(s);
    d.buckbst_enable(false);
    let s = d.release();
    assert_eq!(s.peek(ADDR, 0x2B), 0b1010_0100);
}

#[test]
fn write_then_read_round_trip() {
    let mut s = SimDevice::new();
    s.enable(12, 11, true);
    for (reg, v) in [(0x00u8, 0x00u8), (0x10, 0x7F), (0xFF, 0xFF), (0x2A, 0x18)] {
        s.reg_write(ADDR, reg, v);
        assert_eq!(s.reg_read(ADDR, reg), v);
    }
    s.reg_write(0x10, 0x10, 0x33);
    assert_eq!(s.reg_read(0x10, 0x10), 0x33);
    assert_eq!(s.reg_read(ADDR, 0x10), 0x7F);
}

#[test]
fn identity_accepted() {
    let d = ADP536X::new(chip(), true);
    assert!(d.is_ok());
    let s = d.ok().unwrap().release();
    assert!(!s.enabled());
    assert_eq!(s.bound_pins(), (12, 11));
    assert!(s.fast());
}

#[test]
fn identity_rejected() {
    let mut s = chip();
    s.poke(ADDR, 0x00, 0x11);
    match ADP536X::new(s, true) {
        Err(e) => assert_eq!(e, IdentityError { manuf_model: 0x11, silicon_rev: 0x08 }),
        Ok(_) => panic!("wrong manufacturer accepted"),
    }
    let mut s = chip();
    s.poke(ADDR, 0x01, 0x09);
    match ADP536X::new(s, true) {
        Err(e) => assert_eq!(e, IdentityError { manuf_model: 0x10, silicon_rev: 0x09 }),
        Ok(_) => panic!("wrong revision accepted"),
    }
}

#[test]
fn identity_check_can_be_skipped() {
    let d = ADP536X::new(SimDevice::new(), false);
    assert!(d.is_ok());
}

#[test]
fn buck_1v8_from_zero() {
    let mut d = driver(chip());
    d.buck_1v8_set();
    let s = d.release();
    assert_eq!(s.peek(ADDR, 0x2A), 0x18);
    assert_eq!(s.peek(ADDR, 0x2A) & 0x3F, 0b011000);
}

#[test]
fn buck_1v8_keeps_upper_bits() {
    let mut s = chip();
    s.poke(ADDR, 0x2A, 0xC7);
    let mut d = driver(s);
    d.buck_1v8_set();
    let s = d.release();
    assert_eq!(s.peek(ADDR, 0x2A), 0xD8);
}

#[test]
fn buckbst_3v3_and_codes() {
    let mut s = chip();
    s.poke(ADDR, 0x15, 0x1B);
    s.poke(ADDR, 0x04, 0xE0);
    s.poke(ADDR, 0x02, 0xF8);
    s.poke(ADDR, 0x29, 0xFF);
    let mut d = driver(s);
    d.buckbst_3v3_set();
    d.oc_chg_current_set(0x05);
    d.charger_current_set(0x3F);
    d.vbus_current_set(0x02);
    d.buck_discharge_set(false);
    d.charging_enable(false);
    let s = d.release();
    assert_eq!(s.peek(ADDR, 0x2C), 0x13);
    assert_eq!(s.peek(ADDR, 0x15), 0xBB);
    assert_eq!(s.peek(ADDR, 0x04), 0xFF);
    assert_eq!(s.peek(ADDR, 0x02), 0xFA);
    assert_eq!(s.peek(ADDR, 0x29), 0xFD);
    assert_eq!(s.peek(ADDR, 0x07), 0x00);
}

#[test]
fn full_bring_up_from_zero() {
    let s = match power_mgmt_init(chip()) {
        Ok(s) => s,
        Err(e) => panic!("bring-up failed: {:?}", e),
    };
    let expected: [(u8, u8); 10] = [
        (0x00, 0x10),
        (0x01, 0x08),
        (0x2A, 0x18),
        (0x2C, 0x13),
        (0x2B, 0x01),
        (0x29, 0x02),
        (0x02, 0x07),
        (0x04, 0x1F),
        (0x15, 0xE0),
        (0x07, 0x01),
    ];
    for reg in 0..=255u8 {
        let want = expected.iter().find(|(r, _)| *r == reg).map(|(_, v)| *v).unwrap_or(0);
        assert_eq!(s.peek(ADDR, reg), want, "register {:#04x}", reg);
    }
    assert!(!s.enabled());
    assert_eq!(s.bound_pins(), (12, 11));
    assert!(s.fast());
}

#[test]
fn full_bring_up_keeps_other_bits() {
    let mut s = chip();
    for reg in [0x2Au8, 0x2C, 0x2B, 0x29, 0x02, 0x04, 0x15, 0x07, 0x30] {
        s.poke(ADDR, reg, 0xFF);
    }
    s.poke(0x47, 0x2A, 0x55);
    let s = match power_mgmt_init(s) {
        Ok(s) => s,
        Err(e) => panic!("bring-up failed: {:?}", e),
    };
    assert_eq!(s.peek(ADDR, 0x2A), 0xD8);
    assert_eq!(s.peek(ADDR, 0x2C), 0xD3);
    assert_eq!(s.peek(ADDR, 0x2B), 0xFF);
    assert_eq!(s.peek(ADDR, 0x29), 0xFF);
    assert_eq!(s.peek(ADDR, 0x02), 0xFF);
    assert_eq!(s.peek(ADDR, 0x04), 0xFF);
    assert_eq!(s.peek(ADDR, 0x15), 0xFF);
    assert_eq!(s.peek(ADDR, 0x07), 0xFF);
    assert_eq!(s.peek(ADDR, 0x30), 0xFF);
    assert_eq!(s.peek(0x47, 0x2A), 0x55);
}

#[test]
fn bring_up_refuses_unknown_chip() {
    let mut s = chip();
    s.poke(ADDR, 0x01, 0x07);
    match power_mgmt_init(s) {
        Err(e) => assert_eq!(e, IdentityError { manuf_model: 0x10, silicon_rev: 0x07 }),
        Ok(_) => panic!("unknown chip accepted"),
    }
}

#[test]
fn read_transfer_descriptor() {
    let t = Transfer::register_read(ADDR, 0x2A);
    assert_eq!(t.address, ADDR);
    assert_eq!(t.tx, vec![0x2A]);
    assert_eq!(t.rx_len, 1);
    assert_eq!(t.shorts, Shorts::LastTxStartRxLastRxStop);
    assert!(t.clears_rx_event());
}

#[test]
fn write_transfer_descriptor() {
    let t = Transfer::register_write(ADDR, 0x2C, 0x13);
    assert_eq!(t.address, ADDR);
    assert_eq!(t.tx, vec![0x2C, 0x13]);
    assert_eq!(t.rx_len, 0);
    assert_eq!(t.shorts, Shorts::LastTxStop);
    assert!(!t.clears_rx_event());
}

#[test]
fn transfer_amounts_validated() {
    let r = Transfer::register_read(ADDR, 0x00);
    assert_eq!(r.check_amounts(1, 1), Ok(()));
    assert_eq!(r.check_amounts(0, 1), Err(TransferError::TxAmount { expected: 1, actual: 0 }));
    assert_eq!(r.check_amounts(1, 0), Err(TransferError::RxAmount { expected: 1, actual: 0 }));
    assert_eq!(r.check_amounts(2, 2), Err(TransferError::TxAmount { expected: 1, actual: 2 }));
    let w = Transfer::register_write(ADDR, 0x2A, 0x18);
    assert_eq!(w.check_amounts(2, 0), Ok(()));
    assert_eq!(w.check_amounts(1, 0), Err(TransferError::TxAmount { expected: 2, actual: 1 }));
    assert_eq!(w.check_amounts(2, 1), Err(TransferError::RxAmount { expected: 0, actual: 1 }));
}

#[test]
fn clock_rate_selection() {
    assert_eq!(frequency(true), Frequency::K400);
    assert_eq!(frequency(false), Frequency::K100);
}

#[test]
fn enable_and_disable_keep_pins_and_registers() {
    let mut s = SimDevice::new();
    s.poke(ADDR, 0x05, 0x42);
    s.enable(3, 4, false);
    assert!(s.enabled());
    assert_eq!(s.bound_pins(), (3, 4));
    assert!(!s.fast());
    s.disable();
    assert!(!s.enabled());
    assert_eq!(s.bound_pins(), (3, 4));
    assert_eq!(s.peek(ADDR, 0x05), 0x42);
}
