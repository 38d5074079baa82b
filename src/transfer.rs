//! What a hardware transport decides for one bus transaction: the transfer
//! to program, the clock rate, and whether the completed transfer moved the
//! bytes it should have.
use vstd::prelude::*;

verus! {

/// Hardware shortcuts that chain the phases of a transfer without software
/// in between.
#[derive(Clone, Copy, Debug, PartialEq, Eq, Structural)]
pub enum Shorts {
    /// The last transmitted byte starts the receive phase, and the last
    /// received byte issues the stop condition.
    LastTxStartRxLastRxStop,
    /// The last transmitted byte issues the stop condition.
    LastTxStop,
}

/// Bus clock rate.
#[derive(Clone, Copy, Debug, PartialEq, Eq, Structural)]
pub enum Frequency {
    K100,
    K400,
}

/// The clock rate for the fast (400 kHz) or slow (100 kHz) mode.
pub fn frequency(fast: bool) -> (r: Frequency)
    ensures
        r == (if fast {
            Frequency::K400
        } else {
            Frequency::K100
        }),
{
    if fast {
        Frequency::K400
    } else {
        Frequency::K100
    }
}

/// A completed transfer moved another number of bytes than it was set up for.
#[derive(Clone, Copy, Debug, PartialEq, Eq, Structural)]
pub enum TransferError {
    TxAmount { expected: u32, actual: u32 },
    RxAmount { expected: u32, actual: u32 },
}

/// One bus transaction: the bytes sent to the device at `address`, how many
/// are read back after them, and the shortcuts that chain the phases.
pub struct Transfer {
    pub address: u8,
    pub tx: Vec<u8>,
    pub rx_len: u8,
    pub shorts: Shorts,
}

impl Transfer {
    /// A register read: send the register address, read one byte back, then
    /// stop, all under hardware control.
    pub fn register_read(i2c_addr: u8, reg_addr: u8) -> (t: Transfer)
        requires
            i2c_addr < 0x80,
        ensures
            t.address == i2c_addr,
            t.tx@ == seq![reg_addr],
            t.rx_len == 1,
            t.shorts == Shorts::LastTxStartRxLastRxStop,
    {
        let mut tx: Vec<u8> = Vec::new();
        tx.push(reg_addr);
        Transfer { address: i2c_addr, tx, rx_len: 1, shorts: Shorts::LastTxStartRxLastRxStop }
    }

    /// A register write: send the register address and the data byte, then
    /// stop.
    pub fn register_write(i2c_addr: u8, reg_addr: u8, data: u8) -> (t: Transfer)
        requires
            i2c_addr < 0x80,
        ensures
            t.address == i2c_addr,
            t.tx@ == seq![reg_addr, data],
            t.rx_len == 0,
            t.shorts == Shorts::LastTxStop,
    {
        let mut tx: Vec<u8> = Vec::new();
        tx.push(reg_addr);
        tx.push(data);
        Transfer { address: i2c_addr, tx, rx_len: 0, shorts: Shorts::LastTxStop }
    }

    /// Checks the byte counts that the peripheral reports once the transfer
    /// has stopped against those it was set up with.
    pub fn check_amounts(&self, tx_amount: u32, rx_amount: u32) -> (r: Result<(), TransferError>)
        ensures
            r is Ok <==> (tx_amount == self.tx@.len() && rx_amount == self.rx_len),
            tx_amount != self.tx@.len() ==> r == Err::<(), TransferError>(
                TransferError::TxAmount { expected: self.tx@.len() as u32, actual: tx_amount },
            ),
            tx_amount == self.tx@.len() && rx_amount != self.rx_len ==> r == Err::<
                (),
                TransferError,
            >(TransferError::RxAmount { expected: self.rx_len as u32, actual: rx_amount }),
    {
        let n = self.tx.len();
        if n > u32::MAX as usize || tx_amount != n as u32 {
            return Err(TransferError::TxAmount { expected: n as u32, actual: tx_amount });
        }
        if rx_amount != self.rx_len as u32 {
            return Err(TransferError::RxAmount { expected: self.rx_len as u32, actual: rx_amount });
        }
        Ok(())
    }

    /// Whether the receive-done event has to be cleared after the transfer.
    pub fn clears_rx_event(&self) -> (r: bool)
        ensures
            r == (self.rx_len > 0),
    {
        self.rx_len > 0
    }
}

} // verus!
