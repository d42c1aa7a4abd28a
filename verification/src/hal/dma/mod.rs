//! Direct memory access (DMA) controller.
use vstd::prelude::*;

pub mod channel;
pub mod config;
pub mod register;

verus! {

/// DMA peripheral data register address definition.
#[derive(Clone, Copy, Debug, PartialEq, Eq, Hash, Structural)]
pub enum DmaAddr {
    Uart0Tx,
    Uart0Rx,
    Uart1Tx,
    Uart1Rx,
    Uart2Tx,
    Uart2Rx,
    Uart3Tx,
    Uart3Rx,
    I2c0Tx,
    I2c0Rx,
    I2c1Tx,
    I2c1Rx,
    I2c2Tx,
    I2c2Rx,
    I2c3Tx,
    I2c3Rx,
    Spi0Tx,
    Spi0Rx,
    Spi1Tx,
    Spi1Rx,
    I2sTx,
    I2sRx,
    AdcRx,
    DacTx,
    IrTx,
    WoTx,
}

impl DmaAddr {
    /// Address of the data register.
    pub open spec fn spec_addr(self) -> u32 {
        match self {
            DmaAddr::Uart0Tx => 0x2000A088,
            DmaAddr::Uart0Rx => 0x2000A08C,
            DmaAddr::Uart1Tx => 0x2000A188,
            DmaAddr::Uart1Rx => 0x2000A18C,
            DmaAddr::Uart2Tx => 0x2000AA88,
            DmaAddr::Uart2Rx => 0x2000AA8C,
            DmaAddr::Uart3Tx => 0x30002088,
            DmaAddr::Uart3Rx => 0x3000208C,
            DmaAddr::I2c0Tx => 0x2000A388,
            DmaAddr::I2c0Rx => 0x2000A38C,
            DmaAddr::I2c1Tx => 0x2000A988,
            DmaAddr::I2c1Rx => 0x2000A98C,
            DmaAddr::I2c2Tx => 0x30003088,
            DmaAddr::I2c2Rx => 0x3000308C,
            DmaAddr::I2c3Tx => 0x30004088,
            DmaAddr::I2c3Rx => 0x3000408C,
            DmaAddr::Spi0Tx => 0x2000A288,
            DmaAddr::Spi0Rx => 0x2000A28C,
            DmaAddr::Spi1Tx => 0x30008088,
            DmaAddr::Spi1Rx => 0x3000808C,
            DmaAddr::I2sTx => 0x2000AB88,
            DmaAddr::I2sRx => 0x2000AB8C,
            DmaAddr::AdcRx => 0x20002004,
            DmaAddr::DacTx => 0x20002048,
            DmaAddr::IrTx => 0x2000A688,
            DmaAddr::WoTx => 0x20000B04,
        }
    }

    /// Address of the data register.
    pub fn addr(self) -> (r: u32)
        ensures
            r == self.spec_addr(),
    {
        match self {
            DmaAddr::Uart0Tx => 0x2000A088,
            DmaAddr::Uart0Rx => 0x2000A08C,
            DmaAddr::Uart1Tx => 0x2000A188,
            DmaAddr::Uart1Rx => 0x2000A18C,
            DmaAddr::Uart2Tx => 0x2000AA88,
            DmaAddr::Uart2Rx => 0x2000AA8C,
            DmaAddr::Uart3Tx => 0x30002088,
            DmaAddr::Uart3Rx => 0x3000208C,
            DmaAddr::I2c0Tx => 0x2000A388,
            DmaAddr::I2c0Rx => 0x2000A38C,
            DmaAddr::I2c1Tx => 0x2000A988,
            DmaAddr::I2c1Rx => 0x2000A98C,
            DmaAddr::I2c2Tx => 0x30003088,
            DmaAddr::I2c2Rx => 0x3000308C,
            DmaAddr::I2c3Tx => 0x30004088,
            DmaAddr::I2c3Rx => 0x3000408C,
            DmaAddr::Spi0Tx => 0x2000A288,
            DmaAddr::Spi0Rx => 0x2000A28C,
            DmaAddr::Spi1Tx => 0x30008088,
            DmaAddr::Spi1Rx => 0x3000808C,
            DmaAddr::I2sTx => 0x2000AB88,
            DmaAddr::I2sRx => 0x2000AB8C,
            DmaAddr::AdcRx => 0x20002004,
            DmaAddr::DacTx => 0x20002048,
            DmaAddr::IrTx => 0x2000A688,
            DmaAddr::WoTx => 0x20000B04,
        }
    }
}

} // verus!
