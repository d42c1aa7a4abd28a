//! Channel configurations and peripheral identifiers of the DMA controller.
use vstd::prelude::*;

use super::register::{BurstSize, DmaMode, TransferWidth};

verus! {

/// Direct Memory Access channel configuration.
#[derive(Clone, Copy, Debug, PartialEq, Eq, Hash)]
pub struct DmaChannelConfig<T> {
    pub direction: DmaMode,
    pub src_req: Option<T>,
    pub dst_req: Option<T>,
    pub src_addr_inc: bool,
    pub dst_addr_inc: bool,
    pub src_burst_size: BurstSize,
    pub dst_burst_size: BurstSize,
    pub src_transfer_width: TransferWidth,
    pub dst_transfer_width: TransferWidth,
}

/// Memory to memory channel configuration.
#[derive(Clone, Copy, Debug, PartialEq, Eq, Hash)]
pub struct Mem2MemChannelConfig {
    pub direction: DmaMode,
    pub src_addr_inc: bool,
    pub dst_addr_inc: bool,
    pub src_burst_size: BurstSize,
    pub dst_burst_size: BurstSize,
    pub src_transfer_width: TransferWidth,
    pub dst_transfer_width: TransferWidth,
}

/// Peripheral for DMA 0/1.
#[derive(Clone, Copy, Debug, PartialEq, Eq, Hash, Structural)]
pub enum Periph4Dma01 {
    /// UART0 receive.
    Uart0Rx,
    /// UART0 transmit.
    Uart0Tx,
    /// UART1 receive.
    Uart1Rx,
    /// UART1 transmit.
    Uart1Tx,
    /// UART2 receive.
    Uart2Rx,
    /// UART2 transmit.
    Uart2Tx,
    /// I2C0 receive.
    I2c0Rx,
    /// I2C0 transmit.
    I2c0Tx,
    /// IR transmit.
    IrTx,
    /// GPIO transmit.
    GpioTx,
    /// SPI0 receive.
    Spi0Rx,
    /// SPI0 transmit.
    Spi0Tx,
    /// AUDIO receive.
    AudioRx,
    /// AUDIO transmit.
    AudioTx,
    /// I2C1 receive.
    I2c1Rx,
    /// I2C1 transmit.
    I2c1Tx,
    /// I2S receive.
    I2sRx,
    /// I2S transmit.
    I2sTx,
    /// PDM receive.
    PdmRx,
    /// GPADC.
    GpAdc,
    /// GPDAC.
    GpDac,
}

impl Periph4Dma01 {
    /// Number that stands for this value in a register field.
    pub open spec fn value(self) -> u32 {
        match self {
            Periph4Dma01::Uart0Rx => 0,
            Periph4Dma01::Uart0Tx => 1,
            Periph4Dma01::Uart1Rx => 2,
            Periph4Dma01::Uart1Tx => 3,
            Periph4Dma01::Uart2Rx => 4,
            Periph4Dma01::Uart2Tx => 5,
            Periph4Dma01::I2c0Rx => 6,
            Periph4Dma01::I2c0Tx => 7,
            Periph4Dma01::IrTx => 8,
            Periph4Dma01::GpioTx => 9,
            Periph4Dma01::Spi0Rx => 10,
            Periph4Dma01::Spi0Tx => 11,
            Periph4Dma01::AudioRx => 12,
            Periph4Dma01::AudioTx => 13,
            Periph4Dma01::I2c1Rx => 14,
            Periph4Dma01::I2c1Tx => 15,
            Periph4Dma01::I2sRx => 16,
            Periph4Dma01::I2sTx => 17,
            Periph4Dma01::PdmRx => 18,
            Periph4Dma01::GpAdc => 22,
            Periph4Dma01::GpDac => 23,
        }
    }

    /// Whether `v` is the number of some value.
    pub open spec fn is_value(v: u32) -> bool {
        v == 0 || v == 1 || v == 2 || v == 3 || v == 4 || v == 5 || v == 6 || v == 7 || v == 8 || v == 9 || v == 10 || v == 11 || v == 12 || v == 13 || v == 14 || v == 15 || v == 16 || v == 17 || v == 18 || v == 22 || v == 23
    }

    /// Number that stands for this value in a register field.
    pub fn to_u32(self) -> (r: u32)
        ensures
            r == self.value(),
            r <= 23,
    {
        match self {
            Periph4Dma01::Uart0Rx => 0,
            Periph4Dma01::Uart0Tx => 1,
            Periph4Dma01::Uart1Rx => 2,
            Periph4Dma01::Uart1Tx => 3,
            Periph4Dma01::Uart2Rx => 4,
            Periph4Dma01::Uart2Tx => 5,
            Periph4Dma01::I2c0Rx => 6,
            Periph4Dma01::I2c0Tx => 7,
            Periph4Dma01::IrTx => 8,
            Periph4Dma01::GpioTx => 9,
            Periph4Dma01::Spi0Rx => 10,
            Periph4Dma01::Spi0Tx => 11,
            Periph4Dma01::AudioRx => 12,
            Periph4Dma01::AudioTx => 13,
            Periph4Dma01::I2c1Rx => 14,
            Periph4Dma01::I2c1Tx => 15,
            Periph4Dma01::I2sRx => 16,
            Periph4Dma01::I2sTx => 17,
            Periph4Dma01::PdmRx => 18,
            Periph4Dma01::GpAdc => 22,
            Periph4Dma01::GpDac => 23,
        }
    }
}

/// Peripheral for DMA 2.
#[derive(Clone, Copy, Debug, PartialEq, Eq, Hash, Structural)]
pub enum Periph4Dma2 {
    /// UART3 receive.
    Uart3Rx,
    /// UART3 transmit.
    Uart3Tx,
    /// SPI1 receive.
    Spi1Rx,
    /// SPI1 transmit.
    Spi1Tx,
    /// I2C2 receive.
    I2c2Rx,
    /// I2C2 transmit.
    I2c2Tx,
    /// I2C3 receive.
    I2c3Rx,
    /// I2C3 transmit.
    I2c3Tx,
    /// DSI receive.
    DsiRx,
    /// DSI transmit.
    DsiTx,
    /// DBI receive.
    DbiTx,
}

impl Periph4Dma2 {
    /// Number that stands for this value in a register field.
    pub open spec fn value(self) -> u32 {
        match self {
            Periph4Dma2::Uart3Rx => 0,
            Periph4Dma2::Uart3Tx => 1,
            Periph4Dma2::Spi1Rx => 2,
            Periph4Dma2::Spi1Tx => 3,
            Periph4Dma2::I2c2Rx => 6,
            Periph4Dma2::I2c2Tx => 7,
            Periph4Dma2::I2c3Rx => 8,
            Periph4Dma2::I2c3Tx => 9,
            Periph4Dma2::DsiRx => 10,
            Periph4Dma2::DsiTx => 11,
            Periph4Dma2::DbiTx => 22,
        }
    }

    /// Whether `v` is the number of some value.
    pub open spec fn is_value(v: u32) -> bool {
        v == 0 || v == 1 || v == 2 || v == 3 || v == 6 || v == 7 || v == 8 || v == 9 || v == 10 || v == 11 || v == 22
    }

    /// Number that stands for this value in a register field.
    pub fn to_u32(self) -> (r: u32)
        ensures
            r == self.value(),
            r <= 22,
    {
        match self {
            Periph4Dma2::Uart3Rx => 0,
            Periph4Dma2::Uart3Tx => 1,
            Periph4Dma2::Spi1Rx => 2,
            Periph4Dma2::Spi1Tx => 3,
            Periph4Dma2::I2c2Rx => 6,
            Periph4Dma2::I2c2Tx => 7,
            Periph4Dma2::I2c3Rx => 8,
            Periph4Dma2::I2c3Tx => 9,
            Periph4Dma2::DsiRx => 10,
            Periph4Dma2::DsiTx => 11,
            Periph4Dma2::DbiTx => 22,
        }
    }
}

/// A peripheral that a DMA channel can be connected to.
pub trait PeripheralId {
    /// The number that identifies the peripheral.
    spec fn spec_id(&self) -> u8;

    /// The number that identifies the peripheral.
    fn id(&self) -> (r: u8)
        ensures
            r == self.spec_id(),
    ;
}

impl PeripheralId for Periph4Dma01 {
    open spec fn spec_id(&self) -> u8 {
        self.value() as u8
    }

    fn id(&self) -> (r: u8) {
        self.to_u32() as u8
    }
}

impl PeripheralId for Periph4Dma2 {
    open spec fn spec_id(&self) -> u8 {
        self.value() as u8
    }

    fn id(&self) -> (r: u8) {
        self.to_u32() as u8
    }
}

} // verus!
