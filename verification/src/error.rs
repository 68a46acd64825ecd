//! Error types returned by the driver.

use vstd::prelude::*;

verus! {

/// Which part of a [`crate::config::Config`] was rejected.
#[derive(Debug, Clone, Copy, PartialEq, Eq, Structural)]
#[non_exhaustive]
pub enum ConfigError {
    /// Nominal bit timing field out of range (see field docs for ranges).
    NominalBitTiming,
    /// Data bit timing field out of range (see field docs for ranges).
    DataBitTiming,
    /// Clock configuration invalid (e.g. PLL from a non-4 MHz-class input).
    Clock,
}

/// Errors returned by driver operations.
///
/// `E` is the error type of the SPI device that carries the transfers.
#[derive(Debug, Clone, Copy, PartialEq, Eq)]
#[non_exhaustive]
pub enum Error<E> {
    /// The SPI transaction itself failed.
    Spi(E),
    /// The init-time RAM echo test (write/read `0xAA55AA55`) failed, or the
    /// chip reported an implausible message-RAM address.
    ///
    /// Usually wiring, a wrong CS line, or an SPI clock above the erratum
    /// limit of `0.85 * SYSCLK / 2` (see [`crate::config::max_spi_hz`]).
    CommunicationCheckFailed,
    /// The oscillator/PLL did not report ready within the timeout (~4 ms).
    ClockNotReady,
    /// The chip did not reach the requested operation mode within the timeout.
    ModeChangeTimeout,
    /// The operation requires Configuration mode, but the chip is not in it.
    NotInConfigMode,
    /// The target TX FIFO has no free slot. Retry after a slot frees up.
    TxFifoFull,
    /// The RX FIFO holds no message.
    RxFifoEmpty,
    /// The requested FIFO layout does not fit the 2048-byte message RAM.
    RamOverflow,
    /// A configuration value is out of range.
    InvalidConfig(ConfigError),
    /// A frame payload length is not a valid CAN (FD) length.
    InvalidPayloadLength,
    /// Waiting on the interrupt pin failed.
    IntPin,
}

/// The human-readable description of an error (for `Spi`, the prefix that
/// the SPI error's own description follows).
pub open spec fn error_message<E>(e: Error<E>) -> Seq<char> {
    match e {
        Error::Spi(_) => "SPI error"@,
        Error::CommunicationCheckFailed => "RAM echo test failed (wiring or SPI clock too fast)"@,
        Error::ClockNotReady => "oscillator/PLL not ready"@,
        Error::ModeChangeTimeout => "operation mode change timed out"@,
        Error::NotInConfigMode => "chip is not in Configuration mode"@,
        Error::TxFifoFull => "TX FIFO is full"@,
        Error::RxFifoEmpty => "RX FIFO is empty"@,
        Error::RamOverflow => "FIFO layout exceeds 2048-byte message RAM"@,
        Error::InvalidConfig(ConfigError::NominalBitTiming) => "invalid nominal bit timing"@,
        Error::InvalidConfig(ConfigError::DataBitTiming) => "invalid data bit timing"@,
        Error::InvalidConfig(ConfigError::Clock) => "invalid clock configuration"@,
        Error::InvalidPayloadLength => "invalid payload length"@,
        Error::IntPin => "interrupt pin wait failed"@,
    }
}

impl<E> Error<E> {
    /// The human-readable description of this error. For [`Error::Spi`]
    /// this is the prefix `"SPI error"`; the SPI error itself is described
    /// by its own `Debug` output.
    pub fn message(&self) -> (r: &'static str)
        ensures
            r@ == error_message(*self),
    {
        match self {
            Error::Spi(_) => "SPI error",
            Error::CommunicationCheckFailed => "RAM echo test failed (wiring or SPI clock too fast)",
            Error::ClockNotReady => "oscillator/PLL not ready",
            Error::ModeChangeTimeout => "operation mode change timed out",
            Error::NotInConfigMode => "chip is not in Configuration mode",
            Error::TxFifoFull => "TX FIFO is full",
            Error::RxFifoEmpty => "RX FIFO is empty",
            Error::RamOverflow => "FIFO layout exceeds 2048-byte message RAM",
            Error::InvalidConfig(ConfigError::NominalBitTiming) => "invalid nominal bit timing",
            Error::InvalidConfig(ConfigError::DataBitTiming) => "invalid data bit timing",
            Error::InvalidConfig(ConfigError::Clock) => "invalid clock configuration",
            Error::InvalidPayloadLength => "invalid payload length",
            Error::IntPin => "interrupt pin wait failed",
        }
    }
}

} // verus!
