//! Driver logic for the Microchip MCP2517FD / MCP2518FD / MCP251863 external
//! SPI CAN FD controllers.
//!
//! - Register encodings ([`registers`]), message-object layout
//!   ([`registers::objects`]) and message-RAM planning ([`FifoLayout`]).
//! - Classic CAN 2.0 ([`Frame`]) and CAN FD up to 64 bytes ([`FdFrame`]).
//! - Configuration checks ([`Config`]) and acceptance filters
//!   ([`FilterMatch`]).
//! - The driver ([`MCP251xFd`]): every operation is a step machine in
//!   [`driver`] that hands out the SPI accesses to run ([`bus::BusOp`]) and
//!   takes back the bytes read, so one logic serves blocking and async SPI.
//!
//! # SPI clock limit (silicon erratum)
//!
//! RAM reads corrupt above `0.85 * SYSCLK / 2`: 17 MHz at the recommended
//! 40 MHz SYSCLK. The driver cannot observe the bus clock; size it with
//! [`max_spi_hz`]. Initialization verifies communication with a RAM echo
//! test and fails with [`Error::CommunicationCheckFailed`] on an
//! over-clocked bus.
//!
//! # SPI mode
//!
//! The MCP251xFD requires SPI mode (0,0): clock idle low, data sampled on
//! the first (rising) edge.
#![allow(non_snake_case)]

pub mod bits;
pub mod bus;
pub mod config;
pub mod driver;
pub mod error;
pub mod frame;
pub mod id;
pub mod registers;

pub use config::{max_spi_hz, ClockConfig, Config, DataBitTiming, FilterMatch, NominalBitTiming};
pub use driver::{ChipConfig, Event, MCP251xFd};
pub use error::{ConfigError, Error};
pub use frame::{FdFrame, Frame, FrameFlags, ReceivedFrame, RxFrame};
pub use id::CanId;
pub use registers::ram::FifoLayout;
pub use registers::{CiCon, CiDbtCfg, CiFifoCon, CiFifoSta, CiInt, CiNbtCfg, CiTdc, CiTrec};
pub use registers::{Fifo, Filter, OperationMode, PayloadSize, Variant};
