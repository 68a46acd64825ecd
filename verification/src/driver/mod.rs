//! The MCP251XFD driver logic.
//!
//! The driver's decisions live here as plain functions and small step
//! machines: each machine hands back a [`Step`], either a batch of SPI
//! accesses to run, a delay, or the operation's result. The SPI device and
//! the delay provider stay with the caller, which runs each batch as SPI
//! transactions and feeds the bytes read by its last access back into the
//! machine.

pub mod init;
pub mod mode;
pub mod transfer;

use crate::bits::field;
use crate::bus::{ops_view, reply_len, BusOp, BusOpView};
use crate::config::FilterMatch;
use crate::error::Error;
use crate::registers::addr::{
    fifo_con, fifo_con_addr, fifo_sta, flt_con_byte, flt_mask, flt_obj, C1INT,
};
use crate::registers::{CiCon, CiDbtCfg, CiFifoCon, CiInt, CiNbtCfg, CiTdc, CiVec, Fifo, Filter};
use vstd::prelude::*;

verus! {

/// What the caller does next for an operation in progress.
pub enum Step<T, E> {
    /// Run these accesses in order, then resume with the bytes read by the
    /// last one (none if it reads nothing).
    Bus(Vec<BusOp>),
    /// Wait this many microseconds, then resume with no bytes.
    Delay(u32),
    /// The operation is over.
    Done(Result<T, Error<E>>),
}

/// The view of a step: the accesses as operation views.
pub enum StepView<T, E> {
    /// Run these accesses.
    Bus(Seq<BusOpView>),
    /// Wait this many microseconds.
    Delay(u32),
    /// The operation is over.
    Done(Result<T, Error<E>>),
}

impl<T, E> View for Step<T, E> {
    type V = StepView<T, E>;

    open spec fn view(&self) -> StepView<T, E> {
        match self {
            Step::Bus(ops) => StepView::Bus(ops_view(ops@)),
            Step::Delay(us) => StepView::Delay(*us),
            Step::Done(r) => StepView::Done(*r),
        }
    }
}

/// A step hands out what its machine then awaits: the last access of a
/// batch reads exactly the `n` bytes the machine is resumed with (an empty
/// batch reads none), and a delay is resumed with no bytes.
pub open spec fn hands_out<T, E>(s: StepView<T, E>, n: nat) -> bool {
    match s {
        StepView::Bus(ops) => if ops.len() == 0 {
            n == 0
        } else {
            reply_len(ops.last()) == n
        },
        StepView::Delay(_) => n == 0,
        StepView::Done(_) => true,
    }
}

/// Decoded `CiVEC.ICODE`: the highest-priority pending interrupt source.
#[derive(Debug, Clone, Copy, PartialEq, Eq, Structural)]
#[non_exhaustive]
pub enum Event {
    /// No interrupt pending (code 0x40).
    NoInterrupt,
    /// A FIFO interrupt (codes 1..=31).
    Fifo(Fifo),
    /// TXQ interrupt (code 0; the TXQ is not used by this driver version).
    TxQueue,
    /// CAN bus error (code 0x41).
    Error,
    /// Wake-up (code 0x42).
    WakeUp,
    /// RX FIFO overflow (code 0x43).
    ReceiveOverflow,
    /// Illegal register/RAM address access (code 0x44).
    AddressError,
    /// System error, e.g. SPI underrun per erratum: re-request the operation
    /// mode to recover (code 0x45).
    SystemError,
    /// Time base counter overflow (code 0x46).
    TimeBaseOverflow,
    /// Operation mode changed (code 0x47).
    ModeChange,
    /// Invalid message received (code 0x48).
    InvalidMessage,
    /// Transmit event FIFO (code 0x49).
    TransmitEvent,
    /// Transmit attempts exhausted (code 0x4A).
    TransmitAttempt,
    /// A code this driver version does not know.
    Unknown(u8),
}

/// `e` is the event that interrupt code `code` stands for.
pub open spec fn event_for_code(e: Event, code: u8) -> bool {
    match e {
        Event::TxQueue => code == 0,
        Event::Fifo(f) => 1 <= code <= 31 && f@ == code,
        Event::NoInterrupt => code == 0x40,
        Event::Error => code == 0x41,
        Event::WakeUp => code == 0x42,
        Event::ReceiveOverflow => code == 0x43,
        Event::AddressError => code == 0x44,
        Event::SystemError => code == 0x45,
        Event::TimeBaseOverflow => code == 0x46,
        Event::ModeChange => code == 0x47,
        Event::InvalidMessage => code == 0x48,
        Event::TransmitEvent => code == 0x49,
        Event::TransmitAttempt => code == 0x4A,
        Event::Unknown(c) => c == code && 32 <= code && !(0x40 <= code <= 0x4A),
    }
}

impl Event {
    /// Decodes an `ICODE` value.
    pub fn from_icode(code: u8) -> (r: Self)
        ensures
            event_for_code(r, code),
    {
        if code == 0 {
            Event::TxQueue
        } else if code <= 31 {
            match Fifo::new(code) {
                Some(f) => Event::Fifo(f),
                None => Event::Unknown(code),
            }
        } else if code == 0x40 {
            Event::NoInterrupt
        } else if code == 0x41 {
            Event::Error
        } else if code == 0x42 {
            Event::WakeUp
        } else if code == 0x43 {
            Event::ReceiveOverflow
        } else if code == 0x44 {
            Event::AddressError
        } else if code == 0x45 {
            Event::SystemError
        } else if code == 0x46 {
            Event::TimeBaseOverflow
        } else if code == 0x47 {
            Event::ModeChange
        } else if code == 0x48 {
            Event::InvalidMessage
        } else if code == 0x49 {
            Event::TransmitEvent
        } else if code == 0x4A {
            Event::TransmitAttempt
        } else {
            Event::Unknown(code)
        }
    }

    /// Decodes the pending event from a raw `CiVEC` word.
    pub fn from_vector(word: u32) -> (r: Self)
        ensures
            event_for_code(r, field(word, 0, 0x7F) as u8),
    {
        Event::from_icode(CiVec(word).icode())
    }
}

/// A snapshot of the chip's configuration registers, for diffing what the
/// driver asked for against what the chip actually holds.
#[derive(Debug, Clone, Copy, PartialEq, Eq, Structural)]
pub struct ChipConfig {
    /// `CiCON`: operation mode, ISO CRC, retransmission and TEF policy.
    pub con: CiCon,
    /// `CiNBTCFG`: nominal bit timing.
    pub nominal: CiNbtCfg,
    /// `CiDBTCFG`: data bit timing (meaningful only in CAN FD modes).
    pub data: CiDbtCfg,
    /// `CiTDC`: transmitter delay compensation.
    pub tdc: CiTdc,
}

/// The transmit sequence counter of a driver.
pub struct SeqCounter {
    /// The next TX sequence number, before masking.
    pub seq: u32,
    /// The mask of the detected variant's sequence-number width.
    pub mask: u32,
}

/// The state the driver keeps between operations: the next TX sequence
/// number (echoed in the TEF) and the variant's sequence mask.
#[derive(Debug)]
pub struct DriverState {
    seq: u32,
    seq_mask: u32,
}

impl View for DriverState {
    type V = SeqCounter;

    closed spec fn view(&self) -> SeqCounter {
        SeqCounter { seq: self.seq, mask: self.seq_mask }
    }
}

impl DriverState {
    /// A fresh state: sequence number 0, MCP2517FD mask until detection.
    pub fn new() -> (r: Self)
        ensures
            r@.seq == 0,
            r@.mask == 0x7F,
    {
        DriverState { seq: 0, seq_mask: 0x7F }
    }

    /// Records the sequence mask of the detected variant.
    pub(crate) fn set_mask(&mut self, mask: u32)
        ensures
            final(self)@.seq == old(self)@.seq,
            final(self)@.mask == mask,
    {
        self.seq_mask = mask;
    }

    /// Takes the next sequence number (masked), advancing the counter with
    /// wrap-around.
    pub(crate) fn take_seq(&mut self) -> (r: u32)
        ensures
            r == old(self)@.seq & old(self)@.mask,
            final(self)@.seq == (if old(self)@.seq == u32::MAX {
                0
            } else {
                (old(self)@.seq + 1) as u32
            }),
            final(self)@.mask == old(self)@.mask,
    {
        let s = self.seq & self.seq_mask;
        self.seq = self.seq.wrapping_add(1);
        s
    }
}

/// Driver for one MCP2517FD / MCP2518FD / MCP251863 chip.
///
/// Holds the SPI device and the driver state. Keep the SPI clock at or
/// below [`crate::config::max_spi_hz`]`(sysclk)` (silicon erratum).
pub struct MCP251xFd<SPI> {
    spi: SPI,
    state: DriverState,
}

impl<SPI> View for MCP251xFd<SPI> {
    type V = SeqCounter;

    closed spec fn view(&self) -> SeqCounter {
        self.state@
    }
}

impl<SPI> MCP251xFd<SPI> {
    /// The SPI device the driver holds.
    pub closed spec fn spec_spi(&self) -> SPI {
        self.spi
    }

    /// Creates a driver over an SPI device. Initialize the chip next.
    pub fn new(spi: SPI) -> (r: Self)
        ensures
            r.spec_spi() == spi,
            r@.seq == 0,
            r@.mask == 0x7F,
    {
        MCP251xFd { spi, state: DriverState::new() }
    }

    /// Consumes the driver and returns the SPI device.
    pub fn release(self) -> (r: SPI)
        ensures
            r == self.spec_spi(),
    {
        self.spi
    }

    /// The SPI device, to run a step's accesses on.
    pub fn spi_mut(&mut self) -> (r: &mut SPI)
        ensures
            *r == old(self).spec_spi(),
            final(self).spec_spi() == *final(r),
            final(self)@ == old(self)@,
    {
        &mut self.spi
    }

    /// The driver state, to resume a step machine with.
    pub fn state_mut(&mut self) -> (r: &mut DriverState)
        ensures
            r@ == old(self)@,
            final(self)@ == final(r)@,
            final(self).spec_spi() == old(self).spec_spi(),
    {
        &mut self.state
    }
}

/// The accesses that configure and enable an acceptance filter routing
/// matches into `target`: the filter is disabled while its registers are
/// updated (hardware requirement).
pub fn set_filter_ops(filter: Filter, matcher: FilterMatch, target: Fifo) -> (r: Vec<BusOp>)
    ensures
        ops_view(r@) == seq![
            BusOpView::WriteSfr8((0x1D0 + filter@) as u16, 0),
            BusOpView::WriteSfr32((0x1F0 + 8 * filter@) as u16, matcher.fltobj),
            BusOpView::WriteSfr32((0x1F0 + 8 * filter@ + 4) as u16, matcher.mask),
            BusOpView::WriteSfr8((0x1D0 + filter@) as u16, (0x80 + target@) as u8),
        ],
{
    let con = flt_con_byte(filter);
    let t = target.index();
    let mut ops: Vec<BusOp> = Vec::new();
    ops.push(BusOp::WriteSfr8 { addr: con, value: 0x00 });
    ops.push(BusOp::WriteSfr32 { addr: flt_obj(filter), value: matcher.fltobj });
    ops.push(BusOp::WriteSfr32 { addr: flt_mask(filter), value: matcher.mask });
    ops.push(BusOp::WriteSfr8 { addr: con, value: 0x80 + t });
    assert(ops_view(ops@) =~= seq![
        BusOpView::WriteSfr8((0x1D0 + filter@) as u16, 0),
        BusOpView::WriteSfr32((0x1F0 + 8 * filter@) as u16, matcher.fltobj),
        BusOpView::WriteSfr32((0x1F0 + 8 * filter@ + 4) as u16, matcher.mask),
        BusOpView::WriteSfr8((0x1D0 + filter@) as u16, (0x80 + target@) as u8),
    ]);
    ops
}

/// The access that disables an acceptance filter.
pub fn disable_filter_op(filter: Filter) -> (r: BusOp)
    ensures
        r@ == BusOpView::WriteSfr8((0x1D0 + filter@) as u16, 0),
{
    BusOp::WriteSfr8 { addr: flt_con_byte(filter), value: 0x00 }
}

/// The accesses that clear the interrupt flags set in `flags`
/// (write-0-to-clear; only the flag half, `C1INT` bytes 0-1, is touched).
pub fn clear_interrupts_ops(flags: CiInt) -> (r: Vec<BusOp>)
    ensures
        ops_view(r@) == seq![
            BusOpView::WriteSfr8(0x01C, !(field(flags.0, 0, 0xFF) as u8)),
            BusOpView::WriteSfr8(0x01D, !(field(flags.0, 8, 0xFF) as u8)),
        ],
{
    let lo = crate::bits::get_field_u8(flags.0, 0, 0xFF);
    let hi = crate::bits::get_field_u8(flags.0, 8, 0xFF);
    let mut ops: Vec<BusOp> = Vec::new();
    ops.push(BusOp::WriteSfr8 { addr: C1INT, value: !lo });
    ops.push(BusOp::WriteSfr8 { addr: C1INT + 1, value: !hi });
    assert(ops_view(ops@) =~= seq![
        BusOpView::WriteSfr8(0x01C, !(field(flags.0, 0, 0xFF) as u8)),
        BusOpView::WriteSfr8(0x01D, !(field(flags.0, 8, 0xFF) as u8)),
    ]);
    ops
}

/// The accesses that write the interrupt enable half of `C1INT` (bytes 2
/// and 3) from `enables`.
pub fn configure_interrupts_ops(enables: CiInt) -> (r: Vec<BusOp>)
    ensures
        ops_view(r@) == seq![
            BusOpView::WriteSfr8(0x01E, field(enables.0, 16, 0xFF) as u8),
            BusOpView::WriteSfr8(0x01F, field(enables.0, 24, 0xFF) as u8),
        ],
{
    let b2 = crate::bits::get_field_u8(enables.0, 16, 0xFF);
    let b3 = crate::bits::get_field_u8(enables.0, 24, 0xFF);
    let mut ops: Vec<BusOp> = Vec::new();
    ops.push(BusOp::WriteSfr8 { addr: C1INT + 2, value: b2 });
    ops.push(BusOp::WriteSfr8 { addr: C1INT + 3, value: b3 });
    assert(ops_view(ops@) =~= seq![
        BusOpView::WriteSfr8(0x01E, field(enables.0, 16, 0xFF) as u8),
        BusOpView::WriteSfr8(0x01F, field(enables.0, 24, 0xFF) as u8),
    ]);
    ops
}

/// The access that resets one FIFO by asserting `FRESET` in byte 1 of its
/// control register; its configuration bits stay as they are.
pub fn reset_fifo_op(fifo: Fifo) -> (r: BusOp)
    ensures
        r@ == BusOpView::WriteSfr8((fifo_con_addr(fifo@) + 1) as u16, 0x04),
{
    BusOp::WriteSfr8 { addr: fifo_con(fifo) + 1, value: CiFifoCon::CON_BYTE1_FRESET }
}

/// The access that clears a FIFO's overflow (and attempt-exhausted) flags.
pub fn clear_rx_overflow_op(fifo: Fifo) -> (r: BusOp)
    ensures
        r@ == BusOpView::WriteSfr8((fifo_con_addr(fifo@) + 4) as u16, 0x00),
{
    BusOp::WriteSfr8 { addr: fifo_sta(fifo), value: 0x00 }
}

} // verus!
