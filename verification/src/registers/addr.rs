//! Register and RAM addresses (12-bit SPI address space).

use super::{Fifo, Filter};
use vstd::prelude::*;

verus! {

/// CAN control register.
pub const C1CON: u16 = 0x000;

/// Nominal bit timing configuration.
pub const C1NBTCFG: u16 = 0x004;

/// Data bit timing configuration.
pub const C1DBTCFG: u16 = 0x008;

/// Transmitter delay compensation.
pub const C1TDC: u16 = 0x00C;

/// Free-running time base counter.
pub const C1TBC: u16 = 0x010;

/// Interrupt vector code register.
pub const C1VEC: u16 = 0x018;

/// Interrupt flags (low half) and enables (high half).
pub const C1INT: u16 = 0x01C;

/// Transmit/receive error counters and bus state.
pub const C1TREC: u16 = 0x034;

/// Oscillator control (MCP2000-class SFR block).
pub const OSC: u16 = 0xE00;

/// I/O pin control. Byte access only (family erratum: multi-byte writes
/// spanning bytes 2-3 clear LAT0/LAT1).
pub const IOCON: u16 = 0xE04;

/// ECC control.
pub const ECCCON: u16 = 0xE0C;

/// First address of the 2 KiB message RAM.
pub const RAM_START: u16 = 0x400;

/// Message RAM size in bytes.
pub const RAM_SIZE: usize = 2048;

/// Address of `CiFIFOCONm` for a FIFO numbered `m`.
pub open spec fn fifo_con_addr(m: u8) -> int {
    0x05C + 12 * (m - 1)
}

/// The three registers (`CON`, `STA`, `UA`) of the FIFOs are word aligned
/// and tile the space from 0x05C, right after the TXQ block, up to the
/// filter-control registers at 0x1D0: FIFO blocks never overlap.
pub proof fn lemma_fifo_registers_tile(m: u8, n: u8)
    requires
        1 <= m < n <= 31,
    ensures
        fifo_con_addr(m) + 12 <= fifo_con_addr(n),
        fifo_con_addr(m) % 4 == 0,
        fifo_con_addr(1) == 0x05C,
        fifo_con_addr(31) + 12 == 0x1D0,
{
}

/// Address of `CiFIFOCONm` for the given FIFO.
pub fn fifo_con(fifo: Fifo) -> (r: u16)
    ensures
        r == fifo_con_addr(fifo@),
        0x05C <= r <= 0x1C4,
{
    let m = fifo.index() as u16;
    0x05C + 12 * (m - 1)
}

/// Address of `CiFIFOSTAm` for the given FIFO.
pub fn fifo_sta(fifo: Fifo) -> (r: u16)
    ensures
        r == fifo_con_addr(fifo@) + 4,
        0x060 <= r <= 0x1C8,
{
    fifo_con(fifo) + 4
}

/// Address of `CiFIFOUAm` for the given FIFO.
pub fn fifo_ua(fifo: Fifo) -> (r: u16)
    ensures
        r == fifo_con_addr(fifo@) + 8,
        0x064 <= r <= 0x1CC,
{
    fifo_con(fifo) + 8
}

/// Byte address of the filter-control byte for the given filter (one byte
/// per filter inside `CiFLTCON0..7`).
pub fn flt_con_byte(filter: Filter) -> (r: u16)
    ensures
        r == 0x1D0 + filter@,
{
    0x1D0 + filter.index() as u16
}

/// Address of `CiFLTOBJm` for the given filter.
pub fn flt_obj(filter: Filter) -> (r: u16)
    ensures
        r == 0x1F0 + 8 * filter@,
{
    0x1F0 + 8 * filter.index() as u16
}

/// Address of `CiMASKm` for the given filter.
pub fn flt_mask(filter: Filter) -> (r: u16)
    ensures
        r == 0x1F0 + 8 * filter@ + 4,
{
    flt_obj(filter) + 4
}

} // verus!
