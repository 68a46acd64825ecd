//! SPI transaction layer.
//!
//! Command format: 16-bit big-endian word = 4-bit opcode | 12-bit address,
//! followed by data bytes (registers little-endian). RAM accesses
//! (0x400..0xC00) must be 32-bit aligned and sized in 32-bit multiples.
//!
//! The driver logic describes each access as a [`BusOp`]; the caller runs
//! it as one SPI transaction (chip select framing is the SPI device's job)
//! and hands back the bytes it read.

use vstd::prelude::*;

verus! {

/// SPI instruction opcodes (high nibble of the command word).
#[derive(Debug, Clone, Copy, PartialEq, Eq, Structural)]
pub enum Opcode {
    /// Reset the chip to Configuration mode with default registers.
    Reset,
    /// Write bytes starting at an address.
    Write,
    /// Read bytes starting at an address.
    Read,
}

/// The 4-bit instruction code of an opcode.
pub open spec fn opcode_code(op: Opcode) -> u16 {
    match op {
        Opcode::Reset => 0x0,
        Opcode::Write => 0x2,
        Opcode::Read => 0x3,
    }
}

/// The 16-bit command word: opcode in bits 15:12, address in bits 11:0.
pub open spec fn command_word(op: Opcode, addr: u16) -> u16 {
    (opcode_code(op) << 12u16) | (addr & 0x0FFFu16)
}

/// Encodes the 2-byte command word, most significant byte first.
pub fn cmd(op: Opcode, addr: u16) -> (r: [u8; 2])
    ensures
        r@ == seq![(command_word(op, addr) >> 8u16) as u8, (command_word(op, addr) & 0xFFu16) as u8],
{
    let code: u16 = match op {
        Opcode::Reset => 0x0,
        Opcode::Write => 0x2,
        Opcode::Read => 0x3,
    };
    let w: u16 = (code << 12) | (addr & 0x0FFF);
    let r = [(w >> 8) as u8, (w & 0xFF) as u8];
    assert(r@ =~= seq![(command_word(op, addr) >> 8u16) as u8, (command_word(op, addr) & 0xFFu16) as u8]);
    r
}

/// The four bytes of a 32-bit word, least significant first.
pub open spec fn le32(v: u32) -> Seq<u8> {
    seq![
        (v & 0xFFu32) as u8,
        ((v >> 8u32) & 0xFFu32) as u8,
        ((v >> 16u32) & 0xFFu32) as u8,
        ((v >> 24u32) & 0xFFu32) as u8,
    ]
}

/// The 32-bit word whose little-endian bytes are `b[at..at + 4]`.
pub open spec fn word_at(b: Seq<u8>, at: int) -> u32 {
    (b[at] as u32) | ((b[at + 1] as u32) << 8u32) | ((b[at + 2] as u32) << 16u32) | ((
    b[at + 3] as u32) << 24u32)
}

/// Little-endian encoding and decoding undo each other.
pub proof fn lemma_le32_round_trip(v: u32, b: Seq<u8>)
    requires
        b.len() == 4,
    ensures
        word_at(le32(v), 0) == v,
        le32(word_at(b, 0)) == b,
{
    let b0 = b[0];
    let b1 = b[1];
    let b2 = b[2];
    let b3 = b[3];
    let w = word_at(b, 0);
    assert((((v & 0xFFu32) as u8) as u32) | ((((v >> 8u32) & 0xFFu32) as u8 as u32) << 8u32) | ((
    ((v >> 16u32) & 0xFFu32) as u8 as u32) << 16u32) | ((((v >> 24u32) & 0xFFu32) as u8 as u32)
        << 24u32) == v) by (bit_vector);
    assert(((w & 0xFFu32) as u8) == b0 && (((w >> 8u32) & 0xFFu32) as u8) == b1 && (((w >> 16u32)
        & 0xFFu32) as u8) == b2 && (((w >> 24u32) & 0xFFu32) as u8) == b3) by (bit_vector)
        requires
            w == (b0 as u32) | ((b1 as u32) << 8u32) | ((b2 as u32) << 16u32) | ((b3 as u32)
                << 24u32),
    ;
    assert(le32(w) =~= b);
}

/// The little-endian bytes of a word.
pub fn le_bytes(v: u32) -> (r: [u8; 4])
    ensures
        r@ == le32(v),
{
    let r = [
        (v & 0xFF) as u8,
        ((v >> 8) & 0xFF) as u8,
        ((v >> 16) & 0xFF) as u8,
        ((v >> 24) & 0xFF) as u8,
    ];
    assert(r@ =~= le32(v));
    r
}

/// Decodes the little-endian word at `b[at..at + 4]`.
pub fn word_from_le(b: &[u8], at: usize) -> (r: u32)
    requires
        at + 4 <= b@.len(),
    ensures
        r == word_at(b@, at as int),
{
    (b[at] as u32) | ((b[at + 1] as u32) << 8) | ((b[at + 2] as u32) << 16) | ((b[at + 3] as u32)
        << 24)
}

/// One SPI access to a register or to message RAM.
#[derive(Debug, Clone, PartialEq, Eq)]
#[allow(inconsistent_fields)]
pub enum BusOp {
    /// The RESET instruction.
    Reset,
    /// Reads a 32-bit register.
    ReadSfr32 {
        /// Register address.
        addr: u16,
    },
    /// Reads two consecutive 32-bit registers (`addr` and `addr + 4`) in one
    /// transaction; the SFR address auto-increments after every byte.
    ReadSfr32Pair {
        /// Address of the first register.
        addr: u16,
    },
    /// Writes one byte of a register.
    WriteSfr8 {
        /// Byte address.
        addr: u16,
        /// The byte.
        value: u8,
    },
    /// Writes a 32-bit register.
    WriteSfr32 {
        /// Register address.
        addr: u16,
        /// The value.
        value: u32,
    },
    /// Reads `len` bytes of message RAM.
    ReadRam {
        /// RAM address (32-bit aligned).
        addr: u16,
        /// Byte count (a multiple of 4).
        len: usize,
    },
    /// Writes bytes to message RAM.
    WriteRam {
        /// RAM address (32-bit aligned).
        addr: u16,
        /// The bytes (a multiple of 4).
        data: Vec<u8>,
    },
}

/// What a [`BusOp`] does, with its bytes as a sequence.
pub enum BusOpView {
    /// The RESET instruction.
    Reset,
    /// Read of the register at the address.
    ReadSfr32(u16),
    /// Read of the registers at the address and the next one.
    ReadSfr32Pair(u16),
    /// Write of a byte at the address.
    WriteSfr8(u16, u8),
    /// Write of a register.
    WriteSfr32(u16, u32),
    /// Read of that many bytes of message RAM.
    ReadRam(u16, nat),
    /// Write of those bytes to message RAM.
    WriteRam(u16, Seq<u8>),
}

impl View for BusOp {
    type V = BusOpView;

    open spec fn view(&self) -> BusOpView {
        match self {
            BusOp::Reset => BusOpView::Reset,
            BusOp::ReadSfr32 { addr } => BusOpView::ReadSfr32(*addr),
            BusOp::ReadSfr32Pair { addr } => BusOpView::ReadSfr32Pair(*addr),
            BusOp::WriteSfr8 { addr, value } => BusOpView::WriteSfr8(*addr, *value),
            BusOp::WriteSfr32 { addr, value } => BusOpView::WriteSfr32(*addr, *value),
            BusOp::ReadRam { addr, len } => BusOpView::ReadRam(*addr, *len as nat),
            BusOp::WriteRam { addr, data } => BusOpView::WriteRam(*addr, data@),
        }
    }
}

/// The views of a list of operations.
pub open spec fn ops_view(ops: Seq<BusOp>) -> Seq<BusOpView> {
    ops.map_values(|o: BusOp| o@)
}

/// The bytes an operation reads back.
pub open spec fn reply_len(op: BusOpView) -> nat {
    match op {
        BusOpView::ReadSfr32(_) => 4,
        BusOpView::ReadSfr32Pair(_) => 8,
        BusOpView::ReadRam(_, n) => n,
        _ => 0,
    }
}

/// The shape of one SPI transaction: the command word, then either the
/// bytes to write or the number of bytes to read (both empty for RESET).
pub struct SpiTransfer {
    /// The 2-byte command word.
    pub command: [u8; 2],
    /// Data bytes written after the command.
    pub write: Vec<u8>,
    /// Number of bytes read after the command.
    pub read_len: usize,
}

impl BusOp {
    /// The SPI transaction that performs this operation.
    pub fn transfer(&self) -> (r: SpiTransfer)
        ensures
            match self@ {
                BusOpView::Reset => r.command@ == cmd_bytes(Opcode::Reset, 0) && r.write@.len()
                    == 0 && r.read_len == 0,
                BusOpView::ReadSfr32(a) => r.command@ == cmd_bytes(Opcode::Read, a)
                    && r.write@.len() == 0 && r.read_len == 4,
                BusOpView::ReadSfr32Pair(a) => r.command@ == cmd_bytes(Opcode::Read, a)
                    && r.write@.len() == 0 && r.read_len == 8,
                BusOpView::WriteSfr8(a, v) => r.command@ == cmd_bytes(Opcode::Write, a) && r.write@
                    == seq![v] && r.read_len == 0,
                BusOpView::WriteSfr32(a, v) => r.command@ == cmd_bytes(Opcode::Write, a)
                    && r.write@ == le32(v) && r.read_len == 0,
                BusOpView::ReadRam(a, n) => r.command@ == cmd_bytes(Opcode::Read, a)
                    && r.write@.len() == 0 && r.read_len == n,
                BusOpView::WriteRam(a, d) => r.command@ == cmd_bytes(Opcode::Write, a) && r.write@
                    == d && r.read_len == 0,
            },
    {
        match self {
            BusOp::Reset => SpiTransfer { command: cmd(Opcode::Reset, 0), write: Vec::new(), read_len: 0 },
            BusOp::ReadSfr32 { addr } => SpiTransfer {
                command: cmd(Opcode::Read, *addr),
                write: Vec::new(),
                read_len: 4,
            },
            BusOp::ReadSfr32Pair { addr } => SpiTransfer {
                command: cmd(Opcode::Read, *addr),
                write: Vec::new(),
                read_len: 8,
            },
            BusOp::WriteSfr8 { addr, value } => {
                let mut w: Vec<u8> = Vec::new();
                w.push(*value);
                assert(w@ =~= seq![*value]);
                SpiTransfer { command: cmd(Opcode::Write, *addr), write: w, read_len: 0 }
            },
            BusOp::WriteSfr32 { addr, value } => {
                let b = le_bytes(*value);
                let mut w: Vec<u8> = Vec::new();
                w.push(b[0]);
                w.push(b[1]);
                w.push(b[2]);
                w.push(b[3]);
                assert(w@ =~= le32(*value));
                SpiTransfer { command: cmd(Opcode::Write, *addr), write: w, read_len: 0 }
            },
            BusOp::ReadRam { addr, len } => SpiTransfer {
                command: cmd(Opcode::Read, *addr),
                write: Vec::new(),
                read_len: *len,
            },
            BusOp::WriteRam { addr, data } => SpiTransfer {
                command: cmd(Opcode::Write, *addr),
                write: data.clone(),
                read_len: 0,
            },
        }
    }
}

/// The two command bytes for an opcode and address.
pub open spec fn cmd_bytes(op: Opcode, addr: u16) -> Seq<u8> {
    seq![(command_word(op, addr) >> 8u16) as u8, (command_word(op, addr) & 0xFFu16) as u8]
}

} // verus!
