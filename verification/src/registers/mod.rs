//! Register-level definitions for the MCP251XFD family.
//!
//! Pure data: no I/O. Each register is a newtype over its raw 32-bit word,
//! and every accessor is specified through [`crate::bits::field`].

pub mod addr;
pub mod objects;
pub mod ram;

use crate::bits::{bit, field, with_field, get_bit, get_field_u8, lemma_and_mask, lemma_register_fields_fit, same_outside, set_bit, set_field};
use vstd::prelude::*;

verus! {

/// One of the 31 general-purpose message FIFOs (`1..=31`).
#[derive(Debug, Clone, Copy, PartialEq, Eq, Structural)]
pub struct Fifo(u8);

impl View for Fifo {
    type V = u8;

    /// The FIFO number.
    closed spec fn view(&self) -> u8 {
        self.0
    }
}

impl Fifo {
    #[verifier::type_invariant]
    spec fn fifo_number_in_range(self) -> bool {
        1 <= self.0 <= 31
    }

    /// Two FIFO handles with the same number are the same handle.
    pub proof fn lemma_view_injective(a: Fifo, b: Fifo)
        ensures
            a@ == b@ ==> a == b,
    {
    }

    /// Creates a FIFO handle. Returns `None` unless `1 <= n <= 31`.
    pub fn new(n: u8) -> (r: Option<Fifo>)
        ensures
            r is Some <==> 1 <= n <= 31,
            r matches Some(f) ==> f@ == n,
    {
        if 1 <= n && n <= 31 {
            Some(Fifo(n))
        } else {
            None
        }
    }

    /// The FIFO number (`1..=31`).
    pub fn index(self) -> (r: u8)
        ensures
            r == self@,
            1 <= r <= 31,
    {
        proof {
            use_type_invariant(&self);
        }
        self.0
    }

    /// FIFO number 1.
    pub fn F1() -> (r: Fifo)
        ensures
            r@ == 1,
    {
        Fifo(1)
    }

    /// FIFO number 2.
    pub fn F2() -> (r: Fifo)
        ensures
            r@ == 2,
    {
        Fifo(2)
    }

    /// FIFO number 3.
    pub fn F3() -> (r: Fifo)
        ensures
            r@ == 3,
    {
        Fifo(3)
    }

    /// FIFO number 4.
    pub fn F4() -> (r: Fifo)
        ensures
            r@ == 4,
    {
        Fifo(4)
    }

    /// FIFO number 5.
    pub fn F5() -> (r: Fifo)
        ensures
            r@ == 5,
    {
        Fifo(5)
    }

    /// FIFO number 6.
    pub fn F6() -> (r: Fifo)
        ensures
            r@ == 6,
    {
        Fifo(6)
    }

    /// FIFO number 7.
    pub fn F7() -> (r: Fifo)
        ensures
            r@ == 7,
    {
        Fifo(7)
    }

    /// FIFO number 8.
    pub fn F8() -> (r: Fifo)
        ensures
            r@ == 8,
    {
        Fifo(8)
    }

    /// FIFO number 9.
    pub fn F9() -> (r: Fifo)
        ensures
            r@ == 9,
    {
        Fifo(9)
    }

    /// FIFO number 10.
    pub fn F10() -> (r: Fifo)
        ensures
            r@ == 10,
    {
        Fifo(10)
    }

    /// FIFO number 11.
    pub fn F11() -> (r: Fifo)
        ensures
            r@ == 11,
    {
        Fifo(11)
    }

    /// FIFO number 12.
    pub fn F12() -> (r: Fifo)
        ensures
            r@ == 12,
    {
        Fifo(12)
    }

    /// FIFO number 13.
    pub fn F13() -> (r: Fifo)
        ensures
            r@ == 13,
    {
        Fifo(13)
    }

    /// FIFO number 14.
    pub fn F14() -> (r: Fifo)
        ensures
            r@ == 14,
    {
        Fifo(14)
    }

    /// FIFO number 15.
    pub fn F15() -> (r: Fifo)
        ensures
            r@ == 15,
    {
        Fifo(15)
    }

    /// FIFO number 16.
    pub fn F16() -> (r: Fifo)
        ensures
            r@ == 16,
    {
        Fifo(16)
    }

    /// FIFO number 17.
    pub fn F17() -> (r: Fifo)
        ensures
            r@ == 17,
    {
        Fifo(17)
    }

    /// FIFO number 18.
    pub fn F18() -> (r: Fifo)
        ensures
            r@ == 18,
    {
        Fifo(18)
    }

    /// FIFO number 19.
    pub fn F19() -> (r: Fifo)
        ensures
            r@ == 19,
    {
        Fifo(19)
    }

    /// FIFO number 20.
    pub fn F20() -> (r: Fifo)
        ensures
            r@ == 20,
    {
        Fifo(20)
    }

    /// FIFO number 21.
    pub fn F21() -> (r: Fifo)
        ensures
            r@ == 21,
    {
        Fifo(21)
    }

    /// FIFO number 22.
    pub fn F22() -> (r: Fifo)
        ensures
            r@ == 22,
    {
        Fifo(22)
    }

    /// FIFO number 23.
    pub fn F23() -> (r: Fifo)
        ensures
            r@ == 23,
    {
        Fifo(23)
    }

    /// FIFO number 24.
    pub fn F24() -> (r: Fifo)
        ensures
            r@ == 24,
    {
        Fifo(24)
    }

    /// FIFO number 25.
    pub fn F25() -> (r: Fifo)
        ensures
            r@ == 25,
    {
        Fifo(25)
    }

    /// FIFO number 26.
    pub fn F26() -> (r: Fifo)
        ensures
            r@ == 26,
    {
        Fifo(26)
    }

    /// FIFO number 27.
    pub fn F27() -> (r: Fifo)
        ensures
            r@ == 27,
    {
        Fifo(27)
    }

    /// FIFO number 28.
    pub fn F28() -> (r: Fifo)
        ensures
            r@ == 28,
    {
        Fifo(28)
    }

    /// FIFO number 29.
    pub fn F29() -> (r: Fifo)
        ensures
            r@ == 29,
    {
        Fifo(29)
    }

    /// FIFO number 30.
    pub fn F30() -> (r: Fifo)
        ensures
            r@ == 30,
    {
        Fifo(30)
    }

    /// FIFO number 31.
    pub fn F31() -> (r: Fifo)
        ensures
            r@ == 31,
    {
        Fifo(31)
    }
}

/// One of the 32 acceptance filters (`0..=31`).
#[derive(Debug, Clone, Copy, PartialEq, Eq, Structural)]
pub struct Filter(u8);

impl View for Filter {
    type V = u8;

    /// The filter number.
    closed spec fn view(&self) -> u8 {
        self.0
    }
}

impl Filter {
    #[verifier::type_invariant]
    spec fn filter_number_in_range(self) -> bool {
        self.0 <= 31
    }

    /// Two filter handles with the same number are the same handle.
    pub proof fn lemma_view_injective(a: Filter, b: Filter)
        ensures
            a@ == b@ ==> a == b,
    {
    }

    /// Creates a filter handle. Returns `None` unless `n <= 31`.
    pub fn new(n: u8) -> (r: Option<Filter>)
        ensures
            r is Some <==> n <= 31,
            r matches Some(f) ==> f@ == n,
    {
        if n <= 31 {
            Some(Filter(n))
        } else {
            None
        }
    }

    /// The filter number (`0..=31`).
    pub fn index(self) -> (r: u8)
        ensures
            r == self@,
            r <= 31,
    {
        proof {
            use_type_invariant(&self);
        }
        self.0
    }

    /// Filter number 0.
    pub fn F0() -> (r: Filter)
        ensures
            r@ == 0,
    {
        Filter(0)
    }

    /// Filter number 1.
    pub fn F1() -> (r: Filter)
        ensures
            r@ == 1,
    {
        Filter(1)
    }

    /// Filter number 2.
    pub fn F2() -> (r: Filter)
        ensures
            r@ == 2,
    {
        Filter(2)
    }

    /// Filter number 3.
    pub fn F3() -> (r: Filter)
        ensures
            r@ == 3,
    {
        Filter(3)
    }

    /// Filter number 4.
    pub fn F4() -> (r: Filter)
        ensures
            r@ == 4,
    {
        Filter(4)
    }

    /// Filter number 5.
    pub fn F5() -> (r: Filter)
        ensures
            r@ == 5,
    {
        Filter(5)
    }

    /// Filter number 6.
    pub fn F6() -> (r: Filter)
        ensures
            r@ == 6,
    {
        Filter(6)
    }

    /// Filter number 7.
    pub fn F7() -> (r: Filter)
        ensures
            r@ == 7,
    {
        Filter(7)
    }

    /// Filter number 8.
    pub fn F8() -> (r: Filter)
        ensures
            r@ == 8,
    {
        Filter(8)
    }

    /// Filter number 9.
    pub fn F9() -> (r: Filter)
        ensures
            r@ == 9,
    {
        Filter(9)
    }

    /// Filter number 10.
    pub fn F10() -> (r: Filter)
        ensures
            r@ == 10,
    {
        Filter(10)
    }

    /// Filter number 11.
    pub fn F11() -> (r: Filter)
        ensures
            r@ == 11,
    {
        Filter(11)
    }

    /// Filter number 12.
    pub fn F12() -> (r: Filter)
        ensures
            r@ == 12,
    {
        Filter(12)
    }

    /// Filter number 13.
    pub fn F13() -> (r: Filter)
        ensures
            r@ == 13,
    {
        Filter(13)
    }

    /// Filter number 14.
    pub fn F14() -> (r: Filter)
        ensures
            r@ == 14,
    {
        Filter(14)
    }

    /// Filter number 15.
    pub fn F15() -> (r: Filter)
        ensures
            r@ == 15,
    {
        Filter(15)
    }

    /// Filter number 16.
    pub fn F16() -> (r: Filter)
        ensures
            r@ == 16,
    {
        Filter(16)
    }

    /// Filter number 17.
    pub fn F17() -> (r: Filter)
        ensures
            r@ == 17,
    {
        Filter(17)
    }

    /// Filter number 18.
    pub fn F18() -> (r: Filter)
        ensures
            r@ == 18,
    {
        Filter(18)
    }

    /// Filter number 19.
    pub fn F19() -> (r: Filter)
        ensures
            r@ == 19,
    {
        Filter(19)
    }

    /// Filter number 20.
    pub fn F20() -> (r: Filter)
        ensures
            r@ == 20,
    {
        Filter(20)
    }

    /// Filter number 21.
    pub fn F21() -> (r: Filter)
        ensures
            r@ == 21,
    {
        Filter(21)
    }

    /// Filter number 22.
    pub fn F22() -> (r: Filter)
        ensures
            r@ == 22,
    {
        Filter(22)
    }

    /// Filter number 23.
    pub fn F23() -> (r: Filter)
        ensures
            r@ == 23,
    {
        Filter(23)
    }

    /// Filter number 24.
    pub fn F24() -> (r: Filter)
        ensures
            r@ == 24,
    {
        Filter(24)
    }

    /// Filter number 25.
    pub fn F25() -> (r: Filter)
        ensures
            r@ == 25,
    {
        Filter(25)
    }

    /// Filter number 26.
    pub fn F26() -> (r: Filter)
        ensures
            r@ == 26,
    {
        Filter(26)
    }

    /// Filter number 27.
    pub fn F27() -> (r: Filter)
        ensures
            r@ == 27,
    {
        Filter(27)
    }

    /// Filter number 28.
    pub fn F28() -> (r: Filter)
        ensures
            r@ == 28,
    {
        Filter(28)
    }

    /// Filter number 29.
    pub fn F29() -> (r: Filter)
        ensures
            r@ == 29,
    {
        Filter(29)
    }

    /// Filter number 30.
    pub fn F30() -> (r: Filter)
        ensures
            r@ == 30,
    {
        Filter(30)
    }

    /// Filter number 31.
    pub fn F31() -> (r: Filter)
        ensures
            r@ == 31,
    {
        Filter(31)
    }
}

/// Payload size of a FIFO element (CAN FD DLC steps).
#[derive(Debug, Clone, Copy, PartialEq, Eq, Structural)]
pub enum PayloadSize {
    /// 8 bytes.
    B8,
    /// 12 bytes.
    B12,
    /// 16 bytes.
    B16,
    /// 20 bytes.
    B20,
    /// 24 bytes.
    B24,
    /// 32 bytes.
    B32,
    /// 48 bytes.
    B48,
    /// 64 bytes.
    B64,
}

/// Payload size in bytes.
pub open spec fn payload_bytes(p: PayloadSize) -> nat {
    match p {
        PayloadSize::B8 => 8,
        PayloadSize::B12 => 12,
        PayloadSize::B16 => 16,
        PayloadSize::B20 => 20,
        PayloadSize::B24 => 24,
        PayloadSize::B32 => 32,
        PayloadSize::B48 => 48,
        PayloadSize::B64 => 64,
    }
}

/// The 3-bit `PLSIZE` code of a payload size.
pub open spec fn plsize(p: PayloadSize) -> u32 {
    match p {
        PayloadSize::B8 => 0,
        PayloadSize::B12 => 1,
        PayloadSize::B16 => 2,
        PayloadSize::B20 => 3,
        PayloadSize::B24 => 4,
        PayloadSize::B32 => 5,
        PayloadSize::B48 => 6,
        PayloadSize::B64 => 7,
    }
}

/// The element payload in bytes that the chip allocates for a `PLSIZE`
/// code (register `CiFIFOCONm` bits 31:29): 8, 12, 16, 20, 24, 32, 48 or
/// 64 bytes for codes 0 to 7.
pub open spec fn plsize_payload_bytes(code: u32) -> nat {
    if code == 0 {
        8
    } else if code == 1 {
        12
    } else if code == 2 {
        16
    } else if code == 3 {
        20
    } else if code == 4 {
        24
    } else if code == 5 {
        32
    } else if code == 6 {
        48
    } else {
        64
    }
}

/// The `PLSIZE` code of a payload size makes the chip allocate exactly that
/// many payload bytes per element.
pub proof fn lemma_plsize_payload_bytes(p: PayloadSize)
    ensures
        plsize_payload_bytes(plsize(p)) == payload_bytes(p),
{
}

/// Distinct payload sizes have distinct `PLSIZE` codes, so
/// [`PayloadSize::from_code`] undoes [`PayloadSize::plsize_code`].
pub proof fn lemma_plsize_injective(p: PayloadSize, q: PayloadSize)
    ensures
        plsize(p) == plsize(q) ==> p == q,
        plsize(p) <= 7,
{
}

impl PayloadSize {
    /// Payload size in bytes.
    pub fn bytes(self) -> (r: usize)
        ensures
            r == payload_bytes(self),
    {
        match self {
            PayloadSize::B8 => 8,
            PayloadSize::B12 => 12,
            PayloadSize::B16 => 16,
            PayloadSize::B20 => 20,
            PayloadSize::B24 => 24,
            PayloadSize::B32 => 32,
            PayloadSize::B48 => 48,
            PayloadSize::B64 => 64,
        }
    }

    /// The 3-bit `PLSIZE` register encoding (`0..=7`).
    pub fn plsize_code(self) -> (r: u32)
        ensures
            r == plsize(self),
            r <= 7,
    {
        match self {
            PayloadSize::B8 => 0,
            PayloadSize::B12 => 1,
            PayloadSize::B16 => 2,
            PayloadSize::B20 => 3,
            PayloadSize::B24 => 4,
            PayloadSize::B32 => 5,
            PayloadSize::B48 => 6,
            PayloadSize::B64 => 7,
        }
    }

    /// Inverse of [`Self::plsize_code`]. Codes above 7 saturate to `B64`.
    pub fn from_code(code: u32) -> (r: PayloadSize)
        ensures
            plsize(r) == (if code <= 7 { code } else { 7 }),
    {
        match code {
            0 => PayloadSize::B8,
            1 => PayloadSize::B12,
            2 => PayloadSize::B16,
            3 => PayloadSize::B20,
            4 => PayloadSize::B24,
            5 => PayloadSize::B32,
            6 => PayloadSize::B48,
            _ => PayloadSize::B64,
        }
    }
}

/// CAN controller operation modes (`CiCON.OPMOD` / `REQOP`, 3 bits).
#[derive(Debug, Clone, Copy, PartialEq, Eq, Structural)]
pub enum OperationMode {
    /// Mixed CAN FD / classic frames (mode 0).
    NormalFd,
    /// Sleep (mode 1).
    Sleep,
    /// Internal loopback: TX internally routed to RX, nothing on the bus
    /// (mode 2).
    InternalLoopback,
    /// Listen-only (mode 3).
    ListenOnly,
    /// Configuration mode, required for layout/timing changes (mode 4).
    Configuration,
    /// External loopback (mode 5).
    ExternalLoopback,
    /// Classic CAN 2.0 only; FD frames cause errors (mode 6).
    Normal20,
    /// Restricted operation (mode 7).
    RestrictedOperation,
}

/// The 3-bit register encoding of an operation mode.
pub open spec fn mode_bits(m: OperationMode) -> u8 {
    match m {
        OperationMode::NormalFd => 0,
        OperationMode::Sleep => 1,
        OperationMode::InternalLoopback => 2,
        OperationMode::ListenOnly => 3,
        OperationMode::Configuration => 4,
        OperationMode::ExternalLoopback => 5,
        OperationMode::Normal20 => 6,
        OperationMode::RestrictedOperation => 7,
    }
}

/// Distinct modes have distinct encodings, so
/// [`OperationMode::from_bits`] undoes [`OperationMode::bits`].
pub proof fn lemma_mode_bits_injective(m: OperationMode, n: OperationMode)
    ensures
        mode_bits(m) == mode_bits(n) ==> m == n,
        mode_bits(m) <= 7,
{
}

impl OperationMode {
    /// The 3-bit register encoding.
    pub fn bits(self) -> (r: u8)
        ensures
            r == mode_bits(self),
            r <= 7,
    {
        match self {
            OperationMode::NormalFd => 0,
            OperationMode::Sleep => 1,
            OperationMode::InternalLoopback => 2,
            OperationMode::ListenOnly => 3,
            OperationMode::Configuration => 4,
            OperationMode::ExternalLoopback => 5,
            OperationMode::Normal20 => 6,
            OperationMode::RestrictedOperation => 7,
        }
    }

    /// Decodes the 3-bit register encoding (only the low 3 bits are used).
    pub fn from_bits(bits: u8) -> (r: OperationMode)
        ensures
            mode_bits(r) == bits % 8,
    {
        let low: u8 = bits % 8;
        match low {
            0 => OperationMode::NormalFd,
            1 => OperationMode::Sleep,
            2 => OperationMode::InternalLoopback,
            3 => OperationMode::ListenOnly,
            4 => OperationMode::Configuration,
            5 => OperationMode::ExternalLoopback,
            6 => OperationMode::Normal20,
            _ => OperationMode::RestrictedOperation,
        }
    }
}

/// Detected chip variant (detection via `OSC.LPMEN`).
#[derive(Debug, Clone, Copy, PartialEq, Eq, Structural)]
pub enum Variant {
    /// MCP2517FD: 7-bit TX sequence numbers, Sleep mode only.
    Mcp2517Fd,
    /// MCP2518FD or MCP251863 (same die): 23-bit sequence numbers, LPM.
    Mcp2518Fd,
}

/// Mask applied to TX sequence numbers for a variant.
pub open spec fn variant_seq_mask(v: Variant) -> u32 {
    match v {
        Variant::Mcp2517Fd => 0x7F,
        Variant::Mcp2518Fd => 0x7F_FFFF,
    }
}

impl Variant {
    /// Mask applied to TX sequence numbers for this variant.
    pub fn seq_mask(self) -> (r: u32)
        ensures
            r == variant_seq_mask(self),
    {
        match self {
            Variant::Mcp2517Fd => 0x7F,
            Variant::Mcp2518Fd => 0x7F_FFFF,
        }
    }
}

/// `OSC`: oscillator control register (0xE00).
#[derive(Debug, Clone, Copy, PartialEq, Eq, Structural)]
pub struct Osc(
    /// Raw 32-bit register value.
    pub u32,
);

impl Osc {
    /// Reads `PLLEN` (10x PLL from 4 MHz-class input) (bit 0).
    pub fn pll_enabled(self) -> (r: bool)
        ensures
            r == bit(self.0, 0),
    {
        get_bit(self.0, 0)
    }

    /// Sets `PLLEN` (10x PLL from 4 MHz-class input) (bit 0), leaving the other bits as they are.
    pub fn with_pll_enabled(self, v: bool) -> (r: Self)
        ensures
            r.0 == with_field(self.0, 0, 1, if v {
                1
            } else {
                0
            }),
            bit(r.0, 0) == v,
            same_outside(r.0, self.0, 0, 1),
    {
        Self(set_bit(self.0, 0, v))
    }

    /// Reads `OSCDIS` (clock off, sleep) (bit 2).
    pub fn osc_disabled(self) -> (r: bool)
        ensures
            r == bit(self.0, 2),
    {
        get_bit(self.0, 2)
    }

    /// Sets `OSCDIS` (clock off, sleep) (bit 2), leaving the other bits as they are.
    pub fn with_osc_disabled(self, v: bool) -> (r: Self)
        ensures
            r.0 == with_field(self.0, 2, 1, if v {
                1
            } else {
                0
            }),
            bit(r.0, 2) == v,
            same_outside(r.0, self.0, 2, 1),
    {
        Self(set_bit(self.0, 2, v))
    }

    /// Reads `LPMEN` (Low-Power Mode; writable on MCP2518FD only) (bit 3).
    pub fn lpmen(self) -> (r: bool)
        ensures
            r == bit(self.0, 3),
    {
        get_bit(self.0, 3)
    }

    /// Sets `LPMEN` (Low-Power Mode; writable on MCP2518FD only) (bit 3), leaving the other bits as they are.
    pub fn with_lpmen(self, v: bool) -> (r: Self)
        ensures
            r.0 == with_field(self.0, 3, 1, if v {
                1
            } else {
                0
            }),
            bit(r.0, 3) == v,
            same_outside(r.0, self.0, 3, 1),
    {
        Self(set_bit(self.0, 3, v))
    }

    /// Reads `SCLKDIV` (divide SYSCLK by 2) (bit 4).
    pub fn sclk_div2(self) -> (r: bool)
        ensures
            r == bit(self.0, 4),
    {
        get_bit(self.0, 4)
    }

    /// Sets `SCLKDIV` (divide SYSCLK by 2) (bit 4), leaving the other bits as they are.
    pub fn with_sclk_div2(self, v: bool) -> (r: Self)
        ensures
            r.0 == with_field(self.0, 4, 1, if v {
                1
            } else {
                0
            }),
            bit(r.0, 4) == v,
            same_outside(r.0, self.0, 4, 1),
    {
        Self(set_bit(self.0, 4, v))
    }

    /// Reads `PLLRDY` (read-only status) (bit 8).
    pub fn pll_ready(self) -> (r: bool)
        ensures
            r == bit(self.0, 8),
    {
        get_bit(self.0, 8)
    }

    /// Sets `PLLRDY` (read-only status) (bit 8), leaving the other bits as they are.
    pub fn with_pll_ready(self, v: bool) -> (r: Self)
        ensures
            r.0 == with_field(self.0, 8, 1, if v {
                1
            } else {
                0
            }),
            bit(r.0, 8) == v,
            same_outside(r.0, self.0, 8, 1),
    {
        Self(set_bit(self.0, 8, v))
    }

    /// Reads `OSCRDY` (read-only status) (bit 10).
    pub fn osc_ready(self) -> (r: bool)
        ensures
            r == bit(self.0, 10),
    {
        get_bit(self.0, 10)
    }

    /// Sets `OSCRDY` (read-only status) (bit 10), leaving the other bits as they are.
    pub fn with_osc_ready(self, v: bool) -> (r: Self)
        ensures
            r.0 == with_field(self.0, 10, 1, if v {
                1
            } else {
                0
            }),
            bit(r.0, 10) == v,
            same_outside(r.0, self.0, 10, 1),
    {
        Self(set_bit(self.0, 10, v))
    }

    /// Reads `SCLKRDY` (read-only status) (bit 12).
    pub fn sclk_ready(self) -> (r: bool)
        ensures
            r == bit(self.0, 12),
    {
        get_bit(self.0, 12)
    }

    /// Sets `SCLKRDY` (read-only status) (bit 12), leaving the other bits as they are.
    pub fn with_sclk_ready(self, v: bool) -> (r: Self)
        ensures
            r.0 == with_field(self.0, 12, 1, if v {
                1
            } else {
                0
            }),
            bit(r.0, 12) == v,
            same_outside(r.0, self.0, 12, 1),
    {
        Self(set_bit(self.0, 12, v))
    }

    /// Sets `CLKODIV` (bits 6:5): CLKO pin divider code (0=/1, 1=/2, 2=/4,
    /// 3=/10, the power-on default).
    pub fn with_clko_div(self, code: u32) -> (r: Self)
        ensures
            r.0 == with_field(self.0, 5, 3, code),
            field(r.0, 5, 3) == code & 3,
            same_outside(r.0, self.0, 5, 3),
    {
        proof {
            lemma_register_fields_fit();
        }
        Self(set_field(self.0, 5, 3, code))
    }
}

/// `CiCON`: CAN control register (0x000).
#[derive(Debug, Clone, Copy, PartialEq, Eq, Structural)]
pub struct CiCon(
    /// Raw 32-bit register value.
    pub u32,
);

impl CiCon {
    /// Reads `ISOCRCEN` (ISO 11898-1:2015 CRC) (bit 5).
    pub fn iso_crc_enabled(self) -> (r: bool)
        ensures
            r == bit(self.0, 5),
    {
        get_bit(self.0, 5)
    }

    /// Sets `ISOCRCEN` (ISO 11898-1:2015 CRC) (bit 5), leaving the other bits as they are.
    pub fn with_iso_crc_enabled(self, v: bool) -> (r: Self)
        ensures
            r.0 == with_field(self.0, 5, 1, if v {
                1
            } else {
                0
            }),
            bit(r.0, 5) == v,
            same_outside(r.0, self.0, 5, 1),
    {
        Self(set_bit(self.0, 5, v))
    }

    /// Reads `PXEDIS` (bit 6).
    pub fn protocol_exception_disabled(self) -> (r: bool)
        ensures
            r == bit(self.0, 6),
    {
        get_bit(self.0, 6)
    }

    /// Sets `PXEDIS` (bit 6), leaving the other bits as they are.
    pub fn with_protocol_exception_disabled(self, v: bool) -> (r: Self)
        ensures
            r.0 == with_field(self.0, 6, 1, if v {
                1
            } else {
                0
            }),
            bit(r.0, 6) == v,
            same_outside(r.0, self.0, 6, 1),
    {
        Self(set_bit(self.0, 6, v))
    }

    /// Reads `BRSDIS` (ignore BRS on TX) (bit 12).
    pub fn brs_disabled(self) -> (r: bool)
        ensures
            r == bit(self.0, 12),
    {
        get_bit(self.0, 12)
    }

    /// Sets `BRSDIS` (ignore BRS on TX) (bit 12), leaving the other bits as they are.
    pub fn with_brs_disabled(self, v: bool) -> (r: Self)
        ensures
            r.0 == with_field(self.0, 12, 1, if v {
                1
            } else {
                0
            }),
            bit(r.0, 12) == v,
            same_outside(r.0, self.0, 12, 1),
    {
        Self(set_bit(self.0, 12, v))
    }

    /// Reads `RTXAT` (honor per-FIFO retransmission attempts) (bit 16).
    pub fn restrict_retx(self) -> (r: bool)
        ensures
            r == bit(self.0, 16),
    {
        get_bit(self.0, 16)
    }

    /// Sets `RTXAT` (honor per-FIFO retransmission attempts) (bit 16), leaving the other bits as they are.
    pub fn with_restrict_retx(self, v: bool) -> (r: Self)
        ensures
            r.0 == with_field(self.0, 16, 1, if v {
                1
            } else {
                0
            }),
            bit(r.0, 16) == v,
            same_outside(r.0, self.0, 16, 1),
    {
        Self(set_bit(self.0, 16, v))
    }

    /// Reads `STEF` (transmit event FIFO enable) (bit 19).
    pub fn store_tef(self) -> (r: bool)
        ensures
            r == bit(self.0, 19),
    {
        get_bit(self.0, 19)
    }

    /// Sets `STEF` (transmit event FIFO enable) (bit 19), leaving the other bits as they are.
    pub fn with_store_tef(self, v: bool) -> (r: Self)
        ensures
            r.0 == with_field(self.0, 19, 1, if v {
                1
            } else {
                0
            }),
            bit(r.0, 19) == v,
            same_outside(r.0, self.0, 19, 1),
    {
        Self(set_bit(self.0, 19, v))
    }

    /// Reads `TXQEN` (bit 20).
    pub fn txq_enabled(self) -> (r: bool)
        ensures
            r == bit(self.0, 20),
    {
        get_bit(self.0, 20)
    }

    /// Sets `TXQEN` (bit 20), leaving the other bits as they are.
    pub fn with_txq_enabled(self, v: bool) -> (r: Self)
        ensures
            r.0 == with_field(self.0, 20, 1, if v {
                1
            } else {
                0
            }),
            bit(r.0, 20) == v,
            same_outside(r.0, self.0, 20, 1),
    {
        Self(set_bit(self.0, 20, v))
    }

    /// Reads `ABAT` (request abort of all pending TX) (bit 27).
    pub fn abort_all(self) -> (r: bool)
        ensures
            r == bit(self.0, 27),
    {
        get_bit(self.0, 27)
    }

    /// Sets `ABAT` (request abort of all pending TX) (bit 27), leaving the other bits as they are.
    pub fn with_abort_all(self, v: bool) -> (r: Self)
        ensures
            r.0 == with_field(self.0, 27, 1, if v {
                1
            } else {
                0
            }),
            bit(r.0, 27) == v,
            same_outside(r.0, self.0, 27, 1),
    {
        Self(set_bit(self.0, 27, v))
    }

    /// Current operation mode, `OPMOD` (read-only, bits 23:21).
    pub fn op_mode(self) -> (r: OperationMode)
        ensures
            mode_bits(r) == field(self.0, 21, 7),
    {
        let b = get_field_u8(self.0, 21, 7);
        proof {
            lemma_and_mask(self.0 >> 21, 7);
        }
        OperationMode::from_bits(b)
    }

    /// Sets the requested operation mode, `REQOP` (bits 26:24).
    pub fn with_req_op_mode(self, mode: OperationMode) -> (r: Self)
        ensures
            r.0 == with_field(self.0, 24, 7, mode_bits(mode) as u32),
            field(r.0, 24, 7) == mode_bits(mode),
            same_outside(r.0, self.0, 24, 7),
    {
        let code = mode.bits() as u32;
        proof {
            lemma_and_mask(code, 7);
        }
        proof {
            lemma_register_fields_fit();
        }
        Self(set_field(self.0, 24, 7, code))
    }
}

/// `CiINT`: interrupt flags (bits 15:0) and enables (bits 31:16) (0x01C).
#[derive(Debug, Clone, Copy, PartialEq, Eq, Structural)]
pub struct CiInt(
    /// Raw 32-bit register value.
    pub u32,
);

impl CiInt {
    /// Reads `TXIF` (any TX FIFO interrupt pending) (bit 0).
    pub fn txif(self) -> (r: bool)
        ensures
            r == bit(self.0, 0),
    {
        get_bit(self.0, 0)
    }

    /// Sets `TXIF` (any TX FIFO interrupt pending) (bit 0), leaving the other bits as they are.
    pub fn with_txif(self, v: bool) -> (r: Self)
        ensures
            r.0 == with_field(self.0, 0, 1, if v {
                1
            } else {
                0
            }),
            bit(r.0, 0) == v,
            same_outside(r.0, self.0, 0, 1),
    {
        Self(set_bit(self.0, 0, v))
    }

    /// Reads `RXIF` (any RX FIFO interrupt pending) (bit 1).
    pub fn rxif(self) -> (r: bool)
        ensures
            r == bit(self.0, 1),
    {
        get_bit(self.0, 1)
    }

    /// Sets `RXIF` (any RX FIFO interrupt pending) (bit 1), leaving the other bits as they are.
    pub fn with_rxif(self, v: bool) -> (r: Self)
        ensures
            r.0 == with_field(self.0, 1, 1, if v {
                1
            } else {
                0
            }),
            bit(r.0, 1) == v,
            same_outside(r.0, self.0, 1, 1),
    {
        Self(set_bit(self.0, 1, v))
    }

    /// Reads `MODIF` (operation mode changed) (bit 3).
    pub fn modif(self) -> (r: bool)
        ensures
            r == bit(self.0, 3),
    {
        get_bit(self.0, 3)
    }

    /// Sets `MODIF` (operation mode changed) (bit 3), leaving the other bits as they are.
    pub fn with_modif(self, v: bool) -> (r: Self)
        ensures
            r.0 == with_field(self.0, 3, 1, if v {
                1
            } else {
                0
            }),
            bit(r.0, 3) == v,
            same_outside(r.0, self.0, 3, 1),
    {
        Self(set_bit(self.0, 3, v))
    }

    /// Reads `TEFIF` (bit 4).
    pub fn tefif(self) -> (r: bool)
        ensures
            r == bit(self.0, 4),
    {
        get_bit(self.0, 4)
    }

    /// Sets `TEFIF` (bit 4), leaving the other bits as they are.
    pub fn with_tefif(self, v: bool) -> (r: Self)
        ensures
            r.0 == with_field(self.0, 4, 1, if v {
                1
            } else {
                0
            }),
            bit(r.0, 4) == v,
            same_outside(r.0, self.0, 4, 1),
    {
        Self(set_bit(self.0, 4, v))
    }

    /// Reads `ECCIF` (bit 8).
    pub fn eccif(self) -> (r: bool)
        ensures
            r == bit(self.0, 8),
    {
        get_bit(self.0, 8)
    }

    /// Sets `ECCIF` (bit 8), leaving the other bits as they are.
    pub fn with_eccif(self, v: bool) -> (r: Self)
        ensures
            r.0 == with_field(self.0, 8, 1, if v {
                1
            } else {
                0
            }),
            bit(r.0, 8) == v,
            same_outside(r.0, self.0, 8, 1),
    {
        Self(set_bit(self.0, 8, v))
    }

    /// Reads `SPICRCIF` (bit 9).
    pub fn spicrcif(self) -> (r: bool)
        ensures
            r == bit(self.0, 9),
    {
        get_bit(self.0, 9)
    }

    /// Sets `SPICRCIF` (bit 9), leaving the other bits as they are.
    pub fn with_spicrcif(self, v: bool) -> (r: Self)
        ensures
            r.0 == with_field(self.0, 9, 1, if v {
                1
            } else {
                0
            }),
            bit(r.0, 9) == v,
            same_outside(r.0, self.0, 9, 1),
    {
        Self(set_bit(self.0, 9, v))
    }

    /// Reads `TXATIF` (TX attempts exhausted) (bit 10).
    pub fn txatif(self) -> (r: bool)
        ensures
            r == bit(self.0, 10),
    {
        get_bit(self.0, 10)
    }

    /// Sets `TXATIF` (TX attempts exhausted) (bit 10), leaving the other bits as they are.
    pub fn with_txatif(self, v: bool) -> (r: Self)
        ensures
            r.0 == with_field(self.0, 10, 1, if v {
                1
            } else {
                0
            }),
            bit(r.0, 10) == v,
            same_outside(r.0, self.0, 10, 1),
    {
        Self(set_bit(self.0, 10, v))
    }

    /// Reads `RXOVIF` (RX FIFO overflow) (bit 11).
    pub fn rxovif(self) -> (r: bool)
        ensures
            r == bit(self.0, 11),
    {
        get_bit(self.0, 11)
    }

    /// Sets `RXOVIF` (RX FIFO overflow) (bit 11), leaving the other bits as they are.
    pub fn with_rxovif(self, v: bool) -> (r: Self)
        ensures
            r.0 == with_field(self.0, 11, 1, if v {
                1
            } else {
                0
            }),
            bit(r.0, 11) == v,
            same_outside(r.0, self.0, 11, 1),
    {
        Self(set_bit(self.0, 11, v))
    }

    /// Reads `SERRIF` (system error) (bit 12).
    pub fn serrif(self) -> (r: bool)
        ensures
            r == bit(self.0, 12),
    {
        get_bit(self.0, 12)
    }

    /// Sets `SERRIF` (system error) (bit 12), leaving the other bits as they are.
    pub fn with_serrif(self, v: bool) -> (r: Self)
        ensures
            r.0 == with_field(self.0, 12, 1, if v {
                1
            } else {
                0
            }),
            bit(r.0, 12) == v,
            same_outside(r.0, self.0, 12, 1),
    {
        Self(set_bit(self.0, 12, v))
    }

    /// Reads `CERRIF` (CAN bus error) (bit 13).
    pub fn cerrif(self) -> (r: bool)
        ensures
            r == bit(self.0, 13),
    {
        get_bit(self.0, 13)
    }

    /// Sets `CERRIF` (CAN bus error) (bit 13), leaving the other bits as they are.
    pub fn with_cerrif(self, v: bool) -> (r: Self)
        ensures
            r.0 == with_field(self.0, 13, 1, if v {
                1
            } else {
                0
            }),
            bit(r.0, 13) == v,
            same_outside(r.0, self.0, 13, 1),
    {
        Self(set_bit(self.0, 13, v))
    }

    /// Reads `IVMIF` (invalid message) (bit 15).
    pub fn ivmif(self) -> (r: bool)
        ensures
            r == bit(self.0, 15),
    {
        get_bit(self.0, 15)
    }

    /// Sets `IVMIF` (invalid message) (bit 15), leaving the other bits as they are.
    pub fn with_ivmif(self, v: bool) -> (r: Self)
        ensures
            r.0 == with_field(self.0, 15, 1, if v {
                1
            } else {
                0
            }),
            bit(r.0, 15) == v,
            same_outside(r.0, self.0, 15, 1),
    {
        Self(set_bit(self.0, 15, v))
    }

    /// Reads `TXIE` enable (bit 16).
    pub fn txie(self) -> (r: bool)
        ensures
            r == bit(self.0, 16),
    {
        get_bit(self.0, 16)
    }

    /// Sets `TXIE` enable (bit 16), leaving the other bits as they are.
    pub fn with_txie(self, v: bool) -> (r: Self)
        ensures
            r.0 == with_field(self.0, 16, 1, if v {
                1
            } else {
                0
            }),
            bit(r.0, 16) == v,
            same_outside(r.0, self.0, 16, 1),
    {
        Self(set_bit(self.0, 16, v))
    }

    /// Reads `RXIE` enable (bit 17).
    pub fn rxie(self) -> (r: bool)
        ensures
            r == bit(self.0, 17),
    {
        get_bit(self.0, 17)
    }

    /// Sets `RXIE` enable (bit 17), leaving the other bits as they are.
    pub fn with_rxie(self, v: bool) -> (r: Self)
        ensures
            r.0 == with_field(self.0, 17, 1, if v {
                1
            } else {
                0
            }),
            bit(r.0, 17) == v,
            same_outside(r.0, self.0, 17, 1),
    {
        Self(set_bit(self.0, 17, v))
    }

    /// Reads `MODIE` enable (bit 19).
    pub fn modie(self) -> (r: bool)
        ensures
            r == bit(self.0, 19),
    {
        get_bit(self.0, 19)
    }

    /// Sets `MODIE` enable (bit 19), leaving the other bits as they are.
    pub fn with_modie(self, v: bool) -> (r: Self)
        ensures
            r.0 == with_field(self.0, 19, 1, if v {
                1
            } else {
                0
            }),
            bit(r.0, 19) == v,
            same_outside(r.0, self.0, 19, 1),
    {
        Self(set_bit(self.0, 19, v))
    }

    /// Reads `TXATIE` enable (bit 26).
    pub fn txatie(self) -> (r: bool)
        ensures
            r == bit(self.0, 26),
    {
        get_bit(self.0, 26)
    }

    /// Sets `TXATIE` enable (bit 26), leaving the other bits as they are.
    pub fn with_txatie(self, v: bool) -> (r: Self)
        ensures
            r.0 == with_field(self.0, 26, 1, if v {
                1
            } else {
                0
            }),
            bit(r.0, 26) == v,
            same_outside(r.0, self.0, 26, 1),
    {
        Self(set_bit(self.0, 26, v))
    }

    /// Reads `RXOVIE` enable (bit 27).
    pub fn rxovie(self) -> (r: bool)
        ensures
            r == bit(self.0, 27),
    {
        get_bit(self.0, 27)
    }

    /// Sets `RXOVIE` enable (bit 27), leaving the other bits as they are.
    pub fn with_rxovie(self, v: bool) -> (r: Self)
        ensures
            r.0 == with_field(self.0, 27, 1, if v {
                1
            } else {
                0
            }),
            bit(r.0, 27) == v,
            same_outside(r.0, self.0, 27, 1),
    {
        Self(set_bit(self.0, 27, v))
    }

    /// Reads `SERRIE` enable (bit 28).
    pub fn serrie(self) -> (r: bool)
        ensures
            r == bit(self.0, 28),
    {
        get_bit(self.0, 28)
    }

    /// Sets `SERRIE` enable (bit 28), leaving the other bits as they are.
    pub fn with_serrie(self, v: bool) -> (r: Self)
        ensures
            r.0 == with_field(self.0, 28, 1, if v {
                1
            } else {
                0
            }),
            bit(r.0, 28) == v,
            same_outside(r.0, self.0, 28, 1),
    {
        Self(set_bit(self.0, 28, v))
    }

    /// Reads `CERRIE` enable (bit 29).
    pub fn cerrie(self) -> (r: bool)
        ensures
            r == bit(self.0, 29),
    {
        get_bit(self.0, 29)
    }

    /// Sets `CERRIE` enable (bit 29), leaving the other bits as they are.
    pub fn with_cerrie(self, v: bool) -> (r: Self)
        ensures
            r.0 == with_field(self.0, 29, 1, if v {
                1
            } else {
                0
            }),
            bit(r.0, 29) == v,
            same_outside(r.0, self.0, 29, 1),
    {
        Self(set_bit(self.0, 29, v))
    }

    /// Reads `IVMIE` enable (bit 31).
    pub fn ivmie(self) -> (r: bool)
        ensures
            r == bit(self.0, 31),
    {
        get_bit(self.0, 31)
    }

    /// Sets `IVMIE` enable (bit 31), leaving the other bits as they are.
    pub fn with_ivmie(self, v: bool) -> (r: Self)
        ensures
            r.0 == with_field(self.0, 31, 1, if v {
                1
            } else {
                0
            }),
            bit(r.0, 31) == v,
            same_outside(r.0, self.0, 31, 1),
    {
        Self(set_bit(self.0, 31, v))
    }
}

/// `CiVEC`: interrupt vector codes (0x018).
#[derive(Debug, Clone, Copy, PartialEq, Eq, Structural)]
pub struct CiVec(
    /// Raw 32-bit register value.
    pub u32,
);

impl CiVec {
    /// `ICODE` (bits 6:0): highest-priority pending interrupt code.
    pub fn icode(self) -> (r: u8)
        ensures
            r == field(self.0, 0, 0x7F),
    {
        get_field_u8(self.0, 0, 0x7F)
    }

    /// `RXCODE` (bits 30:24): highest-priority pending RX FIFO code.
    pub fn rxcode(self) -> (r: u8)
        ensures
            r == field(self.0, 24, 0x7F),
    {
        get_field_u8(self.0, 24, 0x7F)
    }

    /// `TXCODE` (bits 22:16): highest-priority pending TX FIFO code.
    pub fn txcode(self) -> (r: u8)
        ensures
            r == field(self.0, 16, 0x7F),
    {
        get_field_u8(self.0, 16, 0x7F)
    }
}

/// `CiTREC`: error counters and bus state (0x034).
#[derive(Debug, Clone, Copy, PartialEq, Eq, Structural)]
pub struct CiTrec(
    /// Raw 32-bit register value.
    pub u32,
);

impl CiTrec {
    /// Receive error counter (bits 7:0).
    pub fn rec(self) -> (r: u8)
        ensures
            r == field(self.0, 0, 0xFF),
    {
        get_field_u8(self.0, 0, 0xFF)
    }

    /// Transmit error counter (bits 15:8).
    pub fn tec(self) -> (r: u8)
        ensures
            r == field(self.0, 8, 0xFF),
    {
        get_field_u8(self.0, 8, 0xFF)
    }

    /// Reads `EWARN` (bit 16).
    pub fn error_warning(self) -> (r: bool)
        ensures
            r == bit(self.0, 16),
    {
        get_bit(self.0, 16)
    }

    /// Sets `EWARN` (bit 16), leaving the other bits as they are.
    pub fn with_error_warning(self, v: bool) -> (r: Self)
        ensures
            r.0 == with_field(self.0, 16, 1, if v {
                1
            } else {
                0
            }),
            bit(r.0, 16) == v,
            same_outside(r.0, self.0, 16, 1),
    {
        Self(set_bit(self.0, 16, v))
    }

    /// Reads `RXWARN` (bit 17).
    pub fn rx_warning(self) -> (r: bool)
        ensures
            r == bit(self.0, 17),
    {
        get_bit(self.0, 17)
    }

    /// Sets `RXWARN` (bit 17), leaving the other bits as they are.
    pub fn with_rx_warning(self, v: bool) -> (r: Self)
        ensures
            r.0 == with_field(self.0, 17, 1, if v {
                1
            } else {
                0
            }),
            bit(r.0, 17) == v,
            same_outside(r.0, self.0, 17, 1),
    {
        Self(set_bit(self.0, 17, v))
    }

    /// Reads `TXWARN` (bit 18).
    pub fn tx_warning(self) -> (r: bool)
        ensures
            r == bit(self.0, 18),
    {
        get_bit(self.0, 18)
    }

    /// Sets `TXWARN` (bit 18), leaving the other bits as they are.
    pub fn with_tx_warning(self, v: bool) -> (r: Self)
        ensures
            r.0 == with_field(self.0, 18, 1, if v {
                1
            } else {
                0
            }),
            bit(r.0, 18) == v,
            same_outside(r.0, self.0, 18, 1),
    {
        Self(set_bit(self.0, 18, v))
    }

    /// Reads `RXBP` (bit 19).
    pub fn rx_error_passive(self) -> (r: bool)
        ensures
            r == bit(self.0, 19),
    {
        get_bit(self.0, 19)
    }

    /// Sets `RXBP` (bit 19), leaving the other bits as they are.
    pub fn with_rx_error_passive(self, v: bool) -> (r: Self)
        ensures
            r.0 == with_field(self.0, 19, 1, if v {
                1
            } else {
                0
            }),
            bit(r.0, 19) == v,
            same_outside(r.0, self.0, 19, 1),
    {
        Self(set_bit(self.0, 19, v))
    }

    /// Reads `TXBP` (bit 20).
    pub fn tx_error_passive(self) -> (r: bool)
        ensures
            r == bit(self.0, 20),
    {
        get_bit(self.0, 20)
    }

    /// Sets `TXBP` (bit 20), leaving the other bits as they are.
    pub fn with_tx_error_passive(self, v: bool) -> (r: Self)
        ensures
            r.0 == with_field(self.0, 20, 1, if v {
                1
            } else {
                0
            }),
            bit(r.0, 20) == v,
            same_outside(r.0, self.0, 20, 1),
    {
        Self(set_bit(self.0, 20, v))
    }

    /// Reads `TXBO` (bit 21).
    pub fn tx_bus_off(self) -> (r: bool)
        ensures
            r == bit(self.0, 21),
    {
        get_bit(self.0, 21)
    }

    /// Sets `TXBO` (bit 21), leaving the other bits as they are.
    pub fn with_tx_bus_off(self, v: bool) -> (r: Self)
        ensures
            r.0 == with_field(self.0, 21, 1, if v {
                1
            } else {
                0
            }),
            bit(r.0, 21) == v,
            same_outside(r.0, self.0, 21, 1),
    {
        Self(set_bit(self.0, 21, v))
    }
}

/// `CiNBTCFG`: nominal bit timing (0x004). All fields stored as value - 1.
#[derive(Debug, Clone, Copy, PartialEq, Eq, Structural)]
pub struct CiNbtCfg(
    /// Raw 32-bit register value.
    pub u32,
);

/// The `CiNBTCFG` word for the given bit timing: each field minus one,
/// `BRP` at bit 24, `TSEG1` at 16, `TSEG2` at 8 and `SJW` at 0.
pub open spec fn nbtcfg_word(brp: u16, tseg1: u16, tseg2: u16, sjw: u16) -> u32 {
    (((brp - 1) as u32) << 24u32) | (((tseg1 - 1) as u32) << 16u32) | (((tseg2 - 1) as u32)
        << 8u32) | ((sjw - 1) as u32)
}

/// The `CiDBTCFG` word for the given data bit timing, laid out as
/// [`nbtcfg_word`].
pub open spec fn dbtcfg_word(brp: u16, tseg1: u8, tseg2: u8, sjw: u8) -> u32 {
    (((brp - 1) as u32) << 24u32) | (((tseg1 - 1) as u32) << 16u32) | (((tseg2 - 1) as u32)
        << 8u32) | ((sjw - 1) as u32)
}

/// Within the documented ranges each timing field of the register reads
/// back as the value minus one, and the bits between the fields stay clear.
pub proof fn lemma_bit_timing_fields(brp: u32, tseg1: u32, tseg2: u32, sjw: u32)
    requires
        1 <= brp <= 256,
        1 <= tseg1 <= 256,
        1 <= tseg2 <= 128,
        1 <= sjw <= 128,
    ensures
        ({
            let w = ((((brp - 1) as u32) << 24u32) | (((tseg1 - 1) as u32) << 16u32) | (((tseg2
                - 1) as u32) << 8u32) | ((sjw - 1) as u32));
            &&& field(w, 24, 0xFF) == brp - 1
            &&& field(w, 16, 0xFF) == tseg1 - 1
            &&& field(w, 8, 0x7F) == tseg2 - 1
            &&& field(w, 0, 0x7F) == sjw - 1
            &&& w & 0x8080 == 0
        }),
{
    let b = (brp - 1) as u32;
    let t1 = (tseg1 - 1) as u32;
    let t2 = (tseg2 - 1) as u32;
    let s = (sjw - 1) as u32;
    assert({
        let w = (b << 24u32) | (t1 << 16u32) | (t2 << 8u32) | s;
        &&& (w >> 24u32) & 0xFFu32 == b
        &&& (w >> 16u32) & 0xFFu32 == t1
        &&& (w >> 8u32) & 0x7Fu32 == t2
        &&& (w >> 0u32) & 0x7Fu32 == s
        &&& w & 0x8080u32 == 0
    }) by (bit_vector)
        requires
            b <= 255,
            t1 <= 255,
            t2 <= 127,
            s <= 127,
    ;
}

impl CiNbtCfg {
    /// Builds the register from human values: `brp: 1..=256`,
    /// `tseg1: 2..=256`, `tseg2: 1..=128`, `sjw: 1..=128` (time quanta).
    /// Callers validate ranges (see `NominalBitTiming::validate`).
    pub fn new(brp: u16, tseg1: u16, tseg2: u16, sjw: u16) -> (r: Self)
        requires
            brp >= 1,
            tseg1 >= 1,
            tseg2 >= 1,
            sjw >= 1,
        ensures
            r.0 == nbtcfg_word(brp, tseg1, tseg2, sjw),
            brp <= 256 && tseg1 <= 256 && tseg2 <= 128 && sjw <= 128 ==> {
                &&& field(r.0, 24, 0xFF) == brp - 1
                &&& field(r.0, 16, 0xFF) == tseg1 - 1
                &&& field(r.0, 8, 0x7F) == tseg2 - 1
                &&& field(r.0, 0, 0x7F) == sjw - 1
            },
    {
        proof {
            if brp <= 256 && tseg1 <= 256 && tseg2 <= 128 && sjw <= 128 {
                lemma_bit_timing_fields(brp as u32, tseg1 as u32, tseg2 as u32, sjw as u32);
            }
        }
        Self(
            (((brp - 1) as u32) << 24) | (((tseg1 - 1) as u32) << 16) | (((tseg2 - 1) as u32) << 8)
                | ((sjw - 1) as u32),
        )
    }
}

/// `CiDBTCFG`: data bit timing (0x008). All fields stored as value - 1.
#[derive(Debug, Clone, Copy, PartialEq, Eq, Structural)]
pub struct CiDbtCfg(
    /// Raw 32-bit register value.
    pub u32,
);

impl CiDbtCfg {
    /// Builds the register from human values: `brp: 1..=256`,
    /// `tseg1: 1..=32`, `tseg2: 1..=16`, `sjw: 1..=16` (time quanta).
    pub fn new(brp: u16, tseg1: u8, tseg2: u8, sjw: u8) -> (r: Self)
        requires
            brp >= 1,
            tseg1 >= 1,
            tseg2 >= 1,
            sjw >= 1,
        ensures
            r.0 == dbtcfg_word(brp, tseg1, tseg2, sjw),
            brp <= 256 && tseg1 <= 32 && tseg2 <= 16 && sjw <= 16 ==> {
                &&& field(r.0, 24, 0xFF) == brp - 1
                &&& field(r.0, 16, 0xFF) == tseg1 - 1
                &&& field(r.0, 8, 0x7F) == tseg2 - 1
                &&& field(r.0, 0, 0x7F) == sjw - 1
            },
    {
        proof {
            if brp <= 256 && tseg1 <= 32 && tseg2 <= 16 && sjw <= 16 {
                lemma_bit_timing_fields(brp as u32, tseg1 as u32, tseg2 as u32, sjw as u32);
            }
        }
        Self(
            (((brp - 1) as u32) << 24) | (((tseg1 - 1) as u32) << 16) | (((tseg2 - 1) as u32) << 8)
                | ((sjw - 1) as u32),
        )
    }
}

/// Transmitter delay compensation mode (`CiTDC.TDCMOD`).
#[derive(Debug, Clone, Copy, PartialEq, Eq, Structural)]
pub enum TdcMode {
    /// TDC disabled (code 0).
    Disabled,
    /// Manual: SSP = TDCV + TDCO (code 1).
    Manual,
    /// Auto: chip measures the loop delay; SSP = measured + TDCO (code 2).
    /// Recommended for data rates of 1 Mbit/s and above.
    Auto,
}

/// The 2-bit `TDCMOD` code of a compensation mode.
pub open spec fn tdc_mode_code(m: TdcMode) -> u32 {
    match m {
        TdcMode::Disabled => 0,
        TdcMode::Manual => 1,
        TdcMode::Auto => 2,
    }
}

/// `CiTDC`: transmitter delay compensation (0x00C).
#[derive(Debug, Clone, Copy, PartialEq, Eq, Structural)]
pub struct CiTdc(
    /// Raw 32-bit register value.
    pub u32,
);

impl CiTdc {
    /// Sets `TDCMOD` (bits 17:16).
    pub fn with_mode(self, mode: TdcMode) -> (r: Self)
        ensures
            r.0 == with_field(self.0, 16, 3, tdc_mode_code(mode)),
            field(r.0, 16, 3) == tdc_mode_code(mode),
            same_outside(r.0, self.0, 16, 3),
    {
        let code: u32 = match mode {
            TdcMode::Disabled => 0,
            TdcMode::Manual => 1,
            TdcMode::Auto => 2,
        };
        proof {
            lemma_and_mask(code, 3);
        }
        proof {
            lemma_register_fields_fit();
        }
        Self(set_field(self.0, 16, 3, code))
    }

    /// Sets `TDCO` (bits 14:8): SSP offset in SYSCLK cycles, 7-bit two's
    /// complement `-64..=63` (0x7F = -1).
    pub fn with_tdco(self, tdco: i8) -> (r: Self)
        ensures
            r.0 == with_field(self.0, 8, 0x7F, tdco as u32),
            field(r.0, 8, 0x7F) == (tdco as u32) & 0x7F,
            same_outside(r.0, self.0, 8, 0x7F),
    {
        proof {
            lemma_register_fields_fit();
        }
        Self(set_field(self.0, 8, 0x7F, #[verifier::truncate] (tdco as u32)))
    }

    /// Reads `EDGFLTEN` (edge filtering, recommended for FD) (bit 25).
    pub fn edge_filter(self) -> (r: bool)
        ensures
            r == bit(self.0, 25),
    {
        get_bit(self.0, 25)
    }

    /// Sets `EDGFLTEN` (edge filtering, recommended for FD) (bit 25), leaving the other bits as they are.
    pub fn with_edge_filter(self, v: bool) -> (r: Self)
        ensures
            r.0 == with_field(self.0, 25, 1, if v {
                1
            } else {
                0
            }),
            bit(r.0, 25) == v,
            same_outside(r.0, self.0, 25, 1),
    {
        Self(set_bit(self.0, 25, v))
    }
}

/// `CiFIFOCONm`: FIFO control (0x05C + 12(m-1)).
#[derive(Debug, Clone, Copy, PartialEq, Eq, Structural)]
pub struct CiFifoCon(
    /// Raw 32-bit register value.
    pub u32,
);

impl CiFifoCon {
    /// Value for byte 1 (bits 15:8) setting `UINC` only: pops an RX FIFO
    /// element without touching configuration bits.
    pub const CON_BYTE1_UINC: u8 = 0x01;

    /// Value for byte 1 setting `UINC | TXREQ`: queues and flushes a TX FIFO
    /// element.
    pub const CON_BYTE1_UINC_TXREQ: u8 = 0x03;

    /// Value for byte 1 setting `FRESET` only (bit 10): resets the FIFO.
    pub const CON_BYTE1_FRESET: u8 = 0x04;

    /// Reads `TFNRFNIE` (not-full/not-empty interrupt enable) (bit 0).
    pub fn not_full_empty_ie(self) -> (r: bool)
        ensures
            r == bit(self.0, 0),
    {
        get_bit(self.0, 0)
    }

    /// Sets `TFNRFNIE` (not-full/not-empty interrupt enable) (bit 0), leaving the other bits as they are.
    pub fn with_not_full_empty_ie(self, v: bool) -> (r: Self)
        ensures
            r.0 == with_field(self.0, 0, 1, if v {
                1
            } else {
                0
            }),
            bit(r.0, 0) == v,
            same_outside(r.0, self.0, 0, 1),
    {
        Self(set_bit(self.0, 0, v))
    }

    /// Reads `RXOVIE` (bit 3).
    pub fn rx_overflow_ie(self) -> (r: bool)
        ensures
            r == bit(self.0, 3),
    {
        get_bit(self.0, 3)
    }

    /// Sets `RXOVIE` (bit 3), leaving the other bits as they are.
    pub fn with_rx_overflow_ie(self, v: bool) -> (r: Self)
        ensures
            r.0 == with_field(self.0, 3, 1, if v {
                1
            } else {
                0
            }),
            bit(r.0, 3) == v,
            same_outside(r.0, self.0, 3, 1),
    {
        Self(set_bit(self.0, 3, v))
    }

    /// Reads `RXTSEN` (bit 5).
    pub fn rx_timestamp(self) -> (r: bool)
        ensures
            r == bit(self.0, 5),
    {
        get_bit(self.0, 5)
    }

    /// Sets `RXTSEN` (bit 5), leaving the other bits as they are.
    pub fn with_rx_timestamp(self, v: bool) -> (r: Self)
        ensures
            r.0 == with_field(self.0, 5, 1, if v {
                1
            } else {
                0
            }),
            bit(r.0, 5) == v,
            same_outside(r.0, self.0, 5, 1),
    {
        Self(set_bit(self.0, 5, v))
    }

    /// Reads `TXEN` (1 = transmit FIFO, 0 = receive FIFO) (bit 7).
    pub fn tx(self) -> (r: bool)
        ensures
            r == bit(self.0, 7),
    {
        get_bit(self.0, 7)
    }

    /// Sets `TXEN` (1 = transmit FIFO, 0 = receive FIFO) (bit 7), leaving the other bits as they are.
    pub fn with_tx(self, v: bool) -> (r: Self)
        ensures
            r.0 == with_field(self.0, 7, 1, if v {
                1
            } else {
                0
            }),
            bit(r.0, 7) == v,
            same_outside(r.0, self.0, 7, 1),
    {
        Self(set_bit(self.0, 7, v))
    }

    /// Reads `UINC` (increment head/tail; write-only) (bit 8).
    pub fn uinc(self) -> (r: bool)
        ensures
            r == bit(self.0, 8),
    {
        get_bit(self.0, 8)
    }

    /// Sets `UINC` (increment head/tail; write-only) (bit 8), leaving the other bits as they are.
    pub fn with_uinc(self, v: bool) -> (r: Self)
        ensures
            r.0 == with_field(self.0, 8, 1, if v {
                1
            } else {
                0
            }),
            bit(r.0, 8) == v,
            same_outside(r.0, self.0, 8, 1),
    {
        Self(set_bit(self.0, 8, v))
    }

    /// Reads `TXREQ` (request transmission; TX FIFOs) (bit 9).
    pub fn txreq(self) -> (r: bool)
        ensures
            r == bit(self.0, 9),
    {
        get_bit(self.0, 9)
    }

    /// Sets `TXREQ` (request transmission; TX FIFOs) (bit 9), leaving the other bits as they are.
    pub fn with_txreq(self, v: bool) -> (r: Self)
        ensures
            r.0 == with_field(self.0, 9, 1, if v {
                1
            } else {
                0
            }),
            bit(r.0, 9) == v,
            same_outside(r.0, self.0, 9, 1),
    {
        Self(set_bit(self.0, 9, v))
    }

    /// Reads `FRESET` (FIFO reset) (bit 10).
    pub fn freset(self) -> (r: bool)
        ensures
            r == bit(self.0, 10),
    {
        get_bit(self.0, 10)
    }

    /// Sets `FRESET` (FIFO reset) (bit 10), leaving the other bits as they are.
    pub fn with_freset(self, v: bool) -> (r: Self)
        ensures
            r.0 == with_field(self.0, 10, 1, if v {
                1
            } else {
                0
            }),
            bit(r.0, 10) == v,
            same_outside(r.0, self.0, 10, 1),
    {
        Self(set_bit(self.0, 10, v))
    }

    /// Sets `FSIZE` (bits 28:24): FIFO depth in messages, `1..=32`, stored as
    /// depth - 1.
    pub fn with_fifo_size(self, depth: u8) -> (r: Self)
        requires
            depth >= 1,
        ensures
            r.0 == with_field(self.0, 24, 0x1F, (depth - 1) as u32),
            field(r.0, 24, 0x1F) == ((depth - 1) as u32) & 0x1F,
            same_outside(r.0, self.0, 24, 0x1F),
    {
        proof {
            lemma_register_fields_fit();
        }
        Self(set_field(self.0, 24, 0x1F, (depth - 1) as u32))
    }

    /// Sets `PLSIZE` (bits 31:29).
    pub fn with_payload_size(self, p: PayloadSize) -> (r: Self)
        ensures
            r.0 == with_field(self.0, 29, 7, plsize(p)),
            field(r.0, 29, 7) == plsize(p),
            same_outside(r.0, self.0, 29, 7),
    {
        let code = p.plsize_code();
        proof {
            lemma_and_mask(code, 7);
        }
        proof {
            lemma_register_fields_fit();
        }
        Self(set_field(self.0, 29, 7, code))
    }
}

/// `CiFIFOSTAm`: FIFO status (0x060 + 12(m-1)).
#[derive(Debug, Clone, Copy, PartialEq, Eq, Structural)]
pub struct CiFifoSta(
    /// Raw 32-bit register value.
    pub u32,
);

impl CiFifoSta {
    /// Reads `TFNRFNIF` (TX: not full / RX: not empty) (bit 0).
    pub fn not_full_or_not_empty(self) -> (r: bool)
        ensures
            r == bit(self.0, 0),
    {
        get_bit(self.0, 0)
    }

    /// Sets `TFNRFNIF` (TX: not full / RX: not empty) (bit 0), leaving the other bits as they are.
    pub fn with_not_full_or_not_empty(self, v: bool) -> (r: Self)
        ensures
            r.0 == with_field(self.0, 0, 1, if v {
                1
            } else {
                0
            }),
            bit(r.0, 0) == v,
            same_outside(r.0, self.0, 0, 1),
    {
        Self(set_bit(self.0, 0, v))
    }

    /// Reads `RXOVIF` (RX FIFO overflowed; a message was lost) (bit 3).
    pub fn rx_overflow(self) -> (r: bool)
        ensures
            r == bit(self.0, 3),
    {
        get_bit(self.0, 3)
    }

    /// Sets `RXOVIF` (RX FIFO overflowed; a message was lost) (bit 3), leaving the other bits as they are.
    pub fn with_rx_overflow(self, v: bool) -> (r: Self)
        ensures
            r.0 == with_field(self.0, 3, 1, if v {
                1
            } else {
                0
            }),
            bit(r.0, 3) == v,
            same_outside(r.0, self.0, 3, 1),
    {
        Self(set_bit(self.0, 3, v))
    }

    /// Reads `TXATIF` (bit 4).
    pub fn tx_attempts_exhausted(self) -> (r: bool)
        ensures
            r == bit(self.0, 4),
    {
        get_bit(self.0, 4)
    }

    /// Sets `TXATIF` (bit 4), leaving the other bits as they are.
    pub fn with_tx_attempts_exhausted(self, v: bool) -> (r: Self)
        ensures
            r.0 == with_field(self.0, 4, 1, if v {
                1
            } else {
                0
            }),
            bit(r.0, 4) == v,
            same_outside(r.0, self.0, 4, 1),
    {
        Self(set_bit(self.0, 4, v))
    }

    /// `FIFOCI` (bits 12:8): current FIFO message index. Subject to the
    /// MCP2517FD corrupt-read erratum: do not build protocol logic on it.
    pub fn fifo_index(self) -> (r: u8)
        ensures
            r == field(self.0, 8, 0x1F),
    {
        get_field_u8(self.0, 8, 0x1F)
    }
}

} // verus!
