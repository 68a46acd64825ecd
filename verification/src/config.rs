//! Driver configuration: clocks, bit timing, filters.

use crate::error::ConfigError;
use crate::id::CanId;
use crate::registers::objects::{flag, lemma_pack_unpack, lemma_packed_fits, pack_id, packed_id};
use crate::registers::{dbtcfg_word, nbtcfg_word, CiDbtCfg, CiNbtCfg};
use vstd::prelude::*;

verus! {

/// The maximum safe SPI clock for a given SYSCLK, per the MCP2517FD
/// erratum DS80000792 item 5: `0.85 * SYSCLK / 2`, computed in whole
/// hundreds of hertz.
pub open spec fn spi_cap(sysclk_hz: u32) -> int {
    (sysclk_hz / 2 / 100) * 85
}

/// The maximum safe SPI clock for a given SYSCLK, per the MCP2517FD
/// erratum DS80000792 item 5 ("SPI writes/reads of the RAM can be
/// corrupted"): `0.85 * SYSCLK / 2`.
///
/// The driver cannot observe the actual SPI clock: configure the bus at or
/// below this cap yourself.
pub fn max_spi_hz(sysclk_hz: u32) -> (r: u32)
    ensures
        r == spi_cap(sysclk_hz),
        r * 200 <= sysclk_hz * 85,
{
    let q = sysclk_hz / 2 / 100;
    assert(q * 85 <= sysclk_hz / 2 / 100 * 85 && q * 200 <= sysclk_hz) by (nonlinear_arith)
        requires
            q == sysclk_hz / 2 / 100,
    ;
    q * 85
}

/// Oscillator configuration.
///
/// SYSCLK = `xtal_hz * 10` (if `pll`) `/ 2` (if `sclk_div2`); SYSCLK must
/// land in `2..=40 MHz`, and the PLL input must be a 4 MHz-class crystal.
#[derive(Debug, Clone, Copy, PartialEq, Eq, Structural)]
pub struct ClockConfig {
    /// Crystal / external clock frequency in Hz (`4..=40 MHz` crystal,
    /// `2..=40 MHz` external clock).
    pub xtal_hz: u32,
    /// Enable the 10x PLL (only from a 4 MHz-class input).
    pub pll: bool,
    /// Divide SYSCLK by 2 (`OSC.SCLKDIV`).
    pub sclk_div2: bool,
}

/// The SYSCLK that a clock configuration produces, in Hz.
pub open spec fn sysclk(c: ClockConfig) -> int {
    let base = if c.pll {
        c.xtal_hz * 10
    } else {
        c.xtal_hz as int
    };
    if c.sclk_div2 {
        base / 2
    } else {
        base
    }
}

/// A clock configuration is accepted: the PLL only runs from an input of at
/// most 5 MHz, and SYSCLK lands in `2..=40 MHz`.
pub open spec fn clock_valid(c: ClockConfig) -> bool {
    &&& !(c.pll && c.xtal_hz > 5_000_000)
    &&& 2_000_000 <= sysclk(c) <= 40_000_000
}

impl ClockConfig {
    /// 40 MHz crystal, no PLL: the recommended configuration.
    pub fn MHZ40() -> (r: Self)
        ensures
            r == (ClockConfig { xtal_hz: 40_000_000, pll: false, sclk_div2: false }),
    {
        ClockConfig { xtal_hz: 40_000_000, pll: false, sclk_div2: false }
    }

    /// 20 MHz crystal, no PLL.
    pub fn MHZ20() -> (r: Self)
        ensures
            r == (ClockConfig { xtal_hz: 20_000_000, pll: false, sclk_div2: false }),
    {
        ClockConfig { xtal_hz: 20_000_000, pll: false, sclk_div2: false }
    }

    /// 4 MHz crystal with 10x PLL, giving a 40 MHz SYSCLK (the PLL adds lock
    /// time).
    pub fn MHZ4_PLL() -> (r: Self)
        ensures
            r == (ClockConfig { xtal_hz: 4_000_000, pll: true, sclk_div2: false }),
    {
        ClockConfig { xtal_hz: 4_000_000, pll: true, sclk_div2: false }
    }

    /// The resulting SYSCLK in Hz.
    pub fn sysclk_hz(&self) -> (r: u32)
        requires
            !self.pll || self.xtal_hz * 10 <= u32::MAX,
        ensures
            r == sysclk(*self),
    {
        let base = if self.pll {
            self.xtal_hz * 10
        } else {
            self.xtal_hz
        };
        if self.sclk_div2 {
            base / 2
        } else {
            base
        }
    }

    /// Checks PLL-input and SYSCLK range constraints.
    pub fn validate(&self) -> (r: Result<(), ConfigError>)
        ensures
            r is Ok <==> clock_valid(*self),
            r matches Err(e) ==> e == ConfigError::Clock,
    {
        if self.pll && self.xtal_hz > 5_000_000 {
            return Err(ConfigError::Clock);
        }
        let sysclk = self.sysclk_hz();
        if sysclk < 2_000_000 || sysclk > 40_000_000 {
            return Err(ConfigError::Clock);
        }
        Ok(())
    }
}

/// Nominal (arbitration-phase) bit timing in time quanta (TQ = BRP/SYSCLK).
///
/// Bit time = `(1 + tseg1 + tseg2) * TQ`.
#[derive(Debug, Clone, Copy, PartialEq, Eq, Structural)]
pub struct NominalBitTiming {
    /// Baud rate prescaler (`1..=256`).
    pub brp: u16,
    /// Time segment 1: propagation + phase 1 (`2..=256` TQ).
    pub tseg1: u16,
    /// Time segment 2: phase 2 (`1..=128` TQ).
    pub tseg2: u16,
    /// Synchronization jump width (`1..=128` TQ, `<= tseg2`).
    pub sjw: u16,
}

/// Every nominal timing field is in its documented range.
pub open spec fn nominal_valid(t: NominalBitTiming) -> bool {
    &&& 1 <= t.brp <= 256
    &&& 2 <= t.tseg1 <= 256
    &&& 1 <= t.tseg2 <= 128
    &&& 1 <= t.sjw <= 128
    &&& t.sjw <= t.tseg2
}

impl NominalBitTiming {
    /// 125 kbit/s at 40 MHz SYSCLK (160 TQ, 80% sample point).
    pub fn KBPS125_40MHZ() -> (r: Self)
        ensures
            r == (NominalBitTiming { brp: 2, tseg1: 127, tseg2: 32, sjw: 32 }),
    {
        NominalBitTiming { brp: 2, tseg1: 127, tseg2: 32, sjw: 32 }
    }

    /// 250 kbit/s at 40 MHz SYSCLK (160 TQ, 80% sample point).
    pub fn KBPS250_40MHZ() -> (r: Self)
        ensures
            r == (NominalBitTiming { brp: 1, tseg1: 127, tseg2: 32, sjw: 32 }),
    {
        NominalBitTiming { brp: 1, tseg1: 127, tseg2: 32, sjw: 32 }
    }

    /// 500 kbit/s at 40 MHz SYSCLK (80 TQ, 80% sample point).
    pub fn KBPS500_40MHZ() -> (r: Self)
        ensures
            r == (NominalBitTiming { brp: 1, tseg1: 63, tseg2: 16, sjw: 16 }),
    {
        NominalBitTiming { brp: 1, tseg1: 63, tseg2: 16, sjw: 16 }
    }

    /// 500 kbit/s at 20 MHz SYSCLK (40 TQ, 80% sample point).
    pub fn KBPS500_20MHZ() -> (r: Self)
        ensures
            r == (NominalBitTiming { brp: 1, tseg1: 31, tseg2: 8, sjw: 8 }),
    {
        NominalBitTiming { brp: 1, tseg1: 31, tseg2: 8, sjw: 8 }
    }

    /// 1 Mbit/s at 40 MHz SYSCLK (40 TQ, 80% sample point).
    pub fn MBPS1_40MHZ() -> (r: Self)
        ensures
            r == (NominalBitTiming { brp: 1, tseg1: 31, tseg2: 8, sjw: 8 }),
    {
        NominalBitTiming { brp: 1, tseg1: 31, tseg2: 8, sjw: 8 }
    }

    /// Range-checks all fields.
    pub fn validate(&self) -> (r: Result<(), ConfigError>)
        ensures
            r is Ok <==> nominal_valid(*self),
            r matches Err(e) ==> e == ConfigError::NominalBitTiming,
    {
        if self.brp < 1 || self.brp > 256 || self.tseg1 < 2 || self.tseg1 > 256 || self.tseg2 < 1
            || self.tseg2 > 128 || self.sjw < 1 || self.sjw > 128 || self.sjw > self.tseg2 {
            return Err(ConfigError::NominalBitTiming);
        }
        Ok(())
    }

    /// The nominal bit rate this timing gives at SYSCLK `sysclk_hz`:
    /// `sysclk / (brp * (1 + tseg1 + tseg2))`. A preset is only correct on
    /// the clock in its name; this is how to check the pairing.
    pub fn bit_rate_hz(&self, sysclk_hz: u32) -> (r: u32)
        requires
            self.brp >= 1,
        ensures
            r == (sysclk_hz as int) / (self.brp * (1 + self.tseg1 + self.tseg2)),
    {
        let tq: u64 = 1 + self.tseg1 as u64 + self.tseg2 as u64;
        let b: u64 = self.brp as u64;
        assert(b * tq <= 65535 * 131071) by (nonlinear_arith)
            requires
                b <= 65535,
                tq <= 131071,
        ;
        let den: u64 = b * tq;
        assert(den >= 1 && den == self.brp * (1 + self.tseg1 + self.tseg2)) by (nonlinear_arith)
            requires
                self.brp >= 1,
                tq >= 1,
                den == self.brp * tq,
                tq == 1 + self.tseg1 + self.tseg2,
        ;
        let q = sysclk_hz as u64 / den;
        assert(q <= sysclk_hz) by (nonlinear_arith)
            requires
                den >= 1,
                q == sysclk_hz as u64 / den,
        ;
        q as u32
    }

    /// The sample point in thousandths of the bit time:
    /// `(1 + tseg1) * 1000 / (1 + tseg1 + tseg2)`.
    pub fn sample_point_permille(&self) -> (r: u32)
        ensures
            r == ((1 + self.tseg1) * 1000) as int / (1 + self.tseg1 + self.tseg2) as int,
    {
        let num: u32 = (1 + self.tseg1 as u32) * 1000;
        let den: u32 = 1 + self.tseg1 as u32 + self.tseg2 as u32;
        num / den
    }

    /// Encodes into `CiNBTCFG`. Call [`Self::validate`] first: every field
    /// must be at least 1.
    pub fn to_reg(&self) -> (r: CiNbtCfg)
        requires
            self.brp >= 1,
            self.tseg1 >= 1,
            self.tseg2 >= 1,
            self.sjw >= 1,
        ensures
            r.0 == nbtcfg_word(self.brp, self.tseg1, self.tseg2, self.sjw),
    {
        CiNbtCfg::new(self.brp, self.tseg1, self.tseg2, self.sjw)
    }
}

/// Data-phase bit timing for CAN FD (BRS), in time quanta.
#[derive(Debug, Clone, Copy, PartialEq, Eq, Structural)]
pub struct DataBitTiming {
    /// Baud rate prescaler (`1..=256`; keep equal to the nominal BRP,
    /// ideally 1, to minimize quantization error).
    pub brp: u16,
    /// Time segment 1 (`1..=32` TQ).
    pub tseg1: u8,
    /// Time segment 2 (`1..=16` TQ).
    pub tseg2: u8,
    /// Synchronization jump width (`1..=16` TQ, `<= tseg2`).
    pub sjw: u8,
}

/// Every data timing field is in its documented range.
pub open spec fn data_valid(t: DataBitTiming) -> bool {
    &&& 1 <= t.brp <= 256
    &&& 1 <= t.tseg1 <= 32
    &&& 1 <= t.tseg2 <= 16
    &&& 1 <= t.sjw <= 16
    &&& t.sjw <= t.tseg2
}

/// The transmitter delay compensation offset of a data timing:
/// `DBRP * DTSEG1`, clamped to 63.
pub open spec fn tdco_of(t: DataBitTiming) -> int {
    if t.brp * t.tseg1 > 63 {
        63
    } else {
        t.brp * t.tseg1
    }
}

impl DataBitTiming {
    /// 2 Mbit/s at 40 MHz SYSCLK (20 TQ, 80% sample point).
    pub fn MBPS2_40MHZ() -> (r: Self)
        ensures
            r == (DataBitTiming { brp: 1, tseg1: 15, tseg2: 4, sjw: 4 }),
    {
        DataBitTiming { brp: 1, tseg1: 15, tseg2: 4, sjw: 4 }
    }

    /// 5 Mbit/s at 40 MHz SYSCLK (8 TQ, 75% sample point).
    pub fn MBPS5_40MHZ() -> (r: Self)
        ensures
            r == (DataBitTiming { brp: 1, tseg1: 5, tseg2: 2, sjw: 2 }),
    {
        DataBitTiming { brp: 1, tseg1: 5, tseg2: 2, sjw: 2 }
    }

    /// 8 Mbit/s at 40 MHz SYSCLK (5 TQ, 80% sample point).
    pub fn MBPS8_40MHZ() -> (r: Self)
        ensures
            r == (DataBitTiming { brp: 1, tseg1: 3, tseg2: 1, sjw: 1 }),
    {
        DataBitTiming { brp: 1, tseg1: 3, tseg2: 1, sjw: 1 }
    }

    /// Range-checks all fields.
    pub fn validate(&self) -> (r: Result<(), ConfigError>)
        ensures
            r is Ok <==> data_valid(*self),
            r matches Err(e) ==> e == ConfigError::DataBitTiming,
    {
        if self.brp < 1 || self.brp > 256 || self.tseg1 < 1 || self.tseg1 > 32 || self.tseg2 < 1
            || self.tseg2 > 16 || self.sjw < 1 || self.sjw > 16 || self.sjw > self.tseg2 {
            return Err(ConfigError::DataBitTiming);
        }
        Ok(())
    }

    /// Encodes into `CiDBTCFG`. Call [`Self::validate`] first: every field
    /// must be at least 1.
    pub fn to_reg(&self) -> (r: CiDbtCfg)
        requires
            self.brp >= 1,
            self.tseg1 >= 1,
            self.tseg2 >= 1,
            self.sjw >= 1,
        ensures
            r.0 == dbtcfg_word(self.brp, self.tseg1, self.tseg2, self.sjw),
    {
        CiDbtCfg::new(self.brp, self.tseg1, self.tseg2, self.sjw)
    }

    /// Transmitter delay compensation offset for auto TDC mode:
    /// `DBRP * DTSEG1`, clamped to the 7-bit signed maximum of 63 (SYSCLK
    /// cycles), following the family reference manual (DS20005678E
    /// section 3.4.8, Table 3-5: DBRP=1/DTSEG1=15 gives TDCO=15).
    pub fn tdco(&self) -> (r: i8)
        ensures
            r == tdco_of(*self),
            0 <= r <= 63,
    {
        let b = self.brp as u32;
        let t = self.tseg1 as u32;
        assert(b * t <= 65535 * 255) by (nonlinear_arith)
            requires
                b <= 65535,
                t <= 255,
        ;
        let v = b * t;
        if v > 63 {
            63
        } else {
            v as i8
        }
    }
}

/// Complete controller configuration for the driver's initialization.
#[derive(Debug, Clone, Copy, PartialEq, Eq, Structural)]
pub struct Config {
    /// Oscillator configuration.
    pub clock: ClockConfig,
    /// Nominal bit timing.
    pub nominal: NominalBitTiming,
    /// Data-phase bit timing; `None` disables CAN FD bit rate switching.
    pub data: Option<DataBitTiming>,
}

/// The outcome of validating a configuration: the first failing part, in
/// the order clock, nominal timing, data timing.
pub open spec fn config_check(c: Config) -> Result<(), ConfigError> {
    if !clock_valid(c.clock) {
        Err(ConfigError::Clock)
    } else if !nominal_valid(c.nominal) {
        Err(ConfigError::NominalBitTiming)
    } else if c.data matches Some(d) && !data_valid(d) {
        Err(ConfigError::DataBitTiming)
    } else {
        Ok(())
    }
}

impl Config {
    /// Validates every part of the configuration.
    pub fn validate(&self) -> (r: Result<(), ConfigError>)
        ensures
            r == config_check(*self),
    {
        if let Err(e) = self.clock.validate() {
            return Err(e);
        }
        if let Err(e) = self.nominal.validate() {
            return Err(e);
        }
        if let Some(d) = self.data {
            if let Err(e) = d.validate() {
                return Err(e);
            }
        }
        Ok(())
    }
}

/// The `EXIDE`/`MIDE` bit of the filter registers.
const IDE_BIT: u32 = 0x4000_0000;

/// An acceptance filter: `CiFLTOBJ` value plus `CiMASK` value.
///
/// A received frame matches when `(frame_id ^ fltobj) & mask == 0`
/// (per-bit: mask 1 = must match, 0 = don't care). Bit 30 (`MIDE`) makes
/// the standard/extended distinction part of the match.
#[derive(Debug, Clone, Copy, PartialEq, Eq, Structural)]
pub struct FilterMatch {
    /// Raw `CiFLTOBJm` value (packed ID + `EXIDE` bit 30).
    pub fltobj: u32,
    /// Raw `CiMASKm` value (packed ID mask + `MIDE` bit 30).
    pub mask: u32,
}

/// The word a received frame's identifier is compared in: the packed
/// identifier with bit 30 set for extended identifiers.
pub open spec fn filter_word(id: CanId) -> u32 {
    packed_id(id) | (flag(id.spec_is_extended()) << 30u32)
}

/// Whether a filter accepts a frame with identifier `id`.
pub open spec fn accepts(m: FilterMatch, id: CanId) -> bool {
    (filter_word(id) ^ m.fltobj) & m.mask == 0
}

/// The mask over the packed identifier bits that `with_mask` derives from a
/// mask over the natural identifier bits.
pub open spec fn packed_mask(id: CanId, id_mask: u32) -> u32 {
    if id.spec_is_extended() {
        ((id_mask >> 18u32) & 0x7FFu32) | ((id_mask & 0x3_FFFFu32) << 11u32)
    } else {
        id_mask & 0x7FFu32
    }
}

/// Setting the `IDE` flag position by shifting a flag bit.
proof fn lemma_ide_shift(p: u32)
    ensures
        p | (0u32 << 30u32) == p,
        p | (1u32 << 30u32) == p | 0x4000_0000u32,
{
    assert(p | (0u32 << 30u32) == p && p | (1u32 << 30u32) == p | 0x4000_0000u32) by (bit_vector);
}

/// The mask of an exact filter: every identifier bit of the kind, plus
/// `MIDE`.
pub open spec fn exact_mask(id: CanId) -> u32 {
    (if id.spec_is_extended() {
        0x1FFF_FFFFu32
    } else {
        0x7FFu32
    }) | 0x4000_0000u32
}

/// An exact filter accepts a frame exactly when the frame carries the
/// filter's identifier (of the same kind).
pub proof fn lemma_exact_accepts_only_its_id(id: CanId, x: CanId)
    requires
        id.wf(),
        x.wf(),
    ensures
        accepts(FilterMatch { fltobj: filter_word(id), mask: exact_mask(id) }, x) <==> x == id,
{
    lemma_pack_unpack(id);
    lemma_pack_unpack(x);
    let pi = packed_id(id);
    let px = packed_id(x);
    let fi = flag(id.spec_is_extended());
    let fx = flag(x.spec_is_extended());
    let m = exact_mask(id);
    assert(((px | (fx << 30u32)) ^ (pi | (fi << 30u32))) & m == 0 <==> (px == pi && fx == fi))
        by (bit_vector)
        requires
            px <= 0x1FFF_FFFF,
            pi <= 0x1FFF_FFFF,
            fx <= 1,
            fi <= 1,
            fx == 0 ==> px <= 0x7FF,
            fi == 0 ==> pi <= 0x7FF,
            m == (if fi == 1 {
                0x1FFF_FFFFu32
            } else {
                0x7FFu32
            }) | 0x4000_0000u32,
    ;
}

/// A masked filter accepts its own identifier and rejects every identifier
/// of the other kind, whatever the mask; the accept-all filter accepts
/// every identifier.
pub proof fn lemma_masked_filter_kind(id: CanId, id_mask: u32, x: CanId)
    ensures
        accepts(FilterMatch { fltobj: filter_word(id), mask: packed_mask(id, id_mask) | 0x4000_0000u32 }, id),
        x.spec_is_extended() != id.spec_is_extended() ==> !accepts(
            FilterMatch { fltobj: filter_word(id), mask: packed_mask(id, id_mask) | 0x4000_0000u32 },
            x,
        ),
        accepts(FilterMatch { fltobj: 0, mask: 0 }, x),
{
    let pi = packed_id(id);
    let px = packed_id(x);
    let fi = flag(id.spec_is_extended());
    let fx = flag(x.spec_is_extended());
    let pm = packed_mask(id, id_mask);
    let wx = filter_word(x);
    lemma_packed_fits(id);
    lemma_packed_fits(x);
    assert({
        &&& ((pi | (fi << 30u32)) ^ (pi | (fi << 30u32))) & (pm | 0x4000_0000u32) == 0
        &&& (fx != fi ==> ((px | (fx << 30u32)) ^ (pi | (fi << 30u32))) & (pm | 0x4000_0000u32)
            != 0)
        &&& (wx ^ 0u32) & 0u32 == 0
    }) by (bit_vector)
        requires
            px <= 0x1FFF_FFFF,
            pi <= 0x1FFF_FFFF,
            fx <= 1,
            fi <= 1,
    ;
}

/// The raw identifier bits of an identifier: 11 for a standard one, 29 for
/// an extended one.
pub open spec fn id_bits(id: CanId) -> u32 {
    match id {
        CanId::Standard(raw) => raw as u32,
        CanId::Extended(raw) => raw,
    }
}

/// A masked filter compares exactly the identifier bits set in the mask
/// over the natural identifier bits (11 for standard, 29 for extended),
/// and the identifier kind: a frame passes exactly when it has the
/// filter's kind and agrees with the filter's identifier on every masked
/// bit.
pub proof fn lemma_masked_filter_compares_masked_bits(id: CanId, id_mask: u32, x: CanId)
    requires
        id.wf(),
        x.wf(),
    ensures
        accepts(
            FilterMatch { fltobj: filter_word(id), mask: packed_mask(id, id_mask) | 0x4000_0000u32 },
            x,
        ) <==> (x.spec_is_extended() == id.spec_is_extended() && ((id_bits(x) ^ id_bits(id))
            & id_mask & (if id.spec_is_extended() {
            0x1FFF_FFFFu32
        } else {
            0x7FFu32
        })) == 0),
{
    lemma_masked_filter_kind(id, id_mask, x);
    let m = id_mask;
    match (id, x) {
        (CanId::Standard(a), CanId::Standard(b)) => {
            let i = a as u32;
            let y = b as u32;
            assert(((y | (0u32 << 30u32)) ^ (i | (0u32 << 30u32))) & ((m & 0x7FFu32) | 0x4000_0000u32)
                == 0 <==> (y ^ i) & m & 0x7FFu32 == 0) by (bit_vector)
                requires
                    i <= 0x7FF,
                    y <= 0x7FF,
            ;
        },
        (CanId::Extended(i), CanId::Extended(y)) => {
            let pi = ((i >> 18u32) & 0x7FFu32) | ((i & 0x3_FFFFu32) << 11u32);
            let py = ((y >> 18u32) & 0x7FFu32) | ((y & 0x3_FFFFu32) << 11u32);
            let pm = ((m >> 18u32) & 0x7FFu32) | ((m & 0x3_FFFFu32) << 11u32);
            assert(((py | (1u32 << 30u32)) ^ (pi | (1u32 << 30u32))) & (pm | 0x4000_0000u32) == 0
                <==> (y ^ i) & m & 0x1FFF_FFFFu32 == 0) by (bit_vector)
                requires
                    i <= 0x1FFF_FFFF,
                    y <= 0x1FFF_FFFF,
                    pi == ((i >> 18u32) & 0x7FFu32) | ((i & 0x3_FFFFu32) << 11u32),
                    py == ((y >> 18u32) & 0x7FFu32) | ((y & 0x3_FFFFu32) << 11u32),
                    pm == ((m >> 18u32) & 0x7FFu32) | ((m & 0x3_FFFFu32) << 11u32),
            ;
        },
        _ => {},
    }
}

impl FilterMatch {
    /// Matches exactly one identifier (and its standard/extended kind).
    pub fn exact(id: CanId) -> (r: Self)
        ensures
            r.fltobj == filter_word(id),
            r.mask == exact_mask(id),
    {
        let packed = pack_id(id);
        proof {
            lemma_ide_shift(packed);
        }
        match id {
            CanId::Standard(_) => FilterMatch { fltobj: packed, mask: 0x7FF | IDE_BIT },
            CanId::Extended(_) => FilterMatch {
                fltobj: packed | IDE_BIT,
                mask: 0x1FFF_FFFF | IDE_BIT,
            },
        }
    }

    /// Matches every frame, standard and extended.
    pub fn accept_all() -> (r: Self)
        ensures
            r == (FilterMatch { fltobj: 0, mask: 0 }),
    {
        FilterMatch { fltobj: 0, mask: 0 }
    }

    /// Matches `id` under a custom mask over the *natural* identifier bits
    /// (11-bit for standard, 29-bit for extended); the mask is packed into
    /// the register layout for you. The standard/extended kind always
    /// participates in the match (`MIDE` set).
    pub fn with_mask(id: CanId, id_mask: u32) -> (r: Self)
        ensures
            r.fltobj == filter_word(id),
            r.mask == packed_mask(id, id_mask) | 0x4000_0000u32,
    {
        let packed = pack_id(id);
        proof {
            lemma_ide_shift(packed);
        }
        match id {
            CanId::Standard(_) => FilterMatch { fltobj: packed, mask: (id_mask & 0x7FF) | IDE_BIT },
            CanId::Extended(_) => FilterMatch {
                fltobj: packed | IDE_BIT,
                mask: (((id_mask >> 18) & 0x7FF) | ((id_mask & 0x3_FFFF) << 11)) | IDE_BIT,
            },
        }
    }
}

} // verus!
