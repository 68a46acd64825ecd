//! Resetting and initializing the chip.

use super::{hands_out, DriverState, SeqCounter, Step, StepView};
use crate::bits::{bit, field, with_field};
use crate::bus::{le_bytes, le32, word_at, word_from_le, BusOp, BusOpView};
use crate::config::{config_check, sysclk, tdco_of, Config, ClockConfig, DataBitTiming};
use crate::error::Error;
use crate::registers::addr::{C1CON, C1DBTCFG, C1INT, C1NBTCFG, C1TDC, OSC, RAM_START};
use crate::registers::objects::flag;
use crate::registers::{
    dbtcfg_word, mode_bits, nbtcfg_word, variant_seq_mask, CiCon, CiTdc, OperationMode, Osc, TdcMode, Variant,
};
use vstd::prelude::*;

verus! {

/// The pattern of the RAM echo test.
pub const ECHO: u32 = 0xAA55_AA55;

/// The RAM word the echo test uses (the last one).
pub const ECHO_ADDR: u16 = 0xBFC;

/// Polls of `OSC` the oscillator gets to report ready (100 us apart).
pub const OSC_POLLS: u32 = 40;

/// Oscillator stabilization time after RESET, in microseconds (TOSCSTAB).
pub const SETTLE_US: u32 = 3000;

/// The `OSC` word the initialization writes: `PLLEN` and `SCLKDIV` as
/// configured, `CLKODIV` at its power-on default of 3 (divide by 10).
pub open spec fn osc_config_word(c: ClockConfig) -> u32 {
    flag(c.pll) | (flag(c.sclk_div2) << 4u32) | (3u32 << 5u32)
}

/// The oscillator is ready: `OSCRDY`, and `PLLRDY` when the PLL is used.
pub open spec fn osc_settled(status: u32, c: ClockConfig) -> bool {
    bit(status, 10) && (!c.pll || bit(status, 8))
}

/// The variant that a read-back of `OSC` after setting `LPMEN` shows:
/// `LPMEN` is only implemented on the MCP2518FD.
pub open spec fn variant_of_probe(status: u32) -> Variant {
    if bit(status, 3) {
        Variant::Mcp2518Fd
    } else {
        Variant::Mcp2517Fd
    }
}

/// The `CiTDC` word: automatic compensation with the data timing's offset
/// and edge filtering when a data timing is configured, else all zero.
pub open spec fn tdc_word(c: Config) -> u32 {
    match c.data {
        Some(d) => 0x0200_0000u32 | 0x0002_0000u32 | ((tdco_of(d) as u32) << 8u32),
        None => 0,
    }
}

/// The `CiCON` word: ISO CRC on, `BRSDIS` when no data timing is
/// configured, and Configuration mode requested.
pub open spec fn con_word(c: Config) -> u32 {
    0x20u32 | (flag(c.data is None) << 12u32) | (4u32 << 24u32)
}

/// The writes that zero the 2 KiB message RAM, 64 bytes at a time.
pub open spec fn zero_fill_ops() -> Seq<BusOpView> {
    Seq::new(32, |k: int| BusOpView::WriteRam((0x400 + 64 * k) as u16, Seq::new(64, |j: int| 0u8)))
}

/// The SYSCLK in Hz that an `OSC` word selects from an input clock of
/// `xtal_hz`: `PLLEN` (bit 0) multiplies by 10, `SCLKDIV` (bit 4) divides
/// by 2.
pub open spec fn osc_sysclk(xtal_hz: u32, w: u32) -> int {
    let base = if bit(w, 0) {
        xtal_hz * 10
    } else {
        xtal_hz as int
    };
    if bit(w, 4) {
        base / 2
    } else {
        base
    }
}

/// The `OSC` word the initialization writes selects the configured clock:
/// `PLLEN` and `SCLKDIV` as configured, so the SYSCLK it produces is the
/// configuration's, with `CLKODIV` at 3 (divide by 10) and every other
/// bit, `LPMEN` included, clear.
pub proof fn lemma_osc_word_selects_clock(c: ClockConfig)
    ensures
        bit(osc_config_word(c), 0) == c.pll,
        bit(osc_config_word(c), 4) == c.sclk_div2,
        osc_sysclk(c.xtal_hz, osc_config_word(c)) == sysclk(c),
        field(osc_config_word(c), 5, 3) == 3,
        !bit(osc_config_word(c), 3),
        osc_config_word(c) & !0x73u32 == 0,
{
    let p = flag(c.pll);
    let d = flag(c.sclk_div2);
    let w = p | (d << 4u32) | (3u32 << 5u32);
    assert({
        &&& (w >> 0u32) & 1 == p
        &&& (w >> 4u32) & 1 == d
        &&& (w >> 5u32) & 3 == 3
        &&& (w >> 3u32) & 1 == 0
        &&& w & !0x73u32 == 0
    }) by (bit_vector)
        requires
            p <= 1,
            d <= 1,
            w == p | (d << 4u32) | (3u32 << 5u32),
    ;
}

/// The `CiTDC` word the initialization writes: with a data timing,
/// automatic compensation (`TDCMOD` = 2), edge filtering (`EDGFLTEN`) and
/// the offset `TDCO` = `DBRP * DTSEG1` clamped to 63; without one, all zero.
pub proof fn lemma_tdc_word_fields(c: Config)
    ensures
        c.data matches Some(d) ==> {
            &&& field(tdc_word(c), 8, 0x7F) == (if d.brp * d.tseg1 > 63 {
                63
            } else {
                d.brp * d.tseg1
            })
            &&& field(tdc_word(c), 16, 3) == 2
            &&& bit(tdc_word(c), 25)
            &&& field(tdc_word(c), 0, 0x3F) == 0
        },
        c.data is None ==> tdc_word(c) == 0,
{
    match c.data {
        Some(d) => {
            let o = tdco_of(d) as u32;
            let w = 0x0200_0000u32 | 0x0002_0000u32 | (o << 8u32);
            assert({
                &&& (w >> 8u32) & 0x7F == o
                &&& (w >> 16u32) & 3 == 2
                &&& (w >> 25u32) & 1 == 1
                &&& (w >> 0u32) & 0x3F == 0
            }) by (bit_vector)
                requires
                    o <= 63,
                    w == 0x0200_0000u32 | 0x0002_0000u32 | (o << 8u32),
            ;
        },
        None => {},
    }
}

/// The `CiCON` word the initialization writes requests Configuration mode
/// (`REQOP`), enables ISO CRC (`ISOCRCEN`), sets `BRSDIS` exactly when no
/// data-phase timing is configured, and leaves every other bit clear
/// (retransmission attempts unlimited, no gateway or TEF options).
pub proof fn lemma_con_word_fields(c: Config)
    ensures
        field(con_word(c), 24, 7) == mode_bits(OperationMode::Configuration),
        bit(con_word(c), 5),
        bit(con_word(c), 12) <==> c.data is None,
        con_word(c) & !0x0700_1020u32 == 0,
{
    let b = flag(c.data is None);
    let w = 0x20u32 | (b << 12u32) | (4u32 << 24u32);
    assert({
        &&& (w >> 24u32) & 7 == 4
        &&& (w >> 5u32) & 1 == 1
        &&& (w >> 12u32) & 1 == b
        &&& w & !0x0700_1020u32 == 0
    }) by (bit_vector)
        requires
            b <= 1,
            w == 0x20u32 | (b << 12u32) | (4u32 << 24u32),
    ;
}

/// The configuration batch after variant detection: restore `OSC`, zero
/// the message RAM, write the bit timing, `CiTDC` and `CiCON`, then clear
/// every interrupt flag and enable in `CiINT`.
pub open spec fn init_config_ops(c: Config) -> Seq<BusOpView> {
    seq![BusOpView::WriteSfr32(0xE00, osc_config_word(c.clock))] + zero_fill_ops() + seq![
        BusOpView::WriteSfr32(
            0x004,
            nbtcfg_word(c.nominal.brp, c.nominal.tseg1, c.nominal.tseg2, c.nominal.sjw),
        ),
    ] + match c.data {
        Some(d) => seq![BusOpView::WriteSfr32(0x008, dbtcfg_word(d.brp, d.tseg1, d.tseg2, d.sjw))],
        None => Seq::empty(),
    } + seq![
        BusOpView::WriteSfr32(0x00C, tdc_word(c)),
        BusOpView::WriteSfr32(0x000, con_word(c)),
        BusOpView::WriteSfr32(0x01C, 0),
    ]
}

/// Where the initialization stands.
pub enum InitPhase {
    /// RESET was sent.
    Reset,
    /// The oscillator stabilization delay has passed.
    Settle,
    /// Waiting for the echo word read back from RAM.
    Echo,
    /// Waiting for the `n`-th read of `OSC`.
    OscPoll(u32),
    /// Waiting out the delay after the `n`-th read of `OSC`.
    OscWait(u32),
    /// Waiting for `OSC` read back after setting `LPMEN`.
    Probe,
    /// The configuration was written and `CiINT` cleared.
    Finish(Variant),
    /// The result was handed back.
    Finished,
}

/// Resets and fully initializes the chip; the result is the detected
/// variant.
///
/// Sequence: RESET, 3 ms oscillator stabilization, RAM echo check
/// (`0xAA55AA55` at 0xBFC), oscillator setup and ready-poll (40 polls
/// 100 us apart), variant detection via `OSC.LPMEN`, message-RAM zero fill,
/// bit timing, `CiTDC`, `CiCON` (ISO CRC, stays in Configuration mode),
/// then all interrupt flags and enables cleared. Configure FIFOs and
/// filters afterwards, then switch modes.
///
/// The RESET assumes the chip is already in Configuration mode, as it is
/// right after power-on: on a warm restart where the chip was left in
/// another mode, RESET is not guaranteed to take effect, so power-cycle the
/// chip or otherwise make sure of Configuration mode before initializing.
pub struct InitSequence {
    /// The configuration being applied.
    pub config: Config,
    /// Where the initialization stands.
    pub phase: InitPhase,
}

impl InitSequence {
    /// Bytes the sequence expects back from the last batch it handed out.
    pub open spec fn awaited(&self) -> nat {
        match self.phase {
            InitPhase::Echo => 4,
            InitPhase::OscPoll(_) => 4,
            InitPhase::Probe => 4,
            _ => 0,
        }
    }

    /// The sequence invariant: an accepted configuration, poll counts within
    /// their limits.
    pub open spec fn wf(&self) -> bool {
        &&& (!(self.phase is Finished) ==> config_check(self.config) is Ok)
        &&& match self.phase {
            InitPhase::OscPoll(n) => 1 <= n <= 40,
            InitPhase::OscWait(n) => 1 <= n <= 40,
            _ => true,
        }
    }

    /// Starts initializing with `config`: an invalid configuration fails
    /// at once with [`Error::InvalidConfig`], before any SPI access.
    pub fn start<E>(config: &Config) -> (r: (InitSequence, Step<Variant, E>))
        ensures
            r.0.wf(),
            r.0.config == *config,
            hands_out(r.1@, r.0.awaited()),
            config_check(*config) matches Err(e) ==> r.1@ == StepView::<Variant, E>::Done(
                Err(Error::InvalidConfig(e)),
            ) && r.0.phase is Finished,
            config_check(*config) is Ok ==> r.1@ == StepView::<Variant, E>::Bus(
                seq![BusOpView::Reset],
            ) && r.0.phase is Reset,
    {
        match config.validate() {
            Err(e) => (
                InitSequence { config: *config, phase: InitPhase::Finished },
                Step::Done(Err(Error::InvalidConfig(e))),
            ),
            Ok(()) => {
                let mut ops: Vec<BusOp> = Vec::new();
                ops.push(BusOp::Reset);
                let r = Step::Bus(ops);
                assert(r@->Bus_0 =~= seq![BusOpView::Reset]);
                (InitSequence { config: *config, phase: InitPhase::Reset }, r)
            },
        }
    }

    /// Continues with the bytes read by the last batch.
    pub fn resume<E>(&mut self, st: &mut DriverState, reply: &[u8]) -> (r: Step<Variant, E>)
        requires
            old(self).wf(),
            !(old(self).phase is Finished),
            reply@.len() == old(self).awaited(),
        ensures
            final(self).wf(),
            final(self).config == old(self).config,
            hands_out(r@, final(self).awaited()),
            !(old(self).phase is Probe) ==> final(st)@ == old(st)@,
            old(self).phase is Reset ==> r@ == StepView::<Variant, E>::Delay(3000)
                && final(self).phase is Settle,
            old(self).phase is Settle ==> r@ == StepView::<Variant, E>::Bus(
                seq![BusOpView::WriteRam(0xBFC, le32(0xAA55_AA55)), BusOpView::ReadRam(0xBFC, 4)],
            ) && final(self).phase is Echo,
            old(self).phase is Echo ==> {
                &&& word_at(reply@, 0) != 0xAA55_AA55 ==> r@ == StepView::<Variant, E>::Done(
                    Err(Error::CommunicationCheckFailed),
                ) && final(self).phase is Finished
                &&& word_at(reply@, 0) == 0xAA55_AA55 ==> r@ == StepView::<Variant, E>::Bus(
                    seq![
                        BusOpView::WriteSfr32(0xE00, osc_config_word(old(self).config.clock)),
                        BusOpView::ReadSfr32(0xE00),
                    ],
                ) && final(self).phase == InitPhase::OscPoll(1)
            },
            old(self).phase matches InitPhase::OscPoll(n) ==> {
                &&& osc_settled(word_at(reply@, 0), old(self).config.clock) ==> r@ == StepView::<
                    Variant,
                    E,
                >::Bus(
                    seq![
                        BusOpView::WriteSfr32(0xE00, osc_config_word(old(self).config.clock) | 8),
                        BusOpView::ReadSfr32(0xE00),
                    ],
                ) && final(self).phase is Probe
                &&& !osc_settled(word_at(reply@, 0), old(self).config.clock) ==> r@ == StepView::<
                    Variant,
                    E,
                >::Delay(100) && final(self).phase == InitPhase::OscWait(n)
            },
            old(self).phase matches InitPhase::OscWait(n) ==> {
                &&& n < 40 ==> r@ == StepView::<Variant, E>::Bus(seq![BusOpView::ReadSfr32(0xE00)])
                    && final(self).phase == InitPhase::OscPoll((n + 1) as u32)
                &&& n >= 40 ==> r@ == StepView::<Variant, E>::Done(Err(Error::ClockNotReady))
                    && final(self).phase is Finished
            },
            old(self).phase is Probe ==> {
                let v = variant_of_probe(word_at(reply@, 0));
                &&& r@ == StepView::<Variant, E>::Bus(init_config_ops(old(self).config))
                &&& final(self).phase == InitPhase::Finish(v)
                &&& final(st)@.seq == old(st)@.seq
                &&& final(st)@.mask == variant_seq_mask(v)
            },
            old(self).phase matches InitPhase::Finish(v) ==> r@ == StepView::<Variant, E>::Done(
                Ok(v),
            ) && final(self).phase is Finished,
    {
        match self.phase {
            InitPhase::Finished => Step::Done(Err(Error::CommunicationCheckFailed)),
            InitPhase::Reset => {
                self.phase = InitPhase::Settle;
                Step::Delay(SETTLE_US)
            },
            InitPhase::Settle => {
                let echo = le_bytes(ECHO);
                let mut data: Vec<u8> = Vec::new();
                data.push(echo[0]);
                data.push(echo[1]);
                data.push(echo[2]);
                data.push(echo[3]);
                assert(data@ =~= le32(0xAA55_AA55));
                let mut ops: Vec<BusOp> = Vec::new();
                ops.push(BusOp::WriteRam { addr: ECHO_ADDR, data });
                ops.push(BusOp::ReadRam { addr: ECHO_ADDR, len: 4 });
                self.phase = InitPhase::Echo;
                let r = Step::Bus(ops);
                assert(r@->Bus_0 =~= seq![
                    BusOpView::WriteRam(0xBFC, le32(0xAA55_AA55)),
                    BusOpView::ReadRam(0xBFC, 4),
                ]);
                r
            },
            InitPhase::Echo => {
                if word_from_le(reply, 0) != ECHO {
                    self.phase = InitPhase::Finished;
                    return Step::Done(Err(Error::CommunicationCheckFailed));
                }
                let osc = osc_value(&self.config.clock);
                let mut ops: Vec<BusOp> = Vec::new();
                ops.push(BusOp::WriteSfr32 { addr: OSC, value: osc });
                ops.push(BusOp::ReadSfr32 { addr: OSC });
                self.phase = InitPhase::OscPoll(1);
                let r = Step::Bus(ops);
                assert(r@->Bus_0 =~= seq![
                    BusOpView::WriteSfr32(0xE00, osc_config_word(self.config.clock)),
                    BusOpView::ReadSfr32(0xE00),
                ]);
                r
            },
            InitPhase::OscPoll(n) => {
                let status = Osc(word_from_le(reply, 0));
                if status.osc_ready() && (!self.config.clock.pll || status.pll_ready()) {
                    let osc = osc_value(&self.config.clock);
                    let probe = Osc(osc).with_lpmen(true).0;
                    assert(with_field(osc, 3, 1, 1) == osc | 8) by (bit_vector);
                    let mut ops: Vec<BusOp> = Vec::new();
                    ops.push(BusOp::WriteSfr32 { addr: OSC, value: probe });
                    ops.push(BusOp::ReadSfr32 { addr: OSC });
                    self.phase = InitPhase::Probe;
                    let r = Step::Bus(ops);
                    assert(r@->Bus_0 =~= seq![
                        BusOpView::WriteSfr32(0xE00, osc_config_word(self.config.clock) | 8),
                        BusOpView::ReadSfr32(0xE00),
                    ]);
                    r
                } else {
                    self.phase = InitPhase::OscWait(n);
                    Step::Delay(100)
                }
            },
            InitPhase::OscWait(n) => {
                if n < OSC_POLLS {
                    let mut ops: Vec<BusOp> = Vec::new();
                    ops.push(BusOp::ReadSfr32 { addr: OSC });
                    self.phase = InitPhase::OscPoll(n + 1);
                    let r = Step::Bus(ops);
                    assert(r@->Bus_0 =~= seq![BusOpView::ReadSfr32(0xE00)]);
                    r
                } else {
                    self.phase = InitPhase::Finished;
                    Step::Done(Err(Error::ClockNotReady))
                }
            },
            InitPhase::Probe => {
                let status = Osc(word_from_le(reply, 0));
                let variant = if status.lpmen() {
                    Variant::Mcp2518Fd
                } else {
                    Variant::Mcp2517Fd
                };
                st.set_mask(variant.seq_mask());
                let ops = config_ops(&self.config);
                self.phase = InitPhase::Finish(variant);
                Step::Bus(ops)
            },
            InitPhase::Finish(v) => {
                self.phase = InitPhase::Finished;
                Step::Done(Ok(v))
            },
        }
    }
}

/// The `OSC` word for a clock configuration, built through the register
/// accessors.
fn osc_value(c: &ClockConfig) -> (r: u32)
    ensures
        r == osc_config_word(*c),
{
    let osc = Osc(0).with_pll_enabled(c.pll).with_sclk_div2(c.sclk_div2).with_clko_div(0b11);
    let ghost p = flag(c.pll);
    let ghost d = flag(c.sclk_div2);
    assert(with_field(with_field(with_field(0, 0, 1, p), 4, 1, d), 5, 3, 3) == p | (d << 4u32) | (3u32
        << 5u32)) by (bit_vector)
        requires
            p <= 1,
            d <= 1,
    ;
    osc.0
}

/// The `CiTDC` word for a configuration, built through the register
/// accessors.
fn tdc_value(c: &Config) -> (r: u32)
    ensures
        r == tdc_word(*c),
{
    match c.data {
        Some(d) => {
            let t = d.tdco();
            let tdc = CiTdc(0).with_mode(TdcMode::Auto).with_tdco(t).with_edge_filter(true);
            let ghost o = t as u32;
            assert(with_field(with_field(with_field(0, 16, 3, 2), 8, 0x7F, o), 25, 1, 1) == 0x0200_0000u32
                | 0x0002_0000u32 | (o << 8u32)) by (bit_vector)
                requires
                    o <= 63,
            ;
            tdc.0
        },
        None => 0,
    }
}

/// The `CiCON` word for a configuration, built through the register
/// accessors.
fn con_value(c: &Config) -> (r: u32)
    ensures
        r == con_word(*c),
{
    let con = CiCon(0).with_iso_crc_enabled(true).with_brs_disabled(c.data.is_none()).with_req_op_mode(
        OperationMode::Configuration,
    );
    let ghost b = flag(c.data is None);
    assert(with_field(with_field(with_field(0, 5, 1, 1), 12, 1, b), 24, 7, 4) == 0x20u32 | (b
        << 12u32) | (4u32 << 24u32)) by (bit_vector)
        requires
            b <= 1,
    ;
    con.0
}

/// Builds the configuration batch of the initialization.
fn config_ops(c: &Config) -> (r: Vec<BusOp>)
    requires
        config_check(*c) is Ok,
    ensures
        crate::bus::ops_view(r@) == init_config_ops(*c),
{
    let mut ops: Vec<BusOp> = Vec::new();
    ops.push(BusOp::WriteSfr32 { addr: OSC, value: osc_value(&c.clock) });
    let ghost head = seq![BusOpView::WriteSfr32(0xE00, osc_config_word(c.clock))];
    assert(crate::bus::ops_view(ops@) =~= head);
    let mut k: u16 = 0;
    while k < 32
        invariant
            k <= 32,
            crate::bus::ops_view(ops@) == head + zero_fill_ops().take(k as int),
        decreases 32 - k,
    {
        let zeros: Vec<u8> = zero_block();
        let ghost before = ops@;
        let a = RAM_START + 64 * k;
        ops.push(BusOp::WriteRam { addr: a, data: zeros });
        assert(zero_fill_ops()[k as int] == BusOpView::WriteRam(a, Seq::new(64, |j: int| 0u8)));
        assert(crate::bus::ops_view(ops@) =~= crate::bus::ops_view(before).push(
            BusOpView::WriteRam(a, Seq::new(64, |j: int| 0u8)),
        ));
        k = k + 1;
        assert(crate::bus::ops_view(ops@) =~= head + zero_fill_ops().take(k as int));
    }
    assert(zero_fill_ops().take(32) =~= zero_fill_ops());
    let n = c.nominal.to_reg();
    ops.push(BusOp::WriteSfr32 { addr: C1NBTCFG, value: n.0 });
    match c.data {
        Some(d) => {
            let dr = d.to_reg();
            ops.push(BusOp::WriteSfr32 { addr: C1DBTCFG, value: dr.0 });
        },
        None => {},
    }
    ops.push(BusOp::WriteSfr32 { addr: C1TDC, value: tdc_value(c) });
    ops.push(BusOp::WriteSfr32 { addr: C1CON, value: con_value(c) });
    ops.push(BusOp::WriteSfr32 { addr: C1INT, value: 0 });
    assert(crate::bus::ops_view(ops@) =~= init_config_ops(*c));
    ops
}

/// 64 zero bytes.
fn zero_block() -> (r: Vec<u8>)
    ensures
        r@ == Seq::new(64, |j: int| 0u8),
{
    let mut v: Vec<u8> = Vec::new();
    let mut i: usize = 0;
    while i < 64
        invariant
            i <= 64,
            v@ == Seq::new(i as nat, |j: int| 0u8),
        decreases 64 - i,
    {
        v.push(0);
        i = i + 1;
        assert(v@ =~= Seq::new(i as nat, |j: int| 0u8));
    }
    v
}

} // verus!
