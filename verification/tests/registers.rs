use mcp251xfd::registers::addr;
use mcp251xfd::registers::{
    CiCon, CiDbtCfg, CiFifoCon, CiFifoSta, CiInt, CiNbtCfg, CiTdc, CiTrec, CiVec, Fifo, Filter,
    OperationMode, Osc, PayloadSize, TdcMode, Variant,
};

#[test]
fn fifo_addresses_match_datasheet() {
    // Reference manual: CiFIFOCONm = 0x05C + 12 * (m - 1).
    assert_eq!(addr::fifo_con(Fifo::F1()), 0x05C);
    assert_eq!(addr::fifo_sta(Fifo::F1()), 0x060);
    assert_eq!(addr::fifo_ua(Fifo::F1()), 0x064);
    assert_eq!(addr::fifo_con(Fifo::F2()), 0x068);
    assert_eq!(addr::fifo_con(Fifo::F31()), 0x1C4);
}

#[test]
fn filter_addresses_match_datasheet() {
    assert_eq!(addr::flt_con_byte(Filter::F0()), 0x1D0);
    assert_eq!(addr::flt_con_byte(Filter::F31()), 0x1EF);
    assert_eq!(addr::flt_obj(Filter::F0()), 0x1F0);
    assert_eq!(addr::flt_mask(Filter::F0()), 0x1F4);
    assert_eq!(addr::flt_obj(Filter::F31()), 0x2E8);
}

#[test]
fn osc_round_trip() {
    let osc = Osc(0).with_pll_enabled(true).with_lpmen(true);
    assert!(osc.pll_enabled() && osc.lpmen());
    assert_eq!(osc.0, (1 << 0) | (1 << 3));
    // Ready bits per datasheet: PLLRDY=8, OSCRDY=10, SCLKRDY=12.
    assert!(Osc(1 << 10).osc_ready());
    assert!(Osc(1 << 8).pll_ready());
    assert!(Osc(1 << 12).sclk_ready());
}

#[test]
fn cicon_round_trip() {
    let con = CiCon(0)
        .with_iso_crc_enabled(true)
        .with_req_op_mode(OperationMode::Configuration);
    assert_eq!(con.0, (1 << 5) | (0b100 << 24));
    // OPMOD is read-only, bits 23:21.
    assert_eq!(CiCon(0b100 << 21).op_mode(), OperationMode::Configuration);
    assert_eq!(CiCon(0b000 << 21).op_mode(), OperationMode::NormalFd);
    assert_eq!(CiCon(0b110 << 21).op_mode(), OperationMode::Normal20);
}

#[test]
fn ciint_flags() {
    // CiINT low half: TXIF=0, RXIF=1, MODIF=3, CERRIF=13, RXOVIF=11.
    let i = CiInt(1 << 1 | 1 << 3);
    assert!(i.rxif() && i.modif() && !i.txif());
    assert_eq!(CiInt(0).with_rxie(true).0, 1 << 17);
    assert_eq!(CiInt(0).with_txie(true).0, 1 << 16);
}

#[test]
fn citrec_counters() {
    let t = CiTrec(0x0021_1503);
    assert_eq!(t.rec(), 0x03);
    assert_eq!(t.tec(), 0x15);
    assert!(t.tx_bus_off()); // TXBO = bit 21
}

#[test]
fn payload_size_codes() {
    assert_eq!(PayloadSize::B8.bytes(), 8);
    assert_eq!(PayloadSize::B64.bytes(), 64);
    assert_eq!(PayloadSize::B8.plsize_code(), 0);
    assert_eq!(PayloadSize::B64.plsize_code(), 7);
    assert_eq!(PayloadSize::from_code(5), PayloadSize::B32);
}

#[test]
fn nbtcfg_stores_minus_one() {
    // 40 MHz, 500 kbit/s, 80 TQ: brp=1, tseg1=63, tseg2=16, sjw=16.
    let r = CiNbtCfg::new(1, 63, 16, 16);
    // BRP bits 31:24, TSEG1 23:16, TSEG2 14:8, SJW 6:0, all value-1.
    assert_eq!(r.0, 0x003E_0F0F);
}

#[test]
fn dbtcfg_stores_minus_one() {
    // 2 Mbit/s data phase, 20 TQ: brp=1, tseg1=15, tseg2=4, sjw=4.
    let r = CiDbtCfg::new(1, 15, 4, 4);
    assert_eq!(r.0, 0x000E_0303);
}

#[test]
fn tdc_auto_mode() {
    let r = CiTdc(0)
        .with_mode(TdcMode::Auto)
        .with_tdco(15)
        .with_edge_filter(true);
    // TDCMOD bits 17:16 = 0b10, TDCO bits 14:8 (two's complement), EDGFLTEN bit 25.
    assert_eq!(r.0, (0b10 << 16) | (15 << 8) | (1 << 25));
    // Negative TDCO is 7-bit two's complement.
    assert_eq!(CiTdc(0).with_tdco(-1).0, 0x7F << 8);
}

#[test]
fn fifocon_fields() {
    let r = CiFifoCon(0)
        .with_tx(true)
        .with_fifo_size(4)
        .with_payload_size(PayloadSize::B64)
        .with_freset(true);
    assert_eq!(r.0, (1 << 7) | (1 << 10) | (3 << 24) | (7 << 29));
    let rx = CiFifoCon(0)
        .with_not_full_empty_ie(true)
        .with_rx_overflow_ie(true);
    assert_eq!(rx.0, 1 | (1 << 3));
}

#[test]
fn fifosta_fields() {
    assert!(CiFifoSta(1).not_full_or_not_empty());
    assert!(CiFifoSta(1 << 3).rx_overflow());
    assert_eq!(CiFifoSta(0x0500).fifo_index(), 5);
}

#[test]
fn fifo_and_filter_handles_range_checked() {
    assert!(Fifo::new(0).is_none());
    assert_eq!(Fifo::new(1).unwrap().index(), 1);
    assert_eq!(Fifo::new(31).unwrap(), Fifo::F31());
    assert!(Fifo::new(32).is_none());
    assert_eq!(Filter::new(0).unwrap().index(), 0);
    assert_eq!(Filter::new(31).unwrap(), Filter::F31());
    assert!(Filter::new(32).is_none());
    assert_eq!(Fifo::F17().index(), 17);
    assert_eq!(Filter::F9().index(), 9);
}

#[test]
fn operation_mode_codes_round_trip() {
    let modes = [
        OperationMode::NormalFd,
        OperationMode::Sleep,
        OperationMode::InternalLoopback,
        OperationMode::ListenOnly,
        OperationMode::Configuration,
        OperationMode::ExternalLoopback,
        OperationMode::Normal20,
        OperationMode::RestrictedOperation,
    ];
    for (i, m) in modes.iter().enumerate() {
        assert_eq!(m.bits() as usize, i);
        assert_eq!(OperationMode::from_bits(m.bits()), *m);
        // Only the low three bits count.
        assert_eq!(OperationMode::from_bits(m.bits() | 0xF8), *m);
    }
}

#[test]
fn payload_size_codes_round_trip_and_saturate() {
    let sizes = [
        (PayloadSize::B8, 8),
        (PayloadSize::B12, 12),
        (PayloadSize::B16, 16),
        (PayloadSize::B20, 20),
        (PayloadSize::B24, 24),
        (PayloadSize::B32, 32),
        (PayloadSize::B48, 48),
        (PayloadSize::B64, 64),
    ];
    for (code, (p, n)) in sizes.iter().enumerate() {
        assert_eq!(p.plsize_code() as usize, code);
        assert_eq!(p.bytes(), *n);
        assert_eq!(PayloadSize::from_code(p.plsize_code()), *p);
    }
    assert_eq!(PayloadSize::from_code(8), PayloadSize::B64);
    assert_eq!(PayloadSize::from_code(u32::MAX), PayloadSize::B64);
}

#[test]
fn bit_setters_touch_only_their_bit() {
    let all = CiInt(0xFFFF_FFFF);
    assert_eq!(all.with_rxif(false).0, 0xFFFF_FFFD);
    assert!(!all.with_rxif(false).rxif());
    assert_eq!(CiInt(0x1234_5678).with_ivmie(true).with_ivmie(false).0, 0x1234_5678);
    let con = CiCon(0xFFFF_FFFF).with_req_op_mode(OperationMode::NormalFd);
    assert_eq!(con.0, 0xF8FF_FFFF);
    assert_eq!(Osc(0xFFFF_FFFF).with_clko_div(0).0, 0xFFFF_FF9F);
    assert_eq!(Osc(0).with_clko_div(7).0, 3 << 5);
    assert_eq!(CiFifoCon(0).with_fifo_size(32).0, 31 << 24);
}

#[test]
fn vector_codes_decode() {
    let v = CiVec(0x4A2B_1C45 & 0x7F7F_007F);
    assert_eq!(v.icode(), 0x45);
    assert_eq!(v.txcode(), 0x2B);
    assert_eq!(v.rxcode(), 0x4A);
}

#[test]
fn variant_sequence_masks() {
    assert_eq!(Variant::Mcp2517Fd.seq_mask(), 0x7F);
    assert_eq!(Variant::Mcp2518Fd.seq_mask(), 0x7F_FFFF);
}

#[test]
fn bit_timing_registers_exact_words() {
    // Fields at their maxima: brp 256, tseg1 256, tseg2 128, sjw 128.
    assert_eq!(CiNbtCfg::new(256, 256, 128, 128).0, 0xFFFF_7F7F);
    assert_eq!(CiDbtCfg::new(256, 32, 16, 16).0, 0xFF1F_0F0F);
    assert_eq!(CiNbtCfg::new(1, 1, 1, 1).0, 0);
}
