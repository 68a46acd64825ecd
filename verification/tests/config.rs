use mcp251xfd::config::FilterMatch;
use mcp251xfd::{
    max_spi_hz, CanId, ClockConfig, Config, ConfigError, DataBitTiming, NominalBitTiming,
};

#[test]
fn spi_cap() {
    assert_eq!(max_spi_hz(40_000_000), 17_000_000);
    assert_eq!(max_spi_hz(20_000_000), 8_500_000);
}

#[test]
fn clock_sysclk() {
    assert_eq!(ClockConfig::MHZ40().sysclk_hz(), 40_000_000);
    assert_eq!(ClockConfig::MHZ4_PLL().sysclk_hz(), 40_000_000);
    let div = ClockConfig {
        xtal_hz: 40_000_000,
        pll: false,
        sclk_div2: true,
    };
    assert_eq!(div.sysclk_hz(), 20_000_000);
    // PLL only valid from a 4 MHz-class input.
    assert!(ClockConfig {
        xtal_hz: 40_000_000,
        pll: true,
        sclk_div2: false
    }
    .validate()
    .is_err());
}

#[test]
fn preset_bit_counts() {
    // Preset invariant: sysclk / (brp * (1 + tseg1 + tseg2)) = bit rate.
    for (p, rate) in [
        (NominalBitTiming::KBPS125_40MHZ(), 125_000u32),
        (NominalBitTiming::KBPS250_40MHZ(), 250_000),
        (NominalBitTiming::KBPS500_40MHZ(), 500_000),
        (NominalBitTiming::MBPS1_40MHZ(), 1_000_000),
    ] {
        let tq = 1 + p.tseg1 as u32 + p.tseg2 as u32;
        assert_eq!(40_000_000 / (p.brp as u32 * tq), rate);
        assert!(p.validate().is_ok());
        assert!(p.sjw <= p.tseg2);
    }
    for (p, rate) in [
        (DataBitTiming::MBPS2_40MHZ(), 2_000_000u32),
        (DataBitTiming::MBPS5_40MHZ(), 5_000_000),
        (DataBitTiming::MBPS8_40MHZ(), 8_000_000),
    ] {
        let tq = 1 + p.tseg1 as u32 + p.tseg2 as u32;
        assert_eq!(40_000_000 / (p.brp as u32 * tq), rate);
        assert!(p.validate().is_ok());
    }
    // Pin the exact register words (FRM DS20005678E Table 3-5).
    assert_eq!(NominalBitTiming::KBPS500_40MHZ().to_reg().0, 0x003E_0F0F);
    assert_eq!(DataBitTiming::MBPS2_40MHZ().to_reg().0, 0x000E_0303);
}

#[test]
fn timing_validation() {
    let mut t = NominalBitTiming::KBPS500_40MHZ();
    t.brp = 0;
    assert!(t.validate().is_err());
    t = NominalBitTiming::KBPS500_40MHZ();
    t.sjw = t.tseg2 + 1;
    assert!(t.validate().is_err());
    let mut d = DataBitTiming::MBPS2_40MHZ();
    d.tseg1 = 33;
    assert!(d.validate().is_err());
}

#[test]
fn tdco_follows_recipe() {
    // TDCO = DBRP * DTSEG1, clamped to 63 (7-bit signed max).
    assert_eq!(DataBitTiming::MBPS2_40MHZ().tdco(), 15);
    let big = DataBitTiming {
        brp: 16,
        tseg1: 16,
        tseg2: 4,
        sjw: 4,
    };
    assert_eq!(big.tdco(), 63);
}

#[test]
fn filter_match() {
    let id = CanId::standard(0x123).unwrap();
    let m = FilterMatch::exact(id);
    assert_eq!(m.fltobj, 0x123);
    // Mask: all 11 SID bits + MIDE (bit 30).
    assert_eq!(m.mask, 0x7FF | (1 << 30));
    let eid = CanId::extended(0x0CFE_6E01).unwrap();
    let me = FilterMatch::exact(eid);
    assert_eq!(me.fltobj & (1 << 30), 1 << 30); // EXIDE set
    assert_eq!(me.mask, 0x1FFF_FFFF | (1 << 30));
    assert_eq!(FilterMatch::accept_all().mask, 0);
}

#[test]
fn presets_are_the_documented_values() {
    assert_eq!(ClockConfig::MHZ20().sysclk_hz(), 20_000_000);
    assert!(ClockConfig::MHZ40().validate().is_ok());
    assert!(ClockConfig::MHZ20().validate().is_ok());
    assert!(ClockConfig::MHZ4_PLL().validate().is_ok());
    let t = NominalBitTiming::KBPS125_40MHZ();
    assert_eq!((t.brp, t.tseg1, t.tseg2, t.sjw), (2, 127, 32, 32));
    let d = DataBitTiming::MBPS5_40MHZ();
    assert_eq!((d.brp, d.tseg1, d.tseg2, d.sjw), (1, 5, 2, 2));
}

#[test]
fn bit_rate_and_sample_point_check_the_clock_pairing() {
    let config = Config {
        clock: ClockConfig::MHZ40(),
        nominal: NominalBitTiming::KBPS500_40MHZ(),
        data: Some(DataBitTiming::MBPS2_40MHZ()),
    };
    let sysclk = config.clock.sysclk_hz();
    assert_eq!(config.nominal.bit_rate_hz(sysclk), 500_000);
    assert_eq!(config.nominal.sample_point_permille(), 800);
    // A 40 MHz preset on a 20 MHz clock runs at half the rate.
    assert_eq!(
        config
            .nominal
            .bit_rate_hz(ClockConfig::MHZ20().sysclk_hz()),
        250_000
    );
}

#[test]
fn clock_range_edges() {
    let c = |xtal_hz, pll, sclk_div2| ClockConfig {
        xtal_hz,
        pll,
        sclk_div2,
    };
    assert!(c(2_000_000, false, false).validate().is_ok());
    assert_eq!(c(1_999_999, false, false).validate(), Err(ConfigError::Clock));
    assert_eq!(c(40_000_001, false, false).validate(), Err(ConfigError::Clock));
    assert!(c(80_000_000, false, true).validate().is_ok());
    assert!(c(5_000_000, true, true).validate().is_ok()); // 25 MHz
    assert_eq!(c(5_000_000, true, false).validate(), Err(ConfigError::Clock)); // 50 MHz
    assert_eq!(c(5_000_001, true, true).validate(), Err(ConfigError::Clock));
}

#[test]
fn config_reports_first_failing_part() {
    let good = Config {
        clock: ClockConfig::MHZ40(),
        nominal: NominalBitTiming::KBPS500_40MHZ(),
        data: Some(DataBitTiming::MBPS2_40MHZ()),
    };
    assert!(good.validate().is_ok());
    let mut bad_all = good;
    bad_all.clock.xtal_hz = 1;
    bad_all.nominal.brp = 0;
    bad_all.data = Some(DataBitTiming {
        brp: 0,
        tseg1: 1,
        tseg2: 1,
        sjw: 1,
    });
    assert_eq!(bad_all.validate(), Err(ConfigError::Clock));
    let mut bad_timing = bad_all;
    bad_timing.clock = ClockConfig::MHZ40();
    assert_eq!(bad_timing.validate(), Err(ConfigError::NominalBitTiming));
    let mut bad_data = bad_timing;
    bad_data.nominal = NominalBitTiming::KBPS500_40MHZ();
    assert_eq!(bad_data.validate(), Err(ConfigError::DataBitTiming));
    bad_data.data = None;
    assert!(bad_data.validate().is_ok());
}

#[test]
fn timing_range_edges() {
    let n = |brp, tseg1, tseg2, sjw| NominalBitTiming {
        brp,
        tseg1,
        tseg2,
        sjw,
    };
    assert!(n(256, 256, 128, 128).validate().is_ok());
    assert!(n(1, 2, 1, 1).validate().is_ok());
    assert_eq!(n(257, 2, 1, 1).validate(), Err(ConfigError::NominalBitTiming));
    assert_eq!(n(1, 1, 1, 1).validate(), Err(ConfigError::NominalBitTiming));
    assert_eq!(n(1, 2, 129, 1).validate(), Err(ConfigError::NominalBitTiming));
    let d = |brp, tseg1, tseg2, sjw| DataBitTiming {
        brp,
        tseg1,
        tseg2,
        sjw,
    };
    assert!(d(256, 32, 16, 16).validate().is_ok());
    assert_eq!(d(1, 0, 1, 1).validate(), Err(ConfigError::DataBitTiming));
    assert_eq!(d(1, 1, 17, 1).validate(), Err(ConfigError::DataBitTiming));
    assert_eq!(d(1, 1, 2, 3).validate(), Err(ConfigError::DataBitTiming));
}

#[test]
fn masked_filter_packs_the_natural_mask() {
    let id = CanId::standard(0x123).unwrap();
    let m = FilterMatch::with_mask(id, 0x7F0);
    assert_eq!(m.fltobj, 0x123);
    assert_eq!(m.mask, 0x7F0 | (1 << 30));
    // Extended: mask bits 28:18 go to the SID field, 17:0 to bits 28:11.
    let eid = CanId::extended(0x0CFE_6E01).unwrap();
    let me = FilterMatch::with_mask(eid, 0x1FFC_0000);
    assert_eq!(me.mask, 0x7FF | (1 << 30));
    let me = FilterMatch::with_mask(eid, 0x0003_FFFF);
    assert_eq!(me.mask, (0x3_FFFF << 11) | (1 << 30));
}

#[test]
fn exact_filter_accepts_only_its_identifier() {
    // A frame matches when (frame_word ^ fltobj) & mask == 0, where the
    // frame word carries EXIDE in bit 30 for extended identifiers.
    let word = |id: CanId| match id {
        CanId::Standard(_) => mcp251xfd::registers::objects::pack_id(id),
        CanId::Extended(_) => mcp251xfd::registers::objects::pack_id(id) | (1 << 30),
    };
    let accepts = |m: FilterMatch, id: CanId| (word(id) ^ m.fltobj) & m.mask == 0;
    let s = CanId::standard(0x123).unwrap();
    let e = CanId::extended(0x123).unwrap();
    let ms = FilterMatch::exact(s);
    assert!(accepts(ms, s));
    assert!(!accepts(ms, e));
    assert!(!accepts(ms, CanId::standard(0x122).unwrap()));
    let me = FilterMatch::exact(e);
    assert!(accepts(me, e));
    assert!(!accepts(me, s));
    assert!(accepts(FilterMatch::accept_all(), e));
}

#[test]
fn preset_500k_at_20mhz() {
    let p = NominalBitTiming::KBPS500_20MHZ();
    assert!(p.validate().is_ok());
    assert_eq!(p.bit_rate_hz(20_000_000), 500_000);
    assert_eq!(p.sample_point_permille(), 800);
    // The same timing on a 40 MHz clock runs at twice the rate.
    assert_eq!(p.bit_rate_hz(40_000_000), 1_000_000);
}
