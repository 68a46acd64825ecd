use mcp251xfd::{ConfigError, Error};

#[test]
fn error_is_debug_and_display() {
    let e: Error<()> = Error::TxFifoFull;
    assert_eq!(format!("{e:?}"), "TxFifoFull");
    assert_eq!(e.message(), "TX FIFO is full");
    let e: Error<()> = Error::InvalidConfig(ConfigError::NominalBitTiming);
    assert!(e.message().contains("nominal"));
}

#[test]
fn every_error_has_its_message() {
    let cases: [(Error<u8>, &str); 13] = [
        (Error::Spi(7), "SPI error"),
        (
            Error::CommunicationCheckFailed,
            "RAM echo test failed (wiring or SPI clock too fast)",
        ),
        (Error::ClockNotReady, "oscillator/PLL not ready"),
        (Error::ModeChangeTimeout, "operation mode change timed out"),
        (Error::NotInConfigMode, "chip is not in Configuration mode"),
        (Error::TxFifoFull, "TX FIFO is full"),
        (Error::RxFifoEmpty, "RX FIFO is empty"),
        (Error::RamOverflow, "FIFO layout exceeds 2048-byte message RAM"),
        (
            Error::InvalidConfig(ConfigError::NominalBitTiming),
            "invalid nominal bit timing",
        ),
        (
            Error::InvalidConfig(ConfigError::DataBitTiming),
            "invalid data bit timing",
        ),
        (
            Error::InvalidConfig(ConfigError::Clock),
            "invalid clock configuration",
        ),
        (Error::InvalidPayloadLength, "invalid payload length"),
        (Error::IntPin, "interrupt pin wait failed"),
    ];
    for (e, m) in cases {
        assert_eq!(e.message(), m);
    }
}
