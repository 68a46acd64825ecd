use mcp251xfd::registers::ram::{FifoDirection, FifoEntry, FifoLayout, LayoutError};
use mcp251xfd::registers::{Fifo, PayloadSize};

#[test]
fn element_and_total_sizes() {
    // (8 header + 64 payload) * 4 + (8 + 64) * 8 = 288 + 576 = 864.
    let l = FifoLayout::new()
        .tx_fifo(Fifo::F1(), PayloadSize::B64, 4)
        .rx_fifo(Fifo::F2(), PayloadSize::B64, 8);
    assert_eq!(l.total_bytes(), 864);
    assert_eq!(l.entries().len(), 2);
    let e = l.entry(Fifo::F2()).unwrap();
    assert_eq!(e.depth, 8);
    assert!(matches!(e.direction, FifoDirection::Receive));
}

#[test]
fn exactly_full_is_ok() {
    // 16 bytes/element * 32 deep * 4 FIFOs = 2048 exactly.
    let l = FifoLayout::new()
        .rx_fifo(Fifo::F1(), PayloadSize::B8, 32)
        .rx_fifo(Fifo::F2(), PayloadSize::B8, 32)
        .rx_fifo(Fifo::F3(), PayloadSize::B8, 32)
        .rx_fifo(Fifo::F4(), PayloadSize::B8, 32);
    assert_eq!(l.total_bytes(), 2048);
}

#[test]
fn overflow_is_err_at_runtime() {
    let l = FifoLayout::new().rx_fifo(Fifo::F1(), PayloadSize::B64, 28); // 72 * 28 = 2016
    assert!(matches!(
        l.try_rx_fifo(Fifo::F2(), PayloadSize::B64, 1),
        Err(LayoutError::RamOverflow)
    ));
}

#[test]
fn bad_depth_and_duplicates() {
    let l = FifoLayout::new().tx_fifo(Fifo::F1(), PayloadSize::B8, 1);
    assert!(matches!(
        l.try_tx_fifo(Fifo::F1(), PayloadSize::B8, 1),
        Err(LayoutError::AlreadyConfigured)
    ));
    assert!(matches!(
        FifoLayout::new().try_tx_fifo(Fifo::F2(), PayloadSize::B8, 0),
        Err(LayoutError::BadDepth)
    ));
    assert!(matches!(
        FifoLayout::new().try_tx_fifo(Fifo::F2(), PayloadSize::B8, 33),
        Err(LayoutError::BadDepth)
    ));
}

#[test]
fn const_layout_compiles() {
    let layout: FifoLayout = FifoLayout::new()
        .tx_fifo(Fifo::F1(), PayloadSize::B64, 4)
        .rx_fifo(Fifo::F2(), PayloadSize::B64, 8);
    assert_eq!(layout.total_bytes(), 864);
}

#[test]
fn const_ram_overflow_fails_to_compile() {
    // 72 bytes/element * 29 = 2088 > 2048: such a layout is refused.
    assert!(matches!(
        FifoLayout::new().try_rx_fifo(Fifo::F1(), PayloadSize::B64, 29),
        Err(LayoutError::RamOverflow)
    ));
}

#[test]
fn entries_come_in_fifo_order() {
    let l = FifoLayout::new()
        .rx_fifo(Fifo::F7(), PayloadSize::B12, 2)
        .tx_fifo(Fifo::F2(), PayloadSize::B8, 3)
        .rx_fifo(Fifo::F31(), PayloadSize::B16, 1);
    let e = l.entries();
    let numbers: Vec<u8> = e.iter().map(|(f, _)| f.index()).collect();
    assert_eq!(numbers, vec![2, 7, 31]);
    assert_eq!(
        e[0].1,
        FifoEntry {
            direction: FifoDirection::Transmit,
            payload: PayloadSize::B8,
            depth: 3
        }
    );
    // 16 * 3 + 20 * 2 + 24 * 1.
    assert_eq!(l.total_bytes(), 48 + 40 + 24);
    assert_eq!(l.entry(Fifo::F3()), None);
}

#[test]
fn errors_are_checked_in_order() {
    let full = FifoLayout::new().rx_fifo(Fifo::F1(), PayloadSize::B64, 28);
    // Bad depth wins over a taken slot and over overflow.
    assert_eq!(
        full.try_rx_fifo(Fifo::F1(), PayloadSize::B64, 40).unwrap_err(),
        LayoutError::BadDepth
    );
    // A taken slot wins over overflow.
    assert_eq!(
        full.try_rx_fifo(Fifo::F1(), PayloadSize::B64, 32).unwrap_err(),
        LayoutError::AlreadyConfigured
    );
    let entry = FifoEntry {
        direction: FifoDirection::Receive,
        payload: PayloadSize::B8,
        depth: 2,
    };
    assert_eq!(entry.bytes(), 32);
    let l = full.try_add(Fifo::F2(), entry).unwrap();
    assert_eq!(l.total_bytes(), 2016 + 32);
    let d = FifoLayout::default();
    assert_eq!(d.total_bytes(), 0);
    assert!(d.entries().is_empty());
}

#[test]
fn tx_fifo_agrees_with_try_tx_fifo() {
    let base = FifoLayout::new().rx_fifo(Fifo::F1(), PayloadSize::B64, 8);
    let a = base.tx_fifo(Fifo::F2(), PayloadSize::B16, 5);
    let b = base.try_tx_fifo(Fifo::F2(), PayloadSize::B16, 5).unwrap();
    assert_eq!(a.total_bytes(), b.total_bytes());
    assert_eq!(a.entries(), b.entries());
    assert_eq!(
        a.entry(Fifo::F2()),
        Some(FifoEntry { direction: FifoDirection::Transmit, payload: PayloadSize::B16, depth: 5 })
    );
    assert_eq!(a.total_bytes(), 576 + 120);
}
