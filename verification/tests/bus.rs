use mcp251xfd::bus::{cmd, le_bytes, word_from_le, BusOp, Opcode};

#[test]
fn command_encoding() {
    assert_eq!(cmd(Opcode::Read, 0x000), [0x30, 0x00]);
    assert_eq!(cmd(Opcode::Write, 0xE00), [0x2E, 0x00]);
    assert_eq!(cmd(Opcode::Read, 0xBFC), [0x3B, 0xFC]);
    assert_eq!(cmd(Opcode::Reset, 0x000), [0x00, 0x00]);
}

#[test]
fn read_sfr32_is_little_endian() {
    let t = BusOp::ReadSfr32 { addr: 0x000 }.transfer();
    assert_eq!(t.command, [0x30, 0x00]);
    assert!(t.write.is_empty());
    assert_eq!(t.read_len, 4);
    assert_eq!(word_from_le(&[0x60, 0x04, 0x00, 0x00], 0), 0x0000_0460);
}

#[test]
fn write_sfr32_and_sfr8() {
    let t = BusOp::WriteSfr32 {
        addr: 0xE00,
        value: 0x0000_0060,
    }
    .transfer();
    assert_eq!(t.command, [0x2E, 0x00]);
    assert_eq!(t.write, vec![0x60, 0x00, 0x00, 0x00]);
    assert_eq!(t.read_len, 0);
    let t = BusOp::WriteSfr8 {
        addr: 0x05D,
        value: 0x03,
    }
    .transfer();
    assert_eq!(t.command, [0x20, 0x5D]);
    assert_eq!(t.write, vec![0x03]);
}

#[test]
fn ram_round_trip() {
    let t = BusOp::WriteRam {
        addr: 0xBFC,
        data: le_bytes(0xAA55_AA55).to_vec(),
    }
    .transfer();
    assert_eq!(t.command, [0x2B, 0xFC]);
    assert_eq!(t.write, vec![0x55, 0xAA, 0x55, 0xAA]);
    let r = BusOp::ReadRam { addr: 0xBFC, len: 4 }.transfer();
    assert_eq!(r.command, [0x3B, 0xFC]);
    assert_eq!(r.read_len, 4);
    assert_eq!(word_from_le(&t.write, 0), 0xAA55_AA55);
}

#[test]
fn read_sfr32_pair_returns_both_registers_in_one_transaction() {
    // One command word, then eight data bytes: CiFIFOSTA1 (0x060) followed
    // by CiFIFOUA1 (0x064).
    let t = BusOp::ReadSfr32Pair { addr: 0x060 }.transfer();
    assert_eq!(t.command, [0x30, 0x60]);
    assert_eq!(t.read_len, 8);
    let reply = [
        0x03, 0x0A, 0x00, 0x00, // 0x060 -> 0x00000A03
        0x10, 0x00, 0x00, 0x00, // 0x064 -> 0x00000010
    ];
    assert_eq!(
        (word_from_le(&reply, 0), word_from_le(&reply, 4)),
        (0x0000_0A03, 0x0000_0010)
    );
}

#[test]
fn reset_is_a_bare_command() {
    let t = BusOp::Reset.transfer();
    assert_eq!(t.command, [0x00, 0x00]);
    assert!(t.write.is_empty());
    assert_eq!(t.read_len, 0);
}

#[test]
fn command_keeps_only_twelve_address_bits() {
    assert_eq!(cmd(Opcode::Write, 0xFFFF), [0x2F, 0xFF]);
    assert_eq!(cmd(Opcode::Read, 0x1234), [0x32, 0x34]);
}

#[test]
fn little_endian_round_trip() {
    for v in [0u32, 1, 0x1234_5678, 0xFFFF_FFFF, 0x8000_0001] {
        let b = le_bytes(v);
        assert_eq!(word_from_le(&b, 0), v);
    }
    assert_eq!(le_bytes(0x1234_5678), [0x78, 0x56, 0x34, 0x12]);
    assert_eq!(word_from_le(&[9, 0x78, 0x56, 0x34, 0x12], 1), 0x1234_5678);
}
