//! Byte-exact tests of the driver logic against a scripted chip.

use std::collections::VecDeque;

use mcp251xfd::bus::{cmd, BusOp, Opcode};
use mcp251xfd::driver::init::InitSequence;
use mcp251xfd::driver::mode::{ApplyLayoutJob, ReadBackJob, RecoverJob, SetModeJob};
use mcp251xfd::driver::transfer::{
    wait_rx_after_pin, wait_rx_next, wait_rx_start, ReceiveJob, TransmitJob, WaitRxStep,
};
use mcp251xfd::driver::{
    clear_interrupts_ops, clear_rx_overflow_op, configure_interrupts_ops, disable_filter_op,
    reset_fifo_op, set_filter_ops, DriverState, Step,
};
use mcp251xfd::{
    CanId, ChipConfig, CiInt, ClockConfig, Config, ConfigError, DataBitTiming, Error, Event,
    FdFrame, Fifo, FifoLayout, Filter, FilterMatch, Frame, FrameFlags, NominalBitTiming,
    OperationMode, PayloadSize, ReceivedFrame, RxFrame, Variant,
};

/// One expected SPI transaction: its command bytes and either the bytes
/// written after it or the bytes the chip answers with.
#[derive(Debug, Clone, PartialEq)]
enum Txn {
    Write(Vec<u8>, Vec<u8>),
    Read(Vec<u8>, Vec<u8>),
    Command(Vec<u8>),
}

fn w32(addr: u16, val: u32) -> Txn {
    Txn::Write(cmd(Opcode::Write, addr).to_vec(), val.to_le_bytes().to_vec())
}

fn r32(addr: u16, val: u32) -> Txn {
    Txn::Read(cmd(Opcode::Read, addr).to_vec(), val.to_le_bytes().to_vec())
}

/// One 8-byte READ returning the register at `addr` and the next one.
fn r32_pair(addr: u16, first: u32, second: u32) -> Txn {
    let mut b = first.to_le_bytes().to_vec();
    b.extend_from_slice(&second.to_le_bytes());
    Txn::Read(cmd(Opcode::Read, addr).to_vec(), b)
}

fn wram(addr: u16, data: &[u8]) -> Txn {
    Txn::Write(cmd(Opcode::Write, addr).to_vec(), data.to_vec())
}

fn rram(addr: u16, data: &[u8]) -> Txn {
    Txn::Read(cmd(Opcode::Read, addr).to_vec(), data.to_vec())
}

fn w8(addr: u16, val: u8) -> Txn {
    Txn::Write(cmd(Opcode::Write, addr).to_vec(), vec![val])
}

fn reset_txn() -> Txn {
    Txn::Command(vec![0x00, 0x00])
}

/// A chip that expects exactly the scripted transactions, in order.
struct Chip {
    script: VecDeque<Txn>,
    delays: Vec<u32>,
}

impl Chip {
    fn new(script: Vec<Txn>) -> Self {
        Chip {
            script: script.into(),
            delays: Vec::new(),
        }
    }

    fn run(&mut self, op: &BusOp) -> Vec<u8> {
        let t = op.transfer();
        let expected = self
            .script
            .pop_front()
            .unwrap_or_else(|| panic!("unexpected transaction {op:?}"));
        let got = if t.read_len > 0 {
            match &expected {
                Txn::Read(_, reply) => {
                    assert_eq!(reply.len(), t.read_len, "reply length for {op:?}");
                    Txn::Read(t.command.to_vec(), reply.clone())
                }
                _ => Txn::Read(t.command.to_vec(), vec![0; t.read_len]),
            }
        } else if t.write.is_empty() {
            Txn::Command(t.command.to_vec())
        } else {
            Txn::Write(t.command.to_vec(), t.write.clone())
        };
        assert_eq!(got, expected);
        match got {
            Txn::Read(_, reply) => reply,
            _ => Vec::new(),
        }
    }

    fn drive<T>(
        &mut self,
        mut step: Step<T, ()>,
        mut resume: impl FnMut(&[u8]) -> Step<T, ()>,
    ) -> Result<T, Error<()>> {
        loop {
            match step {
                Step::Bus(ops) => {
                    let mut reply = Vec::new();
                    for op in &ops {
                        reply = self.run(op);
                    }
                    step = resume(&reply);
                }
                Step::Delay(us) => {
                    self.delays.push(us);
                    step = resume(&[]);
                }
                Step::Done(r) => return r,
            }
        }
    }

    fn run_ops(&mut self, ops: &[BusOp]) {
        for op in ops {
            assert!(self.run(op).is_empty());
        }
    }

    fn done(&self) {
        assert!(self.script.is_empty(), "unconsumed: {:?}", self.script);
    }
}

fn test_config() -> Config {
    Config {
        clock: ClockConfig::MHZ40(),
        nominal: NominalBitTiming::KBPS500_40MHZ(),
        data: Some(DataBitTiming::MBPS2_40MHZ()),
    }
}

fn init(chip: &mut Chip, st: &mut DriverState, config: &Config) -> Result<Variant, Error<()>> {
    let (mut job, step) = InitSequence::start::<()>(config);
    chip.drive(step, |reply| job.resume(st, reply))
}

fn set_mode(chip: &mut Chip, mode: OperationMode) -> Result<(), Error<()>> {
    let (mut job, step) = SetModeJob::start::<()>(mode);
    chip.drive(step, |reply| job.resume(reply))
}

/// Waits for a frame as the async driver does, with `pin` standing for
/// the interrupt pin wait (`false`: the wait failed).
fn wait_rx(chip: &mut Chip, fifo: Fifo, mut pin: impl FnMut() -> bool) -> Result<RxFrame, Error<()>> {
    let mut step = wait_rx_start();
    loop {
        step = match step {
            WaitRxStep::Receive => wait_rx_next(receive(chip, fifo)),
            WaitRxStep::WaitForPin => wait_rx_after_pin(pin()),
            WaitRxStep::Done(result) => return result,
        };
    }
}

fn recover(chip: &mut Chip, mode: OperationMode) -> Result<(), Error<()>> {
    let (mut job, step) = RecoverJob::start::<()>(mode);
    chip.drive(step, |reply| job.resume(reply))
}

fn transmit(chip: &mut Chip, st: &mut DriverState, fifo: Fifo, frame: &Frame) -> Result<(), Error<()>> {
    let (mut job, step) = TransmitJob::start_classic::<()>(fifo, frame);
    chip.drive(step, |reply| job.resume(st, reply))
}

fn transmit_fd(
    chip: &mut Chip,
    st: &mut DriverState,
    fifo: Fifo,
    frame: &FdFrame,
) -> Result<(), Error<()>> {
    let (mut job, step) = TransmitJob::start_fd::<()>(fifo, frame);
    chip.drive(step, |reply| job.resume(st, reply))
}

fn receive(chip: &mut Chip, fifo: Fifo) -> Result<RxFrame, Error<()>> {
    let (mut job, step) = ReceiveJob::start::<()>(fifo);
    chip.drive(step, |reply| job.resume(reply))
}

/// The init transactions up to the variant probe's read-back.
fn init_head(probe_reply: u32) -> Vec<Txn> {
    let mut e = vec![
        reset_txn(),
        wram(0xBFC, &0xAA55_AA55u32.to_le_bytes()),
        rram(0xBFC, &0xAA55_AA55u32.to_le_bytes()),
        w32(0xE00, 0x0000_0060), // OSC: CLKODIV=0b11 (default), no PLL
        r32(0xE00, 0x0000_0460), // OSCRDY set
        w32(0xE00, 0x0000_0068), // probe LPMEN
        r32(0xE00, probe_reply),
        w32(0xE00, 0x0000_0060), // clear LPMEN
    ];
    for i in 0..32u16 {
        e.push(wram(0x400 + i * 64, &[0u8; 64]));
    }
    e.push(w32(0x004, 0x003E_0F0F)); // NBTCFG: brp1, tseg1 63, tseg2 16, sjw 16
    e.push(w32(0x008, 0x000E_0303)); // DBTCFG: brp1, tseg1 15, tseg2 4, sjw 4
    e.push(w32(0x00C, 0x0202_0F00)); // TDC: auto, TDCO=15, edge filter
    e.push(w32(0x000, 0x0400_0020)); // CiCON: ISOCRCEN, REQOP=Configuration
    e
}

/// The full expected init sequence for the test configuration on an
/// MCP2517FD, with the oscillator ready on the first poll.
fn init_expectations() -> Vec<Txn> {
    let mut e = init_head(0x0000_0460); // LPMEN did not stick -> MCP2517FD
    e.push(w32(0x01C, 0x0000_0000)); // CiINT cleared, all disabled
    e
}

#[test]
fn init_full_sequence_detects_2517fd() {
    let mut chip = Chip::new(init_expectations());
    let mut st = DriverState::new();
    let variant = init(&mut chip, &mut st, &test_config()).unwrap();
    assert_eq!(variant, Variant::Mcp2517Fd);
    assert_eq!(chip.delays, vec![3000]);
    chip.done();
}

#[test]
fn init_detects_2518fd_when_lpmen_sticks() {
    let mut e = init_head(0x0000_0468); // LPMEN stuck -> MCP2518FD
    e.push(w32(0x01C, 0x0000_0000));
    let mut chip = Chip::new(e);
    let mut st = DriverState::new();
    assert_eq!(
        init(&mut chip, &mut st, &test_config()).unwrap(),
        Variant::Mcp2518Fd
    );
    chip.done();
}

#[test]
fn init_fails_on_bad_echo() {
    let e = vec![
        reset_txn(),
        wram(0xBFC, &0xAA55_AA55u32.to_le_bytes()),
        rram(0xBFC, &[0x00, 0x00, 0x00, 0x00]), // dead bus
    ];
    let mut chip = Chip::new(e);
    let mut st = DriverState::new();
    assert!(matches!(
        init(&mut chip, &mut st, &test_config()),
        Err(Error::CommunicationCheckFailed)
    ));
    chip.done();
}

#[test]
fn set_mode_normal_fd() {
    let e = vec![
        r32(0x000, 0x0480_0020), // OPMOD=Config, REQOP=Config, ISOCRC
        w32(0x000, 0x0080_0020), // REQOP := NormalFd (0)
        r32(0x000, 0x0000_0020), // OPMOD now NormalFd
    ];
    let mut chip = Chip::new(e);
    set_mode(&mut chip, OperationMode::NormalFd).unwrap();
    chip.done();
}

#[test]
fn set_mode_times_out_when_chip_never_switches() {
    let mut e = vec![r32(0x000, 0x0480_0020), w32(0x000, 0x0080_0020)];
    for _ in 0..80 {
        e.push(r32(0x000, 0x0080_0020)); // OPMOD stays Config; never switches
    }
    let mut chip = Chip::new(e);
    assert!(matches!(
        set_mode(&mut chip, OperationMode::NormalFd),
        Err(Error::ModeChangeTimeout)
    ));
    assert_eq!(chip.delays.len(), 80);
    chip.done();
}

#[test]
fn apply_layout_writes_fifo_configs() {
    let layout = FifoLayout::new()
        .tx_fifo(Fifo::F1(), PayloadSize::B64, 4)
        .rx_fifo(Fifo::F2(), PayloadSize::B64, 8);
    let e = vec![
        r32(0x000, 0x0080_0000), // OPMOD=Config
        // TX: PLSIZE=7<<29 | FSIZE=3<<24 | FRESET | TXEN.
        w32(0x05C, 0xE300_0480),
        // RX: PLSIZE=7<<29 | FSIZE=7<<24 | FRESET | RXOVIE | TFNRFNIE.
        w32(0x068, 0xE700_0409),
    ];
    let mut chip = Chip::new(e);
    let (mut job, step) = ApplyLayoutJob::start::<()>(layout);
    chip.drive(step, |reply| job.resume(reply)).unwrap();
    chip.done();
}

#[test]
fn apply_layout_requires_config_mode() {
    let e = vec![r32(0x000, 0x0000_0000)]; // OPMOD=NormalFd
    let mut chip = Chip::new(e);
    let layout = FifoLayout::new().rx_fifo(Fifo::F1(), PayloadSize::B8, 1);
    let (mut job, step) = ApplyLayoutJob::start::<()>(layout);
    assert!(matches!(
        chip.drive(step, |reply| job.resume(reply)),
        Err(Error::NotInConfigMode)
    ));
    chip.done();
}

#[test]
fn set_filter_exact_standard_id() {
    let id = CanId::standard(0x123).unwrap();
    let e = vec![
        w8(0x1D0, 0x00),          // disable filter 0 while editing
        w32(0x1F0, 0x0000_0123),  // FLTOBJ
        w32(0x1F4, 0x4000_07FF),  // MASK: SID bits + MIDE
        w8(0x1D0, 0x82),          // enable, point to FIFO 2
    ];
    let mut chip = Chip::new(e);
    chip.run_ops(&set_filter_ops(
        Filter::F0(),
        FilterMatch::exact(id),
        Fifo::F2(),
    ));
    chip.done();
}

#[test]
fn disable_filter_writes_zero_byte() {
    let mut chip = Chip::new(vec![w8(0x1D0, 0x00)]);
    chip.run_ops(&[disable_filter_op(Filter::F0())]);
    chip.done();
}

#[test]
fn transmit_classic_frame() {
    let frame = Frame::new(CanId::standard(0x123).unwrap(), &[1, 2, 3, 4]).unwrap();
    let e = vec![
        // First transmit: seq 0.
        r32(0x060, 0x0000_0001), r32(0x064, 0x0000_0000), // not full; UA offset 0
        wram(
            0x400,
            &[
                0x23, 0x01, 0x00, 0x00, // T0: SID 0x123
                0x04, 0x00, 0x00, 0x00, // T1: DLC 4, SEQ 0
                0x01, 0x02, 0x03, 0x04, // payload
            ],
        ),
        w8(0x05D, 0x03), // CiFIFOCON1 byte1: UINC | TXREQ
        // Second transmit: seq increments, chip UA advanced to 0x10.
        r32(0x060, 0x0000_0001), r32(0x064, 0x0000_0010),
        wram(
            0x410,
            &[
                0x23, 0x01, 0x00, 0x00, 0x04, 0x02, 0x00, 0x00, // T1: DLC 4, SEQ 1
                0x01, 0x02, 0x03, 0x04,
            ],
        ),
        w8(0x05D, 0x03),
    ];
    let mut chip = Chip::new(e);
    let mut st = DriverState::new();
    transmit(&mut chip, &mut st, Fifo::F1(), &frame).unwrap();
    transmit(&mut chip, &mut st, Fifo::F1(), &frame).unwrap();
    chip.done();
}

#[test]
fn transmit_full_fifo_errors() {
    let frame = Frame::new(CanId::standard(0x123).unwrap(), &[]).unwrap();
    let e = vec![r32(0x060, 0x0000_0000)]; // full: TFNRFNIF clear
    let mut chip = Chip::new(e);
    let mut st = DriverState::new();
    assert!(matches!(
        transmit(&mut chip, &mut st, Fifo::F1(), &frame),
        Err(Error::TxFifoFull)
    ));
    chip.done();
}

#[test]
fn transmit_fd_frame_with_brs() {
    // 12-byte payload -> DLC 9; FDF | BRS set; payload already word-aligned.
    let frame = FdFrame::new(
        CanId::standard(0x7F).unwrap(),
        &[
            0xA0, 0xA1, 0xA2, 0xA3, 0xA4, 0xA5, 0xA6, 0xA7, 0xA8, 0xA9, 0xAA, 0xAB,
        ],
        FrameFlags {
            brs: true,
            esi: false,
        },
    )
    .unwrap();
    // T1 = DLC 9 | BRS(1<<6) | FDF(1<<7) | SEQ 0 = 0xC9.
    let mut obj = vec![0x7F, 0x00, 0x00, 0x00, 0xC9, 0x00, 0x00, 0x00];
    obj.extend_from_slice(frame.data());
    let e = vec![
        r32(0x060, 0x0000_0001), r32(0x064, 0x0000_0000),
        wram(0x400, &obj),
        w8(0x05D, 0x03),
    ];
    let mut chip = Chip::new(e);
    let mut st = DriverState::new();
    transmit_fd(&mut chip, &mut st, Fifo::F1(), &frame).unwrap();
    chip.done();
}

#[test]
fn transmit_rejects_out_of_range_ua() {
    // FIFO not full, but CiFIFOUA reads back >= message RAM size (0x800):
    // implausible. No RAM or CiFIFOCON traffic should follow.
    let frame = Frame::new(CanId::standard(0x123).unwrap(), &[1, 2, 3, 4]).unwrap();
    let e = vec![r32(0x060, 0x0000_0001), r32(0x064, 0x0000_0800)];
    let mut chip = Chip::new(e);
    let mut st = DriverState::new();
    assert!(matches!(
        transmit(&mut chip, &mut st, Fifo::F1(), &frame),
        Err(Error::CommunicationCheckFailed)
    ));
    chip.done();
}

#[test]
fn wait_rx_polls_until_frame_arrives() {
    let e = vec![
        r32(0x06C, 0x0000_0000), // empty -> waits on the pin once
        r32(0x06C, 0x0000_0001), r32(0x070, 0x0000_0000), // now a frame is there
        rram(0x400, &[0x23, 0x01, 0x00, 0x00, 0x02, 0x00, 0x00, 0x00]),
        rram(0x408, &[0xBE, 0xEF, 0x00, 0x00]),
        w8(0x069, 0x01),
    ];
    let mut chip = Chip::new(e);
    let mut pin_waits = 0;
    let rx = wait_rx(&mut chip, Fifo::F2(), || {
        pin_waits += 1;
        true
    })
    .unwrap();
    assert_eq!(pin_waits, 1);
    match rx.frame {
        ReceivedFrame::Classic(f) => assert_eq!(f.data(), &[0xBE, 0xEF]),
        ReceivedFrame::Fd(_) => panic!("expected classic"),
    }
    chip.done();
}

#[test]
fn async_receive_empty_errors() {
    let mut chip = Chip::new(vec![r32(0x06C, 0x0000_0000)]);
    assert!(matches!(receive(&mut chip, Fifo::F2()), Err(Error::RxFifoEmpty)));
    chip.done();
}

#[test]
fn init_rejects_invalid_config_without_spi_traffic() {
    let mut bad = test_config();
    bad.nominal.sjw = 20;
    let mut chip = Chip::new(vec![]);
    let mut st = DriverState::new();
    assert_eq!(
        init(&mut chip, &mut st, &bad),
        Err(Error::InvalidConfig(ConfigError::NominalBitTiming))
    );
    chip.done();
}

#[test]
fn init_gives_up_when_the_oscillator_never_settles() {
    let mut e = vec![
        reset_txn(),
        wram(0xBFC, &0xAA55_AA55u32.to_le_bytes()),
        rram(0xBFC, &0xAA55_AA55u32.to_le_bytes()),
        w32(0xE00, 0x0000_0060),
    ];
    for _ in 0..40 {
        e.push(r32(0xE00, 0x0000_0000));
    }
    let mut chip = Chip::new(e);
    let mut st = DriverState::new();
    assert_eq!(
        init(&mut chip, &mut st, &test_config()),
        Err(Error::ClockNotReady)
    );
    // The settle delay, then one 100 us wait after each of the 40 polls.
    assert_eq!(chip.delays.len(), 41);
    assert!(chip.delays[1..].iter().all(|d| *d == 100));
    chip.done();
}

#[test]
fn init_with_pll_waits_for_pll_ready() {
    let config = Config {
        clock: ClockConfig::MHZ4_PLL(),
        nominal: NominalBitTiming::KBPS500_40MHZ(),
        data: None,
    };
    let mut e = vec![
        reset_txn(),
        wram(0xBFC, &0xAA55_AA55u32.to_le_bytes()),
        rram(0xBFC, &0xAA55_AA55u32.to_le_bytes()),
        w32(0xE00, 0x0000_0061),  // PLLEN, CLKODIV=3
        r32(0xE00, 0x0000_0400),  // OSCRDY but not PLLRDY yet
        r32(0xE00, 0x0000_0500),  // both ready
        w32(0xE00, 0x0000_0069),
        r32(0xE00, 0x0000_0508),  // LPMEN stuck -> MCP2518FD
        w32(0xE00, 0x0000_0061),
    ];
    for i in 0..32u16 {
        e.push(wram(0x400 + i * 64, &[0u8; 64]));
    }
    e.push(w32(0x004, 0x003E_0F0F));
    e.push(w32(0x00C, 0x0000_0000)); // no data timing: TDC off
    e.push(w32(0x000, 0x0400_1020)); // ISOCRCEN | BRSDIS | REQOP=Configuration
    e.push(w32(0x01C, 0x0000_0000));
    let mut chip = Chip::new(e);
    let mut st = DriverState::new();
    assert_eq!(init(&mut chip, &mut st, &config), Ok(Variant::Mcp2518Fd));
    chip.done();
}

#[test]
fn sequence_numbers_follow_the_detected_variant() {
    // After detecting an MCP2517FD, sequence numbers wrap at 7 bits.
    let mut chip = Chip::new(init_expectations());
    let mut st = DriverState::new();
    init(&mut chip, &mut st, &test_config()).unwrap();
    chip.done();
    let frame = Frame::new(CanId::standard(0x1).unwrap(), &[]).unwrap();
    for _ in 0..128 {
        // Only check that each transmit goes through; bytes are checked below.
        let (mut job, _) = TransmitJob::start_classic::<()>(Fifo::F1(), &frame);
        let Step::Bus(_) = job.resume::<()>(&mut st, &[1, 0, 0, 0]) else { panic!() };
        let Step::Bus(_) = job.resume::<()>(&mut st, &[0, 0, 0, 0]) else { panic!() };
    }
    // The 129th frame carries sequence number 128 & 0x7F = 0.
    let mut chip = Chip::new(vec![
        r32(0x060, 1), r32(0x064, 0),
        wram(0x400, &[0x01, 0x00, 0x00, 0x00, 0x00, 0x00, 0x00, 0x00]),
        w8(0x05D, 0x03),
    ]);
    transmit(&mut chip, &mut st, Fifo::F1(), &frame).unwrap();
    chip.done();
}

#[test]
fn transmit_pads_payload_and_refuses_objects_past_ram_end() {
    let frame = Frame::new(CanId::extended(0x0CFE_6E01).unwrap(), &[1, 2, 3, 4, 5]).unwrap();
    let packed: u32 = ((0x0CFE_6E01u32 >> 18) & 0x7FF) | ((0x0CFE_6E01u32 & 0x3_FFFF) << 11);
    let mut obj = packed.to_le_bytes().to_vec();
    obj.extend_from_slice(&(5u32 | (1 << 4)).to_le_bytes()); // DLC 5, IDE
    obj.extend_from_slice(&[1, 2, 3, 4, 5, 0, 0, 0]);
    let mut chip = Chip::new(vec![
        r32(0x060, 1), r32(0x064, 0x7E8), // 0x7E8 + 16 == 0x7F8: fits
        wram(0x400 + 0x7E8, &obj),
        w8(0x05D, 0x03),
        r32(0x060, 1), r32(0x064, 0x7F4), // 0x7F4 + 16 > 0x800: refused
        r32(0x060, 1), r32(0x064, 0x002), // unaligned: refused
    ]);
    let mut st = DriverState::new();
    transmit(&mut chip, &mut st, Fifo::F1(), &frame).unwrap();
    assert_eq!(
        transmit(&mut chip, &mut st, Fifo::F1(), &frame),
        Err(Error::CommunicationCheckFailed)
    );
    assert_eq!(
        transmit(&mut chip, &mut st, Fifo::F1(), &frame),
        Err(Error::CommunicationCheckFailed)
    );
    chip.done();
}

#[test]
fn receive_extended_fd_frame() {
    let raw29: u32 = 0x0CFE_6E01;
    let r0 = ((raw29 >> 18) & 0x7FF) | ((raw29 & 0x3_FFFF) << 11);
    let r1: u32 = 9 | (1 << 4) | (1 << 6) | (1 << 7) | (3 << 11); // DLC 9 = 12 bytes
    let mut hdr = r0.to_le_bytes().to_vec();
    hdr.extend_from_slice(&r1.to_le_bytes());
    let payload: Vec<u8> = (1..=12).collect();
    let mut chip = Chip::new(vec![
        r32(0x078, 1), r32(0x07C, 0x100), // FIFO 3
        rram(0x500, &hdr),
        rram(0x508, &payload),
        w8(0x075, 0x01),
    ]);
    let rx = receive(&mut chip, Fifo::F3()).unwrap();
    assert_eq!(rx.timestamp, None);
    match rx.frame {
        ReceivedFrame::Fd(f) => {
            assert_eq!(f.id(), CanId::extended(raw29).unwrap());
            assert_eq!(f.data(), &payload[..]);
            assert_eq!(
                f.flags(),
                FrameFlags {
                    brs: true,
                    esi: false
                }
            );
        }
        ReceivedFrame::Classic(_) => panic!("expected FD"),
    }
    chip.done();
}

#[test]
fn receive_zeroes_the_tail_of_the_last_word() {
    // DLC 3: one payload word is read; its fourth byte is not payload.
    let mut chip = Chip::new(vec![
        r32(0x060, 1), r32(0x064, 0x20),
        rram(0x420, &[0x23, 0x01, 0, 0, 0x03, 0, 0, 0]),
        rram(0x428, &[7, 8, 9, 0xEE]),
        w8(0x05D, 0x01),
    ]);
    let rx = receive(&mut chip, Fifo::F1()).unwrap();
    let expected = Frame::new(CanId::standard(0x123).unwrap(), &[7, 8, 9]).unwrap();
    assert_eq!(rx.frame, ReceivedFrame::Classic(expected));
    chip.done();
}

#[test]
fn receive_remote_frame_skips_the_payload() {
    // Classic remote frame, DLC 4: no payload read.
    let mut chip = Chip::new(vec![
        r32(0x060, 1), r32(0x064, 0),
        rram(0x400, &[0x23, 0x01, 0, 0, 0x24, 0, 0, 0]),
        w8(0x05D, 0x01),
    ]);
    let rx = receive(&mut chip, Fifo::F1()).unwrap();
    let expected = Frame::new_remote(CanId::standard(0x123).unwrap(), 4).unwrap();
    assert_eq!(rx.frame, ReceivedFrame::Classic(expected));
    chip.done();
}

#[test]
fn receive_caps_classic_dlc_at_eight() {
    let mut chip = Chip::new(vec![
        r32(0x060, 1), r32(0x064, 0),
        rram(0x400, &[0x01, 0, 0, 0, 0x0F, 0, 0, 0]), // DLC 15, classic
        rram(0x408, &[1, 2, 3, 4, 5, 6, 7, 8]),
        w8(0x05D, 0x01),
    ]);
    let rx = receive(&mut chip, Fifo::F1()).unwrap();
    match rx.frame {
        ReceivedFrame::Classic(f) => {
            assert_eq!(f.dlc(), 8);
            assert_eq!(f.data(), &[1, 2, 3, 4, 5, 6, 7, 8]);
        }
        ReceivedFrame::Fd(_) => panic!("expected classic"),
    }
    chip.done();
}

#[test]
fn receive_rejects_implausible_user_addresses() {
    let mut chip = Chip::new(vec![
        r32(0x060, 1), r32(0x064, 0x7FC),                      // header would leave RAM
        r32(0x060, 1), r32(0x064, 0x3),                        // unaligned
        r32(0x060, 1), r32(0x064, 0x7F0),                      // header fits ...
        rram(0xBF0, &[0, 0, 0, 0, 0x8F, 0, 0, 0]),     // ... 64-byte FD payload does not
    ]);
    for _ in 0..3 {
        assert_eq!(
            receive(&mut chip, Fifo::F1()),
            Err(Error::CommunicationCheckFailed)
        );
    }
    chip.done();
}

#[test]
fn transmitted_object_is_received_back() {
    // What transmit writes into RAM, receive reads back as the same frame.
    let frame = FdFrame::new(
        CanId::extended(0x1555_AAAA).unwrap(),
        &(0..24).collect::<Vec<u8>>(),
        FrameFlags {
            brs: true,
            esi: true,
        },
    )
    .unwrap();
    let (mut job, _) = TransmitJob::start_fd::<()>(Fifo::F1(), &frame);
    let mut st = DriverState::new();
    let Step::Bus(_) = job.resume::<()>(&mut st, &[1, 0, 0, 0]) else { panic!() };
    let Step::Bus(ops) = job.resume::<()>(&mut st, &[0x40, 0, 0, 0]) else {
        panic!()
    };
    let BusOp::WriteRam { addr, data } = &ops[0] else { panic!() };
    assert_eq!(*addr, 0x440);
    let mut chip = Chip::new(vec![
        r32(0x06C, 1), r32(0x070, 0x40),
        rram(0x440, &data[..8]),
        rram(0x448, &data[8..]),
        w8(0x069, 0x01),
    ]);
    let rx = receive(&mut chip, Fifo::F2()).unwrap();
    assert_eq!(rx.frame, ReceivedFrame::Fd(frame));
    chip.done();
}

#[test]
fn set_mode_sleep_is_fire_and_forget() {
    let mut chip = Chip::new(vec![
        r32(0x000, 0x0480_0020),
        w32(0x000, 0x0180_0020), // REQOP := Sleep (1), no polling
    ]);
    set_mode(&mut chip, OperationMode::Sleep).unwrap();
    chip.done();
}

#[test]
fn set_mode_waits_for_the_switch() {
    let mut chip = Chip::new(vec![
        r32(0x000, 0x0080_0000),
        w32(0x000, 0x0280_0000), // REQOP := InternalLoopback (2)
        r32(0x000, 0x0080_0000),
        r32(0x000, 0x0080_0000),
        r32(0x000, 0x0040_0000), // OPMOD = 2
    ]);
    set_mode(&mut chip, OperationMode::InternalLoopback).unwrap();
    assert_eq!(chip.delays, vec![100, 100]);
    chip.done();
}

#[test]
fn read_back_config_reads_two_pairs() {
    let mut chip = Chip::new(vec![
        r32_pair(0x000, 0x0480_0020, 0x003E_0F0F),
        r32_pair(0x008, 0x000E_0303, 0x0202_0F00),
    ]);
    let (mut job, step) = ReadBackJob::start::<()>();
    let cfg: ChipConfig = chip.drive(step, |reply| job.resume(reply)).unwrap();
    assert_eq!(cfg.con.op_mode(), OperationMode::Configuration);
    assert_eq!(cfg.nominal.0, 0x003E_0F0F);
    assert_eq!(cfg.data.0, 0x000E_0303);
    assert_eq!(cfg.tdc.0, 0x0202_0F00);
    chip.done();
}

#[test]
fn interrupt_register_writes() {
    let flags = CiInt(0).with_serrif(true).with_modif(true).with_ivmif(true);
    let enables = CiInt(0).with_rxie(true).with_ivmie(true);
    let mut chip = Chip::new(vec![
        w8(0x01C, !0x08),
        w8(0x01D, !0x90),
        w8(0x01E, 0x02),
        w8(0x01F, 0x80),
        w8(0x069, 0x04), // FRESET in CiFIFOCON2 byte 1
        w8(0x06C, 0x00), // CiFIFOSTA2 flags cleared
    ]);
    chip.run_ops(&clear_interrupts_ops(flags));
    chip.run_ops(&configure_interrupts_ops(enables));
    chip.run_ops(&[reset_fifo_op(Fifo::F2()), clear_rx_overflow_op(Fifo::F2())]);
    chip.done();
}

#[test]
fn interrupt_codes_decode() {
    assert_eq!(Event::from_icode(0), Event::TxQueue);
    assert_eq!(Event::from_icode(1), Event::Fifo(Fifo::F1()));
    assert_eq!(Event::from_icode(31), Event::Fifo(Fifo::F31()));
    assert_eq!(Event::from_icode(32), Event::Unknown(32));
    assert_eq!(Event::from_icode(0x40), Event::NoInterrupt);
    assert_eq!(Event::from_icode(0x41), Event::Error);
    assert_eq!(Event::from_icode(0x42), Event::WakeUp);
    assert_eq!(Event::from_icode(0x43), Event::ReceiveOverflow);
    assert_eq!(Event::from_icode(0x44), Event::AddressError);
    assert_eq!(Event::from_icode(0x45), Event::SystemError);
    assert_eq!(Event::from_icode(0x46), Event::TimeBaseOverflow);
    assert_eq!(Event::from_icode(0x47), Event::ModeChange);
    assert_eq!(Event::from_icode(0x48), Event::InvalidMessage);
    assert_eq!(Event::from_icode(0x49), Event::TransmitEvent);
    assert_eq!(Event::from_icode(0x4A), Event::TransmitAttempt);
    assert_eq!(Event::from_icode(0x4B), Event::Unknown(0x4B));
    assert_eq!(Event::from_vector(0xFF00_0045), Event::SystemError);
}

#[test]
fn driver_holds_and_releases_its_device() {
    let mut can = mcp251xfd::MCP251xFd::new(vec![1u8, 2]);
    can.spi_mut().push(3);
    let _ = can.state_mut();
    assert_eq!(can.release(), vec![1, 2, 3]);
}

#[test]
fn recover_system_error_clears_flags_then_returns_to_normal() {
    let mut chip = Chip::new(vec![
        w8(0x01C, 0xF7),         // MODIF cleared (write 0), others untouched
        w8(0x01D, 0x6F),         // SERRIF and IVMIF cleared
        r32(0x000, 0x00E0_0020), // OPMOD = Restricted Operation (7)
        w32(0x000, 0x00E0_0020), // REQOP := NormalFd (0), rest preserved
        r32(0x000, 0x0000_0020), // OPMOD back to NormalFd
    ]);
    recover(&mut chip, OperationMode::NormalFd).unwrap();
    assert!(chip.delays.is_empty());
    chip.done();
}

#[test]
fn recover_system_error_times_out_like_set_mode() {
    let mut e = vec![
        w8(0x01C, 0xF7),
        w8(0x01D, 0x6F),
        r32(0x000, 0x0060_0020), // OPMOD = Listen Only (3)
        w32(0x000, 0x0660_0020), // REQOP := Normal 2.0 (6)
    ];
    for _ in 0..80 {
        e.push(r32(0x000, 0x0660_0020));
    }
    let mut chip = Chip::new(e);
    assert_eq!(
        recover(&mut chip, OperationMode::Normal20),
        Err(Error::ModeChangeTimeout)
    );
    assert_eq!(chip.delays.len(), 80);
    chip.done();
}

/// Runs a transmission of `frame` against an empty FIFO slot at offset 0
/// and returns the message object it writes.
fn written_object(frame: &Frame) -> Vec<u8> {
    let (mut job, _) = TransmitJob::start_classic::<()>(Fifo::F1(), frame);
    let mut st = DriverState::new();
    let Step::Bus(_) = job.resume::<()>(&mut st, &[1, 0, 0, 0]) else { panic!() };
    let Step::Bus(ops) = job.resume::<()>(&mut st, &[0, 0, 0, 0]) else {
        panic!("expected the object write")
    };
    let BusOp::WriteRam { addr, data } = &ops[0] else { panic!("expected a RAM write") };
    assert_eq!(*addr, 0x400);
    data.clone()
}

#[test]
fn transmitted_classic_frame_is_received_back() {
    let frame = Frame::new(CanId::extended(0x0ABC_DEF1).unwrap(), &[9, 8, 7, 6, 5]).unwrap();
    let obj = written_object(&frame);
    assert_eq!(obj.len(), 16);
    let mut chip = Chip::new(vec![
        r32(0x06C, 1), r32(0x070, 0x0),
        rram(0x400, &obj[..8]),
        rram(0x408, &obj[8..]),
        w8(0x069, 0x01),
    ]);
    let rx = receive(&mut chip, Fifo::F2()).unwrap();
    assert_eq!(rx.frame, ReceivedFrame::Classic(frame));
    assert_eq!(rx.timestamp, None);
    chip.done();
}

#[test]
fn transmitted_remote_frame_is_received_back_without_payload_read() {
    let frame = Frame::new_remote(CanId::standard(0x7FF).unwrap(), 6).unwrap();
    let obj = written_object(&frame);
    assert_eq!(obj.len(), 8);
    let mut chip = Chip::new(vec![
        r32(0x06C, 1), r32(0x070, 0x0),
        rram(0x400, &obj[..8]),
        w8(0x069, 0x01),
    ]);
    let rx = receive(&mut chip, Fifo::F2()).unwrap();
    assert_eq!(rx.frame, ReceivedFrame::Classic(frame));
    chip.done();
}

#[test]
fn wait_rx_reports_a_failed_pin_wait() {
    let mut chip = Chip::new(vec![r32(0x06C, 0x0000_0000)]);
    assert_eq!(wait_rx(&mut chip, Fifo::F2(), || false), Err(Error::IntPin));
    chip.done();
}

#[test]
fn wait_rx_returns_other_errors_at_once() {
    // Not empty, but the user address is implausible: no pin wait.
    let mut chip = Chip::new(vec![r32(0x06C, 1), r32(0x070, 0x802)]);
    assert_eq!(
        wait_rx(&mut chip, Fifo::F2(), || panic!("no pin wait expected")),
        Err(Error::CommunicationCheckFailed)
    );
    chip.done();
}
