//! Operation modes, FIFO configuration and configuration read-back.

use super::{hands_out, ChipConfig, Step, StepView};
use crate::bits::{field, with_field};
use crate::bus::{word_at, word_from_le, BusOp, BusOpView};
use crate::error::Error;
use crate::registers::addr::{fifo_con, fifo_con_addr, C1CON, C1DBTCFG};
use crate::registers::ram::{configured, FifoDirection, FifoEntry, FifoLayout};
use crate::registers::{
    mode_bits, plsize, CiCon, CiDbtCfg, CiFifoCon, CiInt, CiNbtCfg, CiTdc, OperationMode,
};
use vstd::prelude::*;

verus! {

/// Polls of `CiCON` a mode change waits for (about 8 ms at 100 us apart):
/// a maximum-length CAN FD frame at 125 kbit/s takes about 5.9 ms.
pub const MODE_POLLS: u32 = 80;

/// Where a mode change stands.
pub enum SetModePhase {
    /// Waiting for the current `CiCON`.
    ReadCon,
    /// Waiting for the `n`-th read of `CiCON` after the request.
    Poll(u32),
    /// Waiting out the delay after the `n`-th read.
    Wait(u32),
    /// The request was written; nothing to wait for (Sleep).
    Finish,
    /// The result was handed back.
    Finished,
}

/// Requests an operation mode and waits (at most 80 polls 100 us apart)
/// until the chip reports it, preserving the rest of `CiCON`.
///
/// Requesting Sleep is fire-and-forget: `OPMOD` reads Configuration while
/// the chip is asleep, and polling would wake an MCP2518FD, so the job ends
/// right after writing `REQOP`. Switching directly between the two Normal
/// modes or the two loopback modes never completes and ends in
/// [`Error::ModeChangeTimeout`]: go through Configuration mode.
pub struct SetModeJob {
    /// The requested mode.
    pub mode: OperationMode,
    /// Where the job stands.
    pub phase: SetModePhase,
}

fn read_con_step<T, E>() -> (r: Step<T, E>)
    ensures
        r@ == StepView::<T, E>::Bus(seq![BusOpView::ReadSfr32(0)]),
{
    let mut ops: Vec<BusOp> = Vec::new();
    ops.push(BusOp::ReadSfr32 { addr: C1CON });
    let r = Step::Bus(ops);
    assert(r@->Bus_0 =~= seq![BusOpView::ReadSfr32(0)]);
    r
}

/// One step of a mode change: from `job`, with the bytes `reply` read by
/// its last batch, the job moves to `next` and hands out `r`.
pub open spec fn mode_step<E>(
    job: SetModeJob,
    reply: Seq<u8>,
    next: SetModeJob,
    r: StepView<(), E>,
) -> bool {
    let w = with_field(word_at(reply, 0), 24, 7, mode_bits(job.mode) as u32);
    let opmod = field(word_at(reply, 0), 21, 7);
    &&& next.mode == job.mode
    &&& job.phase is ReadCon ==> {
        &&& job.mode == OperationMode::Sleep ==> r == StepView::<(), E>::Bus(
            seq![BusOpView::WriteSfr32(0, w)],
        ) && next.phase is Finish
        &&& job.mode != OperationMode::Sleep ==> r == StepView::<(), E>::Bus(
            seq![BusOpView::WriteSfr32(0, w), BusOpView::ReadSfr32(0)],
        ) && next.phase == SetModePhase::Poll(1)
    }
    &&& job.phase matches SetModePhase::Poll(n) ==> {
        &&& opmod == mode_bits(job.mode) ==> r == StepView::<(), E>::Done(Ok(()))
            && next.phase is Finished
        &&& opmod != mode_bits(job.mode) ==> r == StepView::<(), E>::Delay(100) && next.phase
            == SetModePhase::Wait(n)
    }
    &&& job.phase matches SetModePhase::Wait(n) ==> {
        &&& n < 80 ==> r == StepView::<(), E>::Bus(seq![BusOpView::ReadSfr32(0)]) && next.phase
            == SetModePhase::Poll((n + 1) as u32)
        &&& n >= 80 ==> r == StepView::<(), E>::Done(Err(Error::ModeChangeTimeout))
            && next.phase is Finished
    }
    &&& job.phase is Finish ==> r == StepView::<(), E>::Done(Ok(())) && next.phase is Finished
}

impl SetModeJob {
    /// Starts a mode change.
    pub fn start<E>(mode: OperationMode) -> (r: (SetModeJob, Step<(), E>))
        ensures
            r.0.mode == mode,
            r.0.phase is ReadCon,
            r.1@ == StepView::<(), E>::Bus(seq![BusOpView::ReadSfr32(0)]),
            hands_out(r.1@, r.0.awaited()),
    {
        (SetModeJob { mode, phase: SetModePhase::ReadCon }, read_con_step())
    }

    /// Bytes the job expects back from the last batch it handed out.
    pub open spec fn awaited(&self) -> nat {
        match self.phase {
            SetModePhase::ReadCon => 4,
            SetModePhase::Poll(_) => 4,
            _ => 0,
        }
    }

    /// The phase invariant: poll counts stay within the limit, and only a
    /// Sleep request ends without polling.
    pub open spec fn wf(&self) -> bool {
        match self.phase {
            SetModePhase::Poll(n) => 1 <= n <= 80,
            SetModePhase::Wait(n) => 1 <= n <= 80,
            SetModePhase::Finish => self.mode == OperationMode::Sleep,
            _ => true,
        }
    }

    /// Continues with the bytes read by the last batch.
    pub fn resume<E>(&mut self, reply: &[u8]) -> (r: Step<(), E>)
        requires
            old(self).wf(),
            !(old(self).phase is Finished),
            reply@.len() == old(self).awaited(),
        ensures
            final(self).wf(),
            final(self).mode == old(self).mode,
            mode_step(*old(self), reply@, *final(self), r@),
            hands_out(r@, final(self).awaited()),
    {
        match self.phase {
            SetModePhase::Finished => Step::Done(Ok(())),
            SetModePhase::Finish => {
                self.phase = SetModePhase::Finished;
                Step::Done(Ok(()))
            },
            SetModePhase::ReadCon => {
                let con = CiCon(word_from_le(reply, 0));
                let w = con.with_req_op_mode(self.mode).0;
                let mut ops: Vec<BusOp> = Vec::new();
                ops.push(BusOp::WriteSfr32 { addr: C1CON, value: w });
                if self.mode == OperationMode::Sleep {
                    self.phase = SetModePhase::Finish;
                    let r = Step::Bus(ops);
                    assert(r@->Bus_0 =~= seq![BusOpView::WriteSfr32(0, w)]);
                    r
                } else {
                    ops.push(BusOp::ReadSfr32 { addr: C1CON });
                    self.phase = SetModePhase::Poll(1);
                    let r = Step::Bus(ops);
                    assert(r@->Bus_0 =~= seq![BusOpView::WriteSfr32(0, w), BusOpView::ReadSfr32(0)]);
                    r
                }
            },
            SetModePhase::Poll(n) => {
                let now = CiCon(word_from_le(reply, 0));
                let current = now.op_mode();
                proof {
                    crate::registers::lemma_mode_bits_injective(current, self.mode);
                }
                if current == self.mode {
                    self.phase = SetModePhase::Finished;
                    Step::Done(Ok(()))
                } else {
                    self.phase = SetModePhase::Wait(n);
                    Step::Delay(100)
                }
            },
            SetModePhase::Wait(n) => {
                if n < MODE_POLLS {
                    self.phase = SetModePhase::Poll(n + 1);
                    read_con_step()
                } else {
                    self.phase = SetModePhase::Finished;
                    Step::Done(Err(Error::ModeChangeTimeout))
                }
            },
        }
    }
}

/// A request for any mode but Sleep writes `REQOP` = the mode, keeps the
/// rest of `CiCON` as read, and reads `CiCON` back in the same batch: the
/// job goes on to poll `OPMOD` instead of ending.
pub proof fn lemma_mode_request_is_polled<E>(
    job: SetModeJob,
    reply: Seq<u8>,
    next: SetModeJob,
    r: StepView<(), E>,
)
    requires
        job.phase is ReadCon,
        job.mode != OperationMode::Sleep,
        mode_step(job, reply, next, r),
    ensures
        next.phase == SetModePhase::Poll(1),
        r matches StepView::Bus(ops) && ops.len() == 2 && ops[1] == BusOpView::ReadSfr32(0)
            && (ops[0] matches BusOpView::WriteSfr32(a, w) && a == 0 && field(w, 24, 7)
            == mode_bits(job.mode) && crate::bits::same_outside(w, word_at(reply, 0), 24, 7)),
{
    let v = word_at(reply, 0);
    assert(7u32 <= (0xFFFF_FFFFu32 >> 24u32)) by (bit_vector);
    crate::bits::lemma_field_write_read(v, 24, 7, mode_bits(job.mode) as u32);
    crate::registers::lemma_mode_bits_injective(job.mode, job.mode);
    crate::bits::lemma_and_mask(mode_bits(job.mode) as u32, 7);
}

/// A mode change to anything but Sleep succeeds only on a read of `CiCON`
/// whose `OPMOD` field is the requested mode.
pub proof fn lemma_mode_change_ok_only_when_reported<E>(
    job: SetModeJob,
    reply: Seq<u8>,
    next: SetModeJob,
    r: StepView<(), E>,
)
    requires
        job.wf(),
        !(job.phase is Finished),
        job.mode != OperationMode::Sleep,
        mode_step(job, reply, next, r),
        r == StepView::<(), E>::Done(Ok(())),
    ensures
        job.phase is Poll,
        field(word_at(reply, 0), 21, 7) == mode_bits(job.mode),
{
}

/// The `CiINT` flags a system error latches: `SERRIF` (bit 12), usually
/// with `MODIF` (bit 3) and `IVMIF` (bit 15).
pub const SYSTEM_ERROR_FLAGS: u32 = 0x0000_9008;

/// Recovers from a system error, such as the MCP2517FD's TX MAB underflow
/// under SPI reads of message RAM: clears `SERRIF`, `MODIF` and `IVMIF`,
/// then requests `mode` (the Normal mode the chip was in) and waits for it
/// as [`SetModeJob`] does.
///
/// The error drops the chip into Restricted Operation or Listen Only and
/// clearing the flags alone never helps: the operation mode is what has to
/// change back. Queued frames are kept; the chip retransmits the offending
/// message itself, and no reset is needed.
pub struct RecoverJob {
    /// Whether the flags were cleared.
    pub cleared: bool,
    /// The mode change that follows.
    pub switch: SetModeJob,
}

impl RecoverJob {
    /// Starts a recovery that ends in `mode`.
    pub fn start<E>(mode: OperationMode) -> (r: (RecoverJob, Step<(), E>))
        ensures
            !r.0.cleared,
            r.0.switch == (SetModeJob { mode, phase: SetModePhase::ReadCon }),
            r.1@ == StepView::<(), E>::Bus(
                seq![BusOpView::WriteSfr8(0x01C, 0xF7), BusOpView::WriteSfr8(0x01D, 0x6F)],
            ),
            r.0.wf(),
            hands_out(r.1@, r.0.awaited()),
    {
        let ops = super::clear_interrupts_ops(CiInt(SYSTEM_ERROR_FLAGS));
        assert(!(field(0x0000_9008u32, 0, 0xFF) as u8) == 0xF7u8 && !(field(
            0x0000_9008u32,
            8,
            0xFF,
        ) as u8) == 0x6Fu8) by (bit_vector);
        let r = Step::Bus(ops);
        assert(r@->Bus_0 =~= seq![BusOpView::WriteSfr8(0x01C, 0xF7), BusOpView::WriteSfr8(0x01D, 0x6F)]);
        (RecoverJob { cleared: false, switch: SetModeJob { mode, phase: SetModePhase::ReadCon } }, r)
    }

    /// Bytes the job expects back from the last batch it handed out.
    pub open spec fn awaited(&self) -> nat {
        if self.cleared {
            self.switch.awaited()
        } else {
            0
        }
    }

    /// The job invariant: the mode change has not begun before the flags
    /// are cleared.
    pub open spec fn wf(&self) -> bool {
        &&& self.switch.wf()
        &&& !self.cleared ==> self.switch.phase is ReadCon
    }

    /// Continues with the bytes read by the last batch.
    pub fn resume<E>(&mut self, reply: &[u8]) -> (r: Step<(), E>)
        requires
            old(self).wf(),
            !(old(self).switch.phase is Finished),
            reply@.len() == old(self).awaited(),
        ensures
            final(self).wf(),
            final(self).cleared,
            hands_out(r@, final(self).awaited()),
            !old(self).cleared ==> r@ == StepView::<(), E>::Bus(seq![BusOpView::ReadSfr32(0)])
                && final(self).switch == old(self).switch,
            old(self).cleared ==> mode_step(old(self).switch, reply@, final(self).switch, r@),
    {
        if !self.cleared {
            self.cleared = true;
            read_con_step()
        } else {
            self.switch.resume(reply)
        }
    }
}

/// The `CiFIFOCONm` word for a FIFO entry: `FSIZE` = depth - 1, `PLSIZE`,
/// `FRESET`, and `TXEN` for a transmit FIFO or the not-empty (`TFNRFNIE`)
/// and overflow (`RXOVIE`) interrupt enables for a receive FIFO.
pub open spec fn fifo_con_word(e: FifoEntry) -> u32 {
    let base = ((((e.depth - 1) as u32) & 0x1Fu32) << 24u32) | (plsize(e.payload) << 29u32) | (1u32
        << 10u32);
    match e.direction {
        FifoDirection::Transmit => base | (1u32 << 7u32),
        FifoDirection::Receive => base | 1u32 | (1u32 << 3u32),
    }
}

/// The control word of a FIFO entry configures exactly that entry: the
/// element payload its `PLSIZE` code selects is the entry's payload size,
/// `FSIZE` is one less than the depth, `FRESET` is set, `TXEN` is set
/// exactly for a transmit FIFO, and the not-empty and overflow interrupts
/// are enabled exactly for a receive FIFO.
pub proof fn lemma_fifo_con_word_configures(e: FifoEntry)
    requires
        1 <= e.depth <= 32,
    ensures
        crate::registers::plsize_payload_bytes(field(fifo_con_word(e), 29, 7)) == crate::registers::payload_bytes(e.payload),
        field(fifo_con_word(e), 24, 0x1F) + 1 == e.depth,
        crate::bits::bit(fifo_con_word(e), 10),
        crate::bits::bit(fifo_con_word(e), 7) <==> e.direction == FifoDirection::Transmit,
        crate::bits::bit(fifo_con_word(e), 0) <==> e.direction == FifoDirection::Receive,
        crate::bits::bit(fifo_con_word(e), 3) <==> e.direction == FifoDirection::Receive,
{
    let d = (e.depth - 1) as u32;
    let p = plsize(e.payload);
    crate::registers::lemma_plsize_injective(e.payload, e.payload);
    let base = ((d & 0x1Fu32) << 24u32) | (p << 29u32) | (1u32 << 10u32);
    let t = base | (1u32 << 7u32);
    let x = base | 1u32 | (1u32 << 3u32);
    assert({
        &&& (t >> 29u32) & 7 == p && (x >> 29u32) & 7 == p
        &&& (t >> 24u32) & 0x1F == d && (x >> 24u32) & 0x1F == d
        &&& (t >> 10u32) & 1 == 1 && (x >> 10u32) & 1 == 1
        &&& (t >> 7u32) & 1 == 1 && (x >> 7u32) & 1 == 0
        &&& (t >> 0u32) & 1 == 0 && (x >> 0u32) & 1 == 1
        &&& (t >> 3u32) & 1 == 0 && (x >> 3u32) & 1 == 1
    }) by (bit_vector)
        requires
            d <= 31,
            p <= 7,
            base == ((d & 0x1Fu32) << 24u32) | (p << 29u32) | (1u32 << 10u32),
            t == base | (1u32 << 7u32),
            x == base | 1u32 | (1u32 << 3u32),
    ;
    crate::registers::lemma_plsize_payload_bytes(e.payload);
}

/// The control word a FIFO of a layout is configured with.
pub fn fifo_con_value(e: FifoEntry) -> (r: u32)
    requires
        1 <= e.depth <= 32,
    ensures
        r == fifo_con_word(e),
{
    let reg = CiFifoCon(0).with_fifo_size(e.depth).with_payload_size(e.payload).with_freset(true);
    let reg = match e.direction {
        FifoDirection::Transmit => reg.with_tx(true),
        FifoDirection::Receive => reg.with_not_full_empty_ie(true).with_rx_overflow_ie(true),
    };
    let ghost d = (e.depth - 1) as u32;
    let ghost p = plsize(e.payload);
    assert({
        let w3 = with_field(with_field(with_field(0, 24, 0x1F, d), 29, 7, p), 10, 1, 1);
        let base = ((d & 0x1Fu32) << 24u32) | (p << 29u32) | (1u32 << 10u32);
        &&& with_field(w3, 7, 1, 1) == base | (1u32 << 7u32)
        &&& with_field(with_field(w3, 0, 1, 1), 3, 1, 1) == base | 1u32 | (1u32 << 3u32)
    }) by (bit_vector)
        requires
            d <= 31,
            p <= 7,
    ;
    reg.0
}

/// The writes that configure every FIFO of a layout, in FIFO order.
pub open spec fn layout_ops(c: Seq<(u8, FifoEntry)>) -> Seq<BusOpView> {
    c.map_values(
        |p: (u8, FifoEntry)| BusOpView::WriteSfr32(fifo_con_addr(p.0) as u16, fifo_con_word(p.1)),
    )
}

/// Where applying a layout stands.
pub enum ApplyLayoutPhase {
    /// Waiting for `CiCON`, to check for Configuration mode.
    Check,
    /// The FIFO control registers were written.
    Finish,
    /// The result was handed back.
    Finished,
}

/// Writes the FIFO configuration registers for a validated layout.
///
/// Requires Configuration mode ([`Error::NotInConfigMode`] otherwise). RX
/// FIFOs get their not-empty and overflow interrupts enabled at FIFO level;
/// every FIFO is reset (`FRESET`). FIFOs a previous layout configured are
/// left as they were.
pub struct ApplyLayoutJob {
    /// The layout to apply.
    pub layout: FifoLayout,
    /// Where the job stands.
    pub phase: ApplyLayoutPhase,
}

impl ApplyLayoutJob {
    /// Starts applying a layout.
    pub fn start<E>(layout: FifoLayout) -> (r: (ApplyLayoutJob, Step<(), E>))
        ensures
            r.0.layout@ == layout@,
            r.0.phase is Check,
            r.1@ == StepView::<(), E>::Bus(seq![BusOpView::ReadSfr32(0)]),
            hands_out(r.1@, r.0.awaited()),
    {
        (ApplyLayoutJob { layout, phase: ApplyLayoutPhase::Check }, read_con_step())
    }

    /// Bytes the job expects back from the last batch it handed out.
    pub open spec fn awaited(&self) -> nat {
        match self.phase {
            ApplyLayoutPhase::Check => 4,
            _ => 0,
        }
    }

    /// Continues with the bytes read by the last batch.
    pub fn resume<E>(&mut self, reply: &[u8]) -> (r: Step<(), E>)
        requires
            !(old(self).phase is Finished),
            reply@.len() == old(self).awaited(),
        ensures
            hands_out(r@, final(self).awaited()),
            old(self).phase is Check ==> {
                &&& field(word_at(reply@, 0), 21, 7) != 4 ==> r@ == StepView::<(), E>::Done(
                    Err(Error::NotInConfigMode),
                ) && final(self).phase is Finished
                &&& field(word_at(reply@, 0), 21, 7) == 4 ==> r@ == StepView::<(), E>::Bus(
                    layout_ops(configured(old(self).layout@, 31)),
                ) && final(self).phase is Finish
            },
            old(self).phase is Finish ==> r@ == StepView::<(), E>::Done(Ok(()))
                && final(self).phase is Finished,
    {
        match self.phase {
            ApplyLayoutPhase::Finished => Step::Done(Ok(())),
            ApplyLayoutPhase::Finish => {
                self.phase = ApplyLayoutPhase::Finished;
                Step::Done(Ok(()))
            },
            ApplyLayoutPhase::Check => {
                let con = CiCon(word_from_le(reply, 0));
                let mode = con.op_mode();
                proof {
                    crate::registers::lemma_mode_bits_injective(mode, OperationMode::Configuration);
                }
                if mode != OperationMode::Configuration {
                    self.phase = ApplyLayoutPhase::Finished;
                    return Step::Done(Err(Error::NotInConfigMode));
                }
                let entries = self.layout.entries();
                let ghost c = configured(self.layout@, 31);
                let mut ops: Vec<BusOp> = Vec::new();
                let mut i: usize = 0;
                while i < entries.len()
                    invariant
                        i <= entries@.len(),
                        entries@.map_values(|p: (crate::registers::Fifo, FifoEntry)| (p.0@, p.1))
                            == c,
                        forall|k: int|
                            0 <= k < entries@.len() ==> 1 <= (#[trigger] entries@[k]).1.depth
                                <= 32,
                        crate::bus::ops_view(ops@) == layout_ops(c).take(i as int),
                    decreases entries@.len() - i,
                {
                    let (fifo, entry) = entries[i];
                    assert(c[i as int] == (fifo@, entry));
                    let value = fifo_con_value(entry);
                    let a = fifo_con(fifo);
                    let ghost before = ops@;
                    ops.push(BusOp::WriteSfr32 { addr: a, value });
                    assert(layout_ops(c)[i as int] == BusOpView::WriteSfr32(a, value));
                    assert(crate::bus::ops_view(ops@) =~= crate::bus::ops_view(before).push(
                        BusOpView::WriteSfr32(a, value),
                    ));
                    i = i + 1;
                    assert(crate::bus::ops_view(ops@) =~= layout_ops(c).take(i as int));
                }
                assert(layout_ops(c).take(i as int) =~= layout_ops(c));
                self.phase = ApplyLayoutPhase::Finish;
                Step::Bus(ops)
            },
        }
    }
}

/// Where reading back the configuration stands.
pub enum ReadBackPhase {
    /// Waiting for `C1CON` and `C1NBTCFG`.
    First,
    /// Waiting for `C1DBTCFG` and `C1TDC`.
    Second {
        /// `C1CON`.
        con: u32,
        /// `C1NBTCFG`.
        nominal: u32,
    },
    /// The result was handed back.
    Finished,
}

/// The snapshot made of the four configuration register words.
pub open spec fn read_back_config(con: u32, nominal: u32, data: u32, tdc: u32) -> ChipConfig {
    ChipConfig {
        con: CiCon(con),
        nominal: CiNbtCfg(nominal),
        data: CiDbtCfg(data),
        tdc: CiTdc(tdc),
    }
}

/// Reads back the configuration registers the initialization wrote, two
/// adjacent registers per transaction.
pub struct ReadBackJob {
    /// Where the job stands.
    pub phase: ReadBackPhase,
}

impl ReadBackJob {
    /// Starts reading back the configuration.
    pub fn start<E>() -> (r: (ReadBackJob, Step<ChipConfig, E>))
        ensures
            r.0.phase is First,
            r.1@ == StepView::<ChipConfig, E>::Bus(seq![BusOpView::ReadSfr32Pair(0)]),
            hands_out(r.1@, r.0.awaited()),
    {
        let mut ops: Vec<BusOp> = Vec::new();
        ops.push(BusOp::ReadSfr32Pair { addr: C1CON });
        let r = Step::Bus(ops);
        assert(r@->Bus_0 =~= seq![BusOpView::ReadSfr32Pair(0)]);
        (ReadBackJob { phase: ReadBackPhase::First }, r)
    }

    /// Bytes the job expects back from the last batch it handed out.
    pub open spec fn awaited(&self) -> nat {
        match self.phase {
            ReadBackPhase::Finished => 0,
            _ => 8,
        }
    }

    /// Continues with the bytes read by the last batch.
    pub fn resume<E>(&mut self, reply: &[u8]) -> (r: Step<ChipConfig, E>)
        requires
            !(old(self).phase is Finished),
            reply@.len() == old(self).awaited(),
        ensures
            hands_out(r@, final(self).awaited()),
            old(self).phase is First ==> (r@ == StepView::<ChipConfig, E>::Bus(
                seq![BusOpView::ReadSfr32Pair(8)],
            ) && final(self).phase == (ReadBackPhase::Second {
                con: word_at(reply@, 0),
                nominal: word_at(reply@, 4),
            })),
            old(self).phase matches ReadBackPhase::Second { con, nominal } ==> (r@ == StepView::<
                ChipConfig,
                E,
            >::Done(Ok(read_back_config(con, nominal, word_at(reply@, 0), word_at(reply@, 4))))
                && final(self).phase is Finished),
    {
        match self.phase {
            ReadBackPhase::Finished => Step::Done(Err(Error::CommunicationCheckFailed)),
            ReadBackPhase::First => {
                let con = word_from_le(reply, 0);
                let nominal = word_from_le(reply, 4);
                let mut ops: Vec<BusOp> = Vec::new();
                ops.push(BusOp::ReadSfr32Pair { addr: C1DBTCFG });
                self.phase = ReadBackPhase::Second { con, nominal };
                let r = Step::Bus(ops);
                assert(r@->Bus_0 =~= seq![BusOpView::ReadSfr32Pair(8)]);
                r
            },
            ReadBackPhase::Second { con, nominal } => {
                let data = word_from_le(reply, 0);
                let tdc = word_from_le(reply, 4);
                self.phase = ReadBackPhase::Finished;
                Step::Done(
                    Ok(
                        ChipConfig {
                            con: CiCon(con),
                            nominal: CiNbtCfg(nominal),
                            data: CiDbtCfg(data),
                            tdc: CiTdc(tdc),
                        },
                    ),
                )
            },
        }
    }
}

} // verus!
