//! Transmitting and receiving frames through message RAM.

use super::{hands_out, DriverState, SeqCounter, Step, StepView};
use crate::bits::bit;
use crate::bus::{le_bytes, le32, word_at, word_from_le, BusOp, BusOpView};
use crate::error::Error;
use crate::frame::{
    zero_from, FdFrame, FdFrameView, Frame, FrameFlags, FrameView, ReceivedFrame, RxFrame,
};
use crate::registers::addr::{fifo_con, fifo_con_addr, fifo_sta, fifo_ua};
use crate::registers::objects::{
    dlc_len, dlc_to_len, len_to_dlc, lemma_dlc_len_round_trip, packed_id, rx_header_of, tx_t1,
    valid_len, RxHeader, TxHeader,
};
use crate::registers::{CiFifoCon, CiFifoSta, Fifo};
use vstd::prelude::*;
use vstd::slice::slice_to_vec;

verus! {

/// `n` rounded up to a multiple of 4.
pub open spec fn ceil4(n: nat) -> nat {
    ((n + 3) / 4 * 4) as nat
}

/// The bytes of `data` followed by zeros up to length `n`.
pub open spec fn padded_to(data: Seq<u8>, n: nat) -> Seq<u8> {
    Seq::new(n, |i: int| if i < data.len() { data[i] } else { 0u8 })
}

/// A TX message object: T0 and T1 little-endian, then the payload
/// zero-padded to a 32-bit boundary.
pub open spec fn tx_object(h: TxHeader, payload: Seq<u8>) -> Seq<u8> {
    le32(packed_id(h.id)) + le32(tx_t1(h)) + padded_to(payload, ceil4(payload.len()))
}

/// The counter after one transmission: the sequence number advances by
/// one, wrapping around.
pub open spec fn advanced(c: SeqCounter) -> SeqCounter {
    SeqCounter {
        seq: if c.seq == u32::MAX {
            0
        } else {
            (c.seq + 1) as u32
        },
        mask: c.mask,
    }
}

/// Where a transmission stands.
pub enum TransmitPhase {
    /// Waiting for `CiFIFOSTA` of the target FIFO.
    Status,
    /// Waiting for `CiFIFOUA` of the target FIFO.
    UserAddress,
    /// The object was written and `UINC | TXREQ` set.
    Written,
    /// The result was handed back.
    Finished,
}

/// Queues one frame on a transmit FIFO and requests transmission.
///
/// Checks `CiFIFOSTA.TFNRFNIF` (not-full flag) first and fails with
/// [`Error::TxFifoFull`] if clear, then reads `CiFIFOUA` as the next free
/// slot's RAM offset, writes the header and
/// payload there, and sets `UINC | TXREQ` in `CiFIFOCON` byte 1. A `UA`
/// that is unaligned, or that would put the object past the end of the
/// 2048-byte message RAM, fails with [`Error::CommunicationCheckFailed`]
/// before any RAM access.
///
/// Retransmission is unlimited (`CiCON.RTXAT` stays clear). The FIFO's
/// `PLSIZE` must be at least as large as the frame: the driver keeps no
/// per-FIFO record and only refuses writes that would leave the RAM.
pub struct TransmitJob {
    /// The target FIFO.
    pub fifo: Fifo,
    /// The header to write (its sequence number is filled in when written).
    pub header: TxHeader,
    /// The payload bytes.
    pub payload: Vec<u8>,
    /// Where the job stands.
    pub phase: TransmitPhase,
}

/// What a transmission does once the FIFO has a free slot and `CiFIFOUA`
/// reads `ua`, with counter `c` before it.
pub open spec fn transmit_outcome<E>(job: TransmitJob, c: SeqCounter, ua: u32) -> StepView<(), E> {
    let n = 8 + ceil4(job.payload@.len());
    if ua >= 2048 || ua % 4 != 0 || ua + n > 2048 {
        StepView::Done(Err(Error::CommunicationCheckFailed))
    } else {
        let h = TxHeader {
            id: job.header.id,
            dlc: job.header.dlc,
            rtr: job.header.rtr,
            brs: job.header.brs,
            fdf: job.header.fdf,
            esi: job.header.esi,
            seq: c.seq & c.mask,
        };
        StepView::Bus(
            seq![
                BusOpView::WriteRam((0x400 + ua) as u16, tx_object(h, job.payload@)),
                BusOpView::WriteSfr8((fifo_con_addr(job.fifo@) + 1) as u16, 0x03),
            ],
        )
    }
}

impl TransmitJob {
    /// Starts queueing a classic frame.
    pub fn start_classic<E>(fifo: Fifo, frame: &Frame) -> (r: (TransmitJob, Step<(), E>))
        ensures
            r.0.fifo == fifo,
            r.0.header == classic_header(frame@, 0),
            r.0.payload@ == frame@.data,
            r.0.payload@.len() <= 8,
            r.0.wf(),
            r.0.phase is Status,
            hands_out(r.1@, r.0.awaited()),
            r.1@ == StepView::<(), E>::Bus(
                seq![BusOpView::ReadSfr32((fifo_con_addr(fifo@) + 4) as u16)],
            ),
    {
        let header = TxHeader {
            id: frame.id(),
            dlc: frame.dlc() as u8,
            rtr: frame.is_remote(),
            brs: false,
            fdf: false,
            esi: false,
            seq: 0,
        };
        let payload = slice_to_vec(frame.data());
        let job = TransmitJob { fifo, header, payload, phase: TransmitPhase::Status };
        (job, Self::status_read(fifo))
    }

    /// Starts queueing a CAN FD frame. `frame.flags().brs` selects the data
    /// bit rate for the data phase; `frame.flags().esi` is written to
    /// `T1.ESI`, which only drives the wire in gateway mode (never enabled
    /// by this driver).
    pub fn start_fd<E>(fifo: Fifo, frame: &FdFrame) -> (r: (TransmitJob, Step<(), E>))
        ensures
            r.0.fifo == fifo,
            r.0.payload@ == frame@.data,
            r.0.wf(),
            r.0.header == fd_header(frame@, r.0.header.dlc, 0),
            r.0.header.dlc <= 15,
            dlc_len(r.0.header.dlc, true) == frame@.data.len(),
            r.0.phase is Status,
            hands_out(r.1@, r.0.awaited()),
            r.1@ == StepView::<(), E>::Bus(
                seq![BusOpView::ReadSfr32((fifo_con_addr(fifo@) + 4) as u16)],
            ),
    {
        let data = frame.data();
        let dlc = match len_to_dlc(data.len(), true) {
            Some(d) => d,
            None => {
                // Unreachable: an `FdFrame` always holds a valid length.
                assert(false);
                0
            },
        };
        let flags = frame.flags();
        let header = TxHeader {
            id: frame.id(),
            dlc,
            rtr: false,
            brs: flags.brs,
            fdf: true,
            esi: flags.esi,
            seq: 0,
        };
        let payload = slice_to_vec(data);
        let job = TransmitJob { fifo, header, payload, phase: TransmitPhase::Status };
        (job, Self::status_read(fifo))
    }

    fn status_read<E>(fifo: Fifo) -> (r: Step<(), E>)
        ensures
            r@ == StepView::<(), E>::Bus(
                seq![BusOpView::ReadSfr32((fifo_con_addr(fifo@) + 4) as u16)],
            ),
    {
        let mut ops: Vec<BusOp> = Vec::new();
        ops.push(BusOp::ReadSfr32 { addr: fifo_sta(fifo) });
        let r = Step::Bus(ops);
        assert(r@->Bus_0 =~= seq![BusOpView::ReadSfr32((fifo_con_addr(fifo@) + 4) as u16)]);
        r
    }

    /// Bytes the job expects back from the last batch it handed out.
    pub open spec fn awaited(&self) -> nat {
        match self.phase {
            TransmitPhase::Status => 4,
            TransmitPhase::UserAddress => 4,
            _ => 0,
        }
    }

    /// The job invariant: a payload of at most 64 bytes.
    pub open spec fn wf(&self) -> bool {
        self.payload@.len() <= 64
    }

    /// Continues with the bytes read by the last batch.
    pub fn resume<E>(&mut self, st: &mut DriverState, reply: &[u8]) -> (r: Step<(), E>)
        requires
            old(self).wf(),
            !(old(self).phase is Finished),
            reply@.len() == old(self).awaited(),
        ensures
            final(self).wf(),
            final(self).fifo == old(self).fifo,
            hands_out(r@, final(self).awaited()),
            old(self).phase is Status ==> {
                &&& !bit(word_at(reply@, 0), 0) ==> r@ == StepView::<(), E>::Done(
                    Err(Error::TxFifoFull),
                ) && final(self).phase is Finished
                &&& bit(word_at(reply@, 0), 0) ==> r@ == StepView::<(), E>::Bus(
                    seq![BusOpView::ReadSfr32((fifo_con_addr(old(self).fifo@) + 8) as u16)],
                ) && final(self).phase is UserAddress
                &&& final(self).header == old(self).header
                &&& final(self).payload@ == old(self).payload@
                &&& final(st)@ == old(st)@
            },
            old(self).phase is UserAddress ==> {
                let ua = word_at(reply@, 0);
                let out = transmit_outcome::<E>(*old(self), old(st)@, ua);
                &&& r@ == out
                &&& out is Bus ==> final(st)@ == advanced(old(st)@) && final(self).phase is Written
                &&& out is Done ==> final(st)@ == old(st)@ && final(self).phase is Finished
            },
            old(self).phase is Written ==> r@ == StepView::<(), E>::Done(Ok(()))
                && final(self).phase is Finished && final(st)@ == old(st)@,
    {
        match self.phase {
            TransmitPhase::Written => {
                self.phase = TransmitPhase::Finished;
                Step::Done(Ok(()))
            },
            TransmitPhase::Finished => Step::Done(Ok(())),
            TransmitPhase::Status => {
                let sta = word_from_le(reply, 0);
                if !CiFifoSta(sta).not_full_or_not_empty() {
                    self.phase = TransmitPhase::Finished;
                    return Step::Done(Err(Error::TxFifoFull));
                }
                let mut ops: Vec<BusOp> = Vec::new();
                ops.push(BusOp::ReadSfr32 { addr: fifo_ua(self.fifo) });
                self.phase = TransmitPhase::UserAddress;
                let r = Step::Bus(ops);
                assert(r@->Bus_0 =~= seq![BusOpView::ReadSfr32((fifo_con_addr(self.fifo@) + 8) as u16)]);
                r
            },
            TransmitPhase::UserAddress => {
                let ua = word_from_le(reply, 0);
                if ua >= 2048 || ua % 4 != 0 {
                    self.phase = TransmitPhase::Finished;
                    return Step::Done(Err(Error::CommunicationCheckFailed));
                }
                let plen = self.payload.len();
                let n = 8 + (plen + 3) / 4 * 4;
                if ua as usize + n > 2048 {
                    self.phase = TransmitPhase::Finished;
                    return Step::Done(Err(Error::CommunicationCheckFailed));
                }
                let seq = st.take_seq();
                let h = TxHeader { seq, ..self.header };
                let obj = tx_object_bytes(&h, &self.payload);
                let mut ops: Vec<BusOp> = Vec::new();
                ops.push(BusOp::WriteRam { addr: 0x400 + ua as u16, data: obj });
                ops.push(
                    BusOp::WriteSfr8 {
                        addr: fifo_con(self.fifo) + 1,
                        value: CiFifoCon::CON_BYTE1_UINC_TXREQ,
                    },
                );
                self.phase = TransmitPhase::Written;
                let r = Step::Bus(ops);
                assert(r@->Bus_0 =~= seq![
                    BusOpView::WriteRam((0x400 + ua) as u16, tx_object(h, self.payload@)),
                    BusOpView::WriteSfr8((fifo_con_addr(self.fifo@) + 1) as u16, 0x03),
                ]);
                r
            },
        }
    }
}

/// Encodes a TX message object.
fn tx_object_bytes(h: &TxHeader, payload: &Vec<u8>) -> (r: Vec<u8>)
    requires
        payload@.len() <= 64,
    ensures
        r@ == tx_object(*h, payload@),
{
    let words = h.to_words();
    let b0 = le_bytes(words[0]);
    let b1 = le_bytes(words[1]);
    let mut out: Vec<u8> = Vec::new();
    let mut i: usize = 0;
    while i < 4
        invariant
            i <= 4,
            out@ == le32(packed_id(h.id)).take(i as int),
            b0@ == le32(packed_id(h.id)),
        decreases 4 - i,
    {
        out.push(b0[i]);
        i = i + 1;
        assert(out@ =~= le32(packed_id(h.id)).take(i as int));
    }
    let mut i: usize = 0;
    while i < 4
        invariant
            i <= 4,
            out@ == le32(packed_id(h.id)) + le32(tx_t1(*h)).take(i as int),
            b1@ == le32(tx_t1(*h)),
        decreases 4 - i,
    {
        out.push(b1[i]);
        i = i + 1;
        assert(out@ =~= le32(packed_id(h.id)) + le32(tx_t1(*h)).take(i as int));
    }
    let plen = payload.len();
    let padded = (plen + 3) / 4 * 4;
    let ghost head = le32(packed_id(h.id)) + le32(tx_t1(*h));
    let mut i: usize = 0;
    while i < padded
        invariant
            i <= padded,
            padded == ceil4(plen as nat),
            plen == payload@.len(),
            plen <= 64,
            head.len() == 8,
            out@ == head + padded_to(payload@, padded as nat).take(i as int),
        decreases padded - i,
    {
        let b = if i < plen {
            payload[i]
        } else {
            0u8
        };
        out.push(b);
        i = i + 1;
        assert(out@ =~= head + padded_to(payload@, padded as nat).take(i as int));
    }
    assert(padded_to(payload@, padded as nat).take(padded as int) =~= padded_to(
        payload@,
        padded as nat,
    ));
    out
}

/// A message object written for a transmission decodes back to the frame:
/// the RX header read from its first two words carries the identifier, DLC
/// and flags that were written, and the payload follows at byte 8. This is
/// the object layout [`TransmitJob`] writes and [`ReceiveJob`] reads.
pub proof fn lemma_tx_object_decodes(h: TxHeader, payload: Seq<u8>)
    requires
        h.id.wf(),
        h.dlc <= 15,
        payload.len() <= 64,
    ensures
        ({
            let obj = tx_object(h, payload);
            let d = rx_header_of(word_at(obj, 0), word_at(obj, 4));
            &&& obj.len() == 8 + ceil4(payload.len())
            &&& d.id == h.id
            &&& d.dlc == h.dlc
            &&& d.rtr == h.rtr
            &&& d.brs == h.brs
            &&& d.fdf == h.fdf
            &&& d.esi == h.esi
            &&& obj.subrange(8, 8 + payload.len() as int) == payload
        }),
{
    let obj = tx_object(h, payload);
    let w0 = packed_id(h.id);
    let w1 = tx_t1(h);
    crate::bus::lemma_le32_round_trip(w0, le32(w0));
    crate::bus::lemma_le32_round_trip(w1, le32(w1));
    assert(obj.subrange(0, 4) =~= le32(w0));
    assert(obj.subrange(4, 8) =~= le32(w1));
    assert(word_at(obj, 0) == word_at(le32(w0), 0));
    assert(word_at(obj, 4) == word_at(le32(w1), 0));
    crate::registers::objects::lemma_header_round_trip(h);
    assert(obj.subrange(8, 8 + payload.len() as int) =~= payload);
}

/// The TX header a classic frame is written with.
pub open spec fn classic_header(f: FrameView, seq: u32) -> TxHeader {
    TxHeader { id: f.id, dlc: f.dlc as u8, rtr: f.remote, brs: false, fdf: false, esi: false, seq }
}

/// The TX header an FD frame is written with, `dlc` being the code of its
/// length.
pub open spec fn fd_header(f: FdFrameView, dlc: u8, seq: u32) -> TxHeader {
    TxHeader { id: f.id, dlc, rtr: false, brs: f.flags.brs, fdf: true, esi: f.flags.esi, seq }
}

/// The payload a reception takes from a message object whose header
/// decodes to `h`: the `len` bytes after the header, or `len` zeros for a
/// classic remote frame, whose payload slot is not read.
pub open spec fn object_payload(obj: Seq<u8>, h: RxHeader) -> Seq<u8> {
    let len = dlc_len(h.dlc, h.fdf);
    if h.rtr && !h.fdf {
        Seq::new(len, |i: int| 0u8)
    } else {
        obj.subrange(8, 8 + len as int)
    }
}

/// `rx` is the frame a reception makes of the message object `obj`.
pub open spec fn received_from(rx: RxFrame, obj: Seq<u8>) -> bool {
    let h = rx_header_of(word_at(obj, 0), word_at(obj, 4));
    received_frame(rx, h, object_payload(obj, h))
}

/// A classic frame written into message RAM as a TX object is received
/// back as the same frame, whatever sequence number it was written with.
pub proof fn lemma_classic_frame_round_trip(f: FrameView, seq: u32, rx: RxFrame)
    requires
        f.id.wf(),
        f.dlc <= 8,
        f.data.len() == (if f.remote {
            0
        } else {
            f.dlc
        }),
        received_from(rx, tx_object(classic_header(f, seq), f.data)),
    ensures
        rx.frame matches ReceivedFrame::Classic(g) && g@ == f,
        rx.timestamp is None,
{
    let h = classic_header(f, seq);
    let obj = tx_object(h, f.data);
    lemma_tx_object_decodes(h, f.data);
    let d = rx_header_of(word_at(obj, 0), word_at(obj, 4));
    assert(dlc_len(d.dlc, d.fdf) == f.dlc);
    if !f.remote {
        assert(object_payload(obj, d) =~= f.data);
    }
    match rx.frame {
        ReceivedFrame::Classic(g) => {
            assert(g@.data =~= f.data);
        },
        ReceivedFrame::Fd(_) => {},
    }
}

/// A CAN FD frame written into message RAM as a TX object is received
/// back as the same frame, whatever sequence number it was written with.
pub proof fn lemma_fd_frame_round_trip(f: FdFrameView, dlc: u8, seq: u32, rx: RxFrame)
    requires
        f.id.wf(),
        dlc <= 15,
        dlc_len(dlc, true) == f.data.len(),
        received_from(rx, tx_object(fd_header(f, dlc, seq), f.data)),
    ensures
        rx.frame matches ReceivedFrame::Fd(g) && g@ == f,
        rx.timestamp is None,
{
    let h = fd_header(f, dlc, seq);
    let obj = tx_object(h, f.data);
    lemma_tx_object_decodes(h, f.data);
    let d = rx_header_of(word_at(obj, 0), word_at(obj, 4));
    assert(object_payload(obj, d) =~= f.data);
}

/// Where a reception stands.
pub enum ReceivePhase {
    /// Waiting for `CiFIFOSTA` of the FIFO.
    Status,
    /// Waiting for `CiFIFOUA` of the FIFO.
    UserAddress,
    /// Waiting for the 8-byte object header at RAM offset `ua`.
    Header {
        /// The object's RAM offset.
        ua: u32,
    },
    /// Waiting for the payload words.
    Payload {
        /// The decoded header.
        header: RxHeader,
        /// Payload length in bytes.
        len: usize,
    },
    /// `UINC` was written; the frame is ready.
    Pop {
        /// The frame that was read.
        frame: RxFrame,
    },
    /// The result was handed back.
    Finished,
}

/// Pops one frame from a receive FIFO.
///
/// Fails with [`Error::RxFifoEmpty`] when there is nothing to read, and
/// with [`Error::CommunicationCheckFailed`] if `CiFIFOUA` is unaligned or
/// too close to the end of the 2048-byte message RAM to hold the object's
/// 8-byte header, or its payload (no RAM access is made in that case).
/// A remote frame's payload slot is not read; bytes beyond the frame's
/// length are zero. A classic frame whose sender used a DLC of 9..=15 is
/// stored with its DLC capped at 8. `fifo` must be a receive FIFO.
pub struct ReceiveJob {
    /// The FIFO to pop.
    pub fifo: Fifo,
    /// Where the job stands.
    pub phase: ReceivePhase,
}

/// `rx` is the frame that header `h` with payload bytes `data` describes.
pub open spec fn received_frame(rx: RxFrame, h: RxHeader, data: Seq<u8>) -> bool {
    &&& rx.timestamp is None
    &&& match rx.frame {
        ReceivedFrame::Fd(f) => h.fdf && f@ == FdFrameView {
            id: h.id,
            flags: FrameFlags { brs: h.brs, esi: h.esi },
            data,
        },
        ReceivedFrame::Classic(f) => !h.fdf && f@ == FrameView {
            id: h.id,
            dlc: data.len(),
            remote: h.rtr,
            data: if h.rtr {
                Seq::empty()
            } else {
                data
            },
        },
    }
}

impl ReceiveJob {
    /// Starts popping a frame from `fifo`.
    pub fn start<E>(fifo: Fifo) -> (r: (ReceiveJob, Step<RxFrame, E>))
        ensures
            r.0.fifo == fifo,
            r.0.wf(),
            r.0.phase is Status,
            hands_out(r.1@, r.0.awaited()),
            r.1@ == StepView::<RxFrame, E>::Bus(
                seq![BusOpView::ReadSfr32((fifo_con_addr(fifo@) + 4) as u16)],
            ),
    {
        let mut ops: Vec<BusOp> = Vec::new();
        ops.push(BusOp::ReadSfr32 { addr: fifo_sta(fifo) });
        let r = Step::Bus(ops);
        assert(r@->Bus_0 =~= seq![BusOpView::ReadSfr32((fifo_con_addr(fifo@) + 4) as u16)]);
        (ReceiveJob { fifo, phase: ReceivePhase::Status }, r)
    }

    /// Bytes the job expects back from the last batch it handed out.
    pub open spec fn awaited(&self) -> nat {
        match self.phase {
            ReceivePhase::Status => 4,
            ReceivePhase::UserAddress => 4,
            ReceivePhase::Header { .. } => 8,
            ReceivePhase::Payload { len, .. } => ceil4(len as nat),
            _ => 0,
        }
    }

    /// The job invariant: the header offset leaves room for the header, and
    /// a pending payload read belongs to a data frame of the header's length.
    pub open spec fn wf(&self) -> bool {
        match self.phase {
            ReceivePhase::Header { ua } => ua + 8 <= 2048,
            ReceivePhase::Payload { header, len } => {
                &&& len == dlc_len(header.dlc, header.fdf)
                &&& header.dlc <= 15
                &&& header.id.wf()
                &&& !(header.rtr && !header.fdf)
            },
            _ => true,
        }
    }

    /// The UINC write that hands the element back to the chip.
    fn pop_ops<E>(&self) -> (r: Step<RxFrame, E>)
        ensures
            r@ == StepView::<RxFrame, E>::Bus(
                seq![BusOpView::WriteSfr8((fifo_con_addr(self.fifo@) + 1) as u16, 0x01)],
            ),
    {
        let mut ops: Vec<BusOp> = Vec::new();
        ops.push(
            BusOp::WriteSfr8 { addr: fifo_con(self.fifo) + 1, value: CiFifoCon::CON_BYTE1_UINC },
        );
        let r = Step::Bus(ops);
        assert(r@->Bus_0 =~= seq![
            BusOpView::WriteSfr8((fifo_con_addr(self.fifo@) + 1) as u16, 0x01),
        ]);
        r
    }

    /// Continues with the bytes read by the last batch.
    pub fn resume<E>(&mut self, reply: &[u8]) -> (r: Step<RxFrame, E>)
        requires
            old(self).wf(),
            !(old(self).phase is Finished),
            reply@.len() == old(self).awaited(),
        ensures
            final(self).wf(),
            final(self).fifo == old(self).fifo,
            hands_out(r@, final(self).awaited()),
            old(self).phase is Status ==> {
                let sta = word_at(reply@, 0);
                &&& !bit(sta, 0) ==> r@ == StepView::<RxFrame, E>::Done(Err(Error::RxFifoEmpty))
                    && final(self).phase is Finished
                &&& bit(sta, 0) ==> r@ == StepView::<RxFrame, E>::Bus(
                    seq![BusOpView::ReadSfr32((fifo_con_addr(old(self).fifo@) + 8) as u16)],
                ) && final(self).phase is UserAddress
            },
            old(self).phase is UserAddress ==> {
                let ua = word_at(reply@, 0);
                &&& (ua % 4 != 0 || ua + 8 > 2048) ==> r@ == StepView::<
                    RxFrame,
                    E,
                >::Done(Err(Error::CommunicationCheckFailed)) && final(self).phase is Finished
                &&& ua % 4 == 0 && ua + 8 <= 2048 ==> r@ == StepView::<
                    RxFrame,
                    E,
                >::Bus(seq![BusOpView::ReadRam((0x400 + ua) as u16, 8)])
                    && final(self).phase == ReceivePhase::Header { ua }
            },
            old(self).phase matches ReceivePhase::Header { ua } ==> {
                let h = rx_header_of(word_at(reply@, 0), word_at(reply@, 4));
                let len = dlc_len(h.dlc, h.fdf);
                let remote = h.rtr && !h.fdf;
                &&& ua + 8 + ceil4(len) > 2048 ==> r@ == StepView::<RxFrame, E>::Done(
                    Err(Error::CommunicationCheckFailed),
                ) && final(self).phase is Finished
                &&& ua + 8 + ceil4(len) <= 2048 && len > 0 && !remote ==> r@ == StepView::<
                    RxFrame,
                    E,
                >::Bus(seq![BusOpView::ReadRam((0x400 + ua + 8) as u16, ceil4(len))])
                    && final(self).phase == ReceivePhase::Payload { header: h, len: len as usize }
                &&& ua + 8 + ceil4(len) <= 2048 && (len == 0 || remote) ==> r@ == StepView::<
                    RxFrame,
                    E,
                >::Bus(seq![BusOpView::WriteSfr8((fifo_con_addr(old(self).fifo@) + 1) as u16, 0x01)])
                    && (final(self).phase matches ReceivePhase::Pop { frame } && received_frame(
                    frame,
                    h,
                    Seq::new(len, |i: int| 0u8),
                ))
            },
            old(self).phase matches ReceivePhase::Payload { header, len } ==> (r@ == StepView::<
                RxFrame,
                E,
            >::Bus(seq![BusOpView::WriteSfr8((fifo_con_addr(old(self).fifo@) + 1) as u16, 0x01)])
                && (final(self).phase matches ReceivePhase::Pop { frame } && received_frame(
                frame,
                header,
                reply@.take(len as int),
            ))),
            old(self).phase matches ReceivePhase::Pop { frame } ==> r@ == StepView::<RxFrame, E>::Done(
                Ok(frame),
            ) && final(self).phase is Finished,
    {
        match self.phase {
            ReceivePhase::Finished => Step::Done(Err(Error::RxFifoEmpty)),
            ReceivePhase::Pop { frame } => {
                self.phase = ReceivePhase::Finished;
                Step::Done(Ok(frame))
            },
            ReceivePhase::Status => {
                let sta = word_from_le(reply, 0);
                if !CiFifoSta(sta).not_full_or_not_empty() {
                    self.phase = ReceivePhase::Finished;
                    return Step::Done(Err(Error::RxFifoEmpty));
                }
                let mut ops: Vec<BusOp> = Vec::new();
                ops.push(BusOp::ReadSfr32 { addr: fifo_ua(self.fifo) });
                self.phase = ReceivePhase::UserAddress;
                let r = Step::Bus(ops);
                assert(r@->Bus_0 =~= seq![BusOpView::ReadSfr32((fifo_con_addr(self.fifo@) + 8) as u16)]);
                r
            },
            ReceivePhase::UserAddress => {
                let ua = word_from_le(reply, 0);
                if ua % 4 != 0 || ua > 2040 {
                    self.phase = ReceivePhase::Finished;
                    return Step::Done(Err(Error::CommunicationCheckFailed));
                }
                let mut ops: Vec<BusOp> = Vec::new();
                ops.push(BusOp::ReadRam { addr: 0x400 + ua as u16, len: 8 });
                self.phase = ReceivePhase::Header { ua };
                let r = Step::Bus(ops);
                assert(r@->Bus_0 =~= seq![BusOpView::ReadRam((0x400 + ua) as u16, 8)]);
                r
            },
            ReceivePhase::Header { ua } => {
                let r0 = word_from_le(reply, 0);
                let r1 = word_from_le(reply, 4);
                let mut words = [0u32; 2];
                words[0] = r0;
                words[1] = r1;
                let header = RxHeader::from_words(words);
                let len = dlc_to_len(header.dlc, header.fdf);
                let padded = (len + 3) / 4 * 4;
                if ua as usize + 8 + padded > 2048 {
                    self.phase = ReceivePhase::Finished;
                    return Step::Done(Err(Error::CommunicationCheckFailed));
                }
                let remote = header.rtr && !header.fdf;
                if padded > 0 && !remote {
                    let mut ops: Vec<BusOp> = Vec::new();
                    ops.push(BusOp::ReadRam { addr: 0x400 + ua as u16 + 8, len: padded });
                    self.phase = ReceivePhase::Payload { header, len };
                    let r = Step::Bus(ops);
                    assert(r@->Bus_0 =~= seq![BusOpView::ReadRam((0x400 + ua + 8) as u16, ceil4(len as nat))]);
                    r
                } else {
                    let data = [0u8;64];
                    assert(data@.take(len as int) =~= Seq::new(len as nat, |i: int| 0u8));
                    let frame = build_frame(header, len, data);
                    self.phase = ReceivePhase::Pop { frame };
                    self.pop_ops()
                }
            },
            ReceivePhase::Payload { header, len } => {
                let mut data = [0u8;64];
                let mut i: usize = 0;
                while i < len
                    invariant
                        i <= len <= 64,
                        len <= reply@.len(),
                        data@.len() == 64,
                        forall|k: int| 0 <= k < i ==> data@[k] == reply@[k],
                        zero_from(data@, i as int),
                    decreases len - i,
                {
                    data[i] = reply[i];
                    i = i + 1;
                }
                assert(data@.take(len as int) =~= reply@.take(len as int));
                let frame = build_frame(header, len, data);
                self.phase = ReceivePhase::Pop { frame };
                self.pop_ops()
            },
        }
    }
}

/// Builds the received frame from its decoded header and a zero-padded
/// payload buffer.
fn build_frame(header: RxHeader, len: usize, data: [u8; 64]) -> (r: RxFrame)
    requires
        len == dlc_len(header.dlc, header.fdf),
        header.dlc <= 15,
        header.id.wf(),
        zero_from(data@, len as int),
        header.rtr && !header.fdf ==> zero_from(data@, 0),
    ensures
        received_frame(r, header, data@.take(len as int)),
{
    proof {
        lemma_dlc_len_round_trip(header.dlc, header.dlc, header.fdf);
    }
    if header.fdf {
        let f = FdFrame::from_parts(
            header.id,
            len as u8,
            FrameFlags { brs: header.brs, esi: header.esi },
            data,
        );
        RxFrame { frame: ReceivedFrame::Fd(f), timestamp: None }
    } else {
        let mut d8 = [0u8;8];
        let mut i: usize = 0;
        while i < 8
            invariant
                i <= 8,
                d8@.len() == 8,
                data@.len() == 64,
                forall|k: int| 0 <= k < i ==> d8@[k] == data@[k],
            decreases 8 - i,
        {
            d8[i] = data[i];
            i = i + 1;
        }
        assert(d8@.take(len as int) =~= data@.take(len as int));
        let f = Frame::from_parts(header.id, len as u8, header.rtr, d8);
        RxFrame { frame: ReceivedFrame::Classic(f), timestamp: None }
    }
}

/// What waiting for a frame on a receive FIFO does next.
///
/// The wait is level-triggered: the FIFO is checked before waiting on the
/// active-low interrupt pin, so a frame that arrived between calls is not
/// missed. nINT is shared by every enabled interrupt source: if another
/// enabled source keeps it low, the wait polls the FIFO without pause.
pub enum WaitRxStep<E> {
    /// Pop a frame from the FIFO ([`ReceiveJob`]).
    Receive,
    /// Wait until the interrupt pin is low, then receive again.
    WaitForPin,
    /// The wait is over.
    Done(Result<RxFrame, Error<E>>),
}

/// A wait for a frame starts by checking the FIFO.
pub fn wait_rx_start<E>() -> (s: WaitRxStep<E>)
    ensures
        s is Receive,
{
    WaitRxStep::Receive
}

/// After a reception: an empty FIFO means waiting on the pin; any frame or
/// other error ends the wait with that result.
pub fn wait_rx_next<E>(received: Result<RxFrame, Error<E>>) -> (s: WaitRxStep<E>)
    ensures
        (received matches Err(Error::RxFifoEmpty)) <==> s is WaitForPin,
        !(received matches Err(Error::RxFifoEmpty)) ==> s == WaitRxStep::Done(received),
{
    match received {
        Err(Error::RxFifoEmpty) => WaitRxStep::WaitForPin,
        other => WaitRxStep::Done(other),
    }
}

/// After waiting on the pin: receive again, or fail with
/// [`Error::IntPin`] if the wait itself failed.
pub fn wait_rx_after_pin<E>(pin_ok: bool) -> (s: WaitRxStep<E>)
    ensures
        pin_ok ==> s is Receive,
        !pin_ok ==> s == WaitRxStep::<E>::Done(Err(Error::IntPin)),
{
    if pin_ok {
        WaitRxStep::Receive
    } else {
        WaitRxStep::Done(Err(Error::IntPin))
    }
}

} // verus!
