//! Encoding and decoding of message objects in controller RAM.
//!
//! TX objects are two header words (T0, T1) followed by the payload; RX
//! objects mirror this (R0, R1). Family reference manual section 4.

use crate::bits::{bit, field, get_bit, get_field_u8, lemma_and_mask};
use crate::id::CanId;
use vstd::prelude::*;

verus! {

/// Payload length in bytes of a DLC code (`0..=15`). For classic frames
/// (`fdf == false`) DLC values above 8 mean 8 bytes.
pub open spec fn dlc_len(dlc: u8, fdf: bool) -> nat {
    if dlc <= 8 {
        dlc as nat
    } else if !fdf {
        8
    } else if dlc == 9 {
        12
    } else if dlc == 10 {
        16
    } else if dlc == 11 {
        20
    } else if dlc == 12 {
        24
    } else if dlc == 13 {
        32
    } else if dlc == 14 {
        48
    } else {
        64
    }
}

/// A payload length that a DLC code can express exactly: `0..=8`, and for
/// CAN FD also `12, 16, 20, 24, 32, 48, 64`.
pub open spec fn valid_len(len: nat, fdf: bool) -> bool {
    len <= 8 || (fdf && (len == 12 || len == 16 || len == 20 || len == 24 || len == 32 || len
        == 48 || len == 64))
}

/// Converts a DLC code (`0..=15`) to a payload length in bytes.
/// For classic frames (`fdf == false`), DLC values above 8 mean 8 bytes.
pub fn dlc_to_len(dlc: u8, fdf: bool) -> (r: usize)
    ensures
        r == dlc_len(dlc, fdf),
        r <= 64,
{
    if dlc <= 8 {
        dlc as usize
    } else if !fdf {
        8
    } else if dlc == 9 {
        12
    } else if dlc == 10 {
        16
    } else if dlc == 11 {
        20
    } else if dlc == 12 {
        24
    } else if dlc == 13 {
        32
    } else if dlc == 14 {
        48
    } else {
        64
    }
}

/// Converts an exact payload length to its DLC code; `None` if the length
/// is not directly representable (e.g. 10 bytes FD, or > 8 bytes classic).
pub fn len_to_dlc(len: usize, fdf: bool) -> (r: Option<u8>)
    ensures
        r is Some <==> valid_len(len as nat, fdf),
        r matches Some(d) ==> d <= 15 && dlc_len(d, fdf) == len && (len <= 8 ==> d == len),
{
    if len <= 8 {
        Some(len as u8)
    } else if !fdf {
        None
    } else if len == 12 {
        Some(9)
    } else if len == 16 {
        Some(10)
    } else if len == 20 {
        Some(11)
    } else if len == 24 {
        Some(12)
    } else if len == 32 {
        Some(13)
    } else if len == 48 {
        Some(14)
    } else if len == 64 {
        Some(15)
    } else {
        None
    }
}

/// Every DLC code names a valid length, and on CAN FD distinct codes name
/// distinct lengths; so `len_to_dlc(dlc_to_len(d, true), true) == Some(d)`
/// and `dlc_to_len(len_to_dlc(n, f)?, f) == n`.
pub proof fn lemma_dlc_len_round_trip(d: u8, e: u8, fdf: bool)
    requires
        d <= 15,
        e <= 15,
    ensures
        valid_len(dlc_len(d, fdf), fdf),
        fdf && dlc_len(d, true) == dlc_len(e, true) ==> d == e,
        dlc_len(d, fdf) <= 64,
{
}

/// `p` is the smallest valid CAN FD payload length that holds `len` bytes.
pub open spec fn is_padded_len(len: nat, p: nat) -> bool {
    &&& valid_len(p, true)
    &&& len <= p
    &&& forall|q: nat| valid_len(q, true) && len <= q ==> p <= q
}

/// Rounds a length up to the next valid CAN FD payload length
/// (`0..=8, 12, 16, 20, 24, 32, 48, 64`). `None` if `len > 64`.
pub fn padded_dlc_len(len: usize) -> (r: Option<usize>)
    ensures
        r is Some <==> len <= 64,
        r matches Some(p) ==> is_padded_len(len as nat, p as nat),
{
    if len <= 8 {
        Some(len)
    } else if len <= 12 {
        Some(12)
    } else if len <= 16 {
        Some(16)
    } else if len <= 20 {
        Some(20)
    } else if len <= 24 {
        Some(24)
    } else if len <= 32 {
        Some(32)
    } else if len <= 48 {
        Some(48)
    } else if len <= 64 {
        Some(64)
    } else {
        None
    }
}

/// The T0/R0/FLTOBJ layout of an identifier: `SID` in bits 10:0 and, for
/// extended IDs, `EID` (ID bits 17:0) in bits 28:11 with the base ID (bits
/// 28:18 of the 29-bit ID) in the `SID` field.
pub open spec fn packed_id(id: CanId) -> u32 {
    match id {
        CanId::Standard(sid) => sid as u32,
        CanId::Extended(eid) => ((eid >> 18u32) & 0x7FFu32) | ((eid & 0x3_FFFFu32) << 11u32),
    }
}

/// The identifier that the raw T0/R0 word `raw` holds, in the layout
/// selected by `extended` (the `IDE` bit).
pub open spec fn unpacked_id(raw: u32, extended: bool) -> CanId {
    if extended {
        CanId::Extended(((raw & 0x7FFu32) << 18u32) | ((raw >> 11u32) & 0x3_FFFFu32))
    } else {
        CanId::Standard((raw & 0x7FFu32) as u16)
    }
}

/// Packs a CAN ID into the T0/R0/FLTOBJ layout.
pub fn pack_id(id: CanId) -> (r: u32)
    ensures
        r == packed_id(id),
{
    match id {
        CanId::Standard(sid) => sid as u32,
        CanId::Extended(eid) => ((eid >> 18) & 0x7FF) | ((eid & 0x3_FFFF) << 11),
    }
}

/// Inverse of [`pack_id`]. `extended` selects the layout (from `IDE`).
pub fn unpack_id(raw: u32, extended: bool) -> (r: CanId)
    ensures
        r == unpacked_id(raw, extended),
        r.wf(),
{
    if extended {
        let id29 = ((raw & 0x7FF) << 18) | ((raw >> 11) & 0x3_FFFF);
        assert(id29 <= 0x1FFF_FFFF) by (bit_vector)
            requires
                id29 == ((raw & 0x7FFu32) << 18u32) | ((raw >> 11u32) & 0x3_FFFFu32),
        ;
        match CanId::extended(id29) {
            Some(id) => id,
            None => CanId::Extended(0),
        }
    } else {
        let sid = raw & 0x7FF;
        proof {
            lemma_and_mask(raw, 0x7FF);
        }
        match CanId::standard(sid as u16) {
            Some(id) => id,
            None => CanId::Standard(0),
        }
    }
}

/// A packed identifier fits the 29-bit object field, whatever its value.
pub proof fn lemma_packed_fits(id: CanId)
    ensures
        packed_id(id) <= 0x1FFF_FFFF,
{
    match id {
        CanId::Standard(sid) => {},
        CanId::Extended(eid) => {
            assert(((eid >> 18u32) & 0x7FFu32) | ((eid & 0x3_FFFFu32) << 11u32) <= 0x1FFF_FFFF)
                by (bit_vector);
        },
    }
}

/// A packed identifier of either kind fits the 29-bit object field, and
/// unpacking it with its own kind gives the identifier back.
pub proof fn lemma_pack_unpack(id: CanId)
    requires
        id.wf(),
    ensures
        unpacked_id(packed_id(id), id.spec_is_extended()) == id,
        packed_id(id) <= 0x1FFF_FFFF,
        !id.spec_is_extended() ==> packed_id(id) <= 0x7FF,
{
    match id {
        CanId::Standard(sid) => {
            let w = sid as u32;
            assert(w & 0x7FFu32 == w) by (bit_vector)
                requires
                    w <= 0x7FF,
            ;
        },
        CanId::Extended(eid) => {
            let p = ((eid >> 18u32) & 0x7FFu32) | ((eid & 0x3_FFFFu32) << 11u32);
            assert(((p & 0x7FFu32) << 18u32) | ((p >> 11u32) & 0x3_FFFFu32) == eid && p
                <= 0x1FFF_FFFF) by (bit_vector)
                requires
                    eid <= 0x1FFF_FFFF,
                    p == ((eid >> 18u32) & 0x7FFu32) | ((eid & 0x3_FFFFu32) << 11u32),
            ;
        },
    }
}

/// The fields of a TX message object header (words T0 and T1).
#[derive(Debug, Clone, Copy, PartialEq, Eq)]
pub struct TxHeader {
    /// CAN identifier.
    pub id: CanId,
    /// DLC code (`0..=15`).
    pub dlc: u8,
    /// Remote transmission request (classic frames only).
    pub rtr: bool,
    /// Bit rate switch (FD frames only).
    pub brs: bool,
    /// FD format frame.
    pub fdf: bool,
    /// Error state indicator.
    pub esi: bool,
    /// Sequence number echoed in the TEF (`0..=0x7F` on MCP2517FD,
    /// `0..=0x7F_FFFF` on MCP2518FD). Caller masks to the variant's width.
    pub seq: u32,
}

/// `1` for `true`, `0` for `false`.
pub open spec fn flag(b: bool) -> u32 {
    if b {
        1
    } else {
        0
    }
}

/// The T1 word of a TX header: `DLC` in bits 3:0, then `IDE`, `RTR`, `BRS`,
/// `FDF`, `ESI` in bits 4..=8, and `SEQ` from bit 9 up (truncated to the
/// word).
pub open spec fn tx_t1(h: TxHeader) -> u32 {
    ((h.dlc as u32) & 0xFu32) | (flag(h.id.spec_is_extended()) << 4u32) | (flag(h.rtr) << 5u32)
        | (flag(h.brs) << 6u32) | (flag(h.fdf) << 7u32) | (flag(h.esi) << 8u32) | (h.seq << 9u32)
}

fn flag_word(b: bool) -> (r: u32)
    ensures
        r == flag(b),
{
    if b {
        1
    } else {
        0
    }
}

impl TxHeader {
    /// Encodes T0 and T1.
    pub fn to_words(&self) -> (r: [u32; 2])
        ensures
            r@ == seq![packed_id(self.id), tx_t1(*self)],
    {
        let t0 = pack_id(self.id);
        let ide = self.id.is_extended();
        let t1 = ((self.dlc as u32) & 0xF) | (flag_word(ide) << 4) | (flag_word(self.rtr) << 5) | (
        flag_word(self.brs) << 6) | (flag_word(self.fdf) << 7) | (flag_word(self.esi) << 8) | (
        self.seq << 9);
        let r = [t0, t1];
        assert(r@ =~= seq![packed_id(self.id), tx_t1(*self)]);
        r
    }
}

/// The fields decoded from an RX message object header (words R0 and R1).
#[derive(Debug, Clone, Copy, PartialEq, Eq)]
pub struct RxHeader {
    /// CAN identifier.
    pub id: CanId,
    /// DLC code (`0..=15`).
    pub dlc: u8,
    /// Remote transmission request.
    pub rtr: bool,
    /// Bit rate switch was used.
    pub brs: bool,
    /// FD format frame.
    pub fdf: bool,
    /// Error state indicator of the transmitter.
    pub esi: bool,
    /// Index of the filter that accepted this frame (`0..=31`).
    pub filhit: u8,
}

/// The header that the RX words `r0`, `r1` hold: the identifier from R0 in
/// the layout chosen by `IDE` (R1 bit 4), `DLC` from bits 3:0, `RTR`,
/// `BRS`, `FDF`, `ESI` from bits 5..=8 and `FILHIT` from bits 15:11.
pub open spec fn rx_header_of(r0: u32, r1: u32) -> RxHeader {
    RxHeader {
        id: unpacked_id(r0, bit(r1, 4)),
        dlc: field(r1, 0, 0xF) as u8,
        rtr: bit(r1, 5),
        brs: bit(r1, 6),
        fdf: bit(r1, 7),
        esi: bit(r1, 8),
        filhit: field(r1, 11, 0x1F) as u8,
    }
}

impl RxHeader {
    /// Decodes R0 and R1.
    pub fn from_words(words: [u32; 2]) -> (r: Self)
        ensures
            r == rx_header_of(words@[0], words@[1]),
            r.id.wf(),
            r.dlc <= 15,
            r.filhit <= 31,
    {
        let r0 = words[0];
        let r1 = words[1];
        let ide = get_bit(r1, 4);
        RxHeader {
            id: unpack_id(r0, ide),
            dlc: get_field_u8(r1, 0, 0xF),
            rtr: get_bit(r1, 5),
            brs: get_bit(r1, 6),
            fdf: get_bit(r1, 7),
            esi: get_bit(r1, 8),
            filhit: get_field_u8(r1, 11, 0x1F),
        }
    }
}

/// Decoding the words of an encoded TX header gives back its identifier,
/// DLC and flags: the TX and RX object headers share their layout.
pub proof fn lemma_header_round_trip(h: TxHeader)
    requires
        h.id.wf(),
        h.dlc <= 15,
    ensures
        ({
            let d = rx_header_of(packed_id(h.id), tx_t1(h));
            &&& d.id == h.id
            &&& d.dlc == h.dlc
            &&& d.rtr == h.rtr
            &&& d.brs == h.brs
            &&& d.fdf == h.fdf
            &&& d.esi == h.esi
        }),
{
    lemma_pack_unpack(h.id);
    let d = h.dlc as u32;
    let i = flag(h.id.spec_is_extended());
    let a = flag(h.rtr);
    let b = flag(h.brs);
    let f = flag(h.fdf);
    let e = flag(h.esi);
    let s = h.seq;
    let t1 = (d & 0xFu32) | (i << 4u32) | (a << 5u32) | (b << 6u32) | (f << 7u32) | (e << 8u32)
        | (s << 9u32);
    assert({
        &&& (t1 >> 0u32) & 0xFu32 == d
        &&& ((t1 >> 4u32) & 1u32 == 1u32) == (i == 1)
        &&& ((t1 >> 5u32) & 1u32 == 1u32) == (a == 1)
        &&& ((t1 >> 6u32) & 1u32 == 1u32) == (b == 1)
        &&& ((t1 >> 7u32) & 1u32 == 1u32) == (f == 1)
        &&& ((t1 >> 8u32) & 1u32 == 1u32) == (e == 1)
    }) by (bit_vector)
        requires
            d <= 15,
            i <= 1,
            a <= 1,
            b <= 1,
            f <= 1,
            e <= 1,
            t1 == (d & 0xFu32) | (i << 4u32) | (a << 5u32) | (b << 6u32) | (f << 7u32) | (e
                << 8u32) | (s << 9u32),
    ;
}

} // verus!
