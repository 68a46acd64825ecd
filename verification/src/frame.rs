//! CAN frame types.
//!
//! [`Frame`] is a classic CAN 2.0 frame; [`FdFrame`] is a CAN FD frame.

use crate::id::CanId;
use crate::registers::objects::{is_padded_len, len_to_dlc, padded_dlc_len, valid_len};
use vstd::prelude::*;
use vstd::slice::slice_subrange;

verus! {

/// What a classic frame holds: its identifier, its DLC, whether it is a
/// remote frame, and its data bytes (empty for remote frames).
pub struct FrameView {
    /// The identifier.
    pub id: CanId,
    /// The DLC (`0..=8`).
    pub dlc: nat,
    /// Whether this is a remote (RTR) frame.
    pub remote: bool,
    /// The data bytes: the first `dlc` bytes, or none for a remote frame.
    pub data: Seq<u8>,
}

/// A classic CAN 2.0 frame (up to 8 data bytes).
#[derive(Debug, Clone, Copy, PartialEq, Eq)]
pub struct Frame {
    id: CanId,
    dlc: u8,
    rtr: bool,
    data: [u8; 8],
}

/// The buffer of a frame is zero beyond its payload.
pub open spec fn zero_from(s: Seq<u8>, start: int) -> bool {
    forall|i: int| start <= i < s.len() ==> s[i] == 0
}

impl View for Frame {
    type V = FrameView;

    closed spec fn view(&self) -> FrameView {
        FrameView {
            id: self.id,
            dlc: self.dlc as nat,
            remote: self.rtr,
            data: if self.rtr {
                Seq::empty()
            } else {
                self.data@.take(self.dlc as int)
            },
        }
    }
}

impl Frame {
    #[verifier::type_invariant]
    spec fn frame_wf(self) -> bool {
        &&& self.id.wf()
        &&& self.dlc <= 8
        &&& zero_from(self.data@, if self.rtr {
            0
        } else {
            self.dlc as int
        })
    }

    /// Creates a data frame. Returns `None` if `data` holds more than 8
    /// bytes.
    pub fn new(id: CanId, data: &[u8]) -> (r: Option<Frame>)
        requires
            id.wf(),
        ensures
            r is Some <==> data@.len() <= 8,
            r matches Some(f) ==> f@ == (FrameView {
                id,
                dlc: data@.len(),
                remote: false,
                data: data@,
            }),
    {
        if data.len() > 8 {
            return None;
        }
        let mut buf = [0u8;8];
        let mut i: usize = 0;
        while i < data.len()
            invariant
                i <= data@.len() <= 8,
                buf@.len() == 8,
                forall|k: int| 0 <= k < i ==> buf@[k] == data@[k],
                zero_from(buf@, i as int),
            decreases data@.len() - i,
        {
            buf[i] = data[i];
            i = i + 1;
        }
        let f = Frame { id, dlc: data.len() as u8, rtr: false, data: buf };
        assert(f@.data =~= data@);
        Some(f)
    }

    /// Creates a remote frame. Returns `None` if `dlc > 8`.
    pub fn new_remote(id: CanId, dlc: usize) -> (r: Option<Frame>)
        requires
            id.wf(),
        ensures
            r is Some <==> dlc <= 8,
            r matches Some(f) ==> f@ == (FrameView {
                id,
                dlc: dlc as nat,
                remote: true,
                data: Seq::empty(),
            }),
    {
        if dlc > 8 {
            return None;
        }
        let buf = [0u8;8];
        Some(Frame { id, dlc: dlc as u8, rtr: true, data: buf })
    }

    /// Builds a frame from decoded message-object fields.
    pub(crate) fn from_parts(id: CanId, dlc: u8, rtr: bool, data: [u8; 8]) -> (r: Self)
        requires
            id.wf(),
            dlc <= 8,
            zero_from(data@, if rtr {
                0
            } else {
                dlc as int
            }),
        ensures
            r@ == (FrameView {
                id,
                dlc: dlc as nat,
                remote: rtr,
                data: if rtr {
                    Seq::empty()
                } else {
                    data@.take(dlc as int)
                },
            }),
    {
        Frame { id, dlc, rtr, data }
    }

    /// The frame's CAN identifier.
    pub fn id(&self) -> (r: CanId)
        ensures
            r == self@.id,
            r.wf(),
    {
        proof {
            use_type_invariant(self);
        }
        self.id
    }

    /// The data bytes (empty for remote frames).
    pub fn data(&self) -> (r: &[u8])
        ensures
            r@ == self@.data,
            r@.len() == (if self@.remote {
                0
            } else {
                self@.dlc
            }),
            r@.len() <= 8,
    {
        proof {
            use_type_invariant(self);
        }
        if self.rtr {
            slice_subrange(self.data.as_slice(), 0, 0)
        } else {
            slice_subrange(self.data.as_slice(), 0, self.dlc as usize)
        }
    }

    /// The DLC (`0..=8`).
    pub fn dlc(&self) -> (r: usize)
        ensures
            r == self@.dlc,
            r <= 8,
    {
        proof {
            use_type_invariant(self);
        }
        self.dlc as usize
    }

    /// Whether this is a remote (RTR) frame.
    pub fn is_remote(&self) -> (r: bool)
        ensures
            r == self@.remote,
    {
        self.rtr
    }

    /// Whether this is a remote (RTR) frame.
    pub fn is_remote_frame(&self) -> (r: bool)
        ensures
            r == self@.remote,
    {
        self.rtr
    }

    /// Whether the frame carries an extended identifier.
    pub fn is_extended(&self) -> (r: bool)
        ensures
            r == self@.id.spec_is_extended(),
    {
        self.id.is_extended()
    }
}

/// Per-frame CAN FD flags.
#[derive(Debug, Clone, Copy, PartialEq, Eq, Structural)]
pub struct FrameFlags {
    /// Bit rate switch: transmit the data phase at the data bit rate.
    pub brs: bool,
    /// Error state indicator.
    pub esi: bool,
}

impl Default for FrameFlags {
    fn default() -> (r: Self)
        ensures
            r == (FrameFlags { brs: false, esi: false }),
    {
        FrameFlags { brs: false, esi: false }
    }
}

/// What an FD frame holds: its identifier, its flags and its data bytes.
pub struct FdFrameView {
    /// The identifier.
    pub id: CanId,
    /// The FD flags.
    pub flags: FrameFlags,
    /// The data bytes (a valid CAN FD length).
    pub data: Seq<u8>,
}

/// A CAN FD frame (up to 64 data bytes; length must be a valid DLC step).
#[derive(Debug, Clone, Copy, PartialEq, Eq)]
pub struct FdFrame {
    id: CanId,
    len: u8,
    flags: FrameFlags,
    data: [u8; 64],
}

impl View for FdFrame {
    type V = FdFrameView;

    closed spec fn view(&self) -> FdFrameView {
        FdFrameView { id: self.id, flags: self.flags, data: self.data@.take(self.len as int) }
    }
}

/// The bytes of `data` followed by zeros up to length `n`.
pub open spec fn zero_padded(data: Seq<u8>, n: nat) -> Seq<u8> {
    Seq::new(n, |i: int| if i < data.len() { data[i] } else { 0u8 })
}

impl FdFrame {
    #[verifier::type_invariant]
    spec fn fd_frame_wf(self) -> bool {
        &&& self.id.wf()
        &&& valid_len(self.len as nat, true)
        &&& zero_from(self.data@, self.len as int)
    }

    /// Copies `data` into a zeroed 64-byte buffer.
    fn fill(data: &[u8]) -> (r: [u8; 64])
        requires
            data@.len() <= 64,
        ensures
            r@ == zero_padded(data@, 64),
    {
        let mut buf = [0u8;64];
        let mut i: usize = 0;
        while i < data.len()
            invariant
                i <= data@.len() <= 64,
                buf@.len() == 64,
                forall|k: int| 0 <= k < i ==> buf@[k] == data@[k],
                zero_from(buf@, i as int),
            decreases data@.len() - i,
        {
            buf[i] = data[i];
            i = i + 1;
        }
        assert(buf@ =~= zero_padded(data@, 64));
        buf
    }

    /// Creates an FD frame. Returns `None` unless `data.len()` is exactly a
    /// valid CAN FD length (`0..=8, 12, 16, 20, 24, 32, 48, 64`).
    pub fn new(id: CanId, data: &[u8], flags: FrameFlags) -> (r: Option<Self>)
        requires
            id.wf(),
        ensures
            r is Some <==> valid_len(data@.len(), true),
            r matches Some(f) ==> f@ == (FdFrameView { id, flags, data: data@ }),
    {
        if len_to_dlc(data.len(), true).is_none() {
            return None;
        }
        let buf = Self::fill(data);
        let f = FdFrame { id, len: data.len() as u8, flags, data: buf };
        assert(f@.data =~= data@);
        Some(f)
    }

    /// Creates an FD frame, zero-padding the payload up to the next valid
    /// CAN FD length. Returns `None` if `data.len() > 64`.
    pub fn new_padded(id: CanId, data: &[u8], flags: FrameFlags) -> (r: Option<Self>)
        requires
            id.wf(),
        ensures
            r is Some <==> data@.len() <= 64,
            r matches Some(f) ==> f@.id == id && f@.flags == flags && is_padded_len(
                data@.len(),
                f@.data.len(),
            ) && f@.data == zero_padded(data@, f@.data.len()),
    {
        let padded = match padded_dlc_len(data.len()) {
            Some(p) => p,
            None => return None,
        };
        let buf = Self::fill(data);
        let f = FdFrame { id, len: padded as u8, flags, data: buf };
        assert(f@.data =~= zero_padded(data@, padded as nat));
        Some(f)
    }

    /// Builds a frame from decoded message-object fields.
    pub(crate) fn from_parts(id: CanId, len: u8, flags: FrameFlags, data: [u8; 64]) -> (r: Self)
        requires
            id.wf(),
            valid_len(len as nat, true),
            zero_from(data@, len as int),
        ensures
            r@ == (FdFrameView { id, flags, data: data@.take(len as int) }),
    {
        FdFrame { id, len, flags, data }
    }

    /// The frame's CAN identifier.
    pub fn id(&self) -> (r: CanId)
        ensures
            r == self@.id,
            r.wf(),
    {
        proof {
            use_type_invariant(self);
        }
        self.id
    }

    /// The data bytes (padded length).
    pub fn data(&self) -> (r: &[u8])
        ensures
            r@ == self@.data,
            valid_len(r@.len(), true),
    {
        proof {
            use_type_invariant(self);
        }
        slice_subrange(self.data.as_slice(), 0, self.len as usize)
    }

    /// The FD flags.
    pub fn flags(&self) -> (r: FrameFlags)
        ensures
            r == self@.flags,
    {
        self.flags
    }
}

/// Classic or FD payload of a received frame.
#[derive(Debug, Clone, Copy, PartialEq, Eq)]
pub enum ReceivedFrame {
    /// A classic CAN 2.0 frame.
    Classic(Frame),
    /// A CAN FD frame.
    Fd(FdFrame),
}

/// A frame received from an RX FIFO.
#[derive(Debug, Clone, Copy, PartialEq, Eq)]
pub struct RxFrame {
    /// The received frame.
    pub frame: ReceivedFrame,
    /// RX timestamp. Always `None` in this version (timestamping is not yet
    /// configurable).
    pub timestamp: Option<u32>,
}

} // verus!
