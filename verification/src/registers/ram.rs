//! Message RAM layout planning.
//!
//! The chip allocates configured FIFOs contiguously from the start of the
//! 2 KiB message RAM. The planner validates that the configuration fits;
//! actual element addresses are read back from `CiFIFOUAm` at runtime.

use super::{payload_bytes, Fifo, PayloadSize};
use vstd::prelude::*;

verus! {

/// Transfer direction of a FIFO.
#[derive(Debug, Clone, Copy, PartialEq, Eq, Structural)]
pub enum FifoDirection {
    /// The FIFO transmits frames.
    Transmit,
    /// The FIFO receives frames.
    Receive,
}

/// Configuration of one FIFO within a [`FifoLayout`].
#[derive(Debug, Clone, Copy, PartialEq, Eq, Structural)]
pub struct FifoEntry {
    /// Transfer direction.
    pub direction: FifoDirection,
    /// Payload size of each element.
    pub payload: PayloadSize,
    /// Number of elements (`1..=32`).
    pub depth: u8,
}

/// RAM bytes used by a FIFO: an 8-byte header plus the payload, per element.
pub open spec fn entry_bytes(e: FifoEntry) -> nat {
    ((8 + payload_bytes(e.payload)) * e.depth) as nat
}

impl FifoEntry {
    /// RAM bytes used by this FIFO: `(8 + payload) * depth`.
    pub fn bytes(&self) -> (r: usize)
        ensures
            r == entry_bytes(*self),
            r <= 72 * 255,
    {
        let per = 8 + self.payload.bytes();
        assert(per * (self.depth as int) <= 72 * 255) by (nonlinear_arith)
            requires
                per <= 72,
                self.depth <= 255,
        ;
        per * self.depth as usize
    }
}

/// Why a FIFO could not be added to a [`FifoLayout`].
#[derive(Debug, Clone, Copy, PartialEq, Eq, Structural)]
pub enum LayoutError {
    /// The layout would exceed the 2048-byte message RAM.
    RamOverflow,
    /// Depth must be `1..=32`.
    BadDepth,
    /// This FIFO number is already configured in the layout.
    AlreadyConfigured,
}

/// RAM bytes used by a slot of a layout (`None`: unconfigured).
pub open spec fn slot_bytes(s: Option<FifoEntry>) -> nat {
    match s {
        Some(e) => entry_bytes(e),
        None => 0,
    }
}

/// RAM bytes used by all configured slots.
pub open spec fn slots_total(s: Seq<Option<FifoEntry>>) -> nat
    decreases s.len(),
{
    if s.len() == 0 {
        0
    } else {
        slots_total(s.drop_last()) + slot_bytes(s.last())
    }
}

/// The configured slots among the first `n`, in slot order, each with its
/// FIFO number (slot index + 1).
pub open spec fn configured(s: Seq<Option<FifoEntry>>, n: int) -> Seq<(u8, FifoEntry)>
    decreases n,
{
    if n <= 0 {
        Seq::empty()
    } else {
        let rest = configured(s, n - 1);
        match s[n - 1] {
            Some(e) => rest.push(((n) as u8, e)),
            None => rest,
        }
    }
}

/// Replacing one slot changes the total by the difference of the two
/// slots' sizes.
pub proof fn lemma_slots_total_update(s: Seq<Option<FifoEntry>>, i: int, x: Option<FifoEntry>)
    requires
        0 <= i < s.len(),
    ensures
        slots_total(s.update(i, x)) + slot_bytes(s[i]) == slots_total(s) + slot_bytes(x),
    decreases s.len(),
{
    let t = s.update(i, x);
    if i == s.len() - 1 {
        assert(t.drop_last() =~= s.drop_last());
    } else {
        lemma_slots_total_update(s.drop_last(), i, x);
        assert(t.drop_last() =~= s.drop_last().update(i, x));
    }
}

/// A layout with no slot configured uses no RAM.
pub proof fn lemma_slots_total_empty(s: Seq<Option<FifoEntry>>)
    requires
        forall|i: int| 0 <= i < s.len() ==> s[i] is None,
    ensures
        slots_total(s) == 0,
    decreases s.len(),
{
    if s.len() > 0 {
        lemma_slots_total_empty(s.drop_last());
    }
}

/// A complete message-RAM layout: which FIFOs exist, their direction,
/// payload size, and depth.
///
/// Allocate FIFO numbers contiguously from [`Fifo::F1`] upwards. Any subset
/// of `F1..=F31` is accepted, but the planner's budget assumes the chip
/// reserves RAM only for the FIFOs that are actually configured. A gapped
/// layout is therefore not validated against what the silicon does with the
/// gaps.
#[derive(Debug, Clone, Copy)]
pub struct FifoLayout {
    entries: [Option<FifoEntry>; 31],
    total: usize,
}

impl View for FifoLayout {
    type V = Seq<Option<FifoEntry>>;

    /// Slot `m - 1` holds the configuration of FIFO `m`.
    closed spec fn view(&self) -> Seq<Option<FifoEntry>> {
        self.entries@
    }
}

/// A FIFO may be added to a layout: its depth is in range, its slot is
/// free, and the result still fits the message RAM.
pub open spec fn can_add(l: Seq<Option<FifoEntry>>, fifo: Fifo, e: FifoEntry) -> bool {
    &&& 1 <= e.depth <= 32
    &&& l[fifo@ - 1] is None
    &&& slots_total(l) + entry_bytes(e) <= 2048
}

impl FifoLayout {
    #[verifier::type_invariant]
    spec fn layout_fits(self) -> bool {
        &&& self.total == slots_total(self.entries@)
        &&& self.total <= 2048
        &&& forall|i: int|
            0 <= i < 31 ==> (#[trigger] self.entries@[i] matches Some(e) ==> 1 <= e.depth <= 32)
    }

    /// An empty layout.
    pub fn new() -> (r: Self)
        ensures
            r@ == Seq::new(31, |i: int| None::<FifoEntry>),
            slots_total(r@) == 0,
    {
        let entries: [Option<FifoEntry>; 31] = [None;31];
        proof {
            lemma_slots_total_empty(entries@);
            assert(entries@ =~= Seq::new(31, |i: int| None::<FifoEntry>));
        }
        FifoLayout { entries, total: 0 }
    }

    /// Adds a FIFO. Errors instead of panicking; use this for layouts built
    /// at runtime.
    pub fn try_add(self, fifo: Fifo, entry: FifoEntry) -> (r: Result<Self, LayoutError>)
        ensures
            self@.len() == 31,
            !(1 <= entry.depth <= 32) ==> r == Err::<Self, LayoutError>(LayoutError::BadDepth),
            1 <= entry.depth <= 32 && self@[fifo@ - 1] is Some ==> r == Err::<Self, LayoutError>(
                LayoutError::AlreadyConfigured,
            ),
            1 <= entry.depth <= 32 && self@[fifo@ - 1] is None && slots_total(self@) + entry_bytes(
                entry,
            ) > 2048 ==> r == Err::<Self, LayoutError>(LayoutError::RamOverflow),
            r is Ok <==> can_add(self@, fifo, entry),
            r matches Ok(l) ==> l@ == self@.update(fifo@ - 1, Some(entry)) && slots_total(l@)
                == slots_total(self@) + entry_bytes(entry),
    {
        proof {
            use_type_invariant(&self);
        }
        if entry.depth < 1 || entry.depth > 32 {
            return Err(LayoutError::BadDepth);
        }
        let slot = (fifo.index() - 1) as usize;
        if self.entries[slot].is_some() {
            return Err(LayoutError::AlreadyConfigured);
        }
        let bytes = entry.bytes();
        if self.total + bytes > 2048 {
            return Err(LayoutError::RamOverflow);
        }
        let total = self.total + bytes;
        let mut entries = self.entries;
        entries[slot] = Some(entry);
        proof {
            lemma_slots_total_update(self.entries@, slot as int, Some(entry));
            assert(entries@ =~= self.entries@.update(slot as int, Some(entry)));
        }
        Ok(FifoLayout { entries, total })
    }

    /// Adds a transmit FIFO; see [`Self::try_add`].
    pub fn try_tx_fifo(self, fifo: Fifo, payload: PayloadSize, depth: u8) -> (r: Result<
        Self,
        LayoutError,
    >)
        ensures
            ({
                let e = FifoEntry { direction: FifoDirection::Transmit, payload, depth };
                &&& !(1 <= depth <= 32) ==> r == Err::<Self, LayoutError>(LayoutError::BadDepth)
                &&& 1 <= depth <= 32 && self@[fifo@ - 1] is Some ==> r == Err::<Self, LayoutError>(
                    LayoutError::AlreadyConfigured,
                )
                &&& 1 <= depth <= 32 && self@[fifo@ - 1] is None && slots_total(self@)
                    + entry_bytes(e) > 2048 ==> r == Err::<Self, LayoutError>(
                    LayoutError::RamOverflow,
                )
                &&& r is Ok <==> can_add(self@, fifo, e)
                &&& r matches Ok(l) ==> l@ == self@.update(fifo@ - 1, Some(e)) && slots_total(l@)
                    == slots_total(self@) + entry_bytes(e)
            }),
    {
        self.try_add(fifo, FifoEntry { direction: FifoDirection::Transmit, payload, depth })
    }

    /// Adds a receive FIFO; see [`Self::try_add`].
    pub fn try_rx_fifo(self, fifo: Fifo, payload: PayloadSize, depth: u8) -> (r: Result<
        Self,
        LayoutError,
    >)
        ensures
            ({
                let e = FifoEntry { direction: FifoDirection::Receive, payload, depth };
                &&& !(1 <= depth <= 32) ==> r == Err::<Self, LayoutError>(LayoutError::BadDepth)
                &&& 1 <= depth <= 32 && self@[fifo@ - 1] is Some ==> r == Err::<Self, LayoutError>(
                    LayoutError::AlreadyConfigured,
                )
                &&& 1 <= depth <= 32 && self@[fifo@ - 1] is None && slots_total(self@)
                    + entry_bytes(e) > 2048 ==> r == Err::<Self, LayoutError>(
                    LayoutError::RamOverflow,
                )
                &&& r is Ok <==> can_add(self@, fifo, e)
                &&& r matches Ok(l) ==> l@ == self@.update(fifo@ - 1, Some(e)) && slots_total(l@)
                    == slots_total(self@) + entry_bytes(e)
            }),
    {
        self.try_add(fifo, FifoEntry { direction: FifoDirection::Receive, payload, depth })
    }

    /// Adds a transmit FIFO. The layout must stay within RAM, the depth must
    /// be `1..=32` and the FIFO must not be configured yet.
    pub fn tx_fifo(self, fifo: Fifo, payload: PayloadSize, depth: u8) -> (r: Self)
        requires
            can_add(self@, fifo, FifoEntry { direction: FifoDirection::Transmit, payload, depth }),
        ensures
            r@ == self@.update(
                fifo@ - 1,
                Some(FifoEntry { direction: FifoDirection::Transmit, payload, depth }),
            ),
            slots_total(r@) == slots_total(self@) + entry_bytes(
                FifoEntry { direction: FifoDirection::Transmit, payload, depth },
            ),
    {
        match self.try_tx_fifo(fifo, payload, depth) {
            Ok(l) => l,
            Err(_) => {
                assert(false);
                self
            },
        }
    }

    /// Adds a receive FIFO, under the same conditions as [`Self::tx_fifo`].
    pub fn rx_fifo(self, fifo: Fifo, payload: PayloadSize, depth: u8) -> (r: Self)
        requires
            can_add(self@, fifo, FifoEntry { direction: FifoDirection::Receive, payload, depth }),
        ensures
            r@ == self@.update(
                fifo@ - 1,
                Some(FifoEntry { direction: FifoDirection::Receive, payload, depth }),
            ),
            slots_total(r@) == slots_total(self@) + entry_bytes(
                FifoEntry { direction: FifoDirection::Receive, payload, depth },
            ),
    {
        match self.try_rx_fifo(fifo, payload, depth) {
            Ok(l) => l,
            Err(_) => {
                assert(false);
                self
            },
        }
    }

    /// Total message-RAM bytes used (`<= 2048`).
    pub fn total_bytes(&self) -> (r: usize)
        ensures
            r == slots_total(self@),
            r <= 2048,
    {
        proof {
            use_type_invariant(self);
        }
        self.total
    }

    /// The configured FIFOs in FIFO-number order.
    pub fn entries(&self) -> (r: Vec<(Fifo, FifoEntry)>)
        ensures
            r@.map_values(|p: (Fifo, FifoEntry)| (p.0@, p.1)) == configured(self@, 31),
            forall|i: int| 0 <= i < r@.len() ==> 1 <= (#[trigger] r@[i]).1.depth <= 32,
    {
        proof {
            use_type_invariant(self);
        }
        let mut out: Vec<(Fifo, FifoEntry)> = Vec::new();
        let mut i: usize = 0;
        while i < 31
            invariant
                i <= 31,
                self.entries@.len() == 31,
                forall|k: int|
                    0 <= k < 31 ==> (#[trigger] self.entries@[k] matches Some(e) ==> 1 <= e.depth
                        <= 32),
                out@.map_values(|p: (Fifo, FifoEntry)| (p.0@, p.1)) == configured(
                    self.entries@,
                    i as int,
                ),
                forall|k: int| 0 <= k < out@.len() ==> 1 <= (#[trigger] out@[k]).1.depth <= 32,
            decreases 31 - i,
        {
            match self.entries[i] {
                Some(e) => {
                    let f = match Fifo::new((i + 1) as u8) {
                        Some(f) => f,
                        None => {
                            assert(false);
                            return out;
                        },
                    };
                    let ghost before = out@;
                    out.push((f, e));
                    assert(out@.map_values(|p: (Fifo, FifoEntry)| (p.0@, p.1)) =~= before.map_values(
                        |p: (Fifo, FifoEntry)| (p.0@, p.1),
                    ).push(((i + 1) as u8, e)));
                },
                None => {},
            }
            i = i + 1;
        }
        out
    }

    /// Looks up one FIFO's configuration.
    pub fn entry(&self, fifo: Fifo) -> (r: Option<FifoEntry>)
        ensures
            r == self@[fifo@ - 1],
    {
        let slot = (fifo.index() - 1) as usize;
        self.entries[slot]
    }
}

impl Default for FifoLayout {
    fn default() -> (r: Self)
        ensures
            r@ == Seq::new(31, |i: int| None::<FifoEntry>),
    {
        Self::new()
    }
}

} // verus!
