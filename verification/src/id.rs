//! CAN identifiers.
//!
//! A [`CanId`] holds a standard (11-bit) or extended (29-bit) identifier as
//! a plain integer. Range checking is done by `embedded_can`'s constructors;
//! frames only hold identifiers within range ([`CanId::wf`]).

use vstd::prelude::*;

verus! {

/// A CAN identifier, standard or extended.
#[derive(Debug, Clone, Copy, PartialEq, Eq, Structural)]
pub enum CanId {
    /// Standard 11-bit identifier (`0..=0x7FF`).
    Standard(u16),
    /// Extended 29-bit identifier (`0..=0x1FFF_FFFF`).
    Extended(u32),
}

/// Largest standard identifier.
pub const STANDARD_ID_MAX: u16 = 0x7FF;

/// Largest extended identifier.
pub const EXTENDED_ID_MAX: u32 = 0x1FFF_FFFF;

impl CanId {
    /// The identifier is within the range of its kind.
    pub open spec fn wf(self) -> bool {
        match self {
            CanId::Standard(raw) => raw <= 0x7FF,
            CanId::Extended(raw) => raw <= 0x1FFF_FFFF,
        }
    }

    /// Whether this is an extended identifier.
    pub open spec fn spec_is_extended(self) -> bool {
        self is Extended
    }

    /// A standard identifier, or `None` if `raw > 0x7FF`.
    pub fn standard(raw: u16) -> (r: Option<CanId>)
        ensures
            r is Some <==> raw <= 0x7FF,
            r matches Some(id) ==> id == CanId::Standard(raw),
    {
        match standard_id_checked(raw) {
            Some(v) => Some(CanId::Standard(v)),
            None => None,
        }
    }

    /// An extended identifier, or `None` if `raw > 0x1FFF_FFFF`.
    pub fn extended(raw: u32) -> (r: Option<CanId>)
        ensures
            r is Some <==> raw <= 0x1FFF_FFFF,
            r matches Some(id) ==> id == CanId::Extended(raw),
    {
        match extended_id_checked(raw) {
            Some(v) => Some(CanId::Extended(v)),
            None => None,
        }
    }

    /// Whether this is an extended identifier.
    pub fn is_extended(&self) -> (r: bool)
        ensures
            r == self.spec_is_extended(),
    {
        match self {
            CanId::Standard(_) => false,
            CanId::Extended(_) => true,
        }
    }
}

/// Range-checks a standard identifier with `embedded_can::StandardId::new`
/// and hands back its raw value through `as_raw`. Trusted: the crate's
/// source returns `Some` exactly when `raw <= 0x7FF`, and `as_raw` returns
/// the value it was built from.
#[verifier::external_body]
fn standard_id_checked(raw: u16) -> (r: Option<u16>)
    ensures
        r == (if raw <= 0x7FF {
            Some(raw)
        } else {
            None::<u16>
        }),
{
    match embedded_can::StandardId::new(raw) {
        Some(id) => Some(id.as_raw()),
        None => None,
    }
}

/// Range-checks an extended identifier with `embedded_can::ExtendedId::new`
/// and hands back its raw value through `as_raw`. Trusted: the crate's
/// source returns `Some` exactly when `raw <= 0x1FFF_FFFF`, and `as_raw`
/// returns the value it was built from.
#[verifier::external_body]
fn extended_id_checked(raw: u32) -> (r: Option<u32>)
    ensures
        r == (if raw <= 0x1FFF_FFFF {
            Some(raw)
        } else {
            None::<u32>
        }),
{
    match embedded_can::ExtendedId::new(raw) {
        Some(id) => Some(id.as_raw()),
        None => None,
    }
}

} // verus!
