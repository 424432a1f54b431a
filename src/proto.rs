//! The gestures that the daemon sends to its clients.

use vstd::prelude::*;

use crate::keys::KeyCode;

verus! {

/// Where a socket client finds the daemon.
pub const DEFAULT_SERVE_PATH: &'static str = "/var/run/gestured.sock";

/// Tap classification of one key. Each duration is the gap, in
/// nanoseconds, between the press it was computed at and the press before.
#[derive(Clone, Copy, Debug, PartialEq, Eq, Structural)]
pub enum TapDist {
    /// No earlier press of the key.
    Initial,
    /// First tap after a long time without the key going down.
    First(u64),
    /// A follow-up tap: double tap or more.
    Repeat(u64),
    /// A press too far from the one before to count as a tap.
    Rest(u64),
}

/// What kind of gesture a [`ProtoGesture`] is.
#[derive(Clone, Copy, Debug, PartialEq, Eq, Structural)]
pub enum Kind {
    Press,
    Release,
    LongPress,
    Taps(TapDist),
    /// The earlier key, then the later one.
    Combo(KeyCode, KeyCode),
}

/// One classified gesture, as it goes over the wire.
#[derive(Clone, Copy, Debug, PartialEq, Eq, Structural)]
pub struct ProtoGesture {
    pub kind: Kind,
    pub key: KeyCode,
}

impl ProtoGesture {
    /// The gap carried by a `First` or `Repeat` tap.
    pub open spec fn spec_elapsed(&self) -> Option<u64> {
        match self.kind {
            Kind::Taps(TapDist::First(d)) => Some(d),
            Kind::Taps(TapDist::Repeat(d)) => Some(d),
            _ => None,
        }
    }

    /// The gap of a `First` or `Repeat` tap; `None` for every other gesture.
    pub fn elapsed(&self) -> (r: Option<u64>)
        ensures
            r == self.spec_elapsed(),
    {
        match &self.kind {
            Kind::Taps(t) => match t {
                TapDist::First(d) => Some(*d),
                TapDist::Repeat(d) => Some(*d),
                _ => None,
            },
            _ => None,
        }
    }

    /// Whether this is a combo of `key1` and `key2`, in either order.
    pub fn is_unordered(&self, key1: KeyCode, key2: KeyCode) -> (r: bool)
        ensures
            r == (self.kind == Kind::Combo(key1, key2) || self.kind == Kind::Combo(key2, key1)),
    {
        match self.kind {
            Kind::Combo(a, b) => (a == key1 && b == key2) || (a == key2 && b == key1),
            _ => false,
        }
    }
}

} // verus!
