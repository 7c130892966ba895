//! Which machine input belongs to as the cursor crosses between screens.
//!
//! The cursor's geometry is tracked elsewhere; what is decided here is what
//! a crossing means: leaving this machine, coming back to it, or moving
//! between two screens of the same machine, which changes nothing.

use vstd::prelude::*;
use crate::device::DeviceId;
use crate::peers::GlobalScreenId;
use crate::routing::Destination;

verus! {

/// What a pointer movement means for routing.
#[derive(Debug, Clone, Copy, PartialEq)]
pub enum HandoffAction {
    /// Nothing changed: keep routing as before.
    Unchanged,
    /// Control moved to a screen on another device, which must take over
    /// after everything held here is released.
    Leave {
        /// The device now receiving input.
        to: DeviceId,
        /// The screen the cursor entered.
        screen: GlobalScreenId,
        /// Normalised entry position, as the bit patterns of two `f64`s.
        entry_bits: (u64, u64),
    },
    /// Control came back to a screen on this device.
    Enter {
        /// The device that was receiving input.
        from: DeviceId,
        /// The screen the cursor entered.
        screen: GlobalScreenId,
        /// Normalised entry position, as the bit patterns of two `f64`s.
        entry_bits: (u64, u64),
    },
}

/// What a crossing from screen `from` to screen `to` means to the machine
/// `local`.
pub open spec fn crossing_meaning(
    local: Seq<u8>,
    from: GlobalScreenId,
    to: GlobalScreenId,
    entry_bits: (u64, u64),
    a: HandoffAction,
) -> bool {
    let was_local = from.device@ == local;
    let now_local = to.device@ == local;
    if was_local && !now_local {
        a matches HandoffAction::Leave { to: d, screen, entry_bits: e } && d@ == to.device@ && screen@
            == to@ && e == entry_bits
    } else if !was_local && now_local {
        a matches HandoffAction::Enter { from: d, screen, entry_bits: e } && d@ == from.device@
            && screen@ == to@ && e == entry_bits
    } else {
        a is Unchanged
    }
}

/// Classifies a crossing. Moving between two screens of one device, local
/// or remote, does not change which machine receives input.
pub fn classify_crossing(
    local: &DeviceId,
    from: GlobalScreenId,
    to: GlobalScreenId,
    entry_bits: (u64, u64),
) -> (a: HandoffAction)
    ensures
        crossing_meaning(local@, from, to, entry_bits, a),
{
    let was_local = from.device.same(local);
    let now_local = to.device.same(local);
    if was_local && !now_local {
        HandoffAction::Leave { to: to.device, screen: to, entry_bits }
    } else if !was_local && now_local {
        HandoffAction::Enter { from: from.device, screen: to, entry_bits }
    } else {
        HandoffAction::Unchanged
    }
}

/// Where input goes while the cursor is on a screen of `screen_device`.
pub fn destination_for(local: &DeviceId, screen_device: &DeviceId) -> (d: Destination)
    ensures
        d == (if screen_device@ == local@ {
            Destination::Local
        } else {
            Destination::Remote
        }),
{
    if screen_device.same(local) {
        Destination::Local
    } else {
        Destination::Remote
    }
}

/// Counters describing handoff behaviour.
#[derive(Debug, Clone, Copy, PartialEq, Eq, Structural)]
pub struct HandoffStats {
    /// Crossings that handed control to another device.
    pub departures: u64,
    /// Crossings that brought control back to this device.
    pub arrivals: u64,
    /// Movements that skipped their topology update because the state was
    /// busy; a rising count means the layout is rewritten far too often.
    pub skipped: u64,
}

impl Default for HandoffStats {
    fn default() -> (s: HandoffStats)
        ensures
            s == (HandoffStats { departures: 0, arrivals: 0, skipped: 0 }),
    {
        HandoffStats { departures: 0, arrivals: 0, skipped: 0 }
    }
}

/// The counters after one crossing, wrapping like the atomic counters
/// they mirror.
pub open spec fn counted_crossing(s: HandoffStats, a: HandoffAction) -> HandoffStats {
    match a {
        HandoffAction::Unchanged => s,
        HandoffAction::Leave { .. } => HandoffStats {
            departures: if s.departures == u64::MAX {
                0
            } else {
                (s.departures + 1) as u64
            },
            ..s
        },
        HandoffAction::Enter { .. } => HandoffStats {
            arrivals: if s.arrivals == u64::MAX {
                0
            } else {
                (s.arrivals + 1) as u64
            },
            ..s
        },
    }
}

/// Counts a crossing.
pub fn count_crossing(stats: HandoffStats, action: &HandoffAction) -> (r: HandoffStats)
    ensures
        r == counted_crossing(stats, *action),
{
    match action {
        HandoffAction::Unchanged => stats,
        HandoffAction::Leave { .. } => HandoffStats {
            departures: stats.departures.wrapping_add(1),
            ..stats
        },
        HandoffAction::Enter { .. } => HandoffStats {
            arrivals: stats.arrivals.wrapping_add(1),
            ..stats
        },
    }
}

} // verus!
