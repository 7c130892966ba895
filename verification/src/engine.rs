//! What the running engine shows the interface: the snapshot it polls and
//! the recent-events log behind the diagnostics pane.

use vstd::prelude::*;

verus! {

/// How many recent events the diagnostics log keeps.
pub const LOG_CAPACITY: usize = 40;

/// A pairing attempt in progress, as the interface sees it.
#[derive(Debug, Clone, PartialEq, Eq)]
pub struct PairingView {
    /// The peer's advertised name.
    pub peer_name: String,
    /// The six-digit code, formatted for reading aloud.
    pub code: String,
    /// Whether this machine's user has confirmed.
    pub confirmed_here: bool,
    /// Whether the peer reported its user confirming.
    pub confirmed_there: bool,
}

/// A machine seen on the network, as the interface sees it.
#[derive(Debug, Clone, PartialEq, Eq)]
pub struct DiscoveredView {
    /// Short fingerprint.
    pub id_short: String,
    /// Advertised name.
    pub name: String,
    /// Where to reach it.
    pub address: String,
    /// True when this device is already paired.
    pub paired: bool,
    /// True when a session is established.
    pub connected: bool,
    /// False when the peer speaks an incompatible protocol version.
    pub compatible: bool,
}

/// What the interface polls.
#[derive(Debug, Clone, PartialEq, Eq)]
pub struct EngineSnapshot {
    /// Whether capture is running.
    pub capturing: bool,
    /// Why capture is not running, if it is not.
    pub capture_error: Option<String>,
    /// The port this device listens on.
    pub port: u16,
    /// Machines seen on the network.
    pub discovered: Vec<DiscoveredView>,
    /// A pairing attempt in progress.
    pub pairing: Option<PairingView>,
    /// Where input is currently going: `local`, or a device's short id.
    pub input_destination: String,
    /// Recent events, newest first, for the diagnostics pane.
    pub log: Vec<String>,
}

/// Records an event in the diagnostics log: newest first, and only the most
/// recent [`LOG_CAPACITY`] kept.
pub fn record_note(log: &mut Vec<String>, message: String)
    ensures
        final(log)@ == (seq![message] + old(log)@).take(
            if old(log)@.len() + 1 <= LOG_CAPACITY {
                old(log)@.len() + 1int
            } else {
                LOG_CAPACITY as int
            },
        ),
{
    let ghost before = log@;
    log.insert(0, message);
    assert(log@ =~= seq![message] + before);
    log.truncate(LOG_CAPACITY);
    assert(log@ =~= (seq![message] + before).take(
        if before.len() + 1 <= LOG_CAPACITY {
            before.len() + 1int
        } else {
            LOG_CAPACITY as int
        },
    ));
}

} // verus!
