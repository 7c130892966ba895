//! The set of computers this machine is connected to.
//!
//! Going from one peer to several introduces a failure mode that does not
//! exist with one: the machine currently receiving input can disappear while
//! the user is typing into it. A disconnection is therefore not a bookkeeping
//! update but a decision about where the user's hands are pointing, and the
//! set never leaves input directed at a machine it no longer holds.

use vstd::prelude::*;
use crate::device::DeviceId;
use crate::lexical::{lex_lt, lemma_lex_irreflexive, lemma_lex_total, lemma_lex_transitive};

verus! {

/// A screen's identity: the device it belongs to and its index there.
#[derive(Debug, Clone, Copy, Eq, Hash)]
pub struct GlobalScreenId {
    /// The device owning the screen.
    pub device: DeviceId,
    /// The screen's index on that device.
    pub screen: u32,
}

impl View for GlobalScreenId {
    type V = (Seq<u8>, u32);

    open spec fn view(&self) -> (Seq<u8>, u32) {
        (self.device@, self.screen)
    }
}

impl PartialEq for GlobalScreenId {
    fn eq(&self, other: &GlobalScreenId) -> (r: bool) {
        self.device.same(&other.device) && self.screen == other.screen
    }
}

impl vstd::std_specs::cmp::PartialEqSpecImpl for GlobalScreenId {
    open spec fn obeys_eq_spec() -> bool {
        true
    }

    open spec fn eq_spec(&self, other: &GlobalScreenId) -> bool {
        self@ == other@
    }
}

impl GlobalScreenId {
    /// The screen numbered `screen` on `device`.
    pub fn new(device: DeviceId, screen: u32) -> (id: GlobalScreenId)
        ensures
            id@ == (device@, screen),
    {
        GlobalScreenId { device, screen }
    }
}

/// A screen placed in the shared virtual space: its identity, and its
/// bounds and backing scale as the bit patterns of `f64` values.
#[derive(Debug, Clone, Copy, PartialEq, Eq)]
pub struct PlacedScreen {
    /// Which screen this is.
    pub id: GlobalScreenId,
    /// Left edge.
    pub x_bits: u64,
    /// Top edge.
    pub y_bits: u64,
    /// Width.
    pub width_bits: u64,
    /// Height.
    pub height_bits: u64,
    /// Backing scale factor.
    pub scale_bits: u64,
}

/// The identities of a list of screens.
pub open spec fn screen_ids(s: Seq<PlacedScreen>) -> Seq<(Seq<u8>, u32)> {
    s.map_values(|p: PlacedScreen| p.id@)
}

/// How a peer is doing.
#[derive(Debug, Clone, Copy, PartialEq, Eq, Structural)]
pub enum PeerState {
    /// Connected and answering.
    Connected,
    /// Connected, but heartbeats are going unanswered. Still used: dropping
    /// a peer over one lost packet would be worse than a brief warning.
    Degraded {
        /// Consecutive missed probes.
        missed: u32,
    },
}

/// Whether input may still be sent to a peer in this state.
pub open spec fn usable(s: PeerState) -> bool {
    s is Connected || s is Degraded
}

impl PeerState {
    /// Whether input may still be sent to this peer.
    pub fn is_usable(self) -> (r: bool)
        ensures
            r == usable(self),
    {
        match self {
            PeerState::Connected | PeerState::Degraded { .. } => true,
        }
    }
}

/// A connected computer.
#[derive(Debug)]
pub struct Peer<H> {
    /// Display name, as advertised.
    pub name: String,
    /// Current health.
    pub state: PeerState,
    /// The peer's screens, placed in the shared virtual space.
    pub screens: Vec<PlacedScreen>,
    /// How to send to it; optional so the set works without a network.
    pub handle: Option<H>,
}

impl<H> Peer<H> {
    /// The session handle, if this peer has one.
    pub fn handle(&self) -> (h: Option<&H>)
        ensures
            h == match self.handle {
                Some(x) => Some(&x),
                None => None::<&H>,
            },
    {
        match &self.handle {
            Some(h) => Some(h),
            None => None,
        }
    }
}

/// The abstract content of a peer's entry.
pub struct PeerEntry<H> {
    /// The peer's identity bytes.
    pub device: Seq<u8>,
    /// Its display name.
    pub name: Seq<char>,
    /// Its health.
    pub state: PeerState,
    /// The identities of its screens, in order.
    pub screens: Seq<(Seq<u8>, u32)>,
    /// Its session handle.
    pub handle: Option<H>,
}

/// The abstract content of a stored entry.
pub open spec fn entry_of<H>(e: (DeviceId, Peer<H>)) -> PeerEntry<H> {
    PeerEntry {
        device: e.0@,
        name: e.1.name@,
        state: e.1.state,
        screens: screen_ids(e.1.screens@),
        handle: e.1.handle,
    }
}

/// Why control was taken back from a peer.
#[derive(Debug, Clone, Copy, PartialEq, Eq, Structural)]
pub enum ReclaimReason {
    /// The peer disconnected while it was receiving input.
    PeerLost,
    /// The peer's screens were all removed.
    ScreensGone,
}

/// What the caller must do after a change to the peer set.
#[derive(Debug, Clone, Copy, PartialEq, Eq)]
pub enum PeerChange {
    /// Nothing beyond rebuilding the layout.
    LayoutOnly,
    /// Control must return to this machine immediately: route input locally
    /// again, re-place the cursor, and release everything the departed peer
    /// was believed to hold, or a modifier stays down where nobody can reach.
    ReclaimControl {
        /// The device that was receiving input.
        from: DeviceId,
        /// Why.
        reason: ReclaimReason,
    },
}

/// Errors from peer bookkeeping.
#[derive(Debug, Clone, Copy, PartialEq, Eq)]
pub enum PeerError {
    /// The device is not connected.
    NotConnected {
        /// The device asked for.
        device: DeviceId,
    },
}

/// Entries strictly ascending by identity, so none appears twice and the
/// device list is stable across rebuilds.
pub open spec fn ascending<H>(s: Seq<PeerEntry<H>>) -> bool {
    forall|i: int, j: int| 0 <= i < j < s.len() ==> lex_lt(s[i].device, s[j].device)
}

/// Some entry is for device `d`.
pub open spec fn holds<H>(s: Seq<PeerEntry<H>>, d: Seq<u8>) -> bool {
    exists|i: int| 0 <= i < s.len() && #[trigger] s[i].device == d
}

/// The position of the entry for device `d`.
pub open spec fn index_of<H>(s: Seq<PeerEntry<H>>, d: Seq<u8>) -> int {
    choose|i: int| 0 <= i < s.len() && #[trigger] s[i].device == d
}

/// Where an entry for `d` belongs among ascending entries: after every entry
/// that sorts before it.
pub open spec fn slot_for<H>(s: Seq<PeerEntry<H>>, d: Seq<u8>, k: int) -> bool {
    &&& 0 <= k <= s.len()
    &&& forall|i: int| 0 <= i < k ==> lex_lt(#[trigger] s[i].device, d)
    &&& forall|i: int| k <= i < s.len() ==> !lex_lt(#[trigger] s[i].device, d)
}

/// Input is directed either at this machine or at a connected peer other
/// than this machine.
pub open spec fn control_held_by<H>(
    active: Option<Seq<u8>>,
    local: Seq<u8>,
    entries: Seq<PeerEntry<H>>,
) -> bool {
    match active {
        None => true,
        Some(d) => d != local && holds(entries, d),
    }
}

proof fn lemma_ascending_index<H>(s: Seq<PeerEntry<H>>, d: Seq<u8>, i: int)
    requires
        ascending(s),
        0 <= i < s.len(),
        s[i].device == d,
    ensures
        index_of(s, d) == i,
{
    let k = index_of(s, d);
    assert(0 <= k < s.len() && s[k].device == d);
    if k < i {
        lemma_lex_irreflexive(d);
        assert(lex_lt(s[k].device, s[i].device));
    } else if k > i {
        lemma_lex_irreflexive(d);
        assert(lex_lt(s[i].device, s[k].device));
    }
}

proof fn lemma_update_keeps_ascending<H>(s: Seq<PeerEntry<H>>, i: int, e: PeerEntry<H>)
    requires
        ascending(s),
        0 <= i < s.len(),
        e.device == s[i].device,
    ensures
        ascending(s.update(i, e)),
{
    let t = s.update(i, e);
    assert forall|a: int, b: int| 0 <= a < b < t.len() implies lex_lt(t[a].device, t[b].device) by {
        assert(t[a].device == s[a].device && t[b].device == s[b].device);
    }
}

proof fn lemma_remove_keeps_ascending<H>(s: Seq<PeerEntry<H>>, i: int)
    requires
        ascending(s),
        0 <= i < s.len(),
    ensures
        ascending(s.remove(i)),
{
    let t = s.remove(i);
    assert forall|a: int, b: int| 0 <= a < b < t.len() implies lex_lt(t[a].device, t[b].device) by {
        let a0 = if a < i {
            a
        } else {
            a + 1
        };
        let b0 = if b < i {
            b
        } else {
            b + 1
        };
        assert(t[a] == s[a0] && t[b] == s[b0]);
    }
}

proof fn lemma_insert_keeps_ascending<H>(s: Seq<PeerEntry<H>>, k: int, e: PeerEntry<H>)
    requires
        ascending(s),
        slot_for(s, e.device, k),
        !holds(s, e.device),
    ensures
        ascending(s.insert(k, e)),
{
    let t = s.insert(k, e);
    s.insert_ensures(k, e);
    assert forall|i: int| k <= i < s.len() implies lex_lt(e.device, #[trigger] s[i].device) by {
        lemma_lex_total(s[i].device, e.device);
    }
    assert forall|a: int, b: int| 0 <= a < b < t.len() implies lex_lt(t[a].device, t[b].device) by {
        if b < k {
            assert(t[a] == s[a] && t[b] == s[b]);
        } else if b == k {
            assert(t[a] == s[a]);
        } else if a < k {
            assert(t[a] == s[a] && t[b] == s[b - 1]);
            lemma_lex_transitive(s[a].device, e.device, s[b - 1].device);
        } else if a == k {
            assert(t[b] == s[b - 1]);
        } else {
            assert(t[a] == s[a - 1] && t[b] == s[b - 1]);
        }
    }
}

/// Every computer this machine is currently sharing input with.
#[derive(Debug)]
pub struct PeerSet<H> {
    local: DeviceId,
    local_screens: Vec<PlacedScreen>,
    peers: Vec<(DeviceId, Peer<H>)>,
    active: Option<DeviceId>,
}

/// The identity bytes of an optional device.
pub open spec fn device_view(d: Option<DeviceId>) -> Option<Seq<u8>> {
    match d {
        Some(x) => Some(x@),
        None => None,
    }
}

impl<H> PeerSet<H> {
    #[verifier::type_invariant]
    spec fn consistent(self) -> bool {
        &&& ascending(self.entries())
        &&& control_held_by(device_view(self.active), self.local@, self.entries())
    }

    /// The connected peers' entries, ascending by identity.
    pub closed spec fn entries(&self) -> Seq<PeerEntry<H>> {
        self.peers@.map_values(|e: (DeviceId, Peer<H>)| entry_of(e))
    }

    /// This machine's identity.
    pub closed spec fn local_id(&self) -> Seq<u8> {
        self.local@
    }

    /// This machine's screens.
    pub closed spec fn local_screen_ids(&self) -> Seq<(Seq<u8>, u32)> {
        screen_ids(self.local_screens@)
    }

    /// The device currently receiving input, or `None` for this machine.
    pub closed spec fn active_id(&self) -> Option<Seq<u8>> {
        device_view(self.active)
    }

    /// The set's invariant, as callers see it: entries ascend by identity
    /// and input is directed at this machine or at a connected peer.
    pub open spec fn well_formed(&self) -> bool {
        &&& ascending(self.entries())
        &&& control_held_by(self.active_id(), self.local_id(), self.entries())
    }

    /// A set containing only this machine.
    pub fn new(local: DeviceId, local_screens: Vec<PlacedScreen>) -> (s: PeerSet<H>)
        ensures
            s.well_formed(),
            s.local_id() == local@,
            s.local_screen_ids() == screen_ids(local_screens@),
            s.entries() == Seq::<PeerEntry<H>>::empty(),
            s.active_id() is None,
    {
        let s = PeerSet { local, local_screens, peers: Vec::new(), active: None };
        assert(s.entries() =~= Seq::<PeerEntry<H>>::empty());
        s
    }

    /// This machine's identity.
    pub fn local(&self) -> (d: DeviceId)
        ensures
            d@ == self.local_id(),
    {
        self.local
    }

    /// The device currently receiving input, or `None` for this machine.
    pub fn active(&self) -> (d: Option<DeviceId>)
        ensures
            device_view(d) == self.active_id(),
            self.well_formed(),
    {
        proof {
            use_type_invariant(self);
        }
        self.active
    }

    /// Number of connected peers.
    pub fn len(&self) -> (n: usize)
        ensures
            n == self.entries().len(),
    {
        self.peers.len()
    }

    /// True when nothing is connected.
    pub fn is_empty(&self) -> (r: bool)
        ensures
            r == (self.entries().len() == 0),
    {
        self.peers.len() == 0
    }

    /// Where the entry for `device` is, or where it would go.
    fn locate(&self, device: &DeviceId) -> (r: (usize, bool))
        ensures
            slot_for(self.entries(), device@, r.0 as int),
            r.1 == holds(self.entries(), device@),
            r.1 ==> r.0 < self.entries().len() && self.entries()[r.0 as int].device == device@
                && r.0 == index_of(self.entries(), device@),
    {
        proof {
            use_type_invariant(self);
        }
        let ghost es = self.entries();
        let mut i: usize = 0;
        while i < self.peers.len()
            invariant
                i <= self.peers@.len(),
                es == self.entries(),
                es.len() == self.peers@.len(),
                ascending(es),
                forall|j: int| 0 <= j < i ==> lex_lt(#[trigger] es[j].device, device@),
            decreases self.peers@.len() - i,
        {
            if !self.peers[i].0.precedes(device) {
                let found = self.peers[i].0.same(device);
                proof {
                    assert(es[i as int].device == self.peers@[i as int].0@);
                    assert forall|j: int| i <= j < es.len() implies !lex_lt(#[trigger] es[j].device, device@) by {
                        if j > i {
                            lemma_lex_total(es[i as int].device, device@);
                            if lex_lt(es[j].device, device@) {
                                lemma_lex_transitive(es[i as int].device, es[j].device, device@);
                            }
                        }
                    }
                    if found {
                        lemma_ascending_index(es, device@, i as int);
                    } else {
                        assert(!holds(es, device@)) by {
                            if holds(es, device@) {
                                let k = choose|k: int| 0 <= k < es.len() && es[k].device == device@;
                                lemma_lex_irreflexive(device@);
                                if k > i {
                                    lemma_lex_total(es[i as int].device, device@);
                                }
                            }
                        }
                    }
                }
                return (i, found);
            }
            i = i + 1;
        }
        proof {
            assert(!holds(es, device@)) by {
                if holds(es, device@) {
                    let k = choose|k: int| 0 <= k < es.len() && es[k].device == device@;
                    lemma_lex_irreflexive(device@);
                }
            }
        }
        (i, false)
    }

    /// Looks up a peer.
    pub fn get(&self, device: DeviceId) -> (r: Option<&Peer<H>>)
        ensures
            r is Some == holds(self.entries(), device@),
            r matches Some(p) ==> entry_of((device, *p)) == self.entries()[index_of(
                self.entries(),
                device@,
            )],
    {
        let (i, found) = self.locate(&device);
        if found {
            Some(&self.peers[i].1)
        } else {
            None
        }
    }

    /// Connected peers with their identities, ascending by identity.
    pub fn peers(&self) -> (list: Vec<(DeviceId, &Peer<H>)>)
        ensures
            list@.len() == self.entries().len(),
            forall|i: int|
                0 <= i < list@.len() ==> entry_of((list@[i].0, *list@[i].1))
                    == #[trigger] self.entries()[i],
    {
        let mut list: Vec<(DeviceId, &Peer<H>)> = Vec::new();
        let mut i: usize = 0;
        while i < self.peers.len()
            invariant
                i <= self.peers@.len(),
                list@.len() == i,
                forall|j: int|
                    0 <= j < i ==> entry_of((list@[j].0, *list@[j].1)) == #[trigger] self.entries()[j],
            decreases self.peers@.len() - i,
        {
            let entry = &self.peers[i];
            list.push((entry.0, &entry.1));
            i = i + 1;
        }
        list
    }

    /// Records a newly connected peer, replacing any existing entry, which
    /// is what a reconnection looks like.
    pub fn connect(&mut self, device: DeviceId, name: String, screens: Vec<PlacedScreen>, handle: Option<H>) -> (change: PeerChange)
        ensures
            change == PeerChange::LayoutOnly,
            final(self).well_formed(),
            final(self).local_id() == old(self).local_id(),
            final(self).local_screen_ids() == old(self).local_screen_ids(),
            final(self).active_id() == old(self).active_id(),
            ({
                let e = PeerEntry {
                    device: device@,
                    name: name@,
                    state: PeerState::Connected,
                    screens: screen_ids(screens@),
                    handle,
                };
                if holds(old(self).entries(), device@) {
                    final(self).entries() == old(self).entries().update(
                        index_of(old(self).entries(), device@),
                        e,
                    )
                } else {
                    exists|k: int|
                        slot_for(old(self).entries(), device@, k) && final(self).entries()
                            == old(self).entries().insert(k, e)
                }
            }),
    {
        proof {
            use_type_invariant(&*self);
        }
        let ghost before = self.entries();
        let ghost e = PeerEntry {
            device: device@,
            name: name@,
            state: PeerState::Connected,
            screens: screen_ids(screens@),
            handle,
        };
        let (k, found) = self.locate(&device);
        let peer = Peer { name, state: PeerState::Connected, screens, handle };
        assert(entry_of((device, peer)) == e);
        let saved = self.active;
        self.active = None;
        let mut peers: Vec<(DeviceId, Peer<H>)> = Vec::new();
        std::mem::swap(&mut peers, &mut self.peers);
        if found {
            peers.set(k, (device, peer));
            proof {
                assert(peers@.map_values(|e: (DeviceId, Peer<H>)| entry_of(e)) =~= before.update(
                    k as int,
                    e,
                ));
                lemma_update_keeps_ascending(before, k as int, e);
                let after = before.update(k as int, e);
                if let Some(d) = device_view(saved) {
                    let j = index_of(before, d);
                    assert(after[j].device == d);
                }
            }
        } else {
            peers.insert(k, (device, peer));
            proof {
                assert(peers@.map_values(|e: (DeviceId, Peer<H>)| entry_of(e)) =~= before.insert(
                    k as int,
                    e,
                ));
                lemma_insert_keeps_ascending(before, k as int, e);
                before.insert_ensures(k as int, e);
                let after = before.insert(k as int, e);
                if let Some(d) = device_view(saved) {
                    let j = index_of(before, d);
                    if j < k {
                        assert(after[j].device == d);
                    } else {
                        assert(after[j + 1].device == d);
                    }
                }
            }
        }
        self.peers = peers;
        self.active = saved;
        PeerChange::LayoutOnly
    }

    /// Records a peer going away. Returns [`PeerChange::ReclaimControl`] when
    /// it was the one receiving input, which the caller must act on at once.
    pub fn disconnect(&mut self, device: DeviceId) -> (change: PeerChange)
        ensures
            final(self).well_formed(),
            final(self).local_id() == old(self).local_id(),
            final(self).local_screen_ids() == old(self).local_screen_ids(),
            holds(old(self).entries(), device@) ==> final(self).entries() == old(self).entries().remove(
                index_of(old(self).entries(), device@),
            ),
            !holds(old(self).entries(), device@) ==> final(self).entries() == old(self).entries(),
            old(self).active_id() == Some(device@) ==> final(self).active_id() is None
                && change == (PeerChange::ReclaimControl {
                from: device,
                reason: ReclaimReason::PeerLost,
            }),
            old(self).active_id() != Some(device@) ==> final(self).active_id()
                == old(self).active_id() && change == PeerChange::LayoutOnly,
    {
        proof {
            use_type_invariant(&*self);
        }
        let ghost before = self.entries();
        let (k, found) = self.locate(&device);
        let was_active = match &self.active {
            Some(a) => a.same(&device),
            None => false,
        };
        if was_active {
            self.active = None;
        }
        if found {
            let saved = self.active;
            self.active = None;
            let mut peers: Vec<(DeviceId, Peer<H>)> = Vec::new();
            std::mem::swap(&mut peers, &mut self.peers);
            peers.remove(k);
            proof {
                assert(peers@.map_values(|e: (DeviceId, Peer<H>)| entry_of(e)) =~= before.remove(
                    k as int,
                ));
                lemma_remove_keeps_ascending(before, k as int);
                let after = before.remove(k as int);
                if let Some(d) = device_view(saved) {
                    let j = index_of(before, d);
                    assert(d != device@);
                    if j < k {
                        assert(after[j].device == d);
                    } else {
                        assert(j != k);
                        assert(after[j - 1].device == d);
                    }
                }
            }
            self.peers = peers;
            self.active = saved;
        }
        if was_active {
            PeerChange::ReclaimControl { from: device, reason: ReclaimReason::PeerLost }
        } else {
            PeerChange::LayoutOnly
        }
    }

    /// Updates a peer's health. Degradation deliberately does not reclaim
    /// control: yanking the cursor back mid-sentence is worse than a moment
    /// of uncertainty.
    pub fn set_state(&mut self, device: DeviceId, state: PeerState)
        ensures
            final(self).well_formed(),
            final(self).local_id() == old(self).local_id(),
            final(self).local_screen_ids() == old(self).local_screen_ids(),
            final(self).active_id() == old(self).active_id(),
            holds(old(self).entries(), device@) ==> final(self).entries() == old(self).entries().update(
                index_of(old(self).entries(), device@),
                PeerEntry { state, ..old(self).entries()[index_of(old(self).entries(), device@)] },
            ),
            !holds(old(self).entries(), device@) ==> final(self).entries() == old(self).entries(),
    {
        proof {
            use_type_invariant(&*self);
        }
        let ghost before = self.entries();
        let (k, found) = self.locate(&device);
        if found {
            let saved = self.active;
            self.active = None;
            let mut peers: Vec<(DeviceId, Peer<H>)> = Vec::new();
            std::mem::swap(&mut peers, &mut self.peers);
            let (d, mut peer) = peers.remove(k);
            peer.state = state;
            let ghost e = PeerEntry { state, ..before[k as int] };
            assert(entry_of((d, peer)) == e);
            peers.insert(k, (d, peer));
            proof {
                assert(peers@.map_values(|e: (DeviceId, Peer<H>)| entry_of(e)) =~= before.update(
                    k as int,
                    e,
                ));
                lemma_update_keeps_ascending(before, k as int, e);
                let after = before.update(k as int, e);
                if let Some(a) = device_view(saved) {
                    let j = index_of(before, a);
                    assert(after[j].device == a);
                }
            }
            self.peers = peers;
            self.active = saved;
        }
    }

    /// Replaces a peer's screens. Returns [`PeerChange::ReclaimControl`] if
    /// the peer was receiving input and has no screens left: a display
    /// unplugged on the other machine.
    pub fn set_screens(&mut self, device: DeviceId, screens: Vec<PlacedScreen>) -> (change: PeerChange)
        ensures
            final(self).well_formed(),
            final(self).local_id() == old(self).local_id(),
            final(self).local_screen_ids() == old(self).local_screen_ids(),
            holds(old(self).entries(), device@) ==> final(self).entries() == old(self).entries().update(
                index_of(old(self).entries(), device@),
                PeerEntry {
                    screens: screen_ids(screens@),
                    ..old(self).entries()[index_of(old(self).entries(), device@)]
                },
            ),
            !holds(old(self).entries(), device@) ==> final(self).entries() == old(self).entries(),
            (screens@.len() == 0 && old(self).active_id() == Some(device@)) ==> final(self).active_id() is None && change == (PeerChange::ReclaimControl {
                from: device,
                reason: ReclaimReason::ScreensGone,
            }),
            !(screens@.len() == 0 && old(self).active_id() == Some(device@)) ==> final(self).active_id() == old(self).active_id() && change == PeerChange::LayoutOnly,
    {
        proof {
            use_type_invariant(&*self);
        }
        let ghost before = self.entries();
        let empty = screens.len() == 0;
        let ghost ids = screen_ids(screens@);
        let (k, found) = self.locate(&device);
        if found {
            let saved = self.active;
            self.active = None;
            let mut peers: Vec<(DeviceId, Peer<H>)> = Vec::new();
            std::mem::swap(&mut peers, &mut self.peers);
            let (d, mut peer) = peers.remove(k);
            peer.screens = screens;
            let ghost e = PeerEntry { screens: ids, ..before[k as int] };
            assert(entry_of((d, peer)) == e);
            peers.insert(k, (d, peer));
            proof {
                assert(peers@.map_values(|e: (DeviceId, Peer<H>)| entry_of(e)) =~= before.update(
                    k as int,
                    e,
                ));
                lemma_update_keeps_ascending(before, k as int, e);
                let after = before.update(k as int, e);
                if let Some(a) = device_view(saved) {
                    let j = index_of(before, a);
                    assert(after[j].device == a);
                }
            }
            self.peers = peers;
            self.active = saved;
        }
        let was_active = match &self.active {
            Some(a) => a.same(&device),
            None => false,
        };
        if empty && was_active {
            self.active = None;
            return PeerChange::ReclaimControl { from: device, reason: ReclaimReason::ScreensGone };
        }
        PeerChange::LayoutOnly
    }

    /// Replaces this machine's screens.
    pub fn set_local_screens(&mut self, screens: Vec<PlacedScreen>)
        ensures
            final(self).well_formed(),
            final(self).local_id() == old(self).local_id(),
            final(self).local_screen_ids() == screen_ids(screens@),
            final(self).entries() == old(self).entries(),
            final(self).active_id() == old(self).active_id(),
    {
        proof {
            use_type_invariant(&*self);
        }
        self.local_screens = screens;
    }

    /// Directs input at a device, or back at this machine.
    ///
    /// Refusing an unknown or unusable device is what stops a crossing
    /// towards a machine that has just gone away: the cursor stays put
    /// rather than disappearing into nothing.
    pub fn set_active(&mut self, device: Option<DeviceId>) -> (r: Result<(), PeerError>)
        ensures
            final(self).well_formed(),
            final(self).local_id() == old(self).local_id(),
            final(self).local_screen_ids() == old(self).local_screen_ids(),
            final(self).entries() == old(self).entries(),
            match device {
                None => r is Ok && final(self).active_id() is None,
                Some(d) => if d@ == old(self).local_id() {
                    r is Ok && final(self).active_id() is None
                } else if holds(old(self).entries(), d@) && usable(
                    old(self).entries()[index_of(old(self).entries(), d@)].state,
                ) {
                    r is Ok && final(self).active_id() == Some(d@)
                } else {
                    r == Err::<(), PeerError>(PeerError::NotConnected { device: d })
                        && final(self).active_id() == old(self).active_id()
                },
            },
    {
        proof {
            use_type_invariant(&*self);
        }
        match device {
            None => {
                self.active = None;
                Ok(())
            },
            Some(d) => {
                if d.same(&self.local) {
                    self.active = None;
                    return Ok(());
                }
                let (k, found) = self.locate(&d);
                if !found || !self.peers[k].1.state.is_usable() {
                    return Err(PeerError::NotConnected { device: d });
                }
                self.active = Some(d);
                Ok(())
            },
        }
    }

    /// The session handle of the device currently receiving input.
    pub fn active_handle(&self) -> (h: Option<&H>)
        ensures
            match self.active_id() {
                None => h is None,
                Some(d) => match self.entries()[index_of(self.entries(), d)].handle {
                    Some(x) => h == Some(&x),
                    None => h is None,
                },
            },
    {
        proof {
            use_type_invariant(self);
        }
        match &self.active {
            None => None,
            Some(d) => {
                let (k, found) = self.locate(d);
                if found {
                    self.peers[k].1.handle()
                } else {
                    None
                }
            },
        }
    }

    /// Every screen in the shared space: this machine's first, then each
    /// peer's in identity order. This is what the layout is built from: it
    /// is derived from the connected peers, never stored beside them.
    pub fn screens(&self) -> (all: Vec<PlacedScreen>)
        ensures
            screen_ids(all@) == self.local_screen_ids() + concat_screens(self.entries()),
    {
        let mut all: Vec<PlacedScreen> = Vec::new();
        let mut j: usize = 0;
        while j < self.local_screens.len()
            invariant
                j <= self.local_screens@.len(),
                all@ == self.local_screens@.take(j as int),
            decreases self.local_screens@.len() - j,
        {
            all.push(self.local_screens[j]);
            assert(self.local_screens@.take(j as int + 1) =~= self.local_screens@.take(j as int).push(
                self.local_screens@[j as int],
            ));
            j = j + 1;
        }
        assert(self.local_screens@.take(j as int) =~= self.local_screens@);
        assert(concat_screens(self.entries().take(0)) =~= Seq::<(Seq<u8>, u32)>::empty());
        assert(screen_ids(all@) =~= self.local_screen_ids() + concat_screens(self.entries().take(0)));
        let mut i: usize = 0;
        while i < self.peers.len()
            invariant
                i <= self.peers@.len(),
                self.entries().len() == self.peers@.len(),
                screen_ids(all@) == self.local_screen_ids() + concat_screens(
                    self.entries().take(i as int),
                ),
            decreases self.peers@.len() - i,
        {
            let screens = &self.peers[i].1.screens;
            let ghost base = all@;
            let mut k: usize = 0;
            while k < screens.len()
                invariant
                    k <= screens@.len(),
                    all@ == base + screens@.take(k as int),
                decreases screens@.len() - k,
            {
                all.push(screens[k]);
                assert(base + screens@.take(k as int + 1) =~= (base + screens@.take(k as int)).push(
                    screens@[k as int],
                ));
                k = k + 1;
            }
            assert(screens@.take(k as int) =~= screens@);
            proof {
                let es = self.entries();
                assert(es.take(i as int + 1).drop_last() =~= es.take(i as int));
                assert(es[i as int].screens == screen_ids(screens@));
                assert(screen_ids(base + screens@) =~= screen_ids(base) + screen_ids(screens@));
                assert(self.local_screen_ids() + concat_screens(es.take(i as int)) + screen_ids(
                    screens@,
                ) =~= self.local_screen_ids() + concat_screens(es.take(i as int + 1)));
            }
            i = i + 1;
        }
        assert(self.entries().take(i as int) =~= self.entries());
        all
    }

    /// Which device owns a screen: this machine for its own screens, else
    /// the first peer, in identity order, listing it.
    pub fn owner_of(&self, screen: GlobalScreenId) -> (owner: Option<DeviceId>)
        ensures
            self.local_screen_ids().contains(screen@) ==> device_view(owner) == Some(self.local_id()),
            !self.local_screen_ids().contains(screen@) ==> match first_owner(self.entries(), screen@) {
                Some(i) => device_view(owner) == Some(self.entries()[i].device),
                None => owner is None,
            },
    {
        let mut j: usize = 0;
        while j < self.local_screens.len()
            invariant
                j <= self.local_screens@.len(),
                forall|a: int| 0 <= a < j ==> self.local_screens@[a].id@ != screen@,
            decreases self.local_screens@.len() - j,
        {
            if self.local_screens[j].id == screen {
                assert(self.local_screen_ids()[j as int] == screen@);
                return Some(self.local);
            }
            j = j + 1;
        }
        assert(!self.local_screen_ids().contains(screen@)) by {
            if self.local_screen_ids().contains(screen@) {
                let a = choose|a: int| 0 <= a < self.local_screen_ids().len() && self.local_screen_ids()[a] == screen@;
                assert(self.local_screens@[a].id@ == screen@);
            }
        }
        let mut i: usize = 0;
        while i < self.peers.len()
            invariant
                i <= self.peers@.len(),
                self.entries().len() == self.peers@.len(),
                !self.local_screen_ids().contains(screen@),
                forall|a: int| 0 <= a < i ==> !(#[trigger] self.entries()[a]).screens.contains(screen@),
            decreases self.peers@.len() - i,
        {
            let screens = &self.peers[i].1.screens;
            let mut k: usize = 0;
            while k < screens.len()
                invariant
                    k <= screens@.len(),
                    i < self.peers@.len(),
                    self.entries().len() == self.peers@.len(),
                    !self.local_screen_ids().contains(screen@),
                    screens@ == self.peers@[i as int].1.screens@,
                    forall|a: int| 0 <= a < i ==> !(#[trigger] self.entries()[a]).screens.contains(screen@),
                    forall|b: int| 0 <= b < k ==> screens@[b].id@ != screen@,
                decreases screens@.len() - k,
            {
                if screens[k].id == screen {
                    proof {
                        assert(self.entries()[i as int].screens[k as int] == screen@);
                        assert(first_at_owner(self.entries(), screen@, i as int));
                        lemma_first_owner_is(self.entries(), screen@, i as int);
                    }
                    return Some(self.peers[i].0);
                }
                k = k + 1;
            }
            assert(!self.entries()[i as int].screens.contains(screen@)) by {
                if self.entries()[i as int].screens.contains(screen@) {
                    let b = choose|b: int| 0 <= b < self.entries()[i as int].screens.len() && self.entries()[i as int].screens[b] == screen@;
                    assert(screens@[b].id@ == screen@);
                }
            }
            i = i + 1;
        }
        None
    }
}

/// The screens of a list of entries, in order.
pub open spec fn concat_screens<H>(s: Seq<PeerEntry<H>>) -> Seq<(Seq<u8>, u32)>
    decreases s.len(),
{
    if s.len() == 0 {
        Seq::empty()
    } else {
        concat_screens(s.drop_last()) + s.last().screens
    }
}

/// Entry `i` is the first listing `screen`.
pub open spec fn first_at_owner<H>(s: Seq<PeerEntry<H>>, screen: (Seq<u8>, u32), i: int) -> bool {
    0 <= i < s.len() && s[i].screens.contains(screen) && forall|j: int|
        0 <= j < i ==> !(#[trigger] s[j]).screens.contains(screen)
}

/// The first entry listing `screen`, if any.
pub open spec fn first_owner<H>(s: Seq<PeerEntry<H>>, screen: (Seq<u8>, u32)) -> Option<int> {
    if exists|i: int| first_at_owner(s, screen, i) {
        Some(choose|i: int| first_at_owner(s, screen, i))
    } else {
        None
    }
}

proof fn lemma_first_owner_is<H>(s: Seq<PeerEntry<H>>, screen: (Seq<u8>, u32), i: int)
    requires
        first_at_owner(s, screen, i),
    ensures
        first_owner(s, screen) == Some(i),
{
    let k = choose|k: int| first_at_owner(s, screen, k);
    if k < i {
        assert(!s[k].screens.contains(screen));
    } else if k > i {
        assert(!s[i].screens.contains(screen));
    }
}


/// Connecting a new peer and then disconnecting it leaves the entries as
/// they were: the connection lands at its place in identity order, and that
/// is the entry the disconnection removes.
pub proof fn law_disconnect_undoes_connect<H>(s: Seq<PeerEntry<H>>, e: PeerEntry<H>, k: int)
    requires
        ascending(s),
        !holds(s, e.device),
        slot_for(s, e.device, k),
    ensures
        holds(s.insert(k, e), e.device),
        index_of(s.insert(k, e), e.device) == k,
        s.insert(k, e).remove(index_of(s.insert(k, e), e.device)) == s,
{
    let t = s.insert(k, e);
    s.insert_ensures(k, e);
    lemma_insert_keeps_ascending(s, k, e);
    assert(t[k].device == e.device);
    lemma_ascending_index(t, e.device, k);
    assert(t.remove(k) =~= s);
}

} // verus!
