//! The set of peers currently believed to be reachable.
//!
//! Pure logic with the clock passed in as milliseconds, so ageing and
//! deduplication do not depend on wall time.

use vstd::prelude::*;
use crate::device::{DeviceId, OsKind};
use crate::lexical::{
    compare_bytes,
    lex_lt,
    lemma_lex_asymmetric,
    lemma_lex_irreflexive,
    lemma_lex_total,
    lemma_lex_transitive,
};

verus! {

/// How a peer was found, in increasing order of reliability.
///
/// When the same device is seen through several mechanisms the most reliable
/// one wins: a manually entered address is something the user asserted.
#[derive(Debug, Clone, Copy, PartialEq, Eq, Structural, Hash)]
pub enum PeerSource {
    /// Heard on the UDP broadcast fallback.
    Broadcast,
    /// Advertised over mDNS-SD.
    Mdns,
    /// Entered by the user.
    Manual,
}

/// Reliability of a source: broadcast, then mDNS, then manual entry.
pub open spec fn source_rank(s: PeerSource) -> int {
    match s {
        PeerSource::Broadcast => 0,
        PeerSource::Mdns => 1,
        PeerSource::Manual => 2,
    }
}

impl PeerSource {
    /// True when `self` is at least as reliable as `other`.
    pub fn at_least(self, other: PeerSource) -> (r: bool)
        ensures
            r == (source_rank(self) >= source_rank(other)),
    {
        let a: u8 = match self {
            PeerSource::Broadcast => 0,
            PeerSource::Mdns => 1,
            PeerSource::Manual => 2,
        };
        let b: u8 = match other {
            PeerSource::Broadcast => 0,
            PeerSource::Mdns => 1,
            PeerSource::Manual => 2,
        };
        a >= b
    }
}

/// How long a peer survives without being heard from again, in
/// milliseconds: several lost beacons, so the list does not flicker.
pub const DEFAULT_EXPIRY_MS: u64 = 30000;

/// A peer seen on the network.
#[derive(Debug, PartialEq, Eq)]
pub struct DiscoveredPeer {
    /// Identity claimed in the announcement. Unverified: useful for grouping
    /// sightings, never for a trust decision.
    pub device: DeviceId,
    /// Display name from the announcement.
    pub name: String,
    /// Operating system family.
    pub os: OsKind,
    /// Where to connect, as a socket address in text form.
    pub address: String,
    /// How this peer was found.
    pub source: PeerSource,
    /// When it was last heard from, in milliseconds on the caller's clock.
    pub last_seen_ms: u64,
}

/// The abstract content of a sighting.
pub struct PeerView {
    /// Identity bytes.
    pub device: Seq<u8>,
    /// Display name.
    pub name: Seq<char>,
    /// Operating system family.
    pub os: OsKind,
    /// Address text.
    pub address: Seq<char>,
    /// How it was found.
    pub source: PeerSource,
    /// When it was last heard from, in milliseconds.
    pub last_seen: u64,
}

impl View for DiscoveredPeer {
    type V = PeerView;

    open spec fn view(&self) -> PeerView {
        PeerView {
            device: self.device@,
            name: self.name@,
            os: self.os,
            address: self.address@,
            source: self.source,
            last_seen: self.last_seen_ms,
        }
    }
}

impl Clone for DiscoveredPeer {
    fn clone(&self) -> (c: DiscoveredPeer)
        ensures
            c@ == self@,
    {
        DiscoveredPeer {
            device: self.device,
            name: self.name.clone(),
            os: self.os,
            address: self.address.clone(),
            source: self.source,
            last_seen_ms: self.last_seen_ms,
        }
    }
}

/// The views of a sequence of sightings.
pub open spec fn peer_views(s: Seq<DiscoveredPeer>) -> Seq<PeerView> {
    s.map_values(|p: DiscoveredPeer| p@)
}

/// No device appears twice.
pub open spec fn distinct_devices(s: Seq<PeerView>) -> bool {
    forall|i: int, j: int|
        0 <= i < s.len() && 0 <= j < s.len() && i != j ==> #[trigger] s[i].device != #[trigger] s[j].device
}

/// Some entry is for device `d`.
pub open spec fn has_device(s: Seq<PeerView>, d: Seq<u8>) -> bool {
    exists|i: int| 0 <= i < s.len() && #[trigger] s[i].device == d
}

/// The position of the entry for device `d`.
pub open spec fn position_of(s: Seq<PeerView>, d: Seq<u8>) -> int {
    choose|i: int| 0 <= i < s.len() && #[trigger] s[i].device == d
}

/// A new sighting of a known device merged into its entry.
///
/// The name, OS and time always come from the sighting; the address and
/// source only when the sighting is at least as reliable as what is stored.
pub open spec fn merged(existing: PeerView, seen: PeerView) -> PeerView {
    let better = source_rank(seen.source) >= source_rank(existing.source);
    PeerView {
        device: existing.device,
        name: seen.name,
        os: seen.os,
        address: if better {
            seen.address
        } else {
            existing.address
        },
        source: if better {
            seen.source
        } else {
            existing.source
        },
        last_seen: seen.last_seen,
    }
}

/// Milliseconds since `last`, or zero if `last` is in the future.
pub open spec fn age(now: u64, last: u64) -> int {
    if now >= last {
        now - last
    } else {
        0
    }
}

/// An entry survives ageing when it was entered manually or was heard from
/// within the expiry window.
pub open spec fn retained(p: PeerView, now: u64, expiry: u64) -> bool {
    p.source == PeerSource::Manual || age(now, p.last_seen) < expiry
}

/// The listing order: by the name's UTF-8 bytes, then by identity.
pub open spec fn listed_before(p: PeerView, q: PeerView) -> bool {
    let a = vstd::utf8::encode_utf8(p.name);
    let b = vstd::utf8::encode_utf8(q.name);
    lex_lt(a, b) || (a == b && lex_lt(p.device, q.device))
}

/// `s` lists exactly the entries of `of`, strictly in listing order.
pub open spec fn is_listing(s: Seq<PeerView>, of: Seq<PeerView>) -> bool {
    &&& s.len() == of.len()
    &&& forall|i: int, j: int| 0 <= i < j < s.len() ==> listed_before(s[i], s[j])
    &&& forall|i: int| 0 <= i < s.len() ==> of.contains(#[trigger] s[i])
    &&& forall|i: int| 0 <= i < of.len() ==> s.contains(#[trigger] of[i])
}

proof fn lemma_listed_irreflexive(p: PeerView)
    ensures
        !listed_before(p, p),
{
    lemma_lex_irreflexive(vstd::utf8::encode_utf8(p.name));
    lemma_lex_irreflexive(p.device);
}

proof fn lemma_listed_asymmetric(p: PeerView, q: PeerView)
    ensures
        listed_before(p, q) ==> !listed_before(q, p),
{
    let a = vstd::utf8::encode_utf8(p.name);
    let b = vstd::utf8::encode_utf8(q.name);
    lemma_lex_asymmetric(a, b);
    lemma_lex_asymmetric(b, a);
    lemma_lex_asymmetric(p.device, q.device);
    if a == b {
        lemma_lex_irreflexive(a);
    }
}

proof fn lemma_listed_transitive(p: PeerView, q: PeerView, r: PeerView)
    requires
        listed_before(p, q),
        listed_before(q, r),
    ensures
        listed_before(p, r),
{
    let a = vstd::utf8::encode_utf8(p.name);
    let b = vstd::utf8::encode_utf8(q.name);
    let c = vstd::utf8::encode_utf8(r.name);
    if lex_lt(a, b) && lex_lt(b, c) {
        lemma_lex_transitive(a, b, c);
    } else if lex_lt(a, b) {
        assert(b == c);
    } else if lex_lt(b, c) {
        assert(a == b);
    } else {
        lemma_lex_transitive(p.device, q.device, r.device);
    }
}

proof fn lemma_listed_total(p: PeerView, q: PeerView)
    requires
        p.device != q.device,
    ensures
        listed_before(p, q) || listed_before(q, p),
{
    let a = vstd::utf8::encode_utf8(p.name);
    let b = vstd::utf8::encode_utf8(q.name);
    lemma_lex_total(a, b);
    lemma_lex_total(p.device, q.device);
}

/// The views of a sequence extended by one sighting.
proof fn lemma_views_push(s: Seq<DiscoveredPeer>, p: DiscoveredPeer)
    ensures
        peer_views(s.push(p)) == peer_views(s).push(p@),
{
    assert(peer_views(s.push(p)) =~= peer_views(s).push(p@));
}

/// Every entry of `s` sorts strictly before every later one.
pub open spec fn strictly_listed(s: Seq<PeerView>) -> bool {
    forall|a: int, b: int| 0 <= a < b < s.len() ==> listed_before(s[a], s[b])
}

/// `s` and `t` hold the same entries.
pub open spec fn same_entries(s: Seq<PeerView>, t: Seq<PeerView>) -> bool {
    &&& forall|a: int| 0 <= a < s.len() ==> t.contains(#[trigger] s[a])
    &&& forall|j: int| 0 <= j < t.len() ==> s.contains(#[trigger] t[j])
}

/// Entries drawn from the first `i` of `all` are for other devices than
/// entry `i`, when `all` has one entry per device.
proof fn lemma_entries_differ_from_next(lv: Seq<PeerView>, all: Seq<PeerView>, i: int)
    requires
        0 <= i < all.len(),
        distinct_devices(all),
        same_entries(lv, all.take(i)),
    ensures
        forall|a: int| 0 <= a < lv.len() ==> (#[trigger] lv[a]).device != all[i].device,
{
    assert forall|a: int| 0 <= a < lv.len() implies (#[trigger] lv[a]).device != all[i].device by {
        assert(all.take(i).contains(lv[a]));
        let j = choose|j: int| 0 <= j < all.take(i).len() && all.take(i)[j] == lv[a];
        assert(all[j] == lv[a]);
    }
}

/// Inserting an entry after everything before it and ahead of everything
/// after it keeps a listing strictly ordered.
proof fn lemma_insert_listed(lv: Seq<PeerView>, k: int, pv: PeerView)
    requires
        0 <= k <= lv.len(),
        strictly_listed(lv),
        forall|a: int| 0 <= a < k ==> listed_before(#[trigger] lv[a], pv),
        k < lv.len() ==> !listed_before(lv[k], pv),
        forall|a: int| 0 <= a < lv.len() ==> (#[trigger] lv[a]).device != pv.device,
    ensures
        strictly_listed(lv.insert(k, pv)),
{
    if k < lv.len() {
        lemma_listed_total(lv[k], pv);
        assert forall|a: int| k <= a < lv.len() implies listed_before(pv, #[trigger] lv[a]) by {
            if a > k {
                lemma_listed_transitive(pv, lv[k], lv[a]);
            }
        }
    }
    let v = lv.insert(k, pv);
    lv.insert_ensures(k, pv);
    assert forall|a: int, b: int| 0 <= a < b < v.len() implies listed_before(v[a], v[b]) by {
        if b < k {
            assert(v[a] == lv[a] && v[b] == lv[b]);
        } else if b == k {
            assert(v[a] == lv[a]);
        } else if a < k {
            assert(v[a] == lv[a] && v[b] == lv[b - 1]);
            assert(listed_before(pv, lv[b - 1]));
            lemma_listed_transitive(lv[a], pv, lv[b - 1]);
        } else if a == k {
            assert(v[b] == lv[b - 1]);
        } else {
            assert(v[a] == lv[a - 1] && v[b] == lv[b - 1]);
        }
    }
}

/// Inserting entry `i` of `all` into a listing of its first `i` entries
/// gives a listing of its first `i + 1`.
proof fn lemma_insert_entries(lv: Seq<PeerView>, all: Seq<PeerView>, i: int, k: int)
    requires
        0 <= i < all.len(),
        0 <= k <= lv.len(),
        same_entries(lv, all.take(i)),
    ensures
        same_entries(lv.insert(k, all[i]), all.take(i + 1)),
{
    let v = lv.insert(k, all[i]);
    let t = all.take(i + 1);
    lv.insert_ensures(k, all[i]);
    assert forall|a: int| 0 <= a < v.len() implies t.contains(#[trigger] v[a]) by {
        if a == k {
            assert(t[i] == all[i]);
        } else {
            let src = if a < k {
                a
            } else {
                a - 1
            };
            assert(v[a] == lv[src]);
            assert(all.take(i).contains(lv[src]));
            let j = choose|j: int| 0 <= j < all.take(i).len() && all.take(i)[j] == lv[src];
            assert(t[j] == lv[src]);
        }
    }
    assert forall|j: int| 0 <= j < t.len() implies v.contains(#[trigger] t[j]) by {
        if j == i {
            assert(v[k] == t[j]);
        } else {
            assert(all.take(i)[j] == t[j]);
            assert(lv.contains(t[j]));
            let a = choose|a: int| 0 <= a < lv.len() && lv[a] == t[j];
            if a < k {
                assert(v[a] == t[j]);
            } else {
                assert(v[a + 1] == t[j]);
            }
        }
    }
}

/// Whether `p` is listed before `q`.
fn listed(p: &DiscoveredPeer, q: &DiscoveredPeer) -> (r: bool)
    ensures
        r == listed_before(p@, q@),
{
    let by_name = compare_bytes(p.name.as_str().as_bytes(), q.name.as_str().as_bytes());
    if by_name != 0 {
        by_name < 0
    } else {
        p.device.precedes(&q.device)
    }
}

/// Tracks reachable peers, deduplicating across discovery mechanisms.
#[derive(Debug)]
pub struct PeerRegistry {
    peers: Vec<DiscoveredPeer>,
    expiry_ms: u64,
}

impl Default for PeerRegistry {
    fn default() -> (r: PeerRegistry)
        ensures
            r@ == Seq::<PeerView>::empty(),
            r.expiry() == DEFAULT_EXPIRY_MS,
    {
        PeerRegistry::new(DEFAULT_EXPIRY_MS)
    }
}

impl View for PeerRegistry {
    type V = Seq<PeerView>;

    closed spec fn view(&self) -> Seq<PeerView> {
        peer_views(self.peers@)
    }
}

impl PeerRegistry {
    #[verifier::type_invariant]
    spec fn one_entry_per_device(self) -> bool {
        distinct_devices(peer_views(self.peers@))
    }

    /// How long an entry survives without a sighting, in milliseconds.
    pub closed spec fn expiry(&self) -> u64 {
        self.expiry_ms
    }

    /// An empty registry with the given expiry window.
    pub fn new(expiry_ms: u64) -> (r: PeerRegistry)
        ensures
            r@ == Seq::<PeerView>::empty(),
            r.expiry() == expiry_ms,
    {
        let r = PeerRegistry { peers: Vec::new(), expiry_ms };
        assert(r@ =~= Seq::<PeerView>::empty());
        r
    }

    /// Where the entry for `device` is, if there is one.
    fn find(&self, device: &DeviceId) -> (r: Option<usize>)
        ensures
            match r {
                Some(i) => i < self@.len() && self@[i as int].device == device@ && i
                    == position_of(self@, device@),
                None => !has_device(self@, device@),
            },
    {
        proof {
            use_type_invariant(self);
        }
        let mut i: usize = 0;
        while i < self.peers.len()
            invariant
                i <= self.peers@.len(),
                self@ == peer_views(self.peers@),
                distinct_devices(self@),
                forall|j: int| 0 <= j < i ==> self@[j].device != device@,
            decreases self.peers@.len() - i,
        {
            if self.peers[i].device.same(device) {
                proof {
                    let k = position_of(self@, device@);
                    assert(self@[i as int].device == device@);
                    assert(has_device(self@, device@));
                    assert(self@[k].device == device@);
                    assert(k == i);
                }
                return Some(i);
            }
            i = i + 1;
        }
        None
    }

    /// Records a sighting. Returns true if the device was not previously
    /// known, so the caller can decide whether to show a notification.
    ///
    /// A known device keeps one entry: its name, OS and time are refreshed
    /// from the sighting, but a less reliable mechanism never overwrites the
    /// address or source of a better one.
    pub fn observe(&mut self, peer: DiscoveredPeer) -> (new: bool)
        ensures
            new == !has_device(old(self)@, peer.device@),
            new ==> final(self)@ == old(self)@.push(peer@),
            !new ==> final(self)@ == old(self)@.update(
                position_of(old(self)@, peer.device@),
                merged(old(self)@[position_of(old(self)@, peer.device@)], peer@),
            ),
            distinct_devices(final(self)@),
            final(self).expiry() == old(self).expiry(),
    {
        proof {
            use_type_invariant(&*self);
        }
        match self.find(&peer.device) {
            Some(i) => {
                let better = peer.source.at_least(self.peers[i].source);
                let device = self.peers[i].device;
                let address = if better {
                    peer.address
                } else {
                    self.peers[i].address.clone()
                };
                let source = if better {
                    peer.source
                } else {
                    self.peers[i].source
                };
                let updated = DiscoveredPeer {
                    device,
                    name: peer.name,
                    os: peer.os,
                    address,
                    source,
                    last_seen_ms: peer.last_seen_ms,
                };
                let ghost before = self@;
                let ghost target = merged(before[i as int], peer@);
                assert(updated@ == target);
                let mut peers: Vec<DiscoveredPeer> = Vec::new();
                std::mem::swap(&mut peers, &mut self.peers);
                peers.set(i, updated);
                assert(peer_views(peers@) =~= before.update(i as int, target));
                proof {
                    let v = before.update(i as int, target);
                    assert forall|a: int, b: int|
                        0 <= a < v.len() && 0 <= b < v.len() && a != b implies #[trigger] v[a].device
                        != #[trigger] v[b].device by {
                        assert(before[a].device != before[b].device);
                    }
                }
                self.peers = peers;
                false
            },
            None => {
                let ghost before = self.peers@;
                proof {
                    lemma_views_push(before, peer);
                }
                let mut peers: Vec<DiscoveredPeer> = Vec::new();
                std::mem::swap(&mut peers, &mut self.peers);
                peers.push(peer);
                proof {
                    let v = peer_views(peers@);
                    assert forall|a: int, b: int|
                        0 <= a < v.len() && 0 <= b < v.len() && a != b implies #[trigger] v[a].device
                        != #[trigger] v[b].device by {
                        if a < v.len() - 1 && b < v.len() - 1 {
                            assert(v[a] == peer_views(before)[a]);
                            assert(v[b] == peer_views(before)[b]);
                        } else if a < v.len() - 1 {
                            assert(v[a] == peer_views(before)[a]);
                        } else {
                            assert(v[b] == peer_views(before)[b]);
                        }
                    }
                }
                self.peers = peers;
                true
            },
        }
    }

    /// Removes peers not heard from within the expiry window, returning the
    /// devices dropped in the order they were stored. Manually entered peers
    /// are never aged out.
    pub fn expire(&mut self, now_ms: u64) -> (dropped: Vec<DeviceId>)
        ensures
            final(self)@ == old(self)@.filter(|p: PeerView| retained(p, now_ms, old(self).expiry())),
            dropped@.map_values(|d: DeviceId| d@) == old(self)@.filter(
                |p: PeerView| !retained(p, now_ms, old(self).expiry()),
            ).map_values(|p: PeerView| p.device),
            distinct_devices(final(self)@),
            final(self).expiry() == old(self).expiry(),
    {
        proof {
            use_type_invariant(&*self);
        }
        let expiry = self.expiry_ms;
        let ghost keep = |p: PeerView| retained(p, now_ms, expiry);
        let ghost drop = |p: PeerView| !retained(p, now_ms, expiry);
        let ghost orig = self@;
        let mut rest: Vec<DiscoveredPeer> = Vec::new();
        std::mem::swap(&mut rest, &mut self.peers);
        assert(peer_views(rest@) == orig);
        let mut kept: Vec<DiscoveredPeer> = Vec::new();
        let mut dropped: Vec<DeviceId> = Vec::new();
        let ghost mut i: int = 0;
        assert(orig.take(0) =~= Seq::<PeerView>::empty());
        assert(peer_views(kept@) =~= Seq::<PeerView>::empty());
        assert(dropped@.map_values(|d: DeviceId| d@) =~= Seq::<Seq<u8>>::empty());
        while rest.len() > 0
            invariant
                0 <= i <= orig.len(),
                rest@.len() == orig.len() - i,
                forall|k: int| 0 <= k < rest@.len() ==> (#[trigger] rest@[k])@ == orig[i + k],
                distinct_devices(orig),
                keep == (|p: PeerView| retained(p, now_ms, expiry)),
                drop == (|p: PeerView| !retained(p, now_ms, expiry)),
                peer_views(kept@) == orig.take(i).filter(keep),
                dropped@.map_values(|d: DeviceId| d@) == orig.take(i).filter(drop).map_values(
                    |p: PeerView| p.device,
                ),
                distinct_devices(peer_views(kept@)),
                forall|k: int|
                    0 <= k < kept@.len() ==> exists|j: int|
                        0 <= j < i && (#[trigger] kept@[k]).device@ == orig[j].device,
            decreases rest@.len(),
        {
            let ghost rest_before = rest@;
            let p = rest.remove(0);
            let ghost pv = p@;
            assert(pv == orig[i]);
            assert forall|k: int| 0 <= k < rest@.len() implies (#[trigger] rest@[k])@ == orig[(
            i + 1) + k] by {
                assert(rest@[k] == rest_before[k + 1]);
            }
            assert(orig.take(i + 1) =~= orig.take(i).push(pv));
            let age: u64 = if now_ms >= p.last_seen_ms {
                now_ms - p.last_seen_ms
            } else {
                0
            };
            if p.source == PeerSource::Manual || age < expiry {
                assert(keep(pv));
                proof {
                    orig.take(i).lemma_filter_push(pv, keep);
                    orig.take(i).lemma_filter_push(pv, drop);
                    lemma_views_push(kept@, p);
                    assert forall|k: int| 0 <= k < kept@.len() implies (#[trigger] kept@[k]).device@
                        != pv.device by {
                        let j = choose|j: int| 0 <= j < i && kept@[k].device@ == orig[j].device;
                        assert(orig[j].device != orig[i].device);
                    }
                }
                let ghost kept_before = kept@;
                kept.push(p);
                proof {
                    assert(kept@ == kept_before.push(p));
                    let kv = peer_views(kept@);
                    assert forall|a: int, b: int|
                        0 <= a < kv.len() && 0 <= b < kv.len() && a != b implies #[trigger] kv[a].device
                        != #[trigger] kv[b].device by {
                        let last = kv.len() - 1;
                        if a == last {
                            assert(kv[b].device == kept_before[b].device@);
                        } else if b == last {
                            assert(kv[a].device == kept_before[a].device@);
                        } else {
                            assert(kv[a] == peer_views(kept_before)[a]);
                            assert(kv[b] == peer_views(kept_before)[b]);
                        }
                    }
                    assert forall|k: int| 0 <= k < kept@.len() implies exists|j: int|
                        0 <= j < i + 1 && (#[trigger] kept@[k]).device@ == orig[j].device by {
                        if k == kept@.len() - 1 {
                            assert(kept@[k].device@ == orig[i].device);
                        } else {
                            assert(kept@[k] == kept_before[k]);
                            let j = choose|j: int| 0 <= j < i && kept_before[k].device@ == orig[j].device;
                            assert(0 <= j < i + 1 && kept@[k].device@ == orig[j].device);
                        }
                    }
                }
            } else {
                assert(drop(pv));
                proof {
                    orig.take(i).lemma_filter_push(pv, keep);
                    orig.take(i).lemma_filter_push(pv, drop);
                }
                let ghost dropped_before = dropped@;
                dropped.push(p.device);
                proof {
                    assert(dropped@.map_values(|d: DeviceId| d@) =~= dropped_before.map_values(
                        |d: DeviceId| d@,
                    ).push(pv.device));
                    assert(orig.take(i).filter(drop).push(pv).map_values(|p: PeerView| p.device)
                        =~= orig.take(i).filter(drop).map_values(|p: PeerView| p.device).push(
                        pv.device,
                    ));
                }
            }
            proof {
                i = i + 1;
            }
        }
        assert(orig.take(i) =~= orig);
        self.peers = kept;
        dropped
    }

    /// Forgets a peer. Returns true if it was known.
    pub fn remove(&mut self, device: DeviceId) -> (removed: bool)
        ensures
            removed == has_device(old(self)@, device@),
            removed ==> final(self)@ == old(self)@.remove(position_of(old(self)@, device@)),
            !removed ==> final(self)@ == old(self)@,
            distinct_devices(final(self)@),
            final(self).expiry() == old(self).expiry(),
    {
        proof {
            use_type_invariant(&*self);
        }
        match self.find(&device) {
            Some(i) => {
                let ghost before = self@;
                let mut peers: Vec<DiscoveredPeer> = Vec::new();
                std::mem::swap(&mut peers, &mut self.peers);
                let ghost raw = peers@;
                peers.remove(i);
                assert(peer_views(peers@) =~= before.remove(i as int));
                proof {
                    let v = before.remove(i as int);
                    assert forall|a: int, b: int|
                        0 <= a < v.len() && 0 <= b < v.len() && a != b implies #[trigger] v[a].device
                        != #[trigger] v[b].device by {
                        let a0 = if a < i {
                            a
                        } else {
                            a + 1
                        };
                        let b0 = if b < i {
                            b
                        } else {
                            b + 1
                        };
                        assert(v[a] == before[a0]);
                        assert(v[b] == before[b0]);
                        assert(before[a0].device != before[b0].device);
                    }
                }
                self.peers = peers;
                true
            },
            None => false,
        }
    }

    /// The entry for a device, if it is known.
    pub fn get(&self, device: DeviceId) -> (r: Option<&DiscoveredPeer>)
        ensures
            r is Some == has_device(self@, device@),
            r matches Some(p) ==> p@ == self@[position_of(self@, device@)],
    {
        match self.find(&device) {
            Some(i) => Some(&self.peers[i]),
            None => None,
        }
    }

    /// Number of known peers.
    pub fn len(&self) -> (n: usize)
        ensures
            n == self@.len(),
    {
        self.peers.len()
    }

    /// True when nothing has been found.
    pub fn is_empty(&self) -> (r: bool)
        ensures
            r == (self@.len() == 0),
    {
        self.peers.len() == 0
    }

    /// Peers in a stable order, sorted by name then identity. Sorted because
    /// a device list that reshuffles on every refresh is unusable.
    pub fn sorted(&self) -> (listing: Vec<&DiscoveredPeer>)
        ensures
            is_listing(listing@.map_values(|p: &DiscoveredPeer| p@), self@),
    {
        proof {
            use_type_invariant(self);
        }
        let ghost all = self@;
        let mut out: Vec<&DiscoveredPeer> = Vec::new();
        let ghost mut lv: Seq<PeerView> = Seq::empty();
        assert(out@.map_values(|p: &DiscoveredPeer| p@) =~= lv);
        let mut i: usize = 0;
        while i < self.peers.len()
            invariant
                i <= self.peers@.len(),
                all == peer_views(self.peers@),
                distinct_devices(all),
                lv == out@.map_values(|p: &DiscoveredPeer| p@),
                lv.len() == i,
                strictly_listed(lv),
                same_entries(lv, all.take(i as int)),
            decreases self.peers@.len() - i,
        {
            let p = &self.peers[i];
            let ghost pv = p@;
            assert(pv == all[i as int]);
            proof {
                lemma_entries_differ_from_next(lv, all, i as int);
            }
            let mut k: usize = 0;
            while k < out.len() && listed(out[k], p)
                invariant
                    k <= out@.len(),
                    pv == p@,
                    lv == out@.map_values(|p: &DiscoveredPeer| p@),
                    forall|a: int| 0 <= a < k ==> listed_before(#[trigger] lv[a], pv),
                decreases out@.len() - k,
            {
                k = k + 1;
            }
            proof {
                lemma_insert_listed(lv, k as int, pv);
                lemma_insert_entries(lv, all, i as int, k as int);
            }
            out.insert(k, p);
            proof {
                assert(out@.map_values(|p: &DiscoveredPeer| p@) =~= lv.insert(k as int, pv));
                lv = lv.insert(k as int, pv);
            }
            i = i + 1;
        }
        assert(all.take(i as int) =~= all);
        out
    }
}


/// A sighting through a less reliable mechanism never replaces the address
/// or source already stored: a manually entered address survives automatic
/// discovery reporting a stale interface.
pub proof fn law_less_reliable_sighting_keeps_the_address(existing: PeerView, seen: PeerView)
    requires
        source_rank(seen.source) < source_rank(existing.source),
    ensures
        merged(existing, seen).address == existing.address,
        merged(existing, seen).source == existing.source,
{
}

/// A sighting through an equally or more reliable mechanism takes over the
/// address and source.
pub proof fn law_better_sighting_replaces_the_address(existing: PeerView, seen: PeerView)
    requires
        source_rank(seen.source) >= source_rank(existing.source),
    ensures
        merged(existing, seen).address == seen.address,
        merged(existing, seen).source == seen.source,
{
}

/// Sources are strictly ordered by reliability, broadcast below mDNS below a
/// manual entry: `at_least` holds of a source and every source below it, and
/// of no source above it, so no two sources tie.
pub proof fn law_sources_are_strictly_ordered(a: PeerSource, b: PeerSource)
    ensures
        (source_rank(a) >= source_rank(b) && source_rank(b) >= source_rank(a)) ==> a == b,
        source_rank(a) >= source_rank(b) || source_rank(b) >= source_rank(a),
        source_rank(PeerSource::Mdns) > source_rank(PeerSource::Broadcast),
        source_rank(PeerSource::Manual) > source_rank(PeerSource::Mdns),
{
}

/// A broadcast sighting of a device already known through mDNS or a manual
/// entry never replaces its address or source: broadcast is the least
/// reliable mechanism. A manual entry is replaced by nothing but another
/// manual entry.
pub proof fn law_broadcast_never_overrides_a_better_sighting(existing: PeerView, seen: PeerView)
    ensures
        seen.source == PeerSource::Broadcast && existing.source != PeerSource::Broadcast ==> {
            &&& merged(existing, seen).address == existing.address
            &&& merged(existing, seen).source == existing.source
        },
        existing.source == PeerSource::Manual && seen.source != PeerSource::Manual ==> {
            &&& merged(existing, seen).address == existing.address
            &&& merged(existing, seen).source == PeerSource::Manual
        },
        seen.source == PeerSource::Mdns && existing.source == PeerSource::Broadcast ==> {
            &&& merged(existing, seen).address == seen.address
            &&& merged(existing, seen).source == PeerSource::Mdns
        },
{
}

/// Whatever its source, a sighting of a known device renames it and
/// refreshes when it was last heard from, and never changes its identity.
pub proof fn law_every_sighting_refreshes_name_and_time(existing: PeerView, seen: PeerView)
    ensures
        merged(existing, seen).device == existing.device,
        merged(existing, seen).name == seen.name,
        merged(existing, seen).os == seen.os,
        merged(existing, seen).last_seen == seen.last_seen,
{
}

/// A manually entered peer is never aged out, however long it is silent.
pub proof fn law_manual_peers_never_expire(s: Seq<PeerView>, now: u64, expiry: u64, i: int)
    requires
        0 <= i < s.len(),
        s[i].source == PeerSource::Manual,
    ensures
        s.filter(|p: PeerView| retained(p, now, expiry)).contains(s[i]),
{
    s.lemma_filter_contains(|p: PeerView| retained(p, now, expiry), i);
}

/// A discovered peer silent for at least the expiry window is gone after
/// ageing.
pub proof fn law_silent_peers_expire(s: Seq<PeerView>, now: u64, expiry: u64, i: int)
    requires
        0 <= i < s.len(),
        distinct_devices(s),
        s[i].source != PeerSource::Manual,
        age(now, s[i].last_seen) >= expiry,
    ensures
        !has_device(s.filter(|p: PeerView| retained(p, now, expiry)), s[i].device),
{
    let keep = |p: PeerView| retained(p, now, expiry);
    let f = s.filter(keep);
    if has_device(f, s[i].device) {
        let k = choose|k: int| 0 <= k < f.len() && #[trigger] f[k].device == s[i].device;
        s.lemma_filter_pred(keep, k);
        assert(f.contains(f[k]));
        s.lemma_filter_contains_rev(keep, f[k]);
        let j = choose|j: int| 0 <= j < s.len() && s[j] == f[k];
        assert(s[j].device == s[i].device);
        assert(j == i);
    }
}

/// A peer heard from within the expiry window survives ageing.
pub proof fn law_recent_peers_survive_expiry(s: Seq<PeerView>, now: u64, expiry: u64, i: int)
    requires
        0 <= i < s.len(),
        age(now, s[i].last_seen) < expiry,
    ensures
        s.filter(|p: PeerView| retained(p, now, expiry)).contains(s[i]),
{
    s.lemma_filter_contains(|p: PeerView| retained(p, now, expiry), i);
}

/// The listing is determined by the entries alone: any two listings of the
/// same entries are identical, so the device list never reshuffles between
/// calls.
pub proof fn law_listing_is_determined(a: Seq<PeerView>, b: Seq<PeerView>, s: Seq<PeerView>)
    requires
        is_listing(a, s),
        is_listing(b, s),
    ensures
        a == b,
{
    lemma_listings_agree(a, b);
}

/// Two strictly ordered sequences holding the same entries are equal.
proof fn lemma_listings_agree(a: Seq<PeerView>, b: Seq<PeerView>)
    requires
        strictly_listed(a),
        strictly_listed(b),
        forall|i: int| 0 <= i < a.len() ==> b.contains(#[trigger] a[i]),
        forall|i: int| 0 <= i < b.len() ==> a.contains(#[trigger] b[i]),
    ensures
        a == b,
    decreases a.len(),
{
    if a.len() == 0 {
        if b.len() > 0 {
            assert(a.contains(b[0]));
        }
        assert(a =~= b);
    } else {
        assert(b.contains(a[0]));
        assert(b.len() > 0);
        assert(a.contains(b[0]));
        if a[0] != b[0] {
            let m = choose|m: int| 0 <= m < a.len() && a[m] == b[0];
            let n = choose|n: int| 0 <= n < b.len() && b[n] == a[0];
            assert(m > 0 && n > 0);
            assert(listed_before(a[0], b[0]));
            assert(listed_before(b[0], a[0]));
            lemma_listed_asymmetric(a[0], b[0]);
        }
        let ta = a.subrange(1, a.len() as int);
        let tb = b.subrange(1, b.len() as int);
        assert forall|i: int| 0 <= i < ta.len() implies tb.contains(#[trigger] ta[i]) by {
            assert(ta[i] == a[i + 1]);
            assert(b.contains(a[i + 1]));
            let n = choose|n: int| 0 <= n < b.len() && b[n] == a[i + 1];
            if n == 0 {
                lemma_listed_irreflexive(a[0]);
                assert(listed_before(a[0], a[i + 1]));
            }
            assert(tb[n - 1] == ta[i]);
        }
        assert forall|i: int| 0 <= i < tb.len() implies ta.contains(#[trigger] tb[i]) by {
            assert(tb[i] == b[i + 1]);
            assert(a.contains(b[i + 1]));
            let m = choose|m: int| 0 <= m < a.len() && a[m] == b[i + 1];
            if m == 0 {
                lemma_listed_irreflexive(b[0]);
                assert(listed_before(b[0], b[i + 1]));
            }
            assert(ta[m - 1] == tb[i]);
        }
        lemma_listings_agree(ta, tb);
        assert(a =~= b) by {
            assert forall|i: int| 0 <= i < a.len() implies a[i] == b[i] by {
                if i > 0 {
                    assert(a[i] == ta[i - 1] && b[i] == tb[i - 1]);
                }
            }
        }
    }
}


/// Observing a new device and then removing it leaves the registry's
/// entries as they were.
pub proof fn law_remove_undoes_a_new_sighting(s: Seq<PeerView>, p: PeerView)
    requires
        distinct_devices(s),
        !has_device(s, p.device),
    ensures
        has_device(s.push(p), p.device),
        s.push(p).remove(position_of(s.push(p), p.device)) == s,
{
    let t = s.push(p);
    assert(t[s.len() as int].device == p.device);
    let k = position_of(t, p.device);
    if k < s.len() {
        assert(t[k] == s[k]);
    }
    assert(k == s.len());
    assert(t.remove(k) =~= s);
}

} // verus!
