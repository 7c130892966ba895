//! Where the broadcast beacon is sent: the limited broadcast address first,
//! then one subnet-directed broadcast per IPv4 interface that has one.
//! Loopback is skipped: a peer reachable only over loopback is this machine.

use vstd::prelude::*;

verus! {

/// `255.255.255.255`, as a big-endian `u32`.
pub const LIMITED_BROADCAST: u32 = 0xFFFF_FFFF;

/// What matters of one network interface: whether it is loopback, and its
/// IPv4 broadcast address as a big-endian `u32`, if it has one.
#[derive(Debug, Clone, Copy, PartialEq, Eq, Structural)]
pub struct InterfaceAddress {
    /// True for a loopback interface.
    pub loopback: bool,
    /// The subnet-directed broadcast address; `None` for an IPv6 address or
    /// an interface without broadcast.
    pub broadcast: Option<u32>,
}

/// The targets after considering `interfaces` in order, starting from
/// `targets`: each usable broadcast address is added once.
pub open spec fn targets_after(targets: Seq<u32>, interfaces: Seq<InterfaceAddress>) -> Seq<u32>
    decreases interfaces.len(),
{
    if interfaces.len() == 0 {
        targets
    } else {
        let before = targets_after(targets, interfaces.drop_last());
        let i = interfaces.last();
        match i.broadcast {
            Some(b) => if !i.loopback && !before.contains(b) {
                before.push(b)
            } else {
                before
            },
            None => before,
        }
    }
}

/// The broadcast targets for a machine with these interfaces.
pub open spec fn broadcast_targets_of(interfaces: Seq<InterfaceAddress>) -> Seq<u32> {
    targets_after(seq![LIMITED_BROADCAST], interfaces)
}

/// The addresses to broadcast a beacon to, in order.
pub fn broadcast_addresses(interfaces: &[InterfaceAddress]) -> (targets: Vec<u32>)
    ensures
        targets@ == broadcast_targets_of(interfaces@),
{
    let mut targets: Vec<u32> = Vec::new();
    targets.push(LIMITED_BROADCAST);
    let mut i: usize = 0;
    assert(interfaces@.take(0) =~= Seq::<InterfaceAddress>::empty());
    assert(targets@ =~= seq![LIMITED_BROADCAST]);
    while i < interfaces.len()
        invariant
            i <= interfaces@.len(),
            targets@ == targets_after(seq![LIMITED_BROADCAST], interfaces@.take(i as int)),
        decreases interfaces@.len() - i,
    {
        let interface = interfaces[i];
        assert(interfaces@.take(i as int + 1).drop_last() =~= interfaces@.take(i as int));
        assert(interfaces@.take(i as int + 1).last() == interface);
        if !interface.loopback {
            if let Some(b) = interface.broadcast {
                let mut seen = false;
                let mut k: usize = 0;
                while k < targets.len()
                    invariant
                        k <= targets@.len(),
                        seen == (exists|j: int| 0 <= j < k && targets@[j] == b),
                    decreases targets@.len() - k,
                {
                    if targets[k] == b {
                        seen = true;
                    }
                    k = k + 1;
                }
                if !seen {
                    targets.push(b);
                }
            }
        }
        i = i + 1;
    }
    assert(interfaces@.take(interfaces@.len() as int) =~= interfaces@);
    targets
}

/// No address appears twice.
pub open spec fn distinct_addresses(s: Seq<u32>) -> bool {
    forall|a: int, b: int| 0 <= a < b < s.len() ==> s[a] != s[b]
}

proof fn lemma_targets_after(targets: Seq<u32>, interfaces: Seq<InterfaceAddress>)
    requires
        distinct_addresses(targets),
    ensures
        distinct_addresses(targets_after(targets, interfaces)),
        targets_after(targets, interfaces).len() >= targets.len(),
        targets_after(targets, interfaces).subrange(0, targets.len() as int) == targets,
        forall|x: u32| targets.contains(x) ==> #[trigger] targets_after(targets, interfaces).contains(x),
        forall|k: int|
            0 <= k < interfaces.len() && !interfaces[k].loopback && interfaces[k].broadcast is Some
                ==> targets_after(targets, interfaces).contains(#[trigger] interfaces[k].broadcast->Some_0),
        forall|x: u32|
            #[trigger] targets_after(targets, interfaces).contains(x) ==> targets.contains(x) || exists|k: int|
                0 <= k < interfaces.len() && !interfaces[k].loopback && interfaces[k].broadcast
                    == Some(x),
    decreases interfaces.len(),
{
    if interfaces.len() > 0 {
        let rest = interfaces.drop_last();
        lemma_targets_after(targets, rest);
        let before = targets_after(targets, rest);
        let after = targets_after(targets, interfaces);
        let last = interfaces.last();
        if let Some(b) = last.broadcast {
            if !last.loopback && !before.contains(b) {
                assert forall|a: int, c: int| 0 <= a < c < after.len() implies after[a] != after[c] by {
                    if c == after.len() - 1 {
                        assert(before.contains(after[a]));
                    }
                }
                assert(after.subrange(0, targets.len() as int) =~= before.subrange(0, targets.len() as int));
            }
        }
        assert forall|x: u32| targets.contains(x) implies #[trigger] after.contains(x) by {
            assert(before.contains(x));
            let j = choose|j: int| 0 <= j < before.len() && before[j] == x;
            assert(after[j] == x);
        }
        assert forall|k: int|
            0 <= k < interfaces.len() && !interfaces[k].loopback && interfaces[k].broadcast is Some implies after.contains(
                #[trigger] interfaces[k].broadcast->Some_0,
            ) by {
            let x = interfaces[k].broadcast->Some_0;
            if k < rest.len() {
                assert(rest[k] == interfaces[k]);
                assert(before.contains(x));
                let j = choose|j: int| 0 <= j < before.len() && before[j] == x;
                assert(after[j] == x);
            } else if before.contains(x) {
                let j = choose|j: int| 0 <= j < before.len() && before[j] == x;
                assert(after[j] == x);
            } else {
                assert(after[after.len() - 1] == x);
            }
        }
        assert forall|x: u32| #[trigger] after.contains(x) implies targets.contains(x) || exists|k: int|
            0 <= k < interfaces.len() && !interfaces[k].loopback && interfaces[k].broadcast == Some(x) by {
            if before.contains(x) {
                if !targets.contains(x) {
                    let k = choose|k: int|
                        0 <= k < rest.len() && !rest[k].loopback && rest[k].broadcast == Some(x);
                    assert(interfaces[k] == rest[k]);
                }
            } else {
                let j = choose|j: int| 0 <= j < after.len() && after[j] == x;
                if j < before.len() {
                    assert(before[j] == x);
                }
                assert(interfaces[interfaces.len() - 1] == last);
            }
        }
    }
}

/// The limited broadcast is always tried first, no address is tried twice,
/// every non-loopback interface's broadcast address is tried, and nothing
/// else is.
pub proof fn law_broadcast_targets(interfaces: Seq<InterfaceAddress>)
    ensures
        broadcast_targets_of(interfaces).len() >= 1,
        broadcast_targets_of(interfaces)[0] == LIMITED_BROADCAST,
        distinct_addresses(broadcast_targets_of(interfaces)),
        forall|k: int|
            0 <= k < interfaces.len() && !interfaces[k].loopback && interfaces[k].broadcast is Some
                ==> broadcast_targets_of(interfaces).contains(#[trigger] interfaces[k].broadcast->Some_0),
        forall|x: u32|
            #[trigger] broadcast_targets_of(interfaces).contains(x) ==> x == LIMITED_BROADCAST || exists|k: int|
                0 <= k < interfaces.len() && !interfaces[k].loopback && interfaces[k].broadcast
                    == Some(x),
{
    let start = seq![LIMITED_BROADCAST];
    lemma_targets_after(start, interfaces);
    let t = broadcast_targets_of(interfaces);
    assert(t.subrange(0, 1)[0] == t[0]);
    assert forall|x: u32| #[trigger] t.contains(x) implies x == LIMITED_BROADCAST || exists|k: int|
        0 <= k < interfaces.len() && !interfaces[k].loopback && interfaces[k].broadcast == Some(x) by {
        if start.contains(x) {
            let j = choose|j: int| 0 <= j < start.len() && start[j] == x;
            assert(j == 0);
        }
    }
}

} // verus!
