use mousebridge::device::DeviceId;
use mousebridge::handoff::{classify_crossing, count_crossing, destination_for, HandoffAction, HandoffStats};
use mousebridge::peers::{
    GlobalScreenId, PeerChange, PeerError, PeerSet, PeerState, PlacedScreen, ReclaimReason,
};
use mousebridge::routing::Destination;

fn dev_id(byte: u8) -> DeviceId {
    DeviceId::from_bytes([byte; 32])
}

fn screen(byte: u8, index: u32, x: f64, w: f64) -> PlacedScreen {
    PlacedScreen {
        id: GlobalScreenId::new(dev_id(byte), index),
        x_bits: x.to_bits(),
        y_bits: 0.0f64.to_bits(),
        width_bits: w.to_bits(),
        height_bits: 1080.0f64.to_bits(),
        scale_bits: 1.0f64.to_bits(),
    }
}

/// Mac in the middle, a PC either side: Mac — Windows — Mac Mini.
fn chain() -> PeerSet<()> {
    let mut set = PeerSet::new(dev_id(1), vec![screen(1, 0, 0.0, 1920.0)]);
    set.connect(
        dev_id(2),
        "Windows PC".to_owned(),
        vec![screen(2, 0, 1920.0, 1920.0)],
        None,
    );
    set.connect(
        dev_id(3),
        "Mac Mini".to_owned(),
        vec![screen(3, 0, 3840.0, 1920.0)],
        None,
    );
    set
}

fn right_edge(screens: &[PlacedScreen]) -> f64 {
    screens
        .iter()
        .map(|s| f64::from_bits(s.x_bits) + f64::from_bits(s.width_bits))
        .fold(f64::MIN, f64::max)
}

#[test]
fn a_layout_spans_every_connected_machine() {
    let set = chain();
    let screens = set.screens();
    assert_eq!(screens.len(), 3);
    assert_eq!(right_edge(&screens), 5760.0);
}

#[test]
fn the_layout_is_stable_across_rebuilds() {
    let set = chain();
    assert_eq!(set.screens(), set.screens());
}

#[test]
fn screens_are_attributed_to_their_owners() {
    let set = chain();
    assert_eq!(
        set.owner_of(GlobalScreenId::new(dev_id(2), 0)),
        Some(dev_id(2))
    );
    assert_eq!(
        set.owner_of(GlobalScreenId::new(dev_id(1), 0)),
        Some(dev_id(1)),
        "local screens must be attributed too"
    );
    assert_eq!(set.owner_of(GlobalScreenId::new(dev_id(9), 0)), None);
}

#[test]
fn input_can_be_directed_at_any_connected_peer() {
    let mut set = chain();
    set.set_active(Some(dev_id(3))).expect("connected");
    assert_eq!(set.active(), Some(dev_id(3)));

    set.set_active(Some(dev_id(2))).expect("connected");
    assert_eq!(set.active(), Some(dev_id(2)));
}

#[test]
fn directing_input_at_the_local_machine_clears_the_active_peer() {
    let mut set = chain();
    set.set_active(Some(dev_id(2))).expect("connected");
    set.set_active(Some(dev_id(1))).expect("local");
    assert_eq!(set.active(), None);
}

#[test]
fn a_crossing_towards_a_departed_machine_is_refused() {
    let mut set = chain();
    set.disconnect(dev_id(3));

    let result = set.set_active(Some(dev_id(3)));
    assert!(matches!(result, Err(PeerError::NotConnected { .. })));
    assert_eq!(set.active(), None, "control must not have moved");
}

#[test]
fn losing_the_active_machine_reclaims_control() {
    let mut set = chain();
    set.set_active(Some(dev_id(2))).expect("connected");

    let change = set.disconnect(dev_id(2));
    assert_eq!(
        change,
        PeerChange::ReclaimControl {
            from: dev_id(2),
            reason: ReclaimReason::PeerLost,
        }
    );
    assert_eq!(set.active(), None, "control must return to this machine");
}

#[test]
fn losing_an_idle_machine_only_changes_the_layout() {
    let mut set = chain();
    set.set_active(Some(dev_id(2))).expect("connected");

    let change = set.disconnect(dev_id(3));
    assert_eq!(change, PeerChange::LayoutOnly);
    assert_eq!(set.active(), Some(dev_id(2)), "control must not move");
}

#[test]
fn the_layout_shrinks_when_a_peer_leaves() {
    let mut set = chain();
    set.disconnect(dev_id(3));

    let screens = set.screens();
    assert_eq!(screens.len(), 2);
    assert_eq!(right_edge(&screens), 3840.0);
}

#[test]
fn a_peer_losing_every_screen_reclaims_control() {
    let mut set = chain();
    set.set_active(Some(dev_id(2))).expect("connected");

    let change = set.set_screens(dev_id(2), vec![]);
    assert_eq!(
        change,
        PeerChange::ReclaimControl {
            from: dev_id(2),
            reason: ReclaimReason::ScreensGone,
        }
    );
    assert_eq!(set.active(), None);
}

#[test]
fn a_degraded_peer_keeps_control() {
    let mut set = chain();
    set.set_active(Some(dev_id(2))).expect("connected");
    set.set_state(dev_id(2), PeerState::Degraded { missed: 2 });

    assert_eq!(set.active(), Some(dev_id(2)));
    assert!(set.get(dev_id(2)).expect("present").state.is_usable());
    assert!(set.set_active(Some(dev_id(2))).is_ok());
}

#[test]
fn reconnecting_replaces_the_previous_entry() {
    let mut set = chain();
    set.connect(
        dev_id(2),
        "Windows PC renamed".to_owned(),
        vec![screen(2, 0, 1920.0, 1920.0)],
        None,
    );

    assert_eq!(set.len(), 2, "a reconnection must not duplicate the peer");
    assert_eq!(
        set.get(dev_id(2)).expect("present").name,
        "Windows PC renamed"
    );
}

#[test]
fn a_machine_alone_still_has_a_valid_layout() {
    let set: PeerSet<()> = PeerSet::new(dev_id(1), vec![screen(1, 0, 0.0, 1920.0)]);
    assert!(set.is_empty());
    assert_eq!(set.screens().len(), 1);
}

#[test]
fn disconnecting_an_unknown_peer_is_harmless() {
    let mut set = chain();
    assert_eq!(set.disconnect(dev_id(9)), PeerChange::LayoutOnly);
    assert_eq!(set.len(), 2);
}

#[test]
fn peers_are_listed_in_identity_order_whatever_the_connection_order() {
    let mut set: PeerSet<u32> = PeerSet::new(dev_id(5), vec![]);
    set.connect(dev_id(9), "Nine".to_owned(), vec![], Some(9));
    set.connect(dev_id(2), "Two".to_owned(), vec![], Some(2));
    set.connect(dev_id(7), "Seven".to_owned(), vec![], Some(7));
    let ids: Vec<DeviceId> = set.peers().iter().map(|(d, _)| *d).collect();
    assert_eq!(ids, vec![dev_id(2), dev_id(7), dev_id(9)]);

    set.set_active(Some(dev_id(7))).expect("connected");
    assert_eq!(set.active_handle(), Some(&7));
    set.set_active(None).expect("local");
    assert_eq!(set.active_handle(), None);
    assert_eq!(set.local(), dev_id(5));
}

#[test]
fn a_screen_shared_by_two_peers_belongs_to_the_first_in_order() {
    let mut set: PeerSet<()> = PeerSet::new(dev_id(1), vec![]);
    set.connect(dev_id(4), "Four".to_owned(), vec![screen(8, 0, 0.0, 10.0)], None);
    set.connect(dev_id(3), "Three".to_owned(), vec![screen(8, 0, 0.0, 10.0)], None);
    assert_eq!(set.owner_of(GlobalScreenId::new(dev_id(8), 0)), Some(dev_id(3)));
    set.set_local_screens(vec![screen(8, 0, 0.0, 10.0)]);
    assert_eq!(set.owner_of(GlobalScreenId::new(dev_id(8), 0)), Some(dev_id(1)));
}

#[test]
fn crossings_are_classified_by_which_machine_they_leave_and_reach() {
    let local = dev_id(1);
    let here = GlobalScreenId::new(dev_id(1), 0);
    let here_too = GlobalScreenId::new(dev_id(1), 1);
    let there = GlobalScreenId::new(dev_id(2), 0);
    let there_too = GlobalScreenId::new(dev_id(2), 1);
    let entry = (0.0f64.to_bits(), 0.5f64.to_bits());

    assert_eq!(
        classify_crossing(&local, here, there, entry),
        HandoffAction::Leave {
            to: dev_id(2),
            screen: there,
            entry_bits: entry
        }
    );
    assert_eq!(
        classify_crossing(&local, there, here, entry),
        HandoffAction::Enter {
            from: dev_id(2),
            screen: here,
            entry_bits: entry
        }
    );
    assert_eq!(
        classify_crossing(&local, here, here_too, entry),
        HandoffAction::Unchanged
    );
    assert_eq!(
        classify_crossing(&local, there, there_too, entry),
        HandoffAction::Unchanged
    );
    assert_eq!(destination_for(&local, &dev_id(1)), Destination::Local);
    assert_eq!(destination_for(&local, &dev_id(2)), Destination::Remote);
}

#[test]
fn crossings_are_counted_by_direction() {
    let entry = (0u64, 0u64);
    let leave = HandoffAction::Leave {
        to: dev_id(2),
        screen: GlobalScreenId::new(dev_id(2), 0),
        entry_bits: entry,
    };
    let enter = HandoffAction::Enter {
        from: dev_id(2),
        screen: GlobalScreenId::new(dev_id(1), 0),
        entry_bits: entry,
    };
    let mut stats = HandoffStats::default();
    stats = count_crossing(stats, &leave);
    stats = count_crossing(stats, &leave);
    stats = count_crossing(stats, &enter);
    stats = count_crossing(stats, &HandoffAction::Unchanged);
    assert_eq!(
        stats,
        HandoffStats {
            departures: 2,
            arrivals: 1,
            skipped: 0
        }
    );
    let full = HandoffStats {
        departures: u64::MAX,
        arrivals: 0,
        skipped: 0,
    };
    assert_eq!(count_crossing(full, &leave).departures, 0);
}
