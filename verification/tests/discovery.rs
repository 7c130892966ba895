use mousebridge::device::{DeviceId, OsKind};
use mousebridge::discovery::beacon::{
    announcement_body, check_announcement, check_decoded, frame_announcement, magic_bytes, BeaconError,
    MAX_BEACON_LEN,
};
use mousebridge::discovery::manual::{
    address_shape, complete_address, parse_port, shape_of_trimmed, AddressError, AddressShape,
};
use mousebridge::discovery::mdns::{
    os_from_token, os_token, txt_value, MdnsError, SERVICE_TYPE, TXT_NAME, TXT_OS,
};
use mousebridge::discovery::registry::{
    DiscoveredPeer, PeerRegistry, PeerSource, DEFAULT_EXPIRY_MS,
};

const DEFAULT: u16 = 25470;

#[test]
fn the_service_type_is_well_formed() {
    assert!(SERVICE_TYPE.starts_with('_'));
    assert!(SERVICE_TYPE.ends_with(".local."));
    assert!(SERVICE_TYPE.contains("._udp."));
}

#[test]
fn every_os_token_round_trips() {
    for os in [OsKind::MacOs, OsKind::Windows, OsKind::Unknown] {
        assert_eq!(os_from_token(os_token(os)), os);
    }
    assert_eq!(os_token(OsKind::MacOs), "macos");
    assert_eq!(os_token(OsKind::Windows), "windows");
}

#[test]
fn an_unknown_os_token_degrades_rather_than_failing() {
    assert_eq!(os_from_token("haiku"), OsKind::Unknown);
    assert_eq!(os_from_token(""), OsKind::Unknown);
    assert_eq!(os_from_token("MacOS"), OsKind::Unknown);
}

#[test]
fn mdns_errors_explain_themselves() {
    assert_eq!(
        MdnsError::Unavailable {
            detail: "no interface".to_owned()
        }
        .to_string(),
        "mDNS is unavailable on this network: no interface"
    );
    assert_eq!(
        MdnsError::Browse {
            detail: "x".to_owned()
        }
        .to_string(),
        "could not browse for peers over mDNS: x"
    );
}

fn device(byte: u8) -> DeviceId {
    DeviceId::from_bytes([byte; 32])
}

fn peer(byte: u8, name: &str, source: PeerSource, at: u64) -> DiscoveredPeer {
    DiscoveredPeer {
        device: device(byte),
        name: name.to_owned(),
        os: OsKind::MacOs,
        address: format!("192.168.1.{byte}:25470"),
        source,
        last_seen_ms: at,
    }
}

const START: u64 = 1_000_000;

#[test]
fn a_new_peer_is_reported_as_new() {
    let mut registry = PeerRegistry::default();
    assert!(registry.observe(peer(1, "Mac", PeerSource::Mdns, START)));
    assert!(!registry.observe(peer(1, "Mac", PeerSource::Mdns, START)));
    assert_eq!(registry.len(), 1);
}

#[test]
fn the_same_device_seen_twice_is_not_duplicated() {
    let mut registry = PeerRegistry::default();
    registry.observe(peer(1, "Mac", PeerSource::Mdns, START));
    registry.observe(peer(1, "Mac", PeerSource::Broadcast, START));
    assert_eq!(registry.len(), 1);
}

#[test]
fn a_manual_address_is_not_overwritten_by_discovery() {
    let mut registry = PeerRegistry::default();
    let mut manual = peer(1, "Mac", PeerSource::Manual, START);
    manual.address = "10.0.0.5:25470".to_owned();
    registry.observe(manual);

    registry.observe(peer(1, "Mac", PeerSource::Mdns, START));

    let stored = registry.get(device(1)).expect("present");
    assert_eq!(stored.address, "10.0.0.5:25470");
    assert_eq!(stored.source, PeerSource::Manual);
}

#[test]
fn a_better_source_does_replace_a_worse_one() {
    let mut registry = PeerRegistry::default();
    registry.observe(peer(1, "Mac", PeerSource::Broadcast, START));
    registry.observe(peer(1, "Mac", PeerSource::Mdns, START));
    let stored = registry.get(device(1)).expect("present");
    assert_eq!(stored.source, PeerSource::Mdns);
    assert_eq!(stored.address, "192.168.1.1:25470");
}

#[test]
fn a_rename_is_always_picked_up() {
    let mut registry = PeerRegistry::default();
    registry.observe(peer(1, "Old Name", PeerSource::Manual, START));
    registry.observe(peer(1, "New Name", PeerSource::Broadcast, START));
    assert_eq!(registry.get(device(1)).expect("present").name, "New Name");
}

#[test]
fn silent_peers_expire() {
    let mut registry = PeerRegistry::new(30_000);
    registry.observe(peer(1, "Mac", PeerSource::Mdns, START));

    assert!(registry.expire(START + 29_000).is_empty());
    assert_eq!(registry.len(), 1);

    let dropped = registry.expire(START + 31_000);
    assert_eq!(dropped, vec![device(1)]);
    assert!(registry.is_empty());
}

#[test]
fn manual_peers_never_expire() {
    let mut registry = PeerRegistry::new(30_000);
    registry.observe(peer(1, "Office PC", PeerSource::Manual, START));

    assert!(registry.expire(START + 86_400_000).is_empty());
    assert_eq!(registry.len(), 1);
}

#[test]
fn a_re_announcement_refreshes_the_expiry() {
    let mut registry = PeerRegistry::new(30_000);
    registry.observe(peer(1, "Mac", PeerSource::Mdns, START));
    registry.observe(peer(1, "Mac", PeerSource::Mdns, START + 20_000));

    assert!(registry.expire(START + 40_000).is_empty());
}

#[test]
fn a_sighting_from_the_future_does_not_age() {
    let mut registry = PeerRegistry::new(30_000);
    registry.observe(peer(1, "Mac", PeerSource::Broadcast, START + 5_000));
    assert!(registry.expire(START).is_empty());
    assert_eq!(registry.len(), 1);
}

#[test]
fn listing_is_stable_across_calls() {
    let mut registry = PeerRegistry::default();
    for (byte, name) in [(3, "Charlie"), (1, "Alpha"), (2, "Bravo")] {
        registry.observe(peer(byte, name, PeerSource::Mdns, START));
    }
    let names: Vec<&str> = registry.sorted().iter().map(|p| p.name.as_str()).collect();
    assert_eq!(names, vec!["Alpha", "Bravo", "Charlie"]);
    assert_eq!(registry.sorted(), registry.sorted());
}

#[test]
fn equal_names_are_listed_by_identity() {
    let mut registry = PeerRegistry::default();
    registry.observe(peer(9, "Mac", PeerSource::Mdns, START));
    registry.observe(peer(4, "Mac", PeerSource::Mdns, START));
    registry.observe(peer(6, "Mac", PeerSource::Mdns, START));
    registry.observe(peer(5, "Ma", PeerSource::Mdns, START));
    let ids: Vec<DeviceId> = registry.sorted().iter().map(|p| p.device).collect();
    assert_eq!(ids, vec![device(5), device(4), device(6), device(9)]);
}

#[test]
fn removing_a_peer_works_once() {
    let mut registry = PeerRegistry::default();
    registry.observe(peer(1, "Mac", PeerSource::Mdns, START));
    assert!(registry.remove(device(1)));
    assert!(!registry.remove(device(1)));
    assert!(registry.is_empty());
    assert_eq!(DEFAULT_EXPIRY_MS, 30_000);
}

#[test]
fn round_trips() {
    let body = vec![1u8, 2, 3, 250, 0, 17];
    let datagram = frame_announcement(&body).expect("fits");
    assert_eq!(&datagram[..4], b"MBRD");
    assert_eq!(announcement_body(&datagram), Ok(body));
    assert_eq!(magic_bytes(), *b"MBRD");
}

#[test]
fn foreign_traffic_is_rejected_on_the_magic_prefix() {
    assert_eq!(
        announcement_body(b"HTTP/1.1 200 OK"),
        Err(BeaconError::NotOurs)
    );
    assert_eq!(announcement_body(b""), Err(BeaconError::NotOurs));
    assert_eq!(announcement_body(b"MBR"), Err(BeaconError::NotOurs));
}

#[test]
fn an_oversized_datagram_is_rejected_before_parsing() {
    let huge = vec![0u8; MAX_BEACON_LEN + 1];
    assert!(matches!(
        announcement_body(&huge),
        Err(BeaconError::TooLarge { .. })
    ));
    let mut ours = b"MBRD".to_vec();
    ours.resize(MAX_BEACON_LEN + 1, 7);
    assert_eq!(
        announcement_body(&ours),
        Err(BeaconError::TooLarge {
            size: MAX_BEACON_LEN + 1
        })
    );
}

#[test]
fn an_oversized_payload_is_refused_when_framing() {
    let body = vec![0u8; MAX_BEACON_LEN - 3];
    assert_eq!(
        frame_announcement(&body),
        Err(BeaconError::TooLarge {
            size: MAX_BEACON_LEN + 1
        })
    );
    let fits = vec![0u8; MAX_BEACON_LEN - 4];
    assert_eq!(frame_announcement(&fits).expect("fits").len(), MAX_BEACON_LEN);
    assert_eq!(
        BeaconError::TooLarge { size: 600 }.to_string(),
        "announcement of 600 bytes exceeds the 512 byte limit"
    );
}

#[test]
fn arbitrary_bytes_after_the_magic_never_panic() {
    for seed in 0u16..1000 {
        let mut datagram = b"MBRD".to_vec();
        datagram.extend((0..24).map(|i| (seed.wrapping_mul(37) ^ i) as u8));
        let body = announcement_body(&datagram).expect("framed");
        assert_eq!(body.len(), 24);
    }
}

#[test]
fn a_zero_port_is_rejected() {
    assert_eq!(check_announcement(0, 1, 1), Err(BeaconError::Malformed));
    assert_eq!(check_announcement(25470, 1, 1), Ok(()));
}

#[test]
fn an_inverted_version_range_is_rejected() {
    assert_eq!(check_announcement(25470, 9, 2), Err(BeaconError::Malformed));
    assert_eq!(check_announcement(25470, 2, 9), Ok(()));
}

/// Completes a parse, judging the host as the platform's parser would for
/// the literals these tests use.
fn parse(input: &str, host_is_ip: bool) -> Result<(String, u16), AddressError> {
    let shape = address_shape(input)?;
    let host = shape.host().to_owned();
    let port = complete_address(&shape, host_is_ip, DEFAULT)?;
    Ok((host, port))
}

#[test]
fn a_bare_ipv4_address_uses_the_default_port() {
    assert_eq!(
        parse("192.168.1.42", true),
        Ok(("192.168.1.42".to_owned(), DEFAULT))
    );
}

#[test]
fn an_explicit_port_wins() {
    assert_eq!(
        parse("192.168.1.42:9000", true),
        Ok(("192.168.1.42".to_owned(), 9000))
    );
}

#[test]
fn surrounding_whitespace_is_forgiven() {
    assert_eq!(
        parse("  10.0.0.1  ", true),
        Ok(("10.0.0.1".to_owned(), DEFAULT))
    );
    assert_eq!(
        address_shape("\t10.0.0.1\n"),
        Ok(AddressShape::Bare {
            host: "10.0.0.1".to_owned()
        })
    );
}

#[test]
fn a_bare_ipv6_literal_is_accepted() {
    assert_eq!(parse("fe80::1", true), Ok(("fe80::1".to_owned(), DEFAULT)));
}

#[test]
fn a_bracketed_ipv6_literal_takes_a_port() {
    assert_eq!(parse("[fe80::1]:9000", true), Ok(("fe80::1".to_owned(), 9000)));
    assert_eq!(parse("[::1]", true), Ok(("::1".to_owned(), DEFAULT)));
}

#[test]
fn errors_name_what_the_user_typed() {
    assert_eq!(address_shape("   "), Err(AddressError::Empty));
    assert_eq!(
        parse("192.168.1.42:abc", true),
        Err(AddressError::BadPort {
            found: "abc".to_owned()
        })
    );
    assert_eq!(
        parse("not-an-address", false),
        Err(AddressError::BadHost {
            found: "not-an-address".to_owned()
        })
    );
    assert_eq!(
        AddressError::Empty.to_string(),
        "enter an address, for example 192.168.1.42"
    );
    assert_eq!(
        AddressError::BadPort {
            found: "abc".to_owned()
        }
        .to_string(),
        "'abc' is not a valid port number"
    );
}

#[test]
fn port_zero_is_rejected() {
    assert!(parse("10.0.0.1:0", true).is_err());
}

#[test]
fn a_hostname_is_rejected_rather_than_resolved() {
    assert!(parse("my-pc.local", false).is_err());
}

#[test]
fn an_out_of_range_port_is_rejected() {
    assert_eq!(
        parse("10.0.0.1:70000", true),
        Err(AddressError::BadPort {
            found: "70000".to_owned()
        })
    );
}

#[test]
fn a_malformed_bracket_form_is_rejected() {
    assert_eq!(
        parse("[fe80::1", true),
        Err(AddressError::BadHost {
            found: "[fe80::1".to_owned()
        })
    );
    assert!(parse("[not-ipv6]:80", false).is_err());
    assert_eq!(
        parse("[::1]x", true),
        Err(AddressError::BadHost {
            found: "[::1]x".to_owned()
        })
    );
}

#[test]
fn the_host_is_judged_before_the_port() {
    assert_eq!(
        parse("nonsense:abc", false),
        Err(AddressError::BadHost {
            found: "nonsense".to_owned()
        })
    );
}

#[test]
fn ports_parse_as_unsigned_sixteen_bit_numbers() {
    assert_eq!(parse_port("80"), Ok(80));
    assert_eq!(parse_port("+80"), Ok(80));
    assert_eq!(parse_port("0080"), Ok(80));
    assert_eq!(parse_port("65535"), Ok(65535));
    for bad in ["", "+", "-1", "65536", "0", " 80", "8 0", "99999999999"] {
        assert_eq!(
            parse_port(bad),
            Err(AddressError::BadPort {
                found: bad.to_owned()
            }),
            "{bad:?} was accepted"
        );
    }
}

#[test]
fn shapes_split_on_the_first_bracket_and_a_single_colon() {
    assert_eq!(
        shape_of_trimmed("[a]b]"),
        Ok(AddressShape::Bracketed {
            text: "[a]b]".to_owned(),
            host: "a".to_owned(),
            tail: "b]".to_owned(),
        })
    );
    assert_eq!(
        shape_of_trimmed("h:1"),
        Ok(AddressShape::HostPort {
            host: "h".to_owned(),
            port: "1".to_owned(),
        })
    );
    assert_eq!(
        shape_of_trimmed("a:b:c"),
        Ok(AddressShape::Bare {
            host: "a:b:c".to_owned()
        })
    );
}

use mousebridge::discovery::broadcast::{broadcast_addresses, InterfaceAddress, LIMITED_BROADCAST};

fn v4(a: u8, b: u8, c: u8, d: u8) -> u32 {
    u32::from_be_bytes([a, b, c, d])
}

fn sample_interfaces() -> Vec<InterfaceAddress> {
    vec![
        InterfaceAddress {
            loopback: true,
            broadcast: Some(v4(127, 255, 255, 255)),
        },
        InterfaceAddress {
            loopback: false,
            broadcast: Some(v4(192, 168, 1, 255)),
        },
        InterfaceAddress {
            loopback: false,
            broadcast: None,
        },
        InterfaceAddress {
            loopback: false,
            broadcast: Some(v4(10, 0, 255, 255)),
        },
        InterfaceAddress {
            loopback: false,
            broadcast: Some(v4(192, 168, 1, 255)),
        },
    ]
}

#[test]
fn broadcast_targets_always_include_the_limited_address() {
    let targets = broadcast_addresses(&sample_interfaces());
    assert_eq!(targets[0], LIMITED_BROADCAST);
    assert_eq!(broadcast_addresses(&[]), vec![LIMITED_BROADCAST]);
}

#[test]
fn broadcast_targets_are_unique_and_exclude_loopback() {
    let targets = broadcast_addresses(&sample_interfaces());
    assert_eq!(
        targets,
        vec![LIMITED_BROADCAST, v4(192, 168, 1, 255), v4(10, 0, 255, 255)]
    );
    let mut seen = targets.clone();
    seen.sort();
    seen.dedup();
    assert_eq!(seen.len(), targets.len(), "duplicate broadcast target");
    assert!(!targets.contains(&v4(127, 255, 255, 255)));
}

use mousebridge::discovery::manual::{connect_address, peer_address, PeerAddress};

fn octets4(a: u8, b: u8, c: u8, d: u8) -> [u8; 16] {
    let mut ip = [0u8; 16];
    ip[0] = a;
    ip[1] = b;
    ip[2] = c;
    ip[3] = d;
    ip
}

#[test]
fn a_peer_address_carries_the_hosts_ip_and_the_typed_port() {
    let shape = address_shape(" 192.168.1.20:4000 ").unwrap();
    let ip = octets4(192, 168, 1, 20);
    assert_eq!(
        peer_address(&shape, Some((ip, false)), 25470),
        Ok(PeerAddress { ip, v6: false, port: 4000 })
    );
    let bare = address_shape("10.0.0.7").unwrap();
    assert_eq!(
        peer_address(&bare, Some((octets4(10, 0, 0, 7), false)), 25470),
        Ok(PeerAddress { ip: octets4(10, 0, 0, 7), v6: false, port: 25470 })
    );
    let mut loopback6 = [0u8; 16];
    loopback6[15] = 1;
    let bracketed = address_shape("[::1]:5000").unwrap();
    assert_eq!(
        peer_address(&bracketed, Some((loopback6, true)), 25470),
        Ok(PeerAddress { ip: loopback6, v6: true, port: 5000 })
    );
}

#[test]
fn a_host_that_is_no_ip_literal_is_refused_by_name() {
    let shape = address_shape("my-mac.local").unwrap();
    assert_eq!(
        peer_address(&shape, None, 25470),
        Err(AddressError::BadHost { found: "my-mac.local".to_owned() })
    );
}

#[test]
fn connections_go_to_the_sender_on_the_announced_port() {
    let from = PeerAddress { ip: octets4(10, 1, 2, 3), v6: false, port: 9 };
    assert_eq!(
        connect_address(from, 25470),
        PeerAddress { ip: octets4(10, 1, 2, 3), v6: false, port: 25470 }
    );
}

#[test]
fn the_first_txt_record_with_a_key_wins() {
    let props = vec![
        ("os".to_owned(), "macos".to_owned()),
        ("name".to_owned(), "Studio".to_owned()),
        ("name".to_owned(), "Impostor".to_owned()),
    ];
    assert_eq!(txt_value(&props, TXT_NAME), Some("Studio"));
    assert_eq!(txt_value(&props, TXT_OS), Some("macos"));
    assert_eq!(txt_value(&props, "vmin"), None);
    assert_eq!(txt_value(&[], TXT_NAME), None);
}

#[test]
fn unicode_white_space_around_an_address_is_trimmed() {
    assert_eq!(
        address_shape("\u{3000}\t10.0.0.1\u{A0}\n"),
        Ok(AddressShape::Bare { host: "10.0.0.1".to_owned() })
    );
    assert_eq!(address_shape("\u{2003}\u{85}"), Err(AddressError::Empty));
}

#[test]
fn trailing_bytes_after_an_announcement_are_malformed() {
    assert_eq!(check_decoded(1, 25470, 1, 1), Err(BeaconError::Malformed));
    assert_eq!(check_decoded(0, 25470, 1, 2), Ok(()));
    assert_eq!(check_decoded(0, 0, 1, 2), Err(BeaconError::Malformed));
    assert_eq!(check_decoded(0, 25470, 3, 2), Err(BeaconError::Malformed));
}
