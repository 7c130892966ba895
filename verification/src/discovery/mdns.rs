//! The mDNS-SD service advertised and browsed for, and the tokens its TXT
//! records carry.

use vstd::prelude::*;
use crate::device::OsKind;
use crate::keycode::str_eq;

verus! {

/// Service type advertised and browsed for.
///
/// `_udp` because the transport is QUIC; versioned like the ALPN identifier so
/// that a future incompatible transport can coexist.
pub const SERVICE_TYPE: &'static str = "_mousebridge._udp.local.";

/// The TXT token naming an operating system family.
pub open spec fn os_token_text(os: OsKind) -> Seq<char> {
    match os {
        OsKind::MacOs => "macos"@,
        OsKind::Windows => "windows"@,
        OsKind::Unknown => "unknown"@,
    }
}

/// The family a TXT token names; anything unrecognised is `Unknown`.
pub open spec fn os_of_token(token: Seq<char>) -> OsKind {
    if token == "macos"@ {
        OsKind::MacOs
    } else if token == "windows"@ {
        OsKind::Windows
    } else {
        OsKind::Unknown
    }
}

/// The TXT token for an operating system family.
pub fn os_token(os: OsKind) -> (t: &'static str)
    ensures
        t@ == os_token_text(os),
{
    match os {
        OsKind::MacOs => "macos",
        OsKind::Windows => "windows",
        OsKind::Unknown => "unknown",
    }
}

/// The operating system family a TXT token names.
///
/// A token this build does not know degrades to `Unknown` rather than
/// failing, so a peer running a newer build still appears in the list.
pub fn os_from_token(token: &str) -> (os: OsKind)
    ensures
        os == os_of_token(token@),
{
    if str_eq(token, "macos") {
        OsKind::MacOs
    } else if str_eq(token, "windows") {
        OsKind::Windows
    } else {
        OsKind::Unknown
    }
}

/// Reading back the token written for a family gives that family.
pub proof fn law_os_tokens_round_trip(os: OsKind)
    ensures
        os_of_token(os_token_text(os)) == os,
{
    reveal_strlit("macos");
    reveal_strlit("windows");
    reveal_strlit("unknown");
    assert("windows"@ != "macos"@) by {
        assert("windows"@[0] != "macos"@[0]);
    }
    assert("unknown"@ != "macos"@) by {
        assert("unknown"@[0] != "macos"@[0]);
    }
    assert("unknown"@ != "windows"@) by {
        assert("unknown"@[0] != "windows"@[0]);
    }
}

/// Errors from the mDNS responder.
#[derive(Debug, Clone, PartialEq, Eq)]
pub enum MdnsError {
    /// The mDNS daemon could not be started, usually because multicast is
    /// unavailable on every interface; the other mechanisms still work.
    Unavailable {
        /// Underlying cause.
        detail: String,
    },
    /// The service could not be registered.
    Register {
        /// Underlying cause.
        detail: String,
    },
    /// Browsing could not be started.
    Browse {
        /// Underlying cause.
        detail: String,
    },
}

/// The message an mDNS error displays.
pub open spec fn mdns_message(e: MdnsError) -> Seq<char> {
    match e {
        MdnsError::Unavailable { detail } => "mDNS is unavailable on this network: "@ + detail@,
        MdnsError::Register { detail } => "could not advertise over mDNS: "@ + detail@,
        MdnsError::Browse { detail } => "could not browse for peers over mDNS: "@ + detail@,
    }
}

impl MdnsError {
    /// The message shown for this error.
    pub fn to_string(&self) -> (s: String)
        ensures
            s@ == mdns_message(*self),
    {
        let (mut s, detail) = match self {
            MdnsError::Unavailable { detail } => (
                String::from_str("mDNS is unavailable on this network: "),
                detail,
            ),
            MdnsError::Register { detail } => (
                String::from_str("could not advertise over mDNS: "),
                detail,
            ),
            MdnsError::Browse { detail } => (
                String::from_str("could not browse for peers over mDNS: "),
                detail,
            ),
        };
        s.append(detail.as_str());
        s
    }
}


/// TXT record key: the device identity fingerprint, hex-encoded.
pub const TXT_DEVICE: &'static str = "id";

/// TXT record key: the display name.
pub const TXT_NAME: &'static str = "name";

/// TXT record key: the operating system family.
pub const TXT_OS: &'static str = "os";

/// TXT record key: the lowest accepted protocol version.
pub const TXT_VERSION_MIN: &'static str = "vmin";

/// TXT record key: the highest accepted protocol version.
pub const TXT_VERSION_MAX: &'static str = "vmax";

/// `i` is the position of the first property whose key is `key`.
pub open spec fn first_with_key(properties: Seq<(String, String)>, key: Seq<char>, i: int) -> bool {
    &&& 0 <= i < properties.len()
    &&& properties[i].0@ == key
    &&& forall|j: int| 0 <= j < i ==> (#[trigger] properties[j]).0@ != key
}

/// The value of the first TXT property whose key is `key`, if any. TXT
/// records are unauthenticated and anyone may publish them, so a missing key
/// is an ordinary answer, not an error.
pub fn txt_value<'a>(properties: &'a [(String, String)], key: &str) -> (r: Option<&'a str>)
    ensures
        match r {
            Some(v) => exists|i: int|
                first_with_key(properties@, key@, i) && v@ == (#[trigger] properties@[i]).1@,
            None => forall|j: int|
                0 <= j < properties@.len() ==> (#[trigger] properties@[j]).0@ != key@,
        },
{
    let mut i: usize = 0;
    while i < properties.len()
        invariant
            i <= properties@.len(),
            forall|j: int| 0 <= j < i ==> (#[trigger] properties@[j]).0@ != key@,
        decreases properties@.len() - i,
    {
        if str_eq(properties[i].0.as_str(), key) {
            assert(first_with_key(properties@, key@, i as int));
            return Some(properties[i].1.as_str());
        }
        i = i + 1;
    }
    None
}

} // verus!
