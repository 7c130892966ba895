//! Framing of the UDP announcement broadcast on networks where multicast
//! does not survive.
//!
//! An announcement is the four-byte magic prefix followed by the serialised
//! payload. Broadcast ports attract unrelated traffic, so the prefix and the
//! size cap are checked before any payload reaches a deserialiser; the payload
//! itself is encoded and decoded by the caller.

use vstd::prelude::*;
use crate::error::{decimal_of, push_decimal};

verus! {

/// Port announcements are sent to and listened for, distinct from the
/// transport port so a stray beacon never reaches the transport parser.
pub const BEACON_PORT: u16 = 25471;

/// Largest announcement accepted, in bytes.
pub const MAX_BEACON_LEN: usize = 512;

/// Length of the magic prefix.
pub const MAGIC_LEN: usize = 4;

/// The magic prefix, `MBRD`.
pub open spec fn magic() -> Seq<u8> {
    seq![0x4Du8, 0x42u8, 0x52u8, 0x44u8]
}

/// The magic prefix, `MBRD`.
pub fn magic_bytes() -> (m: [u8; 4])
    ensures
        m@ == magic(),
{
    let m: [u8; 4] = [0x4D, 0x42, 0x52, 0x44];
    assert(m@ =~= magic());
    m
}

/// Errors from framing or unframing an announcement.
#[derive(Debug, Clone, Copy, PartialEq, Eq, Structural)]
pub enum BeaconError {
    /// The datagram did not begin with the magic prefix: expected and common
    /// on a shared broadcast port.
    NotOurs,
    /// The datagram exceeded [`MAX_BEACON_LEN`].
    TooLarge {
        /// Size received or produced.
        size: usize,
    },
    /// The payload did not make sense.
    Malformed,
}

/// The message a beacon error displays.
pub open spec fn beacon_message(e: BeaconError) -> Seq<char> {
    match e {
        BeaconError::NotOurs => "not a MouseBridge announcement"@,
        BeaconError::TooLarge { size } => "announcement of "@ + decimal_of(size as nat)
            + " bytes exceeds the 512 byte limit"@,
        BeaconError::Malformed => "malformed announcement"@,
    }
}

impl BeaconError {
    /// The message shown for this error.
    pub fn to_string(&self) -> (s: String)
        ensures
            s@ == beacon_message(*self),
    {
        match self {
            BeaconError::NotOurs => String::from_str("not a MouseBridge announcement"),
            BeaconError::TooLarge { size } => {
                let mut s = String::from_str("announcement of ");
                push_decimal(&mut s, *size as u64);
                s.append(" bytes exceeds the 512 byte limit");
                s
            },
            BeaconError::Malformed => String::from_str("malformed announcement"),
        }
    }
}

/// The datagram carrying `body`, or why there is none.
pub open spec fn framed(body: Seq<u8>) -> Result<Seq<u8>, BeaconError> {
    if MAGIC_LEN + body.len() > MAX_BEACON_LEN {
        Err(BeaconError::TooLarge { size: (MAGIC_LEN + body.len()) as usize })
    } else {
        Ok(magic() + body)
    }
}

/// The payload a datagram carries, or why it is refused: the size cap is
/// checked first, then the prefix.
pub open spec fn unframed(datagram: Seq<u8>) -> Result<Seq<u8>, BeaconError> {
    if datagram.len() > MAX_BEACON_LEN {
        Err(BeaconError::TooLarge { size: datagram.len() as usize })
    } else if datagram.len() < MAGIC_LEN || datagram.subrange(0, MAGIC_LEN as int) != magic() {
        Err(BeaconError::NotOurs)
    } else {
        Ok(datagram.subrange(MAGIC_LEN as int, datagram.len() as int))
    }
}

/// Prefixes a serialised announcement with the magic bytes, refusing one
/// that would exceed the size cap.
pub fn frame_announcement(body: &[u8]) -> (r: Result<Vec<u8>, BeaconError>)
    requires
        MAGIC_LEN + body@.len() <= usize::MAX,
    ensures
        match framed(body@) {
            Ok(d) => r matches Ok(v) && v@ == d,
            Err(e) => r == Err::<Vec<u8>, BeaconError>(e),
        },
{
    if body.len() > MAX_BEACON_LEN - MAGIC_LEN {
        return Err(BeaconError::TooLarge { size: MAGIC_LEN + body.len() });
    }
    let m = magic_bytes();
    let mut out: Vec<u8> = Vec::with_capacity(MAGIC_LEN + body.len());
    let mut i: usize = 0;
    while i < MAGIC_LEN
        invariant
            i <= MAGIC_LEN,
            m@ == magic(),
            out@ == magic().take(i as int),
        decreases MAGIC_LEN - i,
    {
        out.push(m[i]);
        assert(magic().take(i as int + 1) =~= magic().take(i as int).push(m@[i as int]));
        i = i + 1;
    }
    assert(magic().take(4) =~= magic());
    let mut j: usize = 0;
    while j < body.len()
        invariant
            j <= body@.len(),
            out@ == magic() + body@.take(j as int),
        decreases body@.len() - j,
    {
        out.push(body[j]);
        assert(magic() + body@.take(j as int + 1) =~= (magic() + body@.take(j as int)).push(
            body@[j as int],
        ));
        j = j + 1;
    }
    assert(body@.take(body@.len() as int) =~= body@);
    Ok(out)
}

/// The serialised announcement inside a received datagram. Everything here
/// is untrusted and unauthenticated.
pub fn announcement_body(datagram: &[u8]) -> (r: Result<Vec<u8>, BeaconError>)
    ensures
        match unframed(datagram@) {
            Ok(b) => r matches Ok(v) && v@ == b,
            Err(e) => r == Err::<Vec<u8>, BeaconError>(e),
        },
{
    if datagram.len() > MAX_BEACON_LEN {
        return Err(BeaconError::TooLarge { size: datagram.len() });
    }
    if datagram.len() < MAGIC_LEN {
        return Err(BeaconError::NotOurs);
    }
    let m = magic_bytes();
    let mut i: usize = 0;
    while i < MAGIC_LEN
        invariant
            i <= MAGIC_LEN,
            MAGIC_LEN <= datagram@.len() <= MAX_BEACON_LEN,
            m@ == magic(),
            forall|k: int| 0 <= k < i ==> datagram@[k] == magic()[k],
        decreases MAGIC_LEN - i,
    {
        if datagram[i] != m[i] {
            assert(datagram@.subrange(0, MAGIC_LEN as int)[i as int] != magic()[i as int]);
            assert(datagram@.subrange(0, MAGIC_LEN as int) != magic());
            return Err(BeaconError::NotOurs);
        }
        i = i + 1;
    }
    assert(datagram@.subrange(0, MAGIC_LEN as int) =~= magic());
    let mut out: Vec<u8> = Vec::new();
    let mut j: usize = MAGIC_LEN;
    while j < datagram.len()
        invariant
            MAGIC_LEN <= j <= datagram@.len(),
            out@ == datagram@.subrange(MAGIC_LEN as int, j as int),
        decreases datagram@.len() - j,
    {
        out.push(datagram[j]);
        assert(datagram@.subrange(MAGIC_LEN as int, j as int + 1) =~= datagram@.subrange(
            MAGIC_LEN as int,
            j as int,
        ).push(datagram@[j as int]));
        j = j + 1;
    }
    Ok(out)
}

/// Rejects announcement values that are structurally valid but impossible:
/// port 0, which means "let the OS choose", and an inverted version range.
pub fn check_announcement(port: u16, min_version: u32, max_version: u32) -> (r: Result<
    (),
    BeaconError,
>)
    ensures
        r is Ok <==> (port != 0 && min_version <= max_version),
        r is Err ==> r == Err::<(), BeaconError>(BeaconError::Malformed),
{
    if port == 0 {
        return Err(BeaconError::Malformed);
    }
    if min_version > max_version {
        return Err(BeaconError::Malformed);
    }
    Ok(())
}

/// Judges a decoded announcement: bytes left over after the decoded value
/// (`trailing` of them) make the datagram malformed, as does an impossible
/// value; otherwise it is accepted.
pub fn check_decoded(trailing: usize, port: u16, min_version: u32, max_version: u32) -> (r: Result<
    (),
    BeaconError,
>)
    ensures
        r is Ok <==> (trailing == 0 && port != 0 && min_version <= max_version),
        r is Err ==> r == Err::<(), BeaconError>(BeaconError::Malformed),
{
    if trailing != 0 {
        return Err(BeaconError::Malformed);
    }
    check_announcement(port, min_version, max_version)
}

/// A framed announcement unframes to the payload it was built from.
pub proof fn law_framing_round_trips(body: Seq<u8>)
    requires
        MAGIC_LEN + body.len() <= MAX_BEACON_LEN,
    ensures
        framed(body) is Ok,
        unframed(framed(body)->Ok_0) == Ok::<Seq<u8>, BeaconError>(body),
{
    let d = magic() + body;
    assert(d.subrange(0, MAGIC_LEN as int) =~= magic());
    assert(d.subrange(MAGIC_LEN as int, d.len() as int) =~= body);
}

/// Anything not starting with the magic prefix is refused as foreign before
/// its content is looked at, whatever follows.
pub proof fn law_foreign_traffic_is_refused(datagram: Seq<u8>)
    requires
        datagram.len() <= MAX_BEACON_LEN,
        datagram.len() < MAGIC_LEN || datagram.subrange(0, MAGIC_LEN as int) != magic(),
    ensures
        unframed(datagram) == Err::<Seq<u8>, BeaconError>(BeaconError::NotOurs),
{
}

} // verus!
