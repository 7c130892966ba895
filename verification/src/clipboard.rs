//! Clipboard content, and breaking the clipboard synchronisation loop.
//!
//! Applying a peer's clipboard changes the local clipboard, which the local
//! watcher reports as a change, which would be sent back to the peer, and so
//! on forever. Neither a suppression flag nor a time window breaks that loop
//! reliably: platforms emit any number of notifications per write, at any
//! time. Remembering *what* was written does: a change matching what was just
//! applied is not news, however often and whenever it is reported, and a
//! genuinely new copy never matches.

use vstd::prelude::*;

use sha2::Digest;

use crate::keycode::push_hex;

verus! {

/// Largest clipboard content synchronised, in bytes. Larger content is
/// refused rather than truncated.
pub const MAX_CONTENT_LEN: usize = 16777216;

/// SHA-256 of a byte string.
pub uninterp spec fn sha256(data: Seq<u8>) -> Seq<u8>;

/// SHA-256 digest of `data`, computed by the `sha2` crate: the result is the
/// digest of exactly these bytes, and depends on nothing else.
#[verifier::external_body]
fn sha256_digest(data: &[u8]) -> (digest: [u8; 32])
    ensures
        digest@ == sha256(data@),
{
    sha2::Sha256::digest(data).into()
}

/// A digest of clipboard content, for recognising it again.
#[derive(Debug, Clone, Copy, Eq, Hash)]
pub struct ContentHash {
    bytes: [u8; 32],
}

impl View for ContentHash {
    type V = Seq<u8>;

    closed spec fn view(&self) -> Seq<u8> {
        self.bytes@
    }
}

/// Two hashes with the same bytes are the same hash.
pub proof fn lemma_hash_view_injective(a: ContentHash, b: ContentHash)
    ensures
        a@ == b@ <==> a == b,
{
    if a@ == b@ {
        assert(a.bytes =~= b.bytes);
    }
}

impl PartialEq for ContentHash {
    fn eq(&self, other: &ContentHash) -> (r: bool) {
        let mut i: usize = 0;
        while i < 32
            invariant
                i <= 32,
                forall|j: int| 0 <= j < i ==> self.bytes@[j] == other.bytes@[j],
            decreases 32 - i,
        {
            if self.bytes[i] != other.bytes[i] {
                return false;
            }
            i = i + 1;
        }
        assert(self.bytes@ =~= other.bytes@);
        true
    }
}

impl vstd::std_specs::cmp::PartialEqSpecImpl for ContentHash {
    open spec fn obeys_eq_spec() -> bool {
        true
    }

    open spec fn eq_spec(&self, other: &ContentHash) -> bool {
        self@ == other@
    }
}

impl ContentHash {
    /// The first four bytes in lowercase hex: enough to tell contents apart in
    /// diagnostics, and reveals nothing about them.
    pub fn short(&self) -> (s: String)
        ensures
            s@ == crate::keycode::hex_of(self@[0] as nat, 2) + crate::keycode::hex_of(
                self@[1] as nat,
                2,
            ) + crate::keycode::hex_of(self@[2] as nat, 2) + crate::keycode::hex_of(
                self@[3] as nat,
                2,
            ),
    {
        let mut s = String::new();
        push_hex(&mut s, self.bytes[0] as u32, 2);
        push_hex(&mut s, self.bytes[1] as u32, 2);
        push_hex(&mut s, self.bytes[2] as u32, 2);
        push_hex(&mut s, self.bytes[3] as u32, 2);
        s
    }
}

/// Why clipboard content cannot be synchronised.
#[derive(Debug, Clone, Copy, PartialEq, Eq, Structural)]
pub enum ClipboardError {
    /// The content exceeds [`MAX_CONTENT_LEN`].
    TooLarge {
        /// The offending size, in bytes.
        size: usize,
    },
    /// Text that was not valid UTF-8.
    InvalidText,
    /// Nothing to synchronise.
    Empty,
}

/// Image encodings carried on the clipboard.
#[derive(Debug, Clone, Copy, PartialEq, Eq, Structural)]
pub enum ImageFormat {
    /// PNG, the one format both platforms exchange without loss.
    Png,
}

/// Clipboard content. It deliberately has no `Debug` or `Display`: the
/// contents must never reach a log.
pub enum ClipboardContent {
    /// UTF-8 text.
    Text(String),
    /// An encoded image.
    Image {
        /// The encoding.
        format: ImageFormat,
        /// The encoded bytes.
        data: Vec<u8>,
    },
}

/// The content's bytes: the UTF-8 encoding of text, the encoded image.
pub open spec fn content_bytes(c: ClipboardContent) -> Seq<u8> {
    match c {
        ClipboardContent::Text(text) => vstd::utf8::encode_utf8(text@),
        ClipboardContent::Image { data, .. } => data@,
    }
}

/// The bytes that identify content: a kind tag, then for an image its
/// format, then the content. The tag keeps text and an image with the same
/// bytes apart.
pub open spec fn identity_bytes(c: ClipboardContent) -> Seq<u8> {
    match c {
        ClipboardContent::Text(_) => seq![0u8] + content_bytes(c),
        ClipboardContent::Image { .. } => seq![1u8, 0u8] + content_bytes(c),
    }
}

/// The content's size in bytes, as `len` reports it.
pub open spec fn content_len(c: ClipboardContent) -> usize {
    content_bytes(c).len() as usize
}

/// Whether content may be synchronised, and if not, why.
pub open spec fn validation(c: ClipboardContent) -> Result<(), ClipboardError> {
    size_validation(content_len(c))
}

/// Whether content of `size` bytes may be synchronised, and if not, why.
pub open spec fn size_validation(size: usize) -> Result<(), ClipboardError> {
    if size == 0 {
        Err(ClipboardError::Empty)
    } else if size > MAX_CONTENT_LEN {
        Err(ClipboardError::TooLarge { size })
    } else {
        Ok(())
    }
}

/// The digest that identifies content.
pub open spec fn content_hash(c: ClipboardContent) -> Seq<u8> {
    sha256(identity_bytes(c))
}

impl ClipboardContent {
    /// Wraps text, refusing empty and oversized content.
    pub fn text(value: &str) -> (r: Result<ClipboardContent, ClipboardError>)
        ensures
            r matches Ok(c) ==> c is Text && content_bytes(c) == vstd::utf8::encode_utf8(value@)
                && c->Text_0@ == value@,
            r matches Err(e) ==> Err::<(), ClipboardError>(e) == size_validation(value.len()),
            r is Ok <==> size_validation(value.len()) is Ok,
    {
        let size = value.len();
        if size == 0 {
            return Err(ClipboardError::Empty);
        }
        if size > MAX_CONTENT_LEN {
            return Err(ClipboardError::TooLarge { size });
        }
        Ok(ClipboardContent::Text(String::from_str(value)))
    }

    /// Wraps an encoded image, refusing empty and oversized content.
    pub fn image(format: ImageFormat, data: Vec<u8>) -> (r: Result<ClipboardContent, ClipboardError>)
        ensures
            r matches Ok(c) ==> c == (ClipboardContent::Image { format, data }),
            r matches Err(e) ==> Err::<(), ClipboardError>(e) == size_validation(data@.len() as usize),
            r is Ok <==> size_validation(data@.len() as usize) is Ok,
    {
        let size = data.len();
        if size == 0 {
            return Err(ClipboardError::Empty);
        }
        if size > MAX_CONTENT_LEN {
            return Err(ClipboardError::TooLarge { size });
        }
        Ok(ClipboardContent::Image { format, data })
    }

    /// Re-checks content that may not have been built through the
    /// validating constructors, such as content arriving from a peer.
    pub fn validate(&self) -> (r: Result<(), ClipboardError>)
        ensures
            r == validation(*self),
    {
        let size = self.len();
        if size == 0 {
            return Err(ClipboardError::Empty);
        }
        if size > MAX_CONTENT_LEN {
            return Err(ClipboardError::TooLarge { size });
        }
        Ok(())
    }

    /// Size in bytes: UTF-8 bytes for text, encoded bytes for an image.
    pub fn len(&self) -> (n: usize)
        ensures
            n == content_len(*self),
    {
        match self {
            ClipboardContent::Text(text) => text.as_str().len(),
            ClipboardContent::Image { data, .. } => data.len(),
        }
    }

    /// True when there is nothing in it.
    pub fn is_empty(&self) -> (r: bool)
        ensures
            r == (content_len(*self) == 0),
    {
        self.len() == 0
    }

    /// `"text"` or `"image"`: safe to log, unlike the content.
    pub fn kind(&self) -> (k: &'static str)
        ensures
            k == (if *self is Text { "text" } else { "image" }),
    {
        match self {
            ClipboardContent::Text(_) => "text",
            ClipboardContent::Image { .. } => "image",
        }
    }

    /// The text, if this is text.
    pub fn as_text(&self) -> (t: Option<&str>)
        ensures
            match *self {
                ClipboardContent::Text(text) => t matches Some(s) && s@ == text@,
                ClipboardContent::Image { .. } => t is None,
            },
    {
        match self {
            ClipboardContent::Text(text) => Some(text.as_str()),
            ClipboardContent::Image { .. } => None,
        }
    }

    /// The image format and bytes, if this is an image.
    pub fn as_image(&self) -> (i: Option<(ImageFormat, &[u8])>)
        ensures
            match *self {
                ClipboardContent::Image { format, data } => i matches Some(p) && p.0 == format
                    && p.1@ == data@,
                ClipboardContent::Text(_) => i is None,
            },
    {
        match self {
            ClipboardContent::Image { format, data } => Some((*format, data.as_slice())),
            ClipboardContent::Text(_) => None,
        }
    }

    /// A digest identifying the content: SHA-256 over a kind tag, the image
    /// format where there is one, and the bytes.
    pub fn hash(&self) -> (h: ContentHash)
        ensures
            h@ == content_hash(*self),
    {
        let mut buf: Vec<u8> = Vec::new();
        match self {
            ClipboardContent::Text(text) => {
                buf.push(0u8);
                buf.extend_from_slice(text.as_str().as_bytes());
            },
            ClipboardContent::Image { format, data } => {
                buf.push(1u8);
                match format {
                    ImageFormat::Png => buf.push(0u8),
                }
                buf.extend_from_slice(data.as_slice());
            },
        }
        assert(buf@ =~= identity_bytes(*self));
        ContentHash { bytes: sha256_digest(buf.as_slice()) }
    }

    /// Describes the content without revealing it: its kind and size.
    pub fn describe(&self) -> (s: String)
        ensures
            s@ == "ClipboardContent::"@ + (if *self is Text { "text"@ } else { "image"@ }) + "("@
                + crate::error::decimal_of(content_len(*self) as nat) + " bytes)"@,
    {
        let mut s = String::from_str("ClipboardContent::");
        s.append(self.kind());
        s.append("(");
        let n = self.len();
        crate::error::push_decimal(&mut s, n as u64);
        s.append(" bytes)");
        s
    }
}

/// What should happen to a clipboard change.
#[derive(Debug, Clone, Copy, PartialEq, Eq, Structural)]
pub enum SyncDecision {
    /// Send it to peers.
    Send,
    /// Apply it to the local clipboard.
    Apply,
    /// Do nothing: this is the echo of something already synchronised.
    Ignore,
    /// Do nothing: the content is unusable.
    Reject(ClipboardError),
}

/// Statistics, for diagnostics.
#[derive(Debug, Clone, Copy, PartialEq, Eq, Structural)]
pub struct SyncStats {
    /// Local changes forwarded to peers.
    pub sent: u64,
    /// Remote updates applied locally.
    pub applied: u64,
    /// Changes recognised as echoes and dropped. Roughly one per applied
    /// update in a healthy session; climbing without bound means the loop is
    /// not being broken.
    pub echoes_suppressed: u64,
    /// Changes rejected as unusable.
    pub rejected: u64,
}

/// The synchroniser's state: the digest last applied on a peer's behalf, the
/// digest last sent, and the counters.
pub type SyncState = (Option<Seq<u8>>, Option<Seq<u8>>, SyncStats);

/// True when the counter that a change to the local clipboard would bump is
/// below its maximum.
pub open spec fn local_change_has_room(s: SyncState, c: ClipboardContent) -> bool {
    let h = content_hash(c);
    if validation(c) is Err {
        s.2.rejected < u64::MAX
    } else if s.0 == Some(h) || s.1 == Some(h) {
        s.2.echoes_suppressed < u64::MAX
    } else {
        s.2.sent < u64::MAX
    }
}

/// True when the counter that content arriving from a peer would bump is
/// below its maximum.
pub open spec fn remote_update_has_room(s: SyncState, c: ClipboardContent) -> bool {
    let h = content_hash(c);
    if validation(c) is Err {
        s.2.rejected < u64::MAX
    } else if s.0 == Some(h) || s.1 == Some(h) {
        s.2.echoes_suppressed < u64::MAX
    } else {
        s.2.applied < u64::MAX
    }
}

/// The decision on a change to the local clipboard, and the state after it.
pub open spec fn local_change(s: SyncState, c: ClipboardContent) -> (SyncState, SyncDecision) {
    let h = content_hash(c);
    if validation(c) is Err {
        ((s.0, s.1, SyncStats { rejected: (s.2.rejected + 1) as u64, ..s.2 }), SyncDecision::Reject(
            validation(c)->Err_0,
        ))
    } else if s.0 == Some(h) || s.1 == Some(h) {
        (
            (s.0, s.1, SyncStats { echoes_suppressed: (s.2.echoes_suppressed + 1) as u64, ..s.2 }),
            SyncDecision::Ignore,
        )
    } else {
        ((s.0, Some(h), SyncStats { sent: (s.2.sent + 1) as u64, ..s.2 }), SyncDecision::Send)
    }
}

/// The decision on content arriving from a peer, and the state after it.
pub open spec fn remote_update(s: SyncState, c: ClipboardContent) -> (SyncState, SyncDecision) {
    let h = content_hash(c);
    if validation(c) is Err {
        ((s.0, s.1, SyncStats { rejected: (s.2.rejected + 1) as u64, ..s.2 }), SyncDecision::Reject(
            validation(c)->Err_0,
        ))
    } else if s.0 == Some(h) || s.1 == Some(h) {
        (
            (s.0, s.1, SyncStats { echoes_suppressed: (s.2.echoes_suppressed + 1) as u64, ..s.2 }),
            SyncDecision::Ignore,
        )
    } else {
        ((Some(h), s.1, SyncStats { applied: (s.2.applied + 1) as u64, ..s.2 }), SyncDecision::Apply)
    }
}

/// Decides what to do with clipboard changes on one machine.
#[derive(Debug)]
pub struct ClipboardSync {
    last_applied: Option<ContentHash>,
    last_sent: Option<ContentHash>,
    stats: SyncStats,
}

/// The digest a hash option stands for.
pub open spec fn hash_view(h: Option<ContentHash>) -> Option<Seq<u8>> {
    match h {
        Some(x) => Some(x@),
        None => None,
    }
}

impl View for ClipboardSync {
    type V = SyncState;

    closed spec fn view(&self) -> SyncState {
        (hash_view(self.last_applied), hash_view(self.last_sent), self.stats)
    }
}

/// True if `slot` holds `hash`.
fn holds(slot: &Option<ContentHash>, hash: &ContentHash) -> (r: bool)
    ensures
        r == (hash_view(*slot) == Some(hash@)),
{
    match slot {
        Some(x) => *x == *hash,
        None => false,
    }
}

impl ClipboardSync {
    /// Builds a synchroniser with no history.
    pub fn new() -> (s: ClipboardSync)
        ensures
            s@ == (None::<Seq<u8>>, None::<Seq<u8>>, SyncStats { sent: 0, applied: 0, echoes_suppressed: 0, rejected: 0 }),
    {
        ClipboardSync {
            last_applied: None,
            last_sent: None,
            stats: SyncStats { sent: 0, applied: 0, echoes_suppressed: 0, rejected: 0 },
        }
    }

    /// Counters for diagnostics.
    pub fn stats(&self) -> (st: SyncStats)
        ensures
            st == self@.2,
    {
        self.stats
    }

    /// Decides what to do about a change to the local clipboard.
    ///
    /// The echo of something a peer sent is not news, and content already
    /// sent is not sent again.
    pub fn on_local_change(&mut self, content: &ClipboardContent) -> (d: SyncDecision)
        requires
            local_change_has_room(old(self)@, *content),
        ensures
            (final(self)@, d) == local_change(old(self)@, *content),
    {
        if let Err(e) = content.validate() {
            self.stats.rejected = self.stats.rejected + 1;
            return SyncDecision::Reject(e);
        }
        let hash = content.hash();
        if holds(&self.last_applied, &hash) || holds(&self.last_sent, &hash) {
            self.stats.echoes_suppressed = self.stats.echoes_suppressed + 1;
            return SyncDecision::Ignore;
        }
        self.last_sent = Some(hash);
        self.stats.sent = self.stats.sent + 1;
        SyncDecision::Send
    }

    /// Decides what to do about content arriving from a peer.
    ///
    /// Recording the digest here, before the content is written to the
    /// clipboard, is what breaks the loop: by the time the local watcher fires
    /// as a consequence of the write, the synchroniser knows what to expect.
    pub fn on_remote_update(&mut self, content: &ClipboardContent) -> (d: SyncDecision)
        requires
            remote_update_has_room(old(self)@, *content),
        ensures
            (final(self)@, d) == remote_update(old(self)@, *content),
    {
        if let Err(e) = content.validate() {
            self.stats.rejected = self.stats.rejected + 1;
            return SyncDecision::Reject(e);
        }
        let hash = content.hash();
        if holds(&self.last_applied, &hash) || holds(&self.last_sent, &hash) {
            self.stats.echoes_suppressed = self.stats.echoes_suppressed + 1;
            return SyncDecision::Ignore;
        }
        self.last_applied = Some(hash);
        self.stats.applied = self.stats.applied + 1;
        SyncDecision::Apply
    }

    /// Forgets the history, keeping the counters. Called when a peer
    /// disconnects: with nobody to echo to, the history would only suppress
    /// the user's next copy of the same content.
    pub fn reset(&mut self)
        ensures
            final(self)@ == (None::<Seq<u8>>, None::<Seq<u8>>, old(self)@.2),
    {
        self.last_applied = None;
        self.last_sent = None;
    }
}

/// The watcher firing after a peer's content was applied is recognised as an
/// echo, however many times it fires: applied content is never sent back.
pub proof fn law_applied_content_is_never_echoed(s: SyncState, c: ClipboardContent)
    requires
        remote_update(s, c).1 == SyncDecision::Apply,
    ensures
        local_change(remote_update(s, c).0, c).1 == SyncDecision::Ignore,
        local_change(local_change(remote_update(s, c).0, c).0, c).1 == SyncDecision::Ignore,
{
}

/// A copy crosses once and stops: when content sent from one machine is
/// applied on another, the receiver's watcher does not send it back, so the
/// exchange settles after a single message.
pub proof fn law_a_copy_crosses_once(a: SyncState, b: SyncState, c: ClipboardContent)
    requires
        local_change(a, c).1 == SyncDecision::Send,
    ensures
        remote_update(b, c).1 == SyncDecision::Apply ==> local_change(remote_update(b, c).0, c).1
            == SyncDecision::Ignore,
        remote_update(b, c).1 != SyncDecision::Apply ==> remote_update(b, c).1
            == SyncDecision::Ignore,
{
}

/// Content once sent is neither sent again nor applied back when a peer
/// echoes it.
pub proof fn law_sent_content_is_not_repeated(s: SyncState, c: ClipboardContent)
    requires
        local_change(s, c).1 == SyncDecision::Send,
    ensures
        local_change(local_change(s, c).0, c).1 == SyncDecision::Ignore,
        remote_update(local_change(s, c).0, c).1 == SyncDecision::Ignore,
{
}

/// An ignored change stays ignored: repeated notifications for one write are
/// all suppressed.
pub proof fn law_suppression_is_stable(s: SyncState, c: ClipboardContent)
    requires
        local_change(s, c).1 == SyncDecision::Ignore,
    ensures
        local_change(local_change(s, c).0, c).1 == SyncDecision::Ignore,
{
}

/// Unusable content is rejected on both paths and never forwarded or applied.
pub proof fn law_unusable_content_is_rejected(s: SyncState, c: ClipboardContent)
    requires
        validation(c) is Err,
    ensures
        local_change(s, c).1 == SyncDecision::Reject(validation(c)->Err_0),
        remote_update(s, c).1 == SyncDecision::Reject(validation(c)->Err_0),
        local_change(s, c).0.0 == s.0 && local_change(s, c).0.1 == s.1,
{
}

/// After a reset, usable content is always sent.
pub proof fn law_reset_forgets_history(stats: SyncStats, c: ClipboardContent)
    requires
        validation(c) is Ok,
    ensures
        local_change((None, None, stats), c).1 == SyncDecision::Send,
{
}

} // verus!
