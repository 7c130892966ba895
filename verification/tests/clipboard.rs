use mousebridge::clipboard::{
    ClipboardContent, ClipboardError, ClipboardSync, ImageFormat, SyncDecision, MAX_CONTENT_LEN,
};

fn text(value: &str) -> ClipboardContent {
    ClipboardContent::text(value).ok().expect("valid")
}

struct Pair {
    a: ClipboardSync,
    b: ClipboardSync,
}

impl Pair {
    fn new() -> Self {
        Self {
            a: ClipboardSync::new(),
            b: ClipboardSync::new(),
        }
    }

    fn copy_on_a(&mut self, content: &ClipboardContent) -> usize {
        let mut messages = 0;
        let mut from_a = true;
        let mut pending = true;
        for _ in 0..100 {
            if !pending {
                return messages;
            }
            pending = false;
            let decision = if from_a {
                self.a.on_local_change(content)
            } else {
                self.b.on_local_change(content)
            };
            if decision != SyncDecision::Send {
                return messages;
            }
            messages += 1;
            let applied = if from_a {
                self.b.on_remote_update(content)
            } else {
                self.a.on_remote_update(content)
            };
            if applied == SyncDecision::Apply {
                pending = true;
                from_a = !from_a;
            }
        }
        panic!("clipboard synchronisation did not settle: {messages} messages and counting");
    }
}

#[test]
fn text_round_trips() {
    let content = text("hello");
    assert_eq!(content.as_text(), Some("hello"));
    assert_eq!(content.len(), 5);
    assert_eq!(content.kind(), "text");
}

#[test]
fn unicode_survives() {
    for value in ["日本語のテキスト", "emoji 🎉 and combining é", "Ünïcödé"] {
        let content = text(value);
        assert_eq!(content.as_text(), Some(value));
        assert_eq!(content.len(), value.len());
    }
}

#[test]
fn images_round_trip() {
    let content = ClipboardContent::image(ImageFormat::Png, vec![0x89, 0x50, 0x4E, 0x47])
        .ok()
        .expect("valid");
    assert_eq!(content.as_image().map(|(f, _)| f), Some(ImageFormat::Png));
    assert_eq!(content.as_image().map(|(_, d)| d.len()), Some(4));
    assert!(content.as_text().is_none());
    assert_eq!(content.kind(), "image");
}

#[test]
fn empty_content_is_refused() {
    assert!(matches!(ClipboardContent::text(""), Err(ClipboardError::Empty)));
    assert!(matches!(
        ClipboardContent::image(ImageFormat::Png, vec![]),
        Err(ClipboardError::Empty)
    ));
}

#[test]
fn oversized_content_is_refused_rather_than_truncated() {
    let huge = "a".repeat(MAX_CONTENT_LEN + 1);
    assert!(matches!(
        ClipboardContent::text(&huge),
        Err(ClipboardError::TooLarge { size }) if size == MAX_CONTENT_LEN + 1
    ));
}

#[test]
fn content_at_the_limit_is_accepted() {
    let exact = "a".repeat(MAX_CONTENT_LEN);
    assert!(ClipboardContent::text(&exact).is_ok());
}

#[test]
fn remote_content_is_re_validated() {
    let content = ClipboardContent::Text(String::new());
    assert_eq!(content.validate(), Err(ClipboardError::Empty));

    let content = ClipboardContent::Text("a".repeat(MAX_CONTENT_LEN + 1));
    assert!(matches!(content.validate(), Err(ClipboardError::TooLarge { .. })));
}

#[test]
fn contents_never_appear_in_debug_or_display() {
    let content = text("correct horse battery staple");
    let described = content.describe();
    assert_eq!(described, "ClipboardContent::text(28 bytes)");
    assert!(!described.contains("horse"));
}

#[test]
fn identical_content_hashes_identically() {
    assert_eq!(text("same").hash(), text("same").hash());
}

#[test]
fn different_content_hashes_differently() {
    assert_ne!(text("one").hash(), text("two").hash());
}

#[test]
fn text_and_an_image_with_the_same_bytes_do_not_collide() {
    let t = text("PNG");
    let i = ClipboardContent::image(ImageFormat::Png, b"PNG".to_vec())
        .ok()
        .expect("valid");
    assert_ne!(t.hash(), i.hash());
}

#[test]
fn a_hash_summary_reveals_nothing() {
    let summary = text("secret").hash().short();
    assert_eq!(summary.len(), 8);
    assert!(summary.chars().all(|c| c.is_ascii_hexdigit()));
    assert!(!summary.contains("secret"));
}

#[test]
fn the_hash_is_sha256_of_the_tagged_bytes() {
    // SHA-256 of [0x00] followed by "abc"; the untagged digest starts ba7816bf.
    assert_eq!(text("abc").hash().short(), "609f6e36");
}

#[test]
fn a_copy_crosses_once_and_stops() {
    let mut pair = Pair::new();
    let messages = pair.copy_on_a(&text("hello"));
    assert_eq!(messages, 1, "the content crossed {messages} times");
}

#[test]
fn several_copies_each_cross_once() {
    let mut pair = Pair::new();
    for value in ["first", "second", "third"] {
        assert_eq!(pair.copy_on_a(&text(value)), 1, "on {value}");
    }
    assert_eq!(pair.a.stats().sent, 3);
    assert_eq!(pair.b.stats().applied, 3);
}

#[test]
fn copying_in_both_directions_settles() {
    let mut pair = Pair::new();
    assert_eq!(pair.copy_on_a(&text("from a")), 1);
    let content = text("from b");
    assert_eq!(pair.b.on_local_change(&content), SyncDecision::Send);
    assert_eq!(pair.a.on_remote_update(&content), SyncDecision::Apply);
    assert_eq!(pair.a.on_local_change(&content), SyncDecision::Ignore);
}

#[test]
fn the_echo_of_an_applied_update_is_suppressed() {
    let mut sync = ClipboardSync::new();
    let content = text("from the peer");
    assert_eq!(sync.on_remote_update(&content), SyncDecision::Apply);
    assert_eq!(sync.on_local_change(&content), SyncDecision::Ignore);
    assert_eq!(sync.stats().echoes_suppressed, 1);
}

#[test]
fn repeated_notifications_for_one_write_are_all_suppressed() {
    let mut sync = ClipboardSync::new();
    let content = text("written once");
    sync.on_remote_update(&content);
    for _ in 0..10 {
        assert_eq!(sync.on_local_change(&content), SyncDecision::Ignore);
    }
    assert_eq!(sync.stats().sent, 0, "an echo escaped");
}

#[test]
fn a_genuine_new_copy_is_never_swallowed() {
    let mut sync = ClipboardSync::new();
    sync.on_remote_update(&text("from the peer"));
    sync.on_local_change(&text("from the peer"));
    assert_eq!(
        sync.on_local_change(&text("something the user copied")),
        SyncDecision::Send
    );
}

#[test]
fn the_same_content_is_not_sent_twice() {
    let mut sync = ClipboardSync::new();
    let content = text("unchanged");
    assert_eq!(sync.on_local_change(&content), SyncDecision::Send);
    assert_eq!(sync.on_local_change(&content), SyncDecision::Ignore);
    assert_eq!(sync.stats().sent, 1);
}

#[test]
fn a_peer_echoing_our_own_content_back_is_ignored() {
    let mut sync = ClipboardSync::new();
    let content = text("ours");
    assert_eq!(sync.on_local_change(&content), SyncDecision::Send);
    assert_eq!(sync.on_remote_update(&content), SyncDecision::Ignore);
}

#[test]
fn images_and_text_are_tracked_independently() {
    let mut sync = ClipboardSync::new();
    let text_content = text("PNG");
    let image = ClipboardContent::image(ImageFormat::Png, b"PNG".to_vec())
        .ok()
        .expect("valid");
    assert_eq!(sync.on_local_change(&text_content), SyncDecision::Send);
    assert_eq!(
        sync.on_local_change(&image),
        SyncDecision::Send,
        "an image was mistaken for text with the same bytes"
    );
}

#[test]
fn unusable_content_is_rejected_not_forwarded() {
    let mut sync = ClipboardSync::new();
    let empty = ClipboardContent::Text(String::new());
    assert!(matches!(
        sync.on_local_change(&empty),
        SyncDecision::Reject(ClipboardError::Empty)
    ));
    assert!(matches!(
        sync.on_remote_update(&empty),
        SyncDecision::Reject(ClipboardError::Empty)
    ));
    assert_eq!(sync.stats().rejected, 2);
    assert_eq!(sync.stats().sent, 0);
}

#[test]
fn resetting_lets_the_same_content_be_copied_again() {
    let mut sync = ClipboardSync::new();
    let content = text("same again");
    assert_eq!(sync.on_local_change(&content), SyncDecision::Send);
    assert_eq!(sync.on_local_change(&content), SyncDecision::Ignore);
    sync.reset();
    assert_eq!(sync.on_local_change(&content), SyncDecision::Send);
}

#[test]
fn a_three_way_exchange_settles() {
    let mut machines = [ClipboardSync::new(), ClipboardSync::new(), ClipboardSync::new()];
    let content = text("broadcast");
    assert_eq!(machines[0].on_local_change(&content), SyncDecision::Send);
    for machine in &mut machines[1..] {
        assert_eq!(machine.on_remote_update(&content), SyncDecision::Apply);
        assert_eq!(machine.on_local_change(&content), SyncDecision::Ignore);
    }
    assert_eq!(machines[0].on_remote_update(&content), SyncDecision::Ignore);
}
