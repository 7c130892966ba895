//! Deciding where captured input goes, and applying what arrives.
//!
//! The capture-side sink runs on the operating system's input thread and
//! must never block, so what it decides is split out here: whether an event
//! passes through locally, and how a queueing outcome is counted. Motion that
//! does not fit in the queue is dropped, because the next position supersedes
//! it; a key or button transition that does not fit is counted as lost, so the
//! session can be torn down and both sides release rather than one being left
//! holding a key.

use vstd::prelude::*;

use crate::event::{droppable, InputEvent, ScrollDelta};
use crate::keycode::KeyCode;
use crate::modifiers::MouseButton;
use crate::state::{clean_state, release_sequence, step, ApplyOutcome, HeldState, InputStateTracker};

verus! {

/// What a capture backend should do with the event it reported.
#[derive(Debug, Clone, Copy, PartialEq, Eq, Structural)]
pub enum Disposition {
    /// Let the operating system deliver it locally.
    PassThrough,
    /// Swallow it: it is going to another machine.
    Suppress,
}

/// Where captured input currently goes.
#[derive(Debug, Clone, Copy, PartialEq, Eq, Structural)]
pub enum Destination {
    /// This machine.
    Local,
    /// The active peer.
    Remote,
}

/// Counters the forwarding side watches.
#[derive(Debug, Clone, Copy, PartialEq, Eq, Structural)]
pub struct RouterStats {
    /// Motion events dropped because the queue was full.
    pub dropped_motion: u64,
    /// Events queued for the peer.
    pub forwarded: u64,
    /// Key or button transitions that could not be queued.
    pub lost_transitions: u64,
}

/// What happened when an event was offered to the forwarding queue.
#[derive(Debug, Clone, Copy, PartialEq, Eq, Structural)]
pub enum QueueOutcome {
    /// The event was queued.
    Queued,
    /// The queue was full.
    Full,
    /// The forwarding task is gone.
    Closed,
}

/// The disposition of a captured event. Remote input is suppressed even when
/// the queue is gone: passing it through would type into whatever happens to
/// be focused on this machine, which the user is not looking at.
pub fn disposition_for(destination: Destination) -> (d: Disposition)
    ensures
        d == (if destination == Destination::Local {
            Disposition::PassThrough
        } else {
            Disposition::Suppress
        }),
{
    match destination {
        Destination::Local => Disposition::PassThrough,
        Destination::Remote => Disposition::Suppress,
    }
}

/// The counters after offering `event` to the queue with `outcome`; each
/// counter wraps at its maximum, like the atomic counter it mirrors.
pub open spec fn counted(stats: RouterStats, outcome: QueueOutcome, event: InputEvent) -> RouterStats {
    match outcome {
        QueueOutcome::Queued => RouterStats {
            forwarded: if stats.forwarded == u64::MAX { 0 } else { (stats.forwarded + 1) as u64 },
            ..stats
        },
        QueueOutcome::Full => if droppable(event) {
            RouterStats {
                dropped_motion: if stats.dropped_motion == u64::MAX {
                    0
                } else {
                    (stats.dropped_motion + 1) as u64
                },
                ..stats
            }
        } else {
            RouterStats {
                lost_transitions: if stats.lost_transitions == u64::MAX {
                    0
                } else {
                    (stats.lost_transitions + 1) as u64
                },
                ..stats
            }
        },
        QueueOutcome::Closed => stats,
    }
}

/// Counts the outcome of offering `event` to the forwarding queue.
pub fn count_outcome(stats: RouterStats, outcome: QueueOutcome, event: &InputEvent) -> (r: RouterStats)
    ensures
        r == counted(stats, outcome, *event),
{
    match outcome {
        QueueOutcome::Queued => RouterStats { forwarded: stats.forwarded.wrapping_add(1), ..stats },
        QueueOutcome::Full => {
            if event.is_droppable() {
                RouterStats { dropped_motion: stats.dropped_motion.wrapping_add(1), ..stats }
            } else {
                RouterStats { lost_transitions: stats.lost_transitions.wrapping_add(1), ..stats }
            }
        },
        QueueOutcome::Closed => stats,
    }
}

/// Whether a captured event is offered to the forwarding queue: only while
/// input goes to a peer. Local input never touches the queue.
pub fn offers_to_queue(destination: Destination) -> (r: bool)
    ensures
        r == (destination == Destination::Remote),
{
    match destination {
        Destination::Local => false,
        Destination::Remote => true,
    }
}

/// The counters and disposition after routing one captured event, given
/// where input goes and, when it was offered to the queue, what the queue
/// did with it.
pub open spec fn routed(
    destination: Destination,
    stats: RouterStats,
    event: InputEvent,
    offered: Option<QueueOutcome>,
) -> (RouterStats, Disposition) {
    match destination {
        Destination::Local => (stats, Disposition::PassThrough),
        Destination::Remote => match offered {
            Some(outcome) => (counted(stats, outcome, event), Disposition::Suppress),
            None => (stats, Disposition::Suppress),
        },
    }
}

/// Routes one captured event: local input passes through and is neither
/// queued nor counted; remote input is suppressed, and what the queue did
/// with it is counted.
pub fn route_event(
    destination: Destination,
    stats: RouterStats,
    event: &InputEvent,
    offered: Option<QueueOutcome>,
) -> (r: (RouterStats, Disposition))
    ensures
        r == routed(destination, stats, *event, offered),
{
    match destination {
        Destination::Local => (stats, disposition_for(destination)),
        Destination::Remote => match offered {
            Some(outcome) => (count_outcome(stats, outcome, event), disposition_for(destination)),
            None => (stats, disposition_for(destination)),
        },
    }
}

/// Input kept on this machine is passed through and leaves every forwarding
/// counter as it was, whatever is reported of the queue.
pub proof fn law_local_input_touches_nothing(
    stats: RouterStats,
    event: InputEvent,
    offered: Option<QueueOutcome>,
)
    ensures
        routed(Destination::Local, stats, event, offered) == (stats, Disposition::PassThrough),
{
}

/// A transition is never silently dropped: a full queue either drops motion
/// or counts a lost transition, and a transition is never counted as motion.
pub proof fn law_full_queue_never_hides_a_transition(stats: RouterStats, event: InputEvent)
    requires
        !droppable(event),
        stats.lost_transitions < u64::MAX,
    ensures
        counted(stats, QueueOutcome::Full, event).lost_transitions == stats.lost_transitions + 1,
        counted(stats, QueueOutcome::Full, event).dropped_motion == stats.dropped_motion,
{
}

/// An input message on the reliable stream: every transition that must not
/// be lost.
#[derive(Debug, Clone, Copy, PartialEq, Eq, Structural)]
pub enum InputMessage {
    /// A mouse button changed state.
    Button {
        /// Which button.
        button: MouseButton,
        /// True for press.
        pressed: bool,
    },
    /// The wheel scrolled.
    Wheel {
        /// Movement in lines.
        delta: ScrollDelta,
    },
    /// A key changed state.
    Key {
        /// The physical key.
        key: KeyCode,
        /// True for press.
        pressed: bool,
        /// True for an auto-repeat.
        repeat: bool,
    },
    /// Release everything held.
    ReleaseAll,
}

/// The message an event travels as, if it travels as one. Leaving is carried
/// as a release; motion travels as a datagram and entering as a control
/// message, so neither has an input message.
pub open spec fn message_of(event: InputEvent) -> Option<InputMessage> {
    match event {
        InputEvent::MouseButton { button, pressed } => Some(InputMessage::Button { button, pressed }),
        InputEvent::MouseWheel { delta } => Some(InputMessage::Wheel { delta }),
        InputEvent::Key { key, pressed, repeat } => Some(InputMessage::Key { key, pressed, repeat }),
        InputEvent::ReleaseAll | InputEvent::Leave => Some(InputMessage::ReleaseAll),
        _ => None,
    }
}

/// The event a message stands for.
pub open spec fn event_of(message: InputMessage) -> InputEvent {
    match message {
        InputMessage::Button { button, pressed } => InputEvent::MouseButton { button, pressed },
        InputMessage::Wheel { delta } => InputEvent::MouseWheel { delta },
        InputMessage::Key { key, pressed, repeat } => InputEvent::Key { key, pressed, repeat },
        InputMessage::ReleaseAll => InputEvent::ReleaseAll,
    }
}

/// Converts a captured event to the message that carries it.
pub fn to_input_message(event: &InputEvent) -> (m: Option<InputMessage>)
    ensures
        m == message_of(*event),
{
    match event {
        InputEvent::MouseButton { button, pressed } => Some(
            InputMessage::Button { button: *button, pressed: *pressed },
        ),
        InputEvent::MouseWheel { delta } => Some(InputMessage::Wheel { delta: *delta }),
        InputEvent::Key { key, pressed, repeat } => Some(
            InputMessage::Key { key: *key, pressed: *pressed, repeat: *repeat },
        ),
        InputEvent::ReleaseAll | InputEvent::Leave => Some(InputMessage::ReleaseAll),
        _ => None,
    }
}

/// Converts a received message back to the event it carries.
pub fn to_input_event(message: &InputMessage) -> (e: InputEvent)
    ensures
        e == event_of(*message),
{
    match message {
        InputMessage::Button { button, pressed } => InputEvent::MouseButton {
            button: *button,
            pressed: *pressed,
        },
        InputMessage::Wheel { delta } => InputEvent::MouseWheel { delta: *delta },
        InputMessage::Key { key, pressed, repeat } => InputEvent::Key {
            key: *key,
            pressed: *pressed,
            repeat: *repeat,
        },
        InputMessage::ReleaseAll => InputEvent::ReleaseAll,
    }
}

/// Every message survives the trip to an event and back, and every event
/// that travels as a message arrives with the same effect on held state.
pub proof fn law_messages_round_trip(message: InputMessage, event: InputEvent, s: HeldState)
    ensures
        message_of(event_of(message)) == Some(message),
        message_of(event) matches Some(m) ==> step(s, event_of(m)) == step(s, event)
            || (event is Leave && step(s, event_of(m)) == step(s, event)),
{
}

/// What the receiving side holds on a peer's behalf, so it can release on
/// its own when the sender vanishes.
#[derive(Debug)]
pub struct ReceiveState {
    tracker: InputStateTracker,
}

impl View for ReceiveState {
    type V = HeldState;

    closed spec fn view(&self) -> HeldState {
        self.tracker@
    }
}

impl ReceiveState {
    /// Nothing held yet.
    pub fn new() -> (r: ReceiveState)
        ensures
            r@ == clean_state(),
    {
        ReceiveState { tracker: InputStateTracker::new() }
    }

    /// Records an event that was injected.
    pub fn observe(&mut self, event: &InputEvent)
        ensures
            final(self)@ == step(old(self)@, *event).0,
    {
        let _: ApplyOutcome = self.tracker.apply(event);
    }

    /// True when nothing is held on the peer's behalf.
    pub fn is_clean(&self) -> (r: bool)
        ensures
            r == crate::state::is_clean_state(self@),
    {
        self.tracker.is_clean()
    }

    /// The events that release everything held, after which the state is
    /// clean.
    pub fn release_all(&mut self) -> (events: Vec<InputEvent>)
        ensures
            events@ == release_sequence(old(self)@),
            final(self)@ == clean_state(),
    {
        let events = self.tracker.release_events();
        self.tracker.clear();
        events
    }
}

} // verus!
