//! Native messages and their classification into abstract window events.
//!
//! A native message batch carries up to two classifiable parts: a structural
//! part (creation-time frame setup, paint, destroy) and a raw key part. The
//! fixed priority mapping classifies the structural part first, then the key
//! part, so one batch yields zero, one or two events. Parts that map to no
//! event are dropped silently.
use vstd::prelude::*;

use crate::window::WindowEvent;

verus! {

/// The structural part of a native message: window-lifecycle traffic that the
/// native system multiplexes with input traffic.
#[derive(Clone, Copy, Debug, PartialEq, Eq, Structural)]
pub enum StructuralMessage {
    /// Creation-time frame setup: yields no event, but the primitive extends
    /// the frame margins by the configured border width when it sees one.
    FrameSetup,
    /// A redraw request.
    Paint,
    /// The user or the system asked the window to close.
    Destroy,
}

/// The raw-key part of a native message, carrying the platform-native virtual
/// key code unchanged.
#[derive(Clone, Copy, Debug, PartialEq, Eq, Structural)]
pub enum KeyMessage {
    Down(u32),
    Up(u32),
}

/// One retrieved native message batch. Either part may be absent; a batch
/// with neither part is unclassified and produces no event.
#[derive(Clone, Copy, Debug, PartialEq, Eq)]
pub struct NativeMessage {
    pub structural: Option<StructuralMessage>,
    pub key: Option<KeyMessage>,
}

impl NativeMessage {
    /// A batch carrying only a structural part.
    pub fn of_structural(m: StructuralMessage) -> (r: NativeMessage)
        ensures
            r.structural == Some(m),
            r.key.is_none(),
    {
        NativeMessage { structural: Some(m), key: None }
    }

    /// A batch carrying only a key part.
    pub fn of_key(m: KeyMessage) -> (r: NativeMessage)
        ensures
            r.structural.is_none(),
            r.key == Some(m),
    {
        NativeMessage { structural: None, key: Some(m) }
    }

    /// A batch in which the native system delivered nothing the abstraction
    /// models; it classifies to no event.
    pub fn unclassified() -> (r: NativeMessage)
        ensures
            r.structural.is_none(),
            r.key.is_none(),
    {
        NativeMessage { structural: None, key: None }
    }
}

/// The event a structural message classifies to: paint requests a redraw,
/// destroy requests closing, and frame setup yields no event.
pub open spec fn spec_structural_event(m: StructuralMessage) -> Option<WindowEvent> {
    match m {
        StructuralMessage::FrameSetup => None,
        StructuralMessage::Paint => Some(WindowEvent::Expose),
        StructuralMessage::Destroy => Some(WindowEvent::CloseRequested),
    }
}

/// The event a key message classifies to, keeping the raw code.
pub open spec fn spec_key_event(m: KeyMessage) -> WindowEvent {
    match m {
        KeyMessage::Down(code) => WindowEvent::KeyDown(code),
        KeyMessage::Up(code) => WindowEvent::KeyUp(code),
    }
}

/// All events of one batch, structural part first, then the key part.
pub open spec fn spec_events_of(m: NativeMessage) -> Seq<WindowEvent> {
    let structural = match m.structural {
        Some(sm) => match spec_structural_event(sm) {
            Some(e) => seq![e],
            None => Seq::<WindowEvent>::empty(),
        },
        None => Seq::<WindowEvent>::empty(),
    };
    let key = match m.key {
        Some(km) => seq![spec_key_event(km)],
        None => Seq::<WindowEvent>::empty(),
    };
    structural + key
}

/// All events of a queue of batches, in retrieval order: the events of every
/// earlier batch precede those of every later one.
pub open spec fn spec_events_of_queue(ms: Seq<NativeMessage>) -> Seq<WindowEvent>
    decreases ms.len(),
{
    if ms.len() == 0 {
        Seq::<WindowEvent>::empty()
    } else {
        spec_events_of_queue(ms.drop_last()) + spec_events_of(ms.last())
    }
}

/// Extending a queue by one batch appends that batch's events.
pub proof fn lemma_events_of_queue_snoc(ms: Seq<NativeMessage>, m: NativeMessage)
    ensures
        spec_events_of_queue(ms.push(m)) == spec_events_of_queue(ms) + spec_events_of(m),
{
    assert(ms.push(m).drop_last() =~= ms);
    assert(ms.push(m).last() == m);
}

/// Classifies the structural part of a batch.
pub fn structural_event(m: StructuralMessage) -> (r: Option<WindowEvent>)
    ensures
        r == spec_structural_event(m),
{
    match m {
        StructuralMessage::FrameSetup => None,
        StructuralMessage::Paint => Some(WindowEvent::Expose),
        StructuralMessage::Destroy => Some(WindowEvent::CloseRequested),
    }
}

/// Classifies the key part of a batch.
pub fn key_event(m: KeyMessage) -> (r: WindowEvent)
    ensures
        r == spec_key_event(m),
{
    match m {
        KeyMessage::Down(code) => WindowEvent::KeyDown(code),
        KeyMessage::Up(code) => WindowEvent::KeyUp(code),
    }
}

/// Classifies a whole batch: zero, one or two events, structural part first.
pub fn classify_message(m: &NativeMessage) -> (r: Vec<WindowEvent>)
    ensures
        r@ == spec_events_of(*m),
{
    let mut events: Vec<WindowEvent> = Vec::new();
    match m.structural {
        Some(sm) => {
            match structural_event(sm) {
                Some(e) => { events.push(e); },
                None => {},
            }
        },
        None => {},
    }
    match m.key {
        Some(km) => {
            let e = key_event(km);
            events.push(e);
        },
        None => {},
    }
    proof {
        assert(events@ =~= spec_events_of(*m));
    }
    events
}

} // verus!
