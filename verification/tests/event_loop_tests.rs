//! The event loop: classification, delivery order, exit semantics, and the
//! Win32 message translation.
use gwl::window::message::{KeyMessage, NativeMessage, StructuralMessage};
use gwl::window::win32::{
    message_from_win32, win32_relays, WM_CREATE, WM_DESTROY, WM_KEYDOWN, WM_KEYUP, WM_PAINT,
};
use gwl::window::{ControlFlow, DefWindowBuildAction, EventHandler, WindowBuilder, WindowEvent};

/// Records every delivered event; optionally answers one chosen event kind
/// with an exit directive.
struct Recorder {
    events: Vec<WindowEvent>,
    exit_on_close: Option<u32>,
    exit_on_any: Option<u32>,
}

impl Recorder {
    fn new() -> Self {
        Recorder { events: Vec::new(), exit_on_close: None, exit_on_any: None }
    }
}

impl EventHandler for Recorder {
    fn on_event(&mut self, event: WindowEvent, control_flow: &mut ControlFlow) {
        self.events.push(event);
        if let Some(code) = self.exit_on_any {
            *control_flow = ControlFlow::Exit(code);
        }
        if event == WindowEvent::CloseRequested {
            if let Some(code) = self.exit_on_close {
                *control_flow = ControlFlow::Exit(code);
            }
        }
    }
}

#[test]
fn close_request_delivers_once_and_exit_code_propagates() {
    let mut window = WindowBuilder::new(DefWindowBuildAction).build();
    window.post_message(NativeMessage::of_structural(StructuralMessage::Destroy));
    let mut handler = Recorder::new();
    handler.exit_on_close = Some(7);
    let (flow, _log) = window.run(&mut handler);
    assert_eq!(handler.events, vec![WindowEvent::CloseRequested]);
    assert_eq!(flow, ControlFlow::Exit(7));
}

#[test]
fn exit_stops_later_queued_messages() {
    let mut window = WindowBuilder::new(DefWindowBuildAction).build();
    window.post_message(NativeMessage::of_structural(StructuralMessage::Destroy));
    window.post_message(NativeMessage::of_structural(StructuralMessage::Paint));
    window.post_message(NativeMessage::of_key(KeyMessage::Down(1)));
    let mut handler = Recorder::new();
    handler.exit_on_close = Some(7);
    let (flow, _log) = window.run(&mut handler);
    // Only the close request reaches the callback; the rest stays queued.
    assert_eq!(handler.events, vec![WindowEvent::CloseRequested]);
    assert_eq!(flow, ControlFlow::Exit(7));
    assert_eq!(window.inner.pending.len(), 2);
}

#[test]
fn key_down_then_key_up_in_order_with_same_code() {
    let mut window = WindowBuilder::new(DefWindowBuildAction).build();
    window.post_message(NativeMessage::of_key(KeyMessage::Down(65)));
    window.post_message(NativeMessage::of_key(KeyMessage::Up(65)));
    let mut handler = Recorder::new();
    let (flow, _log) = window.run(&mut handler);
    assert_eq!(handler.events, vec![WindowEvent::KeyDown(65), WindowEvent::KeyUp(65)]);
    assert_eq!(flow, ControlFlow::Listen);
}

#[test]
fn unclassified_messages_are_dropped_silently() {
    let mut window = WindowBuilder::new(DefWindowBuildAction).build();
    window.post_message(NativeMessage::unclassified());
    window.post_message(NativeMessage::of_structural(StructuralMessage::Paint));
    window.post_message(NativeMessage::unclassified());
    let mut handler = Recorder::new();
    let (flow, _log) = window.run(&mut handler);
    assert_eq!(handler.events, vec![WindowEvent::Expose]);
    assert_eq!(flow, ControlFlow::Listen);
    assert_eq!(window.inner.pending.len(), 0);
}

#[test]
fn exit_truncates_the_same_batch() {
    let mut window = WindowBuilder::new(DefWindowBuildAction).build();
    // One batch carrying both a structural part and a key part.
    window.post_message(NativeMessage {
        structural: Some(StructuralMessage::Destroy),
        key: Some(KeyMessage::Down(65)),
    });
    let mut handler = Recorder::new();
    handler.exit_on_any = Some(3);
    let (flow, _log) = window.run(&mut handler);
    // The key part of the same batch is not delivered after the exit.
    assert_eq!(handler.events, vec![WindowEvent::CloseRequested]);
    assert_eq!(flow, ControlFlow::Exit(3));
}

#[test]
fn batch_yields_structural_then_key() {
    let mut window = WindowBuilder::new(DefWindowBuildAction).build();
    window.post_message(NativeMessage {
        structural: Some(StructuralMessage::Paint),
        key: Some(KeyMessage::Up(32)),
    });
    let mut handler = Recorder::new();
    let (flow, _log) = window.run(&mut handler);
    assert_eq!(handler.events, vec![WindowEvent::Expose, WindowEvent::KeyUp(32)]);
    assert_eq!(flow, ControlFlow::Listen);
}

#[test]
fn frame_setup_extends_frame_by_border_width() {
    let mut window = WindowBuilder::new(DefWindowBuildAction).border_width(8).build();
    assert_eq!(window.get_frame_margin(), 0);
    window.post_message(NativeMessage::of_structural(StructuralMessage::FrameSetup));
    let mut handler = Recorder::new();
    let (_, _log) = window.run(&mut handler);
    // Frame setup yields no event, only the frame-margin effect.
    assert_eq!(handler.events, Vec::<WindowEvent>::new());
    assert_eq!(window.get_frame_margin(), 8);
}

#[test]
fn run_with_empty_queue_keeps_listening() {
    let mut window = WindowBuilder::new(DefWindowBuildAction).build();
    let mut handler = Recorder::new();
    let (flow, _log) = window.run(&mut handler);
    assert_eq!(flow, ControlFlow::Listen);
    assert!(handler.events.is_empty());
}

#[test]
fn win32_translation_maps_the_documented_codes() {
    let m = message_from_win32(WM_PAINT, WM_KEYDOWN, 65);
    assert_eq!(m.structural, Some(StructuralMessage::Paint));
    assert_eq!(m.key, Some(KeyMessage::Down(65)));

    let m = message_from_win32(WM_DESTROY, WM_KEYUP, 65);
    assert_eq!(m.structural, Some(StructuralMessage::Destroy));
    assert_eq!(m.key, Some(KeyMessage::Up(65)));

    let m = message_from_win32(WM_CREATE, 0x0200, 0);
    assert_eq!(m.structural, Some(StructuralMessage::FrameSetup));
    assert_eq!(m.key, None);

    let m = message_from_win32(0x0086, 0x0200, 9);
    assert_eq!(m.structural, None);
    assert_eq!(m.key, None);
}

#[test]
fn win32_relay_decision() {
    assert!(win32_relays(WM_CREATE));
    assert!(win32_relays(WM_PAINT));
    assert!(win32_relays(WM_DESTROY));
    assert!(!win32_relays(WM_KEYDOWN));
    assert!(!win32_relays(WM_KEYUP));
    assert!(!win32_relays(0x0086));
}

#[test]
fn classify_message_orders_parts() {
    let events = gwl::window::message::classify_message(&NativeMessage {
        structural: Some(StructuralMessage::Destroy),
        key: Some(KeyMessage::Down(13)),
    });
    assert_eq!(events, vec![WindowEvent::CloseRequested, WindowEvent::KeyDown(13)]);

    let none = gwl::window::message::classify_message(&NativeMessage::unclassified());
    assert!(none.is_empty());

    let frame = gwl::window::message::classify_message(&NativeMessage::of_structural(
        StructuralMessage::FrameSetup,
    ));
    assert!(frame.is_empty());
}
