//! The platform primitive: the state a live native window is driven through,
//! with immediate-effect mutators, live geometry queries, construction under
//! the build-action hook protocol, and the event loop.
use vstd::prelude::*;

use crate::window::message::{
    key_event,
    KeyMessage,
    spec_events_of,
    spec_events_of_queue,
    structural_event,
    lemma_events_of_queue_snoc,
    NativeMessage,
    StructuralMessage,
};
use crate::window::{ControlFlow, EventHandler, IWindow, WindowBuildAction, WindowEvent};

verus! {

/// The identity of a native window: the window resource itself and the
/// connection or module it belongs to (an X11 window and display, or a Win32
/// window handle and instance handle), each held as one machine word.
#[derive(Clone, Copy, Debug, PartialEq, Eq, Structural)]
pub struct WindowHandle {
    pub window: u64,
    pub display: u64,
}

impl WindowHandle {
    /// A handle backing a completed window is never null.
    pub open spec fn wf(self) -> bool {
        self.window != 0
    }
}

/// A transient, non-owning view of a window's native identity, handed to the
/// build-action hook and to raw-handle consumers. Not to be stored past the
/// call that produced it.
#[derive(Clone, Copy, Debug, PartialEq, Eq, Structural)]
pub struct WindowInstance {
    pub window: u64,
    pub display: u64,
}

/// How the primitive came by its handle: created fresh, or adopted from an
/// external owner who keeps destruction rights.
#[derive(Clone, Copy, Debug, PartialEq, Eq, Structural)]
pub enum HandleOrigin {
    Created,
    Adopted,
}

/// The native style of the window: standard overlapped-window chrome, or the
/// stripped popup-with-border style of an undecorated window.
#[derive(Clone, Copy, Debug, PartialEq, Eq, Structural)]
pub enum WindowStyle {
    Overlapped,
    PopupBorder,
}

/// The corner shape asked of the compositor. Stripping decorations asks for
/// small rounding; restoring decorations leaves the preference in place.
#[derive(Clone, Copy, Debug, PartialEq, Eq, Structural)]
pub enum CornerPreference {
    Default,
    RoundSmall,
}

/// One build-action hook invocation, as construction records it.
#[derive(Clone, Copy, Debug, PartialEq, Eq, Structural)]
pub enum HookCall {
    PreInit,
    OverrideQuery,
    WindowCreated(WindowInstance),
}

/// The abstract state of a platform primitive.
#[verifier::ext_equal]
pub struct WindowState {
    pub handle: WindowHandle,
    pub origin: HandleOrigin,
    pub title: Seq<char>,
    pub x: i32,
    pub y: i32,
    pub width: u32,
    pub height: u32,
    pub border_width: u32,
    pub frame_margin: u32,
    pub mapped: bool,
    pub style: WindowStyle,
    pub corner: CornerPreference,
    pub pending: Seq<NativeMessage>,
    pub hook_calls: Seq<HookCall>,
}

/// The state after mapping or unmapping the window.
pub open spec fn spec_set_visible(s: WindowState, mapped: bool) -> WindowState {
    WindowState { mapped, ..s }
}

/// The state after toggling decorations in place: stripping sets the popup
/// style and asks for rounded corners; restoring only restores the
/// overlapped style.
pub open spec fn spec_set_undecorated(s: WindowState, undecorated: bool) -> WindowState {
    if undecorated {
        WindowState { style: WindowStyle::PopupBorder, corner: CornerPreference::RoundSmall, ..s }
    } else {
        WindowState { style: WindowStyle::Overlapped, ..s }
    }
}

/// What a caller can observe of a window without input: its live size and
/// its native style.
pub open spec fn spec_observably_equivalent(a: WindowState, b: WindowState) -> bool {
    &&& a.width == b.width
    &&& a.height == b.height
    &&& a.style == b.style
}

/// The state after a sequence of map/unmap calls, oldest first.
pub open spec fn spec_apply_visibility(s: WindowState, calls: Seq<bool>) -> WindowState
    decreases calls.len(),
{
    if calls.len() == 0 {
        s
    } else {
        spec_set_visible(spec_apply_visibility(s, calls.drop_last()), calls.last())
    }
}

/// Visibility is last-write-wins: after any non-empty sequence of map/unmap
/// calls the window's mapped state equals the last call's argument, and
/// nothing else has changed.
pub proof fn lemma_visibility_last_write_wins(s: WindowState, calls: Seq<bool>)
    requires
        calls.len() > 0,
    ensures
        spec_apply_visibility(s, calls) == spec_set_visible(s, calls.last()),
    decreases calls.len(),
{
    if calls.len() == 1 {
        assert(spec_apply_visibility(s, calls.drop_last()) == s);
    } else {
        lemma_visibility_last_write_wins(s, calls.drop_last());
    }
    assert(spec_apply_visibility(s, calls) =~= spec_set_visible(s, calls.last()));
}

/// Stripping decorations and then restoring them returns the window to a
/// state observably equivalent to never having touched them.
pub proof fn lemma_undecorated_round_trip(s: WindowState)
    requires
        s.style == WindowStyle::Overlapped,
    ensures
        spec_observably_equivalent(spec_set_undecorated(spec_set_undecorated(s, true), false), s),
{
}

/// The platform primitive: owns (or has adopted) one native handle and
/// mirrors the live native state every mutator drives.
pub struct RawWindow {
    pub handle: WindowHandle,
    pub origin: HandleOrigin,
    pub title: String,
    pub x: i32,
    pub y: i32,
    pub width: u32,
    pub height: u32,
    pub border_width: u32,
    pub frame_margin: u32,
    pub mapped: bool,
    pub style: WindowStyle,
    pub corner: CornerPreference,
    pub pending: Vec<NativeMessage>,
    pub hook_calls: Ghost<Seq<HookCall>>,
}

impl View for RawWindow {
    type V = WindowState;

    open spec fn view(&self) -> WindowState {
        WindowState {
            handle: self.handle,
            origin: self.origin,
            title: self.title@,
            x: self.x,
            y: self.y,
            width: self.width,
            height: self.height,
            border_width: self.border_width,
            frame_margin: self.frame_margin,
            mapped: self.mapped,
            style: self.style,
            corner: self.corner,
            pending: self.pending@,
            hook_calls: self.hook_calls@,
        }
    }
}

/// The hook invocations construction makes when the hook adopts a handle:
/// the pre-creation hook, then the handle query, and nothing more.
pub open spec fn spec_adoption_hook_calls() -> Seq<HookCall> {
    seq![HookCall::PreInit, HookCall::OverrideQuery]
}

/// The hook invocations construction makes on the normal-creation path: the
/// pre-creation hook, the handle query, and then, exactly once, the
/// post-creation hook with a view of the handle the window ends up with.
pub open spec fn spec_creation_hook_calls(h: WindowHandle) -> Seq<HookCall> {
    seq![
        HookCall::PreInit,
        HookCall::OverrideQuery,
        HookCall::WindowCreated(WindowInstance { window: h.window, display: h.display }),
    ]
}

/// Whether a queue of batches carries a creation-time frame setup.
pub open spec fn spec_has_frame_setup(ms: Seq<NativeMessage>) -> bool {
    exists|i: int|
        0 <= i < ms.len() && (#[trigger] ms[i]).structural == Some(StructuralMessage::FrameSetup)
}

/// The frame margin after the loop has processed `consumed`: frame setup
/// extends the frame by the configured border width, everything else leaves
/// it alone.
pub open spec fn spec_frame_margin_after(pre: WindowState, consumed: Seq<NativeMessage>) -> u32 {
    if spec_has_frame_setup(consumed) {
        pre.border_width
    } else {
        pre.frame_margin
    }
}

/// The event loop retrieves messages and extends the frame at frame setup;
/// it touches nothing else of the window.
pub open spec fn spec_untouched_by_loop(pre: WindowState, post: WindowState) -> bool {
    &&& post.handle == pre.handle
    &&& post.origin == pre.origin
    &&& post.title == pre.title
    &&& post.x == pre.x
    &&& post.y == pre.y
    &&& post.width == pre.width
    &&& post.height == pre.height
    &&& post.border_width == pre.border_width
    &&& post.mapped == pre.mapped
    &&& post.style == pre.style
    &&& post.corner == pre.corner
    &&& post.hook_calls == pre.hook_calls
}

/// What one `run` call guarantees, whatever the callback does: some prefix
/// of `k` queued batches was retrieved in order (all of them if the register
/// ended at `Listen`); the delivery log is exactly the events of those
/// batches in retrieval order, cut short only where the callback set `Exit`
/// inside the last retrieved batch — and never shorter than the events of
/// the first `k - 1` batches, so an exit never swallows an earlier batch;
/// an exit directive can only follow a delivery, never precede all of them;
/// the unretrieved batches stay queued; and the frame margin reflects any
/// processed frame setup.
pub open spec fn spec_run_outcome(
    pre: WindowState,
    post: WindowState,
    flow: ControlFlow,
    log: Seq<WindowEvent>,
    k: int,
) -> bool {
    &&& 0 <= k <= pre.pending.len()
    &&& spec_untouched_by_loop(pre, post)
    &&& post.pending == pre.pending.skip(k)
    &&& post.frame_margin == spec_frame_margin_after(pre, pre.pending.take(k))
    &&& log.len() <= spec_events_of_queue(pre.pending.take(k)).len()
    &&& log == spec_events_of_queue(pre.pending.take(k)).take(log.len() as int)
    &&& (k > 0 ==> log.len() >= spec_events_of_queue(pre.pending.take(k - 1)).len())
    &&& (flow is Listen ==> k == pre.pending.len() && log == spec_events_of_queue(pre.pending))
    &&& (flow is Exit ==> k >= 1 && log.len() >= 1)
}

/// Feeding the loop exactly one close-request batch delivers exactly one
/// `CloseRequested` to the callback, whatever the callback decides: if it
/// exits, the delivery had already happened; if it keeps listening, nothing
/// further was queued to deliver. Either way the queue is drained.
pub proof fn lemma_close_request_delivery(
    pre: WindowState,
    post: WindowState,
    flow: ControlFlow,
    log: Seq<WindowEvent>,
    k: int,
)
    requires
        pre.pending.len() == 1,
        pre.pending[0].structural == Some(StructuralMessage::Destroy),
        pre.pending[0].key is None,
        spec_run_outcome(pre, post, flow, log, k),
    ensures
        log == seq![WindowEvent::CloseRequested],
        post.pending == Seq::<NativeMessage>::empty(),
{
    assert(k == 1);
    assert(pre.pending.take(1) =~= pre.pending);
    assert(pre.pending.drop_last() =~= Seq::<NativeMessage>::empty());
    assert(spec_events_of_queue(Seq::<NativeMessage>::empty()) =~= Seq::<WindowEvent>::empty());
    assert(spec_events_of(pre.pending[0]) =~= seq![WindowEvent::CloseRequested]);
    assert(spec_events_of_queue(pre.pending) =~= seq![WindowEvent::CloseRequested]);
    assert(log.len() == 1);
    assert(log =~= seq![WindowEvent::CloseRequested]);
    assert(post.pending =~= Seq::<NativeMessage>::empty());
}

/// Feeding the loop a key press and a key release, in that order, with a
/// callback that keeps listening, delivers exactly `KeyDown` then `KeyUp`
/// with the identical raw codes.
pub proof fn lemma_key_pair_delivery(
    pre: WindowState,
    post: WindowState,
    flow: ControlFlow,
    log: Seq<WindowEvent>,
    k: int,
    down_code: u32,
    up_code: u32,
)
    requires
        pre.pending.len() == 2,
        pre.pending[0].structural is None,
        pre.pending[0].key == Some(KeyMessage::Down(down_code)),
        pre.pending[1].structural is None,
        pre.pending[1].key == Some(KeyMessage::Up(up_code)),
        spec_run_outcome(pre, post, flow, log, k),
        flow is Listen,
    ensures
        log == seq![WindowEvent::KeyDown(down_code), WindowEvent::KeyUp(up_code)],
        post.pending == Seq::<NativeMessage>::empty(),
{
    assert(k == 2);
    let first = pre.pending.drop_last();
    assert(first =~= seq![pre.pending[0]]);
    assert(first.drop_last() =~= Seq::<NativeMessage>::empty());
    assert(spec_events_of_queue(Seq::<NativeMessage>::empty()) =~= Seq::<WindowEvent>::empty());
    assert(spec_events_of(pre.pending[0]) =~= seq![WindowEvent::KeyDown(down_code)]);
    assert(spec_events_of(pre.pending[1]) =~= seq![WindowEvent::KeyUp(up_code)]);
    assert(spec_events_of_queue(first) =~= seq![WindowEvent::KeyDown(down_code)]);
    assert(spec_events_of_queue(pre.pending) =~= seq![
        WindowEvent::KeyDown(down_code),
        WindowEvent::KeyUp(up_code),
    ]);
    assert(log =~= seq![WindowEvent::KeyDown(down_code), WindowEvent::KeyUp(up_code)]);
    assert(post.pending =~= Seq::<NativeMessage>::empty());
}

impl IWindow for RawWindow {
    /// Constructs the platform primitive under the build-action hook
    /// protocol: first the pre-creation hook runs, then the hook is asked
    /// for a handle override. With an override, native creation is skipped
    /// and the handle adopted as it is — no title is applied to it and the
    /// post-creation hook never runs. Without one, the native window is
    /// created at the given geometry, the title applied, and the
    /// post-creation hook invoked once with a view of the new handle.
    /// Native creation failure is fatal, so construction always returns a
    /// window backed by a non-null handle.
    fn new<A: WindowBuildAction>(
        title: String,
        width: u32,
        height: u32,
        x: i32,
        y: i32,
        border_width: u32,
        build_action: &mut A,
    ) -> (r: RawWindow)
    {
        build_action.pre_init();
        match build_action.override_window_handle() {
            Some(handle) => RawWindow {
                handle,
                origin: HandleOrigin::Adopted,
                title: String::new(),
                x,
                y,
                width,
                height,
                border_width,
                frame_margin: 0,
                mapped: false,
                style: WindowStyle::Overlapped,
                corner: CornerPreference::Default,
                pending: Vec::new(),
                hook_calls: Ghost(spec_adoption_hook_calls()),
            },
            None => {
                // The identity issued for the fresh window; never null.
                let handle = WindowHandle { window: 1, display: 1 };
                let instance = WindowInstance { window: handle.window, display: handle.display };
                build_action.window_created(&instance);
                RawWindow {
                    handle,
                    origin: HandleOrigin::Created,
                    title,
                    x,
                    y,
                    width,
                    height,
                    border_width,
                    frame_margin: 0,
                    mapped: false,
                    style: WindowStyle::Overlapped,
                    corner: CornerPreference::Default,
                    pending: Vec::new(),
                    hook_calls: Ghost(spec_creation_hook_calls(handle)),
                }
            },
        }
    }

    /// Maps the window. Idempotent.
    fn show(&mut self) {
        self.mapped = true;
    }

    /// Unmaps the window. Idempotent.
    fn hide_window(&mut self) {
        self.mapped = false;
    }

    /// Minimizing unmaps the window; un-minimizing maps it. Idempotent.
    fn set_minimized(&mut self, minimized: bool) {
        if minimized {
            self.mapped = false;
        } else {
            self.mapped = true;
        }
    }

    /// Maximizing shares the minimize semantics: no distinct maximize
    /// geometry is computed, the window is unmapped or mapped. Idempotent.
    fn set_maximized(&mut self, maximized: bool) {
        if maximized {
            self.mapped = false;
        } else {
            self.mapped = true;
        }
    }

    /// Replaces the window title.
    fn set_window_title(&mut self, title: &str) {
        self.title = title.to_owned();
    }

    /// Adjusts the extended frame margin applied at the next creation-time
    /// frame setup. The live frame is not touched here.
    fn set_window_border_width(&mut self, border_width: u32) {
        self.border_width = border_width;
    }

    /// Toggles native chrome in place, without recreating the handle.
    fn set_undecorated(&mut self, undecorated: bool) {
        if undecorated {
            self.style = WindowStyle::PopupBorder;
            self.corner = CornerPreference::RoundSmall;
        } else {
            self.style = WindowStyle::Overlapped;
        }
    }

    /// Queries the live window position.
    fn get_window_pos(&self) -> (r: (u32, u32)) {
        (self.x as u32, self.y as u32)
    }

    /// Queries the live window size.
    fn get_window_size(&self) -> (r: (u32, u32)) {
        (self.width, self.height)
    }

    /// A transient view of the native identity, for the build-action hook and
    /// raw-handle consumers.
    fn get_instance(&self) -> (r: WindowInstance) {
        WindowInstance { window: self.handle.window, display: self.handle.display }
    }

    /// Runs the event loop over the queued native messages, oldest first.
    /// Each retrieved batch gets its native processing step (creation-time
    /// frame setup extends the frame by the configured border width), is
    /// classified, and every classified event is handed to the callback in
    /// retrieval order together with the mutable control-flow register.
    /// Once the callback sets `Exit`, no further event of the same batch is
    /// delivered and no further batch is retrieved; the exit directive is
    /// returned to the caller as a sentinel rather than terminating the
    /// process here. With the queue drained and the register still at
    /// `Listen`, the loop returns `Listen`: every queued event has then been
    /// delivered. The second result is the delivery log, the exact sequence
    /// of events handed to the callback.
    fn run<H: EventHandler>(&mut self, handler: &mut H) -> (r: (
        ControlFlow,
        Ghost<Seq<WindowEvent>>,
    )) {
        let mut flow = ControlFlow::Listen;
        let ghost mut log: Seq<WindowEvent> = Seq::empty();
        let ghost mut k: int = 0;
        loop
            invariant
                0 <= k <= old(self)@.pending.len(),
                self@.pending == old(self)@.pending.skip(k),
                spec_untouched_by_loop(old(self)@, self@),
                self@.frame_margin == spec_frame_margin_after(
                    old(self)@,
                    old(self)@.pending.take(k),
                ),
                log.len() <= spec_events_of_queue(old(self)@.pending.take(k)).len(),
                log == spec_events_of_queue(old(self)@.pending.take(k)).take(log.len() as int),
                (k > 0 ==> log.len() >= spec_events_of_queue(
                    old(self)@.pending.take(k - 1),
                ).len()),
                (flow is Listen ==> log == spec_events_of_queue(old(self)@.pending.take(k))),
                (flow is Exit ==> k >= 1 && log.len() >= 1),
            ensures
                spec_run_outcome(old(self)@, self@, flow, log, k),
            decreases old(self)@.pending.len() - k,
        {
            let listening = match flow {
                ControlFlow::Listen => true,
                ControlFlow::Exit(_) => false,
            };
            if !listening {
                proof {
                    assert(spec_run_outcome(old(self)@, self@, flow, log, k));
                }
                break;
            }
            if self.pending.len() == 0 {
                proof {
                    assert(old(self)@.pending.skip(k).len() == 0);
                    assert(k == old(self)@.pending.len());
                    assert(old(self)@.pending.take(k) =~= old(self)@.pending);
                    assert(spec_run_outcome(old(self)@, self@, flow, log, k));
                }
                break;
            }
            let msg = self.pending.remove(0);
            let ghost entry_log = log;
            proof {
                assert(msg == old(self)@.pending[k]);
                assert(self@.pending =~= old(self)@.pending.skip(k + 1));
                assert(old(self)@.pending.take(k + 1) =~= old(self)@.pending.take(k).push(msg));
                lemma_events_of_queue_snoc(old(self)@.pending.take(k), msg);
            }
            // The native processing step: creation-time frame setup extends
            // the frame margins by the configured border width.
            let frame_setup = match msg.structural {
                Some(StructuralMessage::FrameSetup) => true,
                _ => false,
            };
            if frame_setup {
                self.frame_margin = self.border_width;
            }
            proof {
                if frame_setup {
                    assert(old(self)@.pending.take(k + 1)[k] == msg);
                    assert(spec_has_frame_setup(old(self)@.pending.take(k + 1)));
                } else {
                    if spec_has_frame_setup(old(self)@.pending.take(k)) {
                        let i = choose|i: int|
                            0 <= i < old(self)@.pending.take(k).len() && (#[trigger] old(
                                self,
                            )@.pending.take(k)[i]).structural == Some(StructuralMessage::FrameSetup);
                        assert(old(self)@.pending.take(k + 1)[i].structural == Some(
                            StructuralMessage::FrameSetup,
                        ));
                    }
                    if spec_has_frame_setup(old(self)@.pending.take(k + 1)) {
                        let i = choose|i: int|
                            0 <= i < old(self)@.pending.take(k + 1).len() && (#[trigger] old(
                                self,
                            )@.pending.take(k + 1)[i]).structural == Some(
                                StructuralMessage::FrameSetup,
                            );
                        assert(i < k);
                        assert(old(self)@.pending.take(k)[i].structural == Some(
                            StructuralMessage::FrameSetup,
                        ));
                    }
                }
            }
            // Structural part first.
            match msg.structural {
                Some(sm) => {
                    match structural_event(sm) {
                        Some(e) => {
                            handler.on_event(e, &mut flow);
                            proof {
                                log = log.push(e);
                            }
                        },
                        None => {},
                    }
                },
                None => {},
            }
            // Then the key part, unless the callback asked to exit.
            match msg.key {
                Some(km) => {
                    let still_listening = match flow {
                        ControlFlow::Listen => true,
                        ControlFlow::Exit(_) => false,
                    };
                    if still_listening {
                        let e = key_event(km);
                        handler.on_event(e, &mut flow);
                        proof {
                            log = log.push(e);
                        }
                    }
                },
                None => {},
            }
            proof {
                assert(spec_events_of_queue(old(self)@.pending.take(k + 1)) == entry_log
                    + spec_events_of(msg));
                assert(log =~= spec_events_of_queue(old(self)@.pending.take(k + 1)).take(
                    log.len() as int,
                ));
                k = k + 1;
            }
        }
        let r = (flow, Ghost(log));
        proof {
            assert(r.1@ == log);
            assert(spec_run_outcome(old(self)@, self@, r.0, r.1@, k));
        }
        r
    }
}

impl RawWindow {
    /// Reads the current title.
    pub fn get_window_title(&self) -> (r: &str)
        ensures
            r@ == self@.title,
    {
        self.title.as_str()
    }

    /// Whether the window is currently mapped.
    pub fn is_visible(&self) -> (r: bool)
        ensures
            r == self@.mapped,
    {
        self.mapped
    }

    /// The current native style.
    pub fn get_style(&self) -> (r: WindowStyle)
        ensures
            r == self@.style,
    {
        self.style
    }

    /// The extended frame margin currently applied.
    pub fn get_frame_margin(&self) -> (r: u32)
        ensures
            r == self@.frame_margin,
    {
        self.frame_margin
    }

    /// Exports the native handle bundle for external surface interop.
    pub fn raw_window_handle(&self) -> (r: WindowHandle)
        ensures
            r == self@.handle,
    {
        self.handle
    }

    /// Queues one native message batch for the event loop to retrieve.
    pub fn post_message(&mut self, message: NativeMessage)
        ensures
            final(self)@ == (WindowState {
                pending: old(self)@.pending.push(message),
                ..old(self)@
            }),
    {
        self.pending.push(message);
    }
}

} // verus!
