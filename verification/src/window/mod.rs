//! The window abstraction: construction hooks, abstract window events, the
//! control-flow register of the event loop, the owned window type, and the
//! builder that produces it.
use vstd::prelude::*;

pub mod backend;
pub mod message;
pub mod win32;

pub use self::backend::{RawWindow, WindowHandle, WindowInstance};

use self::backend::{
    spec_adoption_hook_calls,
    spec_creation_hook_calls,
    spec_run_outcome,
    spec_set_undecorated,
    spec_set_visible,
    CornerPreference,
    HandleOrigin,
    WindowState,
    WindowStyle,
};
use self::message::NativeMessage;

verus! {

/// An abstract window event, produced from at most one native message.
/// Key codes are raw platform-native virtual key codes; they are not
/// normalized across backends.
#[derive(Clone, Copy, Debug, PartialEq, Eq, Structural)]
pub enum WindowEvent {
    Expose,
    KeyDown(u32),
    KeyUp(u32),
    CloseRequested,
}

/// The state register of the event loop, mutable by the event callback:
/// keep pumping events, or terminate with the given exit status.
#[derive(Clone, Copy, Debug, PartialEq, Eq, Structural)]
pub enum ControlFlow {
    Listen,
    Exit(u32),
}

/// A hook supplementing window construction. `pre_init` runs before any
/// native resource exists; `override_window_handle` may supply an existing
/// native handle, in which case native creation is skipped entirely and the
/// handle adopted; `window_created` runs exactly once after native creation,
/// never on the adoption path.
pub trait WindowBuildAction {
    /// Whether this hook replaces native creation, and with which handle.
    /// Fixed from `pre_init` on, so construction's outcome is determined
    /// when it starts.
    spec fn overrides(&self) -> Option<WindowHandle>;

    /// Called first, before any native resource exists. May update the
    /// hook's own state, but not its handle-override decision.
    fn pre_init(&mut self)
        ensures
            final(self).overrides() == old(self).overrides(),
    ;

    /// Either supplies an already-existing native handle to adopt — its
    /// ownership stays with whoever created it — or returns nothing, letting
    /// normal native creation proceed. An adopted handle is never null.
    fn override_window_handle(&mut self) -> (r: Option<WindowHandle>)
        ensures
            r == old(self).overrides(),
            (r matches Some(h) ==> h.wf()),
    ;

    /// Called with a transient view of the freshly created native window,
    /// before construction returns. Skipped when a handle was adopted.
    fn window_created(&mut self, instance: &WindowInstance);
}

/// The default build action: does nothing at either hook point and never
/// overrides the handle.
pub struct DefWindowBuildAction;

impl WindowBuildAction for DefWindowBuildAction {
    open spec fn overrides(&self) -> Option<WindowHandle> {
        None
    }

    fn pre_init(&mut self) {
    }

    fn override_window_handle(&mut self) -> (r: Option<WindowHandle>) {
        None
    }

    fn window_created(&mut self, _instance: &WindowInstance) {
    }
}

/// A ready-made build action that adopts a caller-supplied native handle:
/// construction skips native creation and wraps this handle instead. A null
/// handle cannot back a window, so it is not adopted and normal creation
/// proceeds.
pub struct AdoptHandleAction {
    pub handle: WindowHandle,
}

impl WindowBuildAction for AdoptHandleAction {
    open spec fn overrides(&self) -> Option<WindowHandle> {
        if self.handle.wf() {
            Some(self.handle)
        } else {
            None
        }
    }

    fn pre_init(&mut self) {
    }

    fn override_window_handle(&mut self) -> (r: Option<WindowHandle>) {
        if self.handle.window != 0 {
            Some(self.handle)
        } else {
            None
        }
    }

    fn window_created(&mut self, _instance: &WindowInstance) {
    }
}

/// The per-event callback of the event loop: receives each classified event
/// and may set the control-flow register to terminate the loop.
pub trait EventHandler {
    fn on_event(&mut self, event: WindowEvent, control_flow: &mut ControlFlow);
}

/// The one contract every platform primitive satisfies, however different
/// the native machinery behind it: construction under the build-action hook
/// protocol, the event loop, and the synchronous, immediate-effect mutators
/// and live queries. The backend is chosen at build configuration time, so
/// a single implementor is active per build.
pub trait IWindow: View<V = WindowState> + Sized {
    /// Construction. The pre-creation hook runs first, then the hook is
    /// asked for a handle override: with one, native creation is skipped and
    /// the handle adopted untouched (no title applied, the post-creation
    /// hook never runs); without one, the native window is created at the
    /// given geometry, the title applied, and the post-creation hook runs
    /// exactly once with a view of the handle the window ends up with.
    /// Native creation failure is fatal, never reported, so the window is
    /// always backed by a non-null handle.
    fn new<A: WindowBuildAction>(
        title: String,
        width: u32,
        height: u32,
        x: i32,
        y: i32,
        border_width: u32,
        build_action: &mut A,
    ) -> (r: Self)
        ensures
            ({
                let s = r@;
                &&& s.x == x
                &&& s.y == y
                &&& s.width == width
                &&& s.height == height
                &&& s.border_width == border_width
                &&& s.frame_margin == 0
                &&& s.mapped == false
                &&& s.style == WindowStyle::Overlapped
                &&& s.corner == CornerPreference::Default
                &&& s.pending == Seq::<NativeMessage>::empty()
                &&& s.handle.wf()
                &&& match old(build_action).overrides() {
                    Some(h) => {
                        &&& s.handle == h
                        &&& s.origin == HandleOrigin::Adopted
                        &&& s.title == Seq::<char>::empty()
                        &&& s.hook_calls == spec_adoption_hook_calls()
                    },
                    None => {
                        &&& s.origin == HandleOrigin::Created
                        &&& s.title == title@
                        &&& s.hook_calls == spec_creation_hook_calls(s.handle)
                    },
                }
            }),
    ;

    /// The event loop; see `spec_run_outcome` for the guarantee: batches
    /// retrieved in order, every classified event delivered in retrieval
    /// order until an exit directive, which is returned as a sentinel.
    fn run<H: EventHandler>(&mut self, handler: &mut H) -> (r: (
        ControlFlow,
        Ghost<Seq<WindowEvent>>,
    ))
        ensures
            exists|k: int| spec_run_outcome(old(self)@, final(self)@, r.0, r.1@, k),
    ;

    /// A transient view of the native identity.
    fn get_instance(&self) -> (r: WindowInstance)
        ensures
            r.window == self@.handle.window,
            r.display == self@.handle.display,
    ;

    /// Replaces the native title text.
    fn set_window_title(&mut self, title: &str)
        ensures
            final(self)@ == (WindowState { title: title@, ..old(self)@ }),
    ;

    /// Adjusts the extended frame margin applied at the next creation-time
    /// frame setup. On a backend without frame-extension support the margin
    /// never reaches native state: a silent no-op, not an error.
    fn set_window_border_width(&mut self, border_width: u32)
        ensures
            final(self)@ == (WindowState { border_width, ..old(self)@ }),
    ;

    /// Toggles native chrome in place — style-bit mutation, never a
    /// destroy-and-recreate.
    fn set_undecorated(&mut self, undecorated: bool)
        ensures
            final(self)@ == spec_set_undecorated(old(self)@, undecorated),
    ;

    /// Minimizing unmaps the window; un-minimizing maps it. Idempotent.
    fn set_minimized(&mut self, minimized: bool)
        ensures
            final(self)@ == spec_set_visible(old(self)@, !minimized),
    ;

    /// Maximizing shares the minimize semantics: no distinct maximize
    /// geometry is computed. Idempotent.
    fn set_maximized(&mut self, maximized: bool)
        ensures
            final(self)@ == spec_set_visible(old(self)@, !maximized),
    ;

    /// Maps the window. Idempotent.
    fn show(&mut self)
        ensures
            final(self)@ == spec_set_visible(old(self)@, true),
    ;

    /// Unmaps the window. Idempotent.
    fn hide_window(&mut self)
        ensures
            final(self)@ == spec_set_visible(old(self)@, false),
    ;

    /// Queries the live window position.
    fn get_window_pos(&self) -> (r: (u32, u32))
        requires
            0 <= self@.x,
            0 <= self@.y,
        ensures
            r.0 == self@.x as u32,
            r.1 == self@.y as u32,
    ;

    /// Queries the live window size, reflecting any out-of-band resize.
    fn get_window_size(&self) -> (r: (u32, u32))
        ensures
            r.0 == self@.width,
            r.1 == self@.height,
    ;
}

/// The window: one logical window over the platform primitive, with the
/// primitive's state as its own.
///
/// Single-threaded, cooperative use is a usage precondition of the whole
/// abstraction, not enforced by locking: construction, the mutators and the
/// event loop are meant to run on one thread, and the loop yields only
/// through the per-event callback, which runs to completion before the next
/// message is retrieved.
pub struct Window {
    pub inner: RawWindow,
}

impl View for Window {
    type V = WindowState;

    open spec fn view(&self) -> WindowState {
        self.inner@
    }
}

impl Window {
    /// Wraps a constructed platform primitive.
    pub fn new(raw: RawWindow) -> (r: Window)
        ensures
            r@ == raw@,
    {
        Window { inner: raw }
    }

    /// Runs the event loop; see the platform primitive's event loop for the
    /// full guarantee over the delivery log.
    pub fn run<H: EventHandler>(&mut self, handler: &mut H) -> (r: (
        ControlFlow,
        Ghost<Seq<WindowEvent>>,
    ))
        ensures
            exists|k: int| spec_run_outcome(old(self)@, final(self)@, r.0, r.1@, k),
    {
        let r = self.inner.run(handler);
        proof {
            let k = choose|k: int| spec_run_outcome(old(self).inner@, self.inner@, r.0, r.1@, k);
            assert(spec_run_outcome(old(self)@, self@, r.0, r.1@, k));
        }
        r
    }

    /// A transient view of the native identity.
    pub fn get_instance(&self) -> (r: WindowInstance)
        ensures
            r.window == self@.handle.window,
            r.display == self@.handle.display,
    {
        self.inner.get_instance()
    }

    /// Replaces the window title.
    pub fn set_window_title(&mut self, title: &str)
        ensures
            final(self)@ == (WindowState { title: title@, ..old(self)@ }),
    {
        self.inner.set_window_title(title);
    }

    /// Adjusts the extended frame margin applied at the next creation-time
    /// frame setup.
    pub fn set_window_border_width(&mut self, border_width: u32)
        ensures
            final(self)@ == (WindowState { border_width, ..old(self)@ }),
    {
        self.inner.set_window_border_width(border_width);
    }

    /// Toggles native chrome in place.
    pub fn set_undecorated(&mut self, undecorated: bool)
        ensures
            final(self)@ == spec_set_undecorated(old(self)@, undecorated),
    {
        self.inner.set_undecorated(undecorated);
    }

    /// Maximizing shares the minimize semantics: the window is unmapped or
    /// mapped, no maximize geometry is computed.
    pub fn set_maximized(&mut self, maximized: bool)
        ensures
            final(self)@ == spec_set_visible(old(self)@, !maximized),
    {
        self.inner.set_maximized(maximized);
    }

    /// Minimizing unmaps the window; un-minimizing maps it.
    pub fn set_minimized(&mut self, minimized: bool)
        ensures
            final(self)@ == spec_set_visible(old(self)@, !minimized),
    {
        self.inner.set_minimized(minimized);
    }

    /// Maps the window. Idempotent.
    pub fn show(&mut self)
        ensures
            final(self)@ == spec_set_visible(old(self)@, true),
    {
        self.inner.show();
    }

    /// Unmaps the window. Idempotent.
    pub fn hide_window(&mut self)
        ensures
            final(self)@ == spec_set_visible(old(self)@, false),
    {
        self.inner.hide_window();
    }

    /// Queries the live window position.
    pub fn get_window_pos(&self) -> (r: (u32, u32))
        requires
            0 <= self@.x,
            0 <= self@.y,
        ensures
            r.0 == self@.x as u32,
            r.1 == self@.y as u32,
    {
        self.inner.get_window_pos()
    }

    /// Queries the live window size.
    pub fn get_window_size(&self) -> (r: (u32, u32))
        ensures
            r.0 == self@.width,
            r.1 == self@.height,
    {
        self.inner.get_window_size()
    }

    /// Reads the current title.
    pub fn get_window_title(&self) -> (r: &str)
        ensures
            r@ == self@.title,
    {
        self.inner.get_window_title()
    }

    /// Whether the window is currently mapped.
    pub fn is_visible(&self) -> (r: bool)
        ensures
            r == self@.mapped,
    {
        self.inner.is_visible()
    }

    /// The current native style.
    pub fn get_style(&self) -> (r: WindowStyle)
        ensures
            r == self@.style,
    {
        self.inner.get_style()
    }

    /// The extended frame margin currently applied.
    pub fn get_frame_margin(&self) -> (r: u32)
        ensures
            r == self@.frame_margin,
    {
        self.inner.get_frame_margin()
    }

    /// Exports the native handle bundle for external surface interop.
    pub fn raw_window_handle(&self) -> (r: WindowHandle)
        ensures
            r == self@.handle,
    {
        self.inner.raw_window_handle()
    }

    /// Queues one native message batch for the event loop to retrieve.
    pub fn post_message(&mut self, message: NativeMessage)
        ensures
            final(self)@ == (WindowState {
                pending: old(self)@.pending.push(message),
                ..old(self)@
            }),
    {
        self.inner.post_message(message);
    }
}

/// The builder's accumulated construction parameters.
#[verifier::ext_equal]
pub struct BuilderState {
    pub title: Seq<char>,
    pub width: u32,
    pub height: u32,
    pub border_width: u32,
    pub x: i32,
    pub y: i32,
    pub undecorated: bool,
}

/// Accumulates construction parameters through chained setters — no field is
/// validated at set time — and produces the window. Consumed by `build`.
pub struct WindowBuilder<A: WindowBuildAction> {
    pub title: String,
    pub width: u32,
    pub height: u32,
    pub border_width: u32,
    pub x: i32,
    pub y: i32,
    pub undecorated: bool,
    pub build_action: A,
}

impl<A: WindowBuildAction> View for WindowBuilder<A> {
    type V = BuilderState;

    open spec fn view(&self) -> BuilderState {
        BuilderState {
            title: self.title@,
            width: self.width,
            height: self.height,
            border_width: self.border_width,
            x: self.x,
            y: self.y,
            undecorated: self.undecorated,
        }
    }
}

/// The defaults a fresh builder starts from: an empty title, a 100 by 100
/// window at the origin, no border, decorated.
pub open spec fn spec_builder_defaults() -> BuilderState {
    BuilderState {
        title: Seq::<char>::empty(),
        width: 100,
        height: 100,
        border_width: 0,
        x: 0,
        y: 0,
        undecorated: false,
    }
}

impl<A: WindowBuildAction> WindowBuilder<A> {
    /// A fresh builder holding the given build action and the defaults.
    pub fn new(build_action: A) -> (r: Self)
        ensures
            r@ == spec_builder_defaults(),
            r.build_action == build_action,
    {
        Self {
            title: String::new(),
            width: 100,
            height: 100,
            border_width: 0,
            x: 0,
            y: 0,
            undecorated: false,
            build_action,
        }
    }

    /// Sets the title.
    pub fn title(self, title: &str) -> (r: Self)
        ensures
            r@ == (BuilderState { title: title@, ..self@ }),
            r.build_action == self.build_action,
    {
        Self { title: title.to_owned(), ..self }
    }

    /// Sets the width.
    pub fn width(self, width: u32) -> (r: Self)
        ensures
            r@ == (BuilderState { width, ..self@ }),
            r.build_action == self.build_action,
    {
        Self { width, ..self }
    }

    /// Sets the height.
    pub fn height(self, height: u32) -> (r: Self)
        ensures
            r@ == (BuilderState { height, ..self@ }),
            r.build_action == self.build_action,
    {
        Self { height, ..self }
    }

    /// Sets the horizontal position.
    pub fn x(self, x: i32) -> (r: Self)
        ensures
            r@ == (BuilderState { x, ..self@ }),
            r.build_action == self.build_action,
    {
        Self { x, ..self }
    }

    /// Sets the vertical position.
    pub fn y(self, y: i32) -> (r: Self)
        ensures
            r@ == (BuilderState { y, ..self@ }),
            r.build_action == self.build_action,
    {
        Self { y, ..self }
    }

    /// Sets the border width.
    pub fn border_width(self, border_width: u32) -> (r: Self)
        ensures
            r@ == (BuilderState { border_width, ..self@ }),
            r.build_action == self.build_action,
    {
        Self { border_width, ..self }
    }

    /// Sets the undecorated flag.
    pub fn undecorated(self, undecorated: bool) -> (r: Self)
        ensures
            r@ == (BuilderState { undecorated, ..self@ }),
            r.build_action == self.build_action,
    {
        Self { undecorated, ..self }
    }

    /// Consumes the builder and produces the window: the platform primitive
    /// is constructed under the build-action hook protocol, and if the
    /// undecorated flag was set, decorations are stripped immediately after.
    /// On the normal-creation path the window carries this builder's title
    /// and geometry; on the adoption path it wraps the hook's handle. The
    /// hook-call record says which path ran; the post-creation hook runs
    /// exactly once on the first and never on the second.
    pub fn build(self) -> (r: Window)
        ensures
            ({
                let s = r@;
                &&& s.x == self@.x
                &&& s.y == self@.y
                &&& s.width == self@.width
                &&& s.height == self@.height
                &&& s.border_width == self@.border_width
                &&& s.frame_margin == 0
                &&& s.mapped == false
                &&& s.style == (if self@.undecorated {
                    WindowStyle::PopupBorder
                } else {
                    WindowStyle::Overlapped
                })
                &&& s.corner == (if self@.undecorated {
                    CornerPreference::RoundSmall
                } else {
                    CornerPreference::Default
                })
                &&& s.pending == Seq::<NativeMessage>::empty()
                &&& s.handle.wf()
                &&& match self.build_action.overrides() {
                    Some(h) => {
                        &&& s.handle == h
                        &&& s.origin == HandleOrigin::Adopted
                        &&& s.title == Seq::<char>::empty()
                        &&& s.hook_calls == spec_adoption_hook_calls()
                    },
                    None => {
                        &&& s.origin == HandleOrigin::Created
                        &&& s.title == self@.title
                        &&& s.hook_calls == spec_creation_hook_calls(s.handle)
                    },
                }
            }),
    {
        let WindowBuilder { title, width, height, border_width, x, y, undecorated, build_action } =
            self;
        let mut build_action = build_action;
        let raw = RawWindow::new(title, width, height, x, y, border_width, &mut build_action);
        let mut window = Window::new(raw);
        if undecorated {
            window.set_undecorated(true);
        }
        window
    }
}

} // verus!

