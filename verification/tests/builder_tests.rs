//! Builder, construction-hook protocol, and platform selection.
use gwl::window::backend::{HandleOrigin, WindowStyle};
use gwl::window::{
    AdoptHandleAction, DefWindowBuildAction, IWindow, Window, WindowBuildAction, WindowBuilder,
    WindowHandle, WindowInstance,
};
use gwl::{get_platform, BuildOs, Platform};

/// A build action that counts every hook invocation and remembers the
/// instance handed to `window_created`.
struct CountingAction {
    pre_init_calls: usize,
    override_calls: usize,
    created_calls: usize,
    last_instance: Option<(u64, u64)>,
    adopt: Option<WindowHandle>,
}

impl CountingAction {
    fn new(adopt: Option<WindowHandle>) -> Self {
        CountingAction {
            pre_init_calls: 0,
            override_calls: 0,
            created_calls: 0,
            last_instance: None,
            adopt,
        }
    }
}

impl WindowBuildAction for CountingAction {
    fn overrides(&self) -> Option<WindowHandle> {
        self.adopt
    }

    fn pre_init(&mut self) {
        self.pre_init_calls += 1;
    }

    fn override_window_handle(&mut self) -> Option<WindowHandle> {
        self.override_calls += 1;
        self.adopt
    }

    fn window_created(&mut self, instance: &WindowInstance) {
        self.created_calls += 1;
        self.last_instance = Some((instance.window, instance.display));
    }
}

#[test]
fn builder_defaults() {
    let window = WindowBuilder::new(DefWindowBuildAction).build();
    assert_eq!(window.get_window_size(), (100, 100));
    assert_eq!(window.get_window_pos(), (0, 0));
    assert_eq!(window.get_window_title(), "");
    assert_eq!(window.get_style(), WindowStyle::Overlapped);
    assert_eq!(window.get_frame_margin(), 0);
    assert!(!window.is_visible());
}

#[test]
fn builder_setters_accumulate() {
    let window = WindowBuilder::new(DefWindowBuildAction)
        .title("hello")
        .width(640)
        .height(480)
        .x(12)
        .y(34)
        .border_width(3)
        .build();
    assert_eq!(window.get_window_title(), "hello");
    assert_eq!(window.get_window_size(), (640, 480));
    assert_eq!(window.get_window_pos(), (12, 34));
}

#[test]
fn build_round_trips_title() {
    let window = WindowBuilder::new(DefWindowBuildAction)
        .title("a window title")
        .build();
    assert_eq!(window.get_window_title(), "a window title");
}

#[test]
fn build_undecorated_applies_style() {
    let window = WindowBuilder::new(DefWindowBuildAction).undecorated(true).build();
    assert_eq!(window.get_style(), WindowStyle::PopupBorder);
    let decorated = WindowBuilder::new(DefWindowBuildAction).undecorated(false).build();
    assert_eq!(decorated.get_style(), WindowStyle::Overlapped);
}

#[test]
fn override_handle_is_exported_unchanged() {
    let foreign = WindowHandle { window: 4242, display: 77 };
    let window = WindowBuilder::new(AdoptHandleAction { handle: foreign }).build();
    assert_eq!(window.raw_window_handle(), foreign);
    assert_eq!(window.inner.origin, HandleOrigin::Adopted);
}

#[test]
fn override_skips_window_created() {
    let foreign = WindowHandle { window: 9, display: 3 };
    let mut action = CountingAction::new(Some(foreign));
    let raw = gwl::window::RawWindow::new(String::from("ignored"), 10, 10, 0, 0, 0, &mut action);
    let window = Window::new(raw);
    assert_eq!(action.pre_init_calls, 1);
    assert_eq!(action.override_calls, 1);
    assert_eq!(action.created_calls, 0);
    assert_eq!(window.raw_window_handle(), foreign);
    // No title is applied to an adopted handle.
    assert_eq!(window.get_window_title(), "");
}

#[test]
fn normal_creation_invokes_window_created_once_with_final_handle() {
    let mut action = CountingAction::new(None);
    let raw = gwl::window::RawWindow::new(String::from("made"), 10, 10, 0, 0, 0, &mut action);
    let window = Window::new(raw);
    assert_eq!(action.pre_init_calls, 1);
    assert_eq!(action.override_calls, 1);
    assert_eq!(action.created_calls, 1);
    let exported = window.raw_window_handle();
    assert_eq!(action.last_instance, Some((exported.window, exported.display)));
    assert_eq!(window.inner.origin, HandleOrigin::Created);
    assert_eq!(window.get_window_title(), "made");
}

#[test]
fn get_instance_matches_exported_handle() {
    let window = WindowBuilder::new(DefWindowBuildAction).build();
    let instance = window.get_instance();
    let handle = window.raw_window_handle();
    assert_eq!((instance.window, instance.display), (handle.window, handle.display));
}

#[test]
fn platform_selection_three_way() {
    assert_eq!(get_platform(BuildOs::Windows, false, false), Some(Platform::Windows));
    assert_eq!(get_platform(BuildOs::Macos, false, false), Some(Platform::Macos));
    assert_eq!(get_platform(BuildOs::Linux, true, true), Some(Platform::Wayland));
    assert_eq!(get_platform(BuildOs::Linux, false, true), Some(Platform::XLib));
    assert_eq!(get_platform(BuildOs::Linux, true, false), Some(Platform::Wayland));
    assert_eq!(get_platform(BuildOs::Linux, false, false), None);
}

#[test]
fn null_handle_is_not_adopted() {
    let window = WindowBuilder::new(AdoptHandleAction {
        handle: WindowHandle { window: 0, display: 5 },
    })
    .title("fresh")
    .build();
    // A null handle cannot back a window: normal creation ran instead.
    assert_eq!(window.inner.origin, HandleOrigin::Created);
    assert_ne!(window.raw_window_handle().window, 0);
    assert_eq!(window.get_window_title(), "fresh");
}
