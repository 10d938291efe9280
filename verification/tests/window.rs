use window_core::error::WindowError;
use window_core::event::Event;
use window_core::geometry::{Placement, Rect};
use window_core::input::{Key, MouseButton};
use window_core::message::Notification;
use window_core::registry::ClassRegistry;
use window_core::router::{PlatformAction, Reply};
use window_core::style::{Style, StyleChange, StyleError, StyleRequest, SWP_NOMOVE};
use window_core::window::{CreateParams, NativeHandle, WindowImpl, DEFAULT_STYLE};

fn registered() -> ClassRegistry {
    let mut registry = ClassRegistry::new();
    assert_eq!(registry.register(0xC123, 0), Ok(0xC123));
    registry
}

fn window(registry: &mut ClassRegistry, width: u32, height: u32) -> WindowImpl {
    WindowImpl::new(width, height, 0x0004_0A2C, 0, registry).unwrap()
}

#[test]
fn create_800_by_600_reports_client_size() {
    let mut registry = ClassRegistry::new();
    let params = CreateParams::new(800, 600, "Test");
    assert_eq!(params.client, Rect { left: 0, top: 0, right: 800, bottom: 600 });
    assert_eq!(params.style, 0x000A_0000);
    assert_eq!(params.title, vec![0x54, 0x65, 0x73, 0x74, 0]);

    assert_eq!(registry.class_atom(), None);
    assert_eq!(registry.register(0xC123, 0), Ok(0xC123));
    let adjusted = Rect { left: -8, top: -31, right: 808, bottom: 608 };
    let placement = Placement::centered(adjusted, 1920, 1080).unwrap();
    assert_eq!((placement.width, placement.height), (816, 639));

    let window = WindowImpl::new(800, 600, 0x0004_0A2C, 0, &mut registry).unwrap();
    assert_eq!(window.client_size(), (800, 600));
    assert_eq!(window.handle(), 0x0004_0A2C);
    assert!(!window.close_requested());
    assert!(window.events().is_empty());
    assert_eq!(registry.live_windows(), 1);
}

#[test]
fn default_style_is_regular() {
    assert_eq!(DEFAULT_STYLE, Style::Regular);
}

#[test]
fn create_limits_client_size() {
    let params = CreateParams::new(u32::MAX, 0x8000_0000, "");
    assert_eq!(params.client, Rect { left: 0, top: 0, right: i32::MAX, bottom: i32::MAX });
    let mut registry = registered();
    let window = window(&mut registry, u32::MAX, 0x8000_0000);
    assert_eq!(window.client_size(), (i32::MAX, i32::MAX));
}

#[test]
fn create_without_handle_fails_with_code() {
    let mut registry = registered();
    let failed = WindowImpl::new(800, 600, 0, 1407, &mut registry);
    assert_eq!(failed.err(), Some(WindowError::WindowCreationFailed(1407)));
    assert_eq!(registry.live_windows(), 0);
    assert_eq!(registry.class_atom(), Some(0xC123));
}

#[test]
fn native_handle_is_never_zero() {
    assert!(NativeHandle::new(0).is_none());
    assert_eq!(NativeHandle::new(7).map(|handle| handle.get()), Some(7));
}

#[test]
fn request_close_is_seen_and_queues_nothing() {
    let mut registry = registered();
    let mut window = window(&mut registry, 640, 480);
    window.begin_poll();
    window.request_close();
    assert!(window.close_requested());
    assert!(window.events().is_empty());
}

#[test]
fn second_poll_without_activity_is_empty() {
    let mut registry = registered();
    let mut window = window(&mut registry, 640, 480);
    let pending = [Notification::KeyDown(0x41), Notification::Size(10, 20)];
    window.process_events(&pending);
    assert_eq!(window.events(), &vec![Event::KeyboardDown(Key::A), Event::Resize(10, 20)]);
    let replies = window.process_events(&[]);
    assert!(replies.is_empty());
    assert!(window.events().is_empty());
    window.process_events(&[]);
    assert!(window.events().is_empty());
}

#[test]
fn poll_of_resizes_yields_one_event() {
    let mut registry = registered();
    let mut window = window(&mut registry, 640, 480);
    window.process_events(&[Notification::ButtonDown(MouseButton::Left)]);
    let pending: Vec<Notification> = (1..=9u32)
        .map(|i| if i % 2 == 0 { Notification::Size(i, i * 2) } else { Notification::Sizing(i, i * 2) })
        .collect();
    let replies = window.process_events(&pending);
    assert_eq!(replies, vec![Reply::Forward; 9]);
    assert_eq!(window.events(), &vec![Event::Resize(9, 18)]);
    assert_eq!(window.client_size(), (640, 480));
}

#[test]
fn poll_answers_each_notification_in_order() {
    let mut registry = registered();
    let mut window = window(&mut registry, 640, 480);
    let pending = [
        Notification::Paint,
        Notification::ButtonDown(MouseButton::Left),
        Notification::Other,
        Notification::Wheel(-120),
        Notification::ButtonUp(MouseButton::Left),
        Notification::EraseBackground,
        Notification::Close,
    ];
    let replies = window.process_events(&pending);
    assert_eq!(
        replies,
        vec![
            Reply::Handled { action: PlatformAction::ValidatePaint, result: 0 },
            Reply::Handled { action: PlatformAction::Capture, result: 0 },
            Reply::Forward,
            Reply::Handled { action: PlatformAction::Nothing, result: 0 },
            Reply::Handled { action: PlatformAction::ReleaseCapture, result: 0 },
            Reply::Handled { action: PlatformAction::Nothing, result: 1 },
            Reply::Handled { action: PlatformAction::Nothing, result: 0 },
        ]
    );
    assert_eq!(
        window.events(),
        &vec![
            Event::MouseButtonDown(MouseButton::Left),
            Event::MouseWheelDown,
            Event::MouseButtonUp(MouseButton::Left),
        ]
    );
    assert!(window.close_requested());
}

#[test]
fn route_outside_a_poll_is_dropped_by_the_next_poll() {
    let mut registry = registered();
    let mut window = window(&mut registry, 640, 480);
    assert_eq!(window.route(Notification::Size(1, 1)), Reply::Forward);
    assert_eq!(window.events(), &vec![Event::Resize(1, 1)]);
    window.begin_poll();
    assert!(window.events().is_empty());
}

#[test]
fn style_request_keeps_client_rectangle() {
    let mut registry = registered();
    let window = window(&mut registry, 800, 600);
    let client = Rect { left: 0, top: 0, right: 800, bottom: 600 };
    assert_eq!(window.client_rect(), client);
    assert_eq!(
        window.style_request(Style::Resizable),
        Ok(StyleRequest { flags: 0x00CF_0000, client })
    );
    assert_eq!(
        window.style_request(Style::Borderless),
        Ok(StyleRequest { flags: 0x8000_0000, client })
    );
    assert_eq!(window.style_request(Style::Undecorated), Ok(StyleRequest { flags: 0, client }));
    assert_eq!(window.client_size(), (800, 600));
}

#[test]
fn style_request_refuses_borderless_fullscreen() {
    let mut registry = registered();
    let window = window(&mut registry, 800, 600);
    assert_eq!(window.style_request(Style::BorderlessFullscreen), Err(StyleError::Unsupported));
}

#[test]
fn destroying_windows_unregisters_with_the_last() {
    let mut registry = registered();
    let first = window(&mut registry, 800, 600);
    let second = window(&mut registry, 320, 240);
    assert_eq!(registry.live_windows(), 2);
    assert_eq!(first.destroy(&mut registry), None);
    assert_eq!(registry.live_windows(), 1);
    assert_eq!(registry.class_atom(), Some(0xC123));
    assert_eq!(second.destroy(&mut registry), Some(0xC123));
    assert_eq!(registry.live_windows(), 0);
    assert_eq!(registry.class_atom(), None);
}

#[test]
fn style_change_takes_outer_size_and_keeps_position() {
    let mut registry = registered();
    let window = window(&mut registry, 800, 600);
    let request = window.style_request(Style::Resizable).unwrap();
    let adjusted = Rect { left: -8, top: -31, right: 808, bottom: 608 };
    assert_eq!(SWP_NOMOVE, 0x0002);
    assert_eq!(
        request.change(adjusted),
        Some(StyleChange { flags: 0x00CF_0000, width: 816, height: 639, position_flags: 0x0002 })
    );
    assert_eq!(window.client_size(), (800, 600));
}

#[test]
fn style_change_fails_when_size_does_not_fit() {
    let request = StyleRequest { flags: 0, client: Rect::client(i32::MAX, 1) };
    let adjusted = Rect { left: -8, top: 0, right: i32::MAX, bottom: 1 };
    assert_eq!(request.change(adjusted), None);
}
