use platform::context::check_window_handles;
use platform::error::VulkanError;
use platform::keycodes::{to_keycode, KeyCode, A_KEY, KEY_0, KEY_1};
use platform::renderer::Renderer;
use platform::window::{
    contains_resize, get_hiword, get_loword, get_x_lparam, get_y_lparam, update_window_state,
    MouseButton, MouseEvent, PhysicalSize, Window, WindowEvent, WM_CLOSE, WM_DESTROY, WM_KEYDOWN,
    WM_KEYUP, WM_LBUTTONDOWN, WM_MOUSEMOVE, WM_MOUSEWHEEL, WM_RBUTTONUP, WM_SIZE,
};

#[test]
fn keycodes() {
    assert_eq!(to_keycode(KEY_0), KeyCode::Key0);
    assert_eq!(to_keycode(0x31), KeyCode::Key1);
    assert_eq!(to_keycode(KEY_1 + 1), KeyCode::Undefined);
    assert_eq!(to_keycode(A_KEY), KeyCode::Undefined);
}

#[test]
fn words_of_a_parameter() {
    assert_eq!(get_loword(0x0258_0320), 800);
    assert_eq!(get_hiword(0x0258_0320), 600);
    assert_eq!(get_x_lparam(0x0010_0020), 0x20);
    assert_eq!(get_y_lparam(0x0010_0020), 0x10);
    assert_eq!(PhysicalSize::from_lparam(0x0258_0320), PhysicalSize::new(800, 600));
}

#[test]
fn messages_become_events() {
    let mut window = Window::new("game".to_string(), 400, 400);
    let outer = Some(PhysicalSize::new(816, 639));
    let r = window.internal.handle_message(WM_SIZE, 0, 0x0258_0320, outer);
    assert_eq!(r.result, None);
    assert!(!r.post_quit);
    assert_eq!(window.internal.inner_size, PhysicalSize::new(800, 600));
    assert_eq!(window.internal.outer_size, PhysicalSize::new(816, 639));
    window.internal.handle_message(WM_KEYDOWN, KEY_0 as usize, 0, None);
    window.internal.handle_message(WM_KEYUP, 0x99, 0, None);
    window.internal.handle_message(WM_LBUTTONDOWN, 0, 0, None);
    window.internal.handle_message(WM_RBUTTONUP, 0, 0, None);
    assert_eq!(window.internal.handle_message(WM_MOUSEMOVE, 0, 0x0005_0007, None).result, Some(0));
    assert_eq!(window.internal.handle_message(WM_MOUSEWHEEL, 0, 0, None).result, Some(0));
    assert_eq!(window.internal.handle_message(0x7FFF, 0, 0, None).result, None);
    assert_eq!(
        window.internal.events,
        vec![
            WindowEvent::Resize,
            WindowEvent::Key { pressed: true, key: KeyCode::Key0 },
            WindowEvent::Key { pressed: false, key: KeyCode::Undefined },
            WindowEvent::Mouse { event: MouseEvent::Button { pressed: true, button: MouseButton::Left } },
            WindowEvent::Mouse { event: MouseEvent::Button { pressed: false, button: MouseButton::Right } },
            WindowEvent::Mouse { event: MouseEvent::Move { x: 7, y: 5 } },
            WindowEvent::Mouse { event: MouseEvent::Wheel },
        ]
    );
    assert!(!window.internal.destroyed);

    update_window_state(&mut window);
    assert_eq!(window.events.len(), 7);
    assert!(contains_resize(&window.events));
    assert!(window.internal.events.is_empty());
    assert_eq!(window.inner_size, PhysicalSize::new(800, 600));
    assert_eq!(window.outer_size, PhysicalSize::new(816, 639));
    assert!(window.exists);
}

#[test]
fn close_destroys_the_window() {
    let mut window = Window::new("game".to_string(), 400, 400);
    let r = window.internal.handle_message(WM_CLOSE, 0, 0, None);
    assert_eq!(r.result, Some(0));
    assert!(r.post_quit);
    assert!(window.internal.destroyed);
    assert_eq!(window.internal.events, vec![WindowEvent::Close]);
    update_window_state(&mut window);
    assert!(!window.exists);
    assert!(!contains_resize(&window.events));

    let mut other = Window::new("other".to_string(), 10, 10);
    let r = other.internal.handle_message(WM_DESTROY, 0, 0, None);
    assert!(r.post_quit && other.internal.destroyed && other.internal.events.is_empty());
}

#[test]
fn handles_must_be_set() {
    let mut window = Window::new("game".to_string(), 400, 400);
    assert_eq!(window.hwnd(), 0);
    assert_eq!(check_window_handles(&window), Err(VulkanError::WindowNotInitialized));
    window.internal.hwnd = 42;
    assert_eq!(check_window_handles(&window), Err(VulkanError::WindowNotInitialized));
    window.internal.hinstance = 7;
    assert_eq!(window.hinstance(), 7);
    assert_eq!(check_window_handles(&window), Ok(()));
}

#[test]
fn renderer_resize() {
    let mut renderer = Renderer::default();
    assert_eq!((renderer.width, renderer.height), (0, 0));
    renderer.resize(1280, 720);
    assert_eq!((renderer.width, renderer.height), (1280, 720));
}
