//! The window collaborator as the renderer sees it: sizes, lifecycle flags,
//! native handles, and the events that window messages turn into.
use vstd::prelude::*;

use crate::keycodes::{to_keycode, KeyCode};

verus! {

// The Windows message numbers that the window procedure acts on.
pub const WM_DESTROY: u32 = 0x0002;
pub const WM_SIZE: u32 = 0x0005;
pub const WM_CLOSE: u32 = 0x0010;
pub const WM_KEYDOWN: u32 = 0x0100;
pub const WM_KEYUP: u32 = 0x0101;
pub const WM_MOUSEMOVE: u32 = 0x0200;
pub const WM_LBUTTONDOWN: u32 = 0x0201;
pub const WM_LBUTTONUP: u32 = 0x0202;
pub const WM_RBUTTONDOWN: u32 = 0x0204;
pub const WM_RBUTTONUP: u32 = 0x0205;
pub const WM_MOUSEWHEEL: u32 = 0x020A;

/// A size in physical pixels.
#[derive(Debug, Default, Clone, Copy, PartialEq, Eq, Structural, PartialOrd, Ord, Hash)]
pub struct PhysicalSize {
    pub x: u32,
    pub y: u32,
}

#[derive(Debug, PartialEq, Eq, Structural, Clone, Copy)]
pub enum MouseButton {
    Left,
    Right,
    Middle,
}

#[derive(Debug, PartialEq, Eq, Structural, Clone, Copy)]
pub enum MouseEvent {
    Move { x: i32, y: i32 },
    Button { pressed: bool, button: MouseButton },
    Wheel,
}

#[derive(Debug, PartialEq, Eq, Structural, Clone, Copy)]
pub enum WindowEvent {
    Mouse { event: MouseEvent },
    Key { pressed: bool, key: KeyCode },
    Resize,
    Close,
}

/// What the window procedure has gathered since the events were last taken.
pub struct WindowInternal {
    pub initialized: bool,
    pub destroyed: bool,
    pub outer_size: PhysicalSize,
    pub inner_size: PhysicalSize,
    pub hinstance: isize,
    pub hwnd: isize,
    pub events: Vec<WindowEvent>,
}

/// A window, with the events of the last update.
pub struct Window {
    pub title: String,
    pub outer_size: PhysicalSize,
    pub inner_size: PhysicalSize,
    pub events: Vec<WindowEvent>,
    pub exists: bool,
    pub internal: Box<WindowInternal>,
}

/// How the window procedure answers a message.
#[derive(Debug, PartialEq, Eq, Structural, Clone, Copy)]
pub struct MessageResponse {
    /// The value to return, or `None` to hand the message to the default procedure.
    pub result: Option<isize>,
    /// Whether to post the quit message.
    pub post_quit: bool,
}

pub open spec fn low_word(v: u32) -> u32 {
    v & 0xffff
}

pub open spec fn high_word(v: u32) -> u32 {
    (v >> 16u32) & 0xffff
}

pub open spec fn has_resize(events: Seq<WindowEvent>) -> bool {
    events.contains(WindowEvent::Resize)
}

/// The event, if any, that a message adds; `wparam` (a virtual-key code)
/// and `lparam` (packed coordinates) are read as the message defines them.
pub open spec fn message_event(message: u32, wparam: usize, lparam: isize) -> Option<WindowEvent> {
    if message == WM_SIZE {
        Some(WindowEvent::Resize)
    } else if message == WM_KEYDOWN {
        Some(WindowEvent::Key { pressed: true, key: keycode_of(wparam as u32) })
    } else if message == WM_KEYUP {
        Some(WindowEvent::Key { pressed: false, key: keycode_of(wparam as u32) })
    } else if message == WM_LBUTTONDOWN {
        Some(WindowEvent::Mouse { event: MouseEvent::Button { pressed: true, button: MouseButton::Left } })
    } else if message == WM_LBUTTONUP {
        Some(WindowEvent::Mouse { event: MouseEvent::Button { pressed: false, button: MouseButton::Left } })
    } else if message == WM_RBUTTONDOWN {
        Some(WindowEvent::Mouse { event: MouseEvent::Button { pressed: true, button: MouseButton::Right } })
    } else if message == WM_RBUTTONUP {
        Some(WindowEvent::Mouse { event: MouseEvent::Button { pressed: false, button: MouseButton::Right } })
    } else if message == WM_MOUSEMOVE {
        Some(WindowEvent::Mouse { event: MouseEvent::Move {
            x: (lparam as i32) & 0xffff,
            y: ((lparam as i32) >> 16i32) & 0xffff,
        } })
    } else if message == WM_MOUSEWHEEL {
        Some(WindowEvent::Mouse { event: MouseEvent::Wheel })
    } else if message == WM_CLOSE {
        Some(WindowEvent::Close)
    } else {
        None
    }
}

pub open spec fn keycode_of(code: u32) -> KeyCode {
    if code == crate::keycodes::KEY_0 {
        KeyCode::Key0
    } else if code == crate::keycodes::KEY_1 {
        KeyCode::Key1
    } else {
        KeyCode::Undefined
    }
}

/// The low 16 bits of a message parameter.
pub fn get_loword(lparam: u32) -> (r: u32)
    ensures
        r == low_word(lparam),
{
    lparam & 0xffff
}

/// Bits 16 to 31 of a message parameter.
pub fn get_hiword(lparam: u32) -> (r: u32)
    ensures
        r == high_word(lparam),
{
    (lparam >> 16) & 0xffff
}

/// The x coordinate packed in a mouse message's parameter.
pub fn get_x_lparam(lparam: i32) -> (r: i32)
    ensures
        r == lparam & 0xffff,
        0 <= r < 0x10000,
{
    let r = lparam & 0xffff;
    assert(0 <= lparam & 0xffff < 0x10000) by (bit_vector);
    r
}

/// The y coordinate packed in a mouse message's parameter.
pub fn get_y_lparam(lparam: i32) -> (r: i32)
    ensures
        r == (lparam >> 16i32) & 0xffff,
        0 <= r < 0x10000,
{
    let r = (lparam >> 16) & 0xffff;
    assert(0 <= (lparam >> 16i32) & 0xffff < 0x10000) by (bit_vector);
    r
}

impl PhysicalSize {
    pub fn new(x: u32, y: u32) -> (r: Self)
        ensures
            r.x == x && r.y == y,
    {
        PhysicalSize { x, y }
    }

    /// The size packed in a resize message's parameter: width in the low
    /// word, height in the high word.
    pub fn from_lparam(lparam: isize) -> (r: Self)
        ensures
            r.x == low_word(lparam as u32),
            r.y == high_word(lparam as u32),
    {
        let x = get_loword(lparam as u32);
        let y = get_hiword(lparam as u32);
        PhysicalSize { x, y }
    }
}

impl WindowInternal {
    /// Nothing gathered yet: not created, no handles, no events.
    pub fn new() -> (r: Self)
        ensures
            !r.initialized && !r.destroyed,
            r.hinstance == 0 && r.hwnd == 0,
            r.events@.len() == 0,
            r.outer_size == (PhysicalSize { x: 0, y: 0 }),
            r.inner_size == (PhysicalSize { x: 0, y: 0 }),
    {
        WindowInternal {
            initialized: false,
            destroyed: false,
            outer_size: PhysicalSize { x: 0, y: 0 },
            inner_size: PhysicalSize { x: 0, y: 0 },
            hinstance: 0,
            hwnd: 0,
            events: Vec::new(),
        }
    }

    /// Takes one window message. A resize also records the new inner size
    /// and the window's outer size (`outer_size`, where it could be read).
    pub fn handle_message(
        &mut self,
        message: u32,
        wparam: usize,
        lparam: isize,
        outer_size: Option<PhysicalSize>,
    ) -> (r: MessageResponse)
        ensures
            message_event(message, wparam, lparam) matches Some(e) ==> final(self).events@ == old(
                self,
            ).events@.push(e),
            message_event(message, wparam, lparam) is None ==> final(self).events@ == old(
                self,
            ).events@,
            final(self).destroyed == (old(self).destroyed || message == WM_CLOSE || message
                == WM_DESTROY),
            message == WM_SIZE ==> final(self).inner_size == PhysicalSize::spec_from_lparam(lparam),
            message != WM_SIZE ==> final(self).inner_size == old(self).inner_size,
            final(self).outer_size == (if message == WM_SIZE && outer_size is Some {
                outer_size->Some_0
            } else {
                old(self).outer_size
            }),
            final(self).initialized == old(self).initialized,
            final(self).hwnd == old(self).hwnd,
            final(self).hinstance == old(self).hinstance,
            r.post_quit == (message == WM_CLOSE || message == WM_DESTROY),
            r.result == (if message == WM_MOUSEMOVE || message == WM_MOUSEWHEEL || message
                == WM_CLOSE || message == WM_DESTROY {
                Some(0isize)
            } else {
                None::<isize>
            }),
    {
        if message == WM_SIZE {
            self.inner_size = PhysicalSize::from_lparam(lparam);
            match outer_size {
                Some(size) => {
                    self.outer_size = size;
                },
                None => {},
            }
            self.events.push(WindowEvent::Resize);
            MessageResponse { result: None, post_quit: false }
        } else if message == WM_KEYDOWN {
            self.events.push(WindowEvent::Key { pressed: true, key: to_keycode(wparam as u32) });
            MessageResponse { result: None, post_quit: false }
        } else if message == WM_KEYUP {
            self.events.push(WindowEvent::Key { pressed: false, key: to_keycode(wparam as u32) });
            MessageResponse { result: None, post_quit: false }
        } else if message == WM_LBUTTONDOWN {
            self.events.push(
                WindowEvent::Mouse {
                    event: MouseEvent::Button { pressed: true, button: MouseButton::Left },
                },
            );
            MessageResponse { result: None, post_quit: false }
        } else if message == WM_LBUTTONUP {
            self.events.push(
                WindowEvent::Mouse {
                    event: MouseEvent::Button { pressed: false, button: MouseButton::Left },
                },
            );
            MessageResponse { result: None, post_quit: false }
        } else if message == WM_RBUTTONDOWN {
            self.events.push(
                WindowEvent::Mouse {
                    event: MouseEvent::Button { pressed: true, button: MouseButton::Right },
                },
            );
            MessageResponse { result: None, post_quit: false }
        } else if message == WM_RBUTTONUP {
            self.events.push(
                WindowEvent::Mouse {
                    event: MouseEvent::Button { pressed: false, button: MouseButton::Right },
                },
            );
            MessageResponse { result: None, post_quit: false }
        } else if message == WM_MOUSEMOVE {
            let x = get_x_lparam(lparam as i32);
            let y = get_y_lparam(lparam as i32);
            self.events.push(WindowEvent::Mouse { event: MouseEvent::Move { x, y } });
            MessageResponse { result: Some(0), post_quit: false }
        } else if message == WM_MOUSEWHEEL {
            self.events.push(WindowEvent::Mouse { event: MouseEvent::Wheel });
            MessageResponse { result: Some(0), post_quit: false }
        } else if message == WM_CLOSE {
            self.events.push(WindowEvent::Close);
            self.destroyed = true;
            MessageResponse { result: Some(0), post_quit: true }
        } else if message == WM_DESTROY {
            self.destroyed = true;
            MessageResponse { result: Some(0), post_quit: true }
        } else {
            MessageResponse { result: None, post_quit: false }
        }
    }
}

impl PhysicalSize {
    pub open spec fn spec_from_lparam(lparam: isize) -> PhysicalSize {
        PhysicalSize { x: low_word(lparam as u32), y: high_word(lparam as u32) }
    }
}

impl Window {
    /// A window still to be created, of the given outer and inner size.
    pub fn new(title: String, width: u32, height: u32) -> (r: Self)
        ensures
            r.title@ == title@,
            r.outer_size == (PhysicalSize { x: width, y: height }),
            r.inner_size == (PhysicalSize { x: width, y: height }),
            r.events@.len() == 0,
            r.exists,
            !r.internal.initialized && !r.internal.destroyed,
            r.internal.hwnd == 0 && r.internal.hinstance == 0,
            r.internal.events@.len() == 0,
    {
        Window {
            title,
            outer_size: PhysicalSize::new(width, height),
            inner_size: PhysicalSize::new(width, height),
            events: Vec::new(),
            exists: true,
            internal: Box::new(WindowInternal::new()),
        }
    }

    pub fn hwnd(&self) -> (r: isize)
        ensures
            r == self.internal.hwnd,
    {
        self.internal.hwnd
    }

    pub fn hinstance(&self) -> (r: isize)
        ensures
            r == self.internal.hinstance,
    {
        self.internal.hinstance
    }
}

/// Moves what the window procedure gathered into the window: the events
/// since the last update, the current sizes, and whether it still exists.
pub fn update_window_state(window: &mut Window)
    ensures
        final(window).events@ == old(window).internal.events@,
        final(window).internal.events@.len() == 0,
        final(window).inner_size == old(window).internal.inner_size,
        final(window).outer_size == old(window).internal.outer_size,
        final(window).exists == (old(window).exists && !old(window).internal.destroyed),
        final(window).title == old(window).title,
        final(window).internal.initialized == old(window).internal.initialized,
        final(window).internal.destroyed == old(window).internal.destroyed,
        final(window).internal.hwnd == old(window).internal.hwnd,
        final(window).internal.hinstance == old(window).internal.hinstance,
        final(window).internal.inner_size == old(window).internal.inner_size,
        final(window).internal.outer_size == old(window).internal.outer_size,
{
    let mut gathered: Vec<WindowEvent> = Vec::new();
    std::mem::swap(&mut gathered, &mut window.internal.events);
    window.events = gathered;
    window.inner_size = window.internal.inner_size;
    window.outer_size = window.internal.outer_size;
    if window.internal.destroyed {
        window.exists = false;
    }
}

/// Whether the events hold a resize.
pub fn contains_resize(events: &Vec<WindowEvent>) -> (r: bool)
    ensures
        r == has_resize(events@),
{
    let mut i: usize = 0;
    while i < events.len()
        invariant
            i <= events@.len(),
            forall|j: int| 0 <= j < i ==> events@[j] != WindowEvent::Resize,
        decreases events@.len() - i,
    {
        if events[i] == WindowEvent::Resize {
            assert(events@[i as int] == WindowEvent::Resize);
            return true;
        }
        i = i + 1;
    }
    false
}

} // verus!
