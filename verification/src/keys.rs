//! From what the window system reports to input events.

use crate::state::{InputEvent, TargetWindow};
use crate::text::scalar_char;
use vstd::prelude::*;

verus! {

/// Virtual-key codes.
pub const KEY_BACKSPACE: u32 = 0x08;

pub const KEY_ENTER: u32 = 0x0D;

pub const KEY_CONTROL: u32 = 0x11;

pub const KEY_PAUSE: u32 = 0x13;

pub const KEY_ESCAPE: u32 = 0x1B;

pub const KEY_LEFT: u32 = 0x25;

pub const KEY_UP: u32 = 0x26;

pub const KEY_RIGHT: u32 = 0x27;

pub const KEY_DOWN: u32 = 0x28;

pub const KEY_DELETE: u32 = 0x2E;

/// How far below the caret the picker is shown.
pub const CARET_GAP: i32 = 4;

/// The event that the key with the code `code` stands for when it goes down.
pub open spec fn key_pressed(code: u32) -> Option<InputEvent> {
    if code == KEY_BACKSPACE {
        Some(InputEvent::Backspace)
    } else if code == KEY_DELETE {
        Some(InputEvent::DeleteForward)
    } else if code == KEY_ESCAPE {
        Some(InputEvent::Escape)
    } else if code == KEY_CONTROL {
        Some(InputEvent::ModifierPressed)
    } else if code == KEY_ENTER {
        Some(InputEvent::Confirm)
    } else if code == KEY_UP {
        Some(InputEvent::NavigateUp)
    } else if code == KEY_DOWN {
        Some(InputEvent::NavigateDown)
    } else if code == KEY_LEFT {
        Some(InputEvent::CursorLeft)
    } else if code == KEY_RIGHT {
        Some(InputEvent::CursorRight)
    } else if code == KEY_PAUSE {
        Some(InputEvent::Quit)
    } else {
        None
    }
}

/// The event that the key with the code `code` stands for when it goes up.
pub open spec fn key_released(code: u32) -> Option<InputEvent> {
    if code == KEY_CONTROL {
        Some(InputEvent::ModifierReleased)
    } else {
        None
    }
}

/// The event for a key that went down, if the picker knows the key.
pub fn key_down(code: u32) -> (event: Option<InputEvent>)
    ensures
        event == key_pressed(code),
{
    if code == KEY_BACKSPACE {
        Some(InputEvent::Backspace)
    } else if code == KEY_DELETE {
        Some(InputEvent::DeleteForward)
    } else if code == KEY_ESCAPE {
        Some(InputEvent::Escape)
    } else if code == KEY_CONTROL {
        Some(InputEvent::ModifierPressed)
    } else if code == KEY_ENTER {
        Some(InputEvent::Confirm)
    } else if code == KEY_UP {
        Some(InputEvent::NavigateUp)
    } else if code == KEY_DOWN {
        Some(InputEvent::NavigateDown)
    } else if code == KEY_LEFT {
        Some(InputEvent::CursorLeft)
    } else if code == KEY_RIGHT {
        Some(InputEvent::CursorRight)
    } else if code == KEY_PAUSE {
        Some(InputEvent::Quit)
    } else {
        None
    }
}

/// The event for a key that went up, if the picker knows the key.
pub fn key_up(code: u32) -> (event: Option<InputEvent>)
    ensures
        event == key_released(code),
{
    if code == KEY_CONTROL {
        Some(InputEvent::ModifierReleased)
    } else {
        None
    }
}

/// The event for a typed UTF-16 unit: the character it denotes by itself.
/// Half of a surrogate pair denotes none.
pub fn character_typed(unit: u16) -> (event: Option<InputEvent>)
    ensures
        event == match scalar_char(unit as nat) {
            Some(c) => Some(InputEvent::Character(c)),
            None => None,
        },
{
    match char::from_u32(unit as u32) {
        Some(c) => Some(InputEvent::Character(c)),
        None => None,
    }
}

/// The event for the hotkey, pressed while the window with the handle
/// `focus` had the focus; the handle zero stands for no window.
pub fn invoked(focus: usize) -> (event: InputEvent)
    ensures
        event == InputEvent::Invoke(
            if focus == 0 {
                None
            } else {
                Some(TargetWindow(focus))
            },
        ),
{
    if focus == 0 {
        InputEvent::Invoke(None)
    } else {
        InputEvent::Invoke(Some(TargetWindow(focus)))
    }
}

/// `value`, or the nearest number that a screen coordinate can hold.
pub open spec fn clamped(value: int) -> int {
    if value < i32::MIN {
        i32::MIN as int
    } else if value > i32::MAX {
        i32::MAX as int
    } else {
        value
    }
}

/// Where the picker is shown: at the caret's left edge and `CARET_GAP` below
/// its bottom edge. The caret is given relative to its window, the window and
/// the result on the screen.
pub fn popup_origin(window_left: i32, window_top: i32, caret_left: i32, caret_bottom: i32) -> (at: (
    i32,
    i32,
))
    ensures
        at.0 == clamped(window_left + caret_left),
        at.1 == clamped(window_top + caret_bottom + CARET_GAP),
{
    (
        clamp(window_left as i64 + caret_left as i64),
        clamp(window_top as i64 + caret_bottom as i64 + CARET_GAP as i64),
    )
}

fn clamp(value: i64) -> (r: i32)
    ensures
        r == clamped(value as int),
{
    if value < i32::MIN as i64 {
        i32::MIN
    } else if value > i32::MAX as i64 {
        i32::MAX
    } else {
        value as i32
    }
}

} // verus!
