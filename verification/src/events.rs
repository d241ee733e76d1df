//! Input events as the renderer sees them, and the rules that turn what
//! the host reports into such events.

use vstd::prelude::*;
use crate::text::{to_chars, spells, has_prefix, starts_with, parse_i32, decimal_i32};

verus! {

/// A position or size in whole pixels.
#[derive(Copy, Clone, Debug, PartialEq, Eq)]
pub struct Vec2i {
    pub x: i32,
    pub y: i32,
}

impl Vec2i {
    /// The pair `(x, y)`.
    pub fn new(x: i32, y: i32) -> (out: Vec2i)
        ensures
            out == (Vec2i { x, y }),
    {
        Vec2i { x, y }
    }
}

/// A key of the keyboard.
#[derive(Copy, Clone, Debug, PartialEq, Eq)]
pub enum KeyCode {
    Space,
    Tab,
    Backspace,
    Insert,
    Delete,
    PageUp,
    PageDown,
    Home,
    End,
    Escape,
    Enter,
    Shift,
    Control,
    Left,
    Right,
    Up,
    Down,
    Digit(i32),
    Symbol(char),
    Alpha(char),
    F(i32),
}

/// Something the user did.
#[derive(Copy, Clone, Debug, PartialEq, Eq)]
pub enum Event {
    Resize(Vec2i),
    Down(Vec2i),
    Up(Vec2i),
    Move(Vec2i),
    KeyDown(KeyCode),
    KeyUp(KeyCode),
}

/// The key that a physical key code names outright.
pub open spec fn named_key(code: Seq<char>) -> Option<KeyCode> {
    if code == "Space"@ {
        Some(KeyCode::Space)
    } else if code == "Insert"@ {
        Some(KeyCode::Insert)
    } else if code == "Delete"@ {
        Some(KeyCode::Delete)
    } else if code == "PageUp"@ {
        Some(KeyCode::PageUp)
    } else if code == "PageDown"@ {
        Some(KeyCode::PageDown)
    } else if code == "Home"@ {
        Some(KeyCode::Home)
    } else if code == "End"@ {
        Some(KeyCode::End)
    } else if code == "Escape"@ {
        Some(KeyCode::Escape)
    } else if code == "Enter"@ {
        Some(KeyCode::Enter)
    } else if code == "Tab"@ {
        Some(KeyCode::Tab)
    } else if code == "Backspace"@ {
        Some(KeyCode::Backspace)
    } else if code == "ArrowLeft"@ {
        Some(KeyCode::Left)
    } else if code == "ArrowRight"@ {
        Some(KeyCode::Right)
    } else if code == "ArrowUp"@ {
        Some(KeyCode::Up)
    } else if code == "ArrowDown"@ {
        Some(KeyCode::Down)
    } else {
        None
    }
}

/// Whether `code` names a letter key: `Key` and one more character that
/// takes a single byte.
pub open spec fn is_letter_code(code: Seq<char>) -> bool {
    code.len() == 4 && starts_with(code, "Key"@) && (code[3] as u32) < 128
}

/// The number of the function key that `key` names, from `F1` to `F12`.
pub open spec fn function_key(key: Seq<char>) -> Option<i32> {
    if key == "F1"@ {
        Some(1i32)
    } else if key == "F2"@ {
        Some(2i32)
    } else if key == "F3"@ {
        Some(3i32)
    } else if key == "F4"@ {
        Some(4i32)
    } else if key == "F5"@ {
        Some(5i32)
    } else if key == "F6"@ {
        Some(6i32)
    } else if key == "F7"@ {
        Some(7i32)
    } else if key == "F8"@ {
        Some(8i32)
    } else if key == "F9"@ {
        Some(9i32)
    } else if key == "F10"@ {
        Some(10i32)
    } else if key == "F11"@ {
        Some(11i32)
    } else if key == "F12"@ {
        Some(12i32)
    } else {
        None
    }
}

/// Whether `c` is a punctuation character of ASCII.
pub open spec fn is_punctuation(c: char) -> bool {
    ('!' <= c <= '/') || (':' <= c <= '@') || ('[' <= c <= '`') || ('{' <= c <= '~')
}

/// Whether `key` is made of ASCII punctuation and nothing else, with at
/// least one character.
pub open spec fn is_symbol(key: Seq<char>) -> bool {
    key.len() > 0 && forall|i: int| 0 <= i < key.len() ==> is_punctuation(#[trigger] key[i])
}

/// The key that the host describes by the physical key `code` and the
/// produced value `key`.
///
/// The code is looked at first: a named key, then `Key` and a letter, then
/// `Digit` and a number (a code that starts with `Digit` and holds no
/// number names no key at all). Only then the value decides: the
/// modifiers, the function keys, and at last punctuation, of which the
/// first character is kept.
pub open spec fn decode_key(code: Seq<char>, key: Seq<char>) -> Option<KeyCode> {
    if named_key(code) is Some {
        named_key(code)
    } else if is_letter_code(code) {
        Some(KeyCode::Alpha(code[3]))
    } else if starts_with(code, "Digit"@) {
        match decimal_i32(code.subrange("Digit"@.len() as int, code.len() as int)) {
            Some(n) => Some(KeyCode::Digit(n)),
            None => None,
        }
    } else if key == "Shift"@ {
        Some(KeyCode::Shift)
    } else if key == "Control"@ {
        Some(KeyCode::Control)
    } else if function_key(key) is Some {
        Some(KeyCode::F(function_key(key).unwrap()))
    } else if is_symbol(key) {
        Some(KeyCode::Symbol(key[0]))
    } else {
        None
    }
}

/// Looks `code` up among the keys that a code names outright.
fn lookup_named(code: &Vec<char>) -> (out: Option<KeyCode>)
    ensures
        out == named_key(code@),
{
    if spells(code, "Space") {
        Some(KeyCode::Space)
    } else if spells(code, "Insert") {
        Some(KeyCode::Insert)
    } else if spells(code, "Delete") {
        Some(KeyCode::Delete)
    } else if spells(code, "PageUp") {
        Some(KeyCode::PageUp)
    } else if spells(code, "PageDown") {
        Some(KeyCode::PageDown)
    } else if spells(code, "Home") {
        Some(KeyCode::Home)
    } else if spells(code, "End") {
        Some(KeyCode::End)
    } else if spells(code, "Escape") {
        Some(KeyCode::Escape)
    } else if spells(code, "Enter") {
        Some(KeyCode::Enter)
    } else if spells(code, "Tab") {
        Some(KeyCode::Tab)
    } else if spells(code, "Backspace") {
        Some(KeyCode::Backspace)
    } else if spells(code, "ArrowLeft") {
        Some(KeyCode::Left)
    } else if spells(code, "ArrowRight") {
        Some(KeyCode::Right)
    } else if spells(code, "ArrowUp") {
        Some(KeyCode::Up)
    } else if spells(code, "ArrowDown") {
        Some(KeyCode::Down)
    } else {
        None
    }
}

/// Looks `key` up among the function keys.
fn lookup_function_key(key: &Vec<char>) -> (out: Option<i32>)
    ensures
        out == function_key(key@),
{
    if spells(key, "F1") {
        Some(1)
    } else if spells(key, "F2") {
        Some(2)
    } else if spells(key, "F3") {
        Some(3)
    } else if spells(key, "F4") {
        Some(4)
    } else if spells(key, "F5") {
        Some(5)
    } else if spells(key, "F6") {
        Some(6)
    } else if spells(key, "F7") {
        Some(7)
    } else if spells(key, "F8") {
        Some(8)
    } else if spells(key, "F9") {
        Some(9)
    } else if spells(key, "F10") {
        Some(10)
    } else if spells(key, "F11") {
        Some(11)
    } else if spells(key, "F12") {
        Some(12)
    } else {
        None
    }
}

/// Whether `key` is non-empty and all punctuation.
fn check_symbol(key: &Vec<char>) -> (out: bool)
    ensures
        out == is_symbol(key@),
{
    if key.len() == 0 {
        return false;
    }
    let mut i: usize = 0;
    while i < key.len()
        invariant
            i <= key.len(),
            key.len() > 0,
            forall|j: int| 0 <= j < i ==> is_punctuation(#[trigger] key@[j]),
        decreases key.len() - i,
    {
        let c = key[i];
        let punctuation = (c >= '!' && c <= '/') || (c >= ':' && c <= '@') || (c >= '[' && c
            <= '`') || (c >= '{' && c <= '~');
        if !punctuation {
            return false;
        }
        i += 1;
    }
    true
}

impl KeyCode {
    /// Decodes what the host reports of a key: its physical `code` and the
    /// `key` value it produces.
    pub fn from_c_str(code: &str, key: &str) -> (out: Option<KeyCode>)
        ensures
            out == decode_key(code@, key@),
    {
        let code = to_chars(code);
        let named = lookup_named(&code);
        if named.is_some() {
            return named;
        }
        if code.len() == 4 && has_prefix(&code, "Key") && (code[3] as u32) < 128 {
            return Some(KeyCode::Alpha(code[3]));
        }
        if has_prefix(&code, "Digit") {
            proof {
                reveal_strlit("Digit");
            }
            return match parse_i32(&code, 5) {
                Some(n) => Some(KeyCode::Digit(n)),
                None => None,
            };
        }
        let key = to_chars(key);
        if spells(&key, "Shift") {
            return Some(KeyCode::Shift);
        }
        if spells(&key, "Control") {
            return Some(KeyCode::Control);
        }
        match lookup_function_key(&key) {
            Some(n) => {
                return Some(KeyCode::F(n));
            },
            None => {},
        }
        if check_symbol(&key) {
            return Some(KeyCode::Symbol(key[0]));
        }
        None
    }
}

/// What a host callback answers: the event to queue, if any, and whether
/// the host is told that the input was consumed.
#[derive(Copy, Clone, Debug, PartialEq, Eq)]
pub struct Reply {
    pub event: Option<Event>,
    pub consumed: bool,
}

/// Whether the browser keeps this key for itself: reloading and the
/// developer tools stay reachable.
pub open spec fn left_to_host(key: KeyCode) -> bool {
    key == KeyCode::F(5) || key == KeyCode::F(6) || key == KeyCode::F(12)
}

/// The reply to a key going down.
///
/// A repeated press is consumed without an event. A key that is left to
/// the host, or that decodes to nothing, is not consumed. Every other key
/// is queued and consumed.
pub open spec fn key_down_reply(repeat: bool, key: Option<KeyCode>) -> Reply {
    if repeat {
        Reply { event: None, consumed: true }
    } else {
        match key {
            Some(k) => if left_to_host(k) {
                Reply { event: None, consumed: false }
            } else {
                Reply { event: Some(Event::KeyDown(k)), consumed: true }
            },
            None => Reply { event: None, consumed: false },
        }
    }
}

/// The reply to a key going up: queued and consumed if it decodes.
pub open spec fn key_up_reply(key: Option<KeyCode>) -> Reply {
    match key {
        Some(k) => Reply { event: Some(Event::KeyUp(k)), consumed: true },
        None => Reply { event: None, consumed: false },
    }
}

/// Answers a key-down report.
pub fn on_key_down(repeat: bool, code: &str, key: &str) -> (out: Reply)
    ensures
        out == key_down_reply(repeat, decode_key(code@, key@)),
{
    if repeat {
        return Reply { event: None, consumed: true };
    }
    match KeyCode::from_c_str(code, key) {
        Some(KeyCode::F(n)) => {
            if n == 5 || n == 6 || n == 12 {
                Reply { event: None, consumed: false }
            } else {
                Reply { event: Some(Event::KeyDown(KeyCode::F(n))), consumed: true }
            }
        },
        Some(k) => Reply { event: Some(Event::KeyDown(k)), consumed: true },
        None => Reply { event: None, consumed: false },
    }
}

/// Answers a key-up report.
pub fn on_key_up(code: &str, key: &str) -> (out: Reply)
    ensures
        out == key_up_reply(decode_key(code@, key@)),
{
    match KeyCode::from_c_str(code, key) {
        Some(k) => Reply { event: Some(Event::KeyUp(k)), consumed: true },
        None => Reply { event: None, consumed: false },
    }
}

/// What the pointer did.
#[derive(Copy, Clone, Debug, PartialEq, Eq)]
pub enum Motion {
    Down,
    Up,
    Move,
}

/// The event for the pointer doing `motion` at `(x, y)`.
pub open spec fn pointer_event(motion: Motion, x: i32, y: i32) -> Event {
    match motion {
        Motion::Down => Event::Down(Vec2i { x, y }),
        Motion::Up => Event::Up(Vec2i { x, y }),
        Motion::Move => Event::Move(Vec2i { x, y }),
    }
}

/// Answers a mouse report: always queued and consumed.
pub fn on_mouse(motion: Motion, x: i32, y: i32) -> (out: Reply)
    ensures
        out == (Reply { event: Some(pointer_event(motion, x, y)), consumed: true }),
{
    let at = Vec2i::new(x, y);
    let event = match motion {
        Motion::Down => Event::Down(at),
        Motion::Up => Event::Up(at),
        Motion::Move => Event::Move(at),
    };
    Reply { event: Some(event), consumed: true }
}

/// Answers a touch report. Only the finger with identifier 0 acts as the
/// pointer; the other fingers are neither queued nor consumed.
pub fn on_touch(motion: Motion, identifier: i32, x: i32, y: i32) -> (out: Reply)
    ensures
        identifier == 0 ==> out == (Reply {
            event: Some(pointer_event(motion, x, y)),
            consumed: true,
        }),
        identifier != 0 ==> out == (Reply { event: None, consumed: false }),
{
    if identifier != 0 {
        return Reply { event: None, consumed: false };
    }
    on_mouse(motion, x, y)
}

/// Whether lifting fingers asks for fullscreen: more than one finger was
/// involved and the canvas is not fullscreen yet.
pub fn wants_fullscreen(touches: i32, fullscreen: bool) -> (out: bool)
    ensures
        out == (touches > 1 && !fullscreen),
{
    touches > 1 && !fullscreen
}

/// Answers a resize report with the new canvas size.
pub fn on_resize(width: i32, height: i32) -> (out: Reply)
    ensures
        out == (Reply {
            event: Some(Event::Resize(Vec2i { x: width, y: height })),
            consumed: true,
        }),
{
    Reply { event: Some(Event::Resize(Vec2i::new(width, height))), consumed: true }
}

} // verus!
