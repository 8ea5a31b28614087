//! Input on the host: modifier bits, the geometry of the shared monitor, and
//! the mapping of USB HID key codes to the keys the host presses.
use vstd::prelude::*;

verus! {

/// Modifier key bitmask.
#[derive(Debug, Clone, Copy)]
pub struct Modifiers(pub u32);

impl Modifiers {
    pub const CTRL: u32 = 1;
    pub const SHIFT: u32 = 2;
    pub const ALT: u32 = 4;
    pub const META: u32 = 8;

    /// Whether the Ctrl bit is set.
    pub fn ctrl(&self) -> (b: bool)
        ensures
            b == (self.0 & 1 != 0),
    {
        self.0 & Self::CTRL != 0
    }

    /// Whether the Shift bit is set.
    pub fn shift(&self) -> (b: bool)
        ensures
            b == (self.0 & 2 != 0),
    {
        self.0 & Self::SHIFT != 0
    }

    /// Whether the Alt bit is set.
    pub fn alt(&self) -> (b: bool)
        ensures
            b == (self.0 & 4 != 0),
    {
        self.0 & Self::ALT != 0
    }

    /// Whether the Meta bit is set.
    pub fn meta(&self) -> (b: bool)
        ensures
            b == (self.0 & 8 != 0),
    {
        self.0 & Self::META != 0
    }
}

/// Law: each modifier reads its own bit: a mask made of some of the four
/// flags reports exactly those flags.
pub proof fn law_modifier_bits(ctrl: bool, shift: bool, alt: bool, meta: bool)
    ensures
        ({
            let m: u32 = (if ctrl { 1u32 } else { 0u32 }) | (if shift { 2u32 } else { 0u32 }) | (if alt {
                4u32
            } else {
                0u32
            }) | (if meta { 8u32 } else { 0u32 });
            &&& (m & 1 != 0) == ctrl
            &&& (m & 2 != 0) == shift
            &&& (m & 4 != 0) == alt
            &&& (m & 8 != 0) == meta
        }),
{
    let c: u32 = if ctrl { 1u32 } else { 0u32 };
    let s: u32 = if shift { 2u32 } else { 0u32 };
    let a: u32 = if alt { 4u32 } else { 0u32 };
    let t: u32 = if meta { 8u32 } else { 0u32 };
    assert((c == 0 || c == 1) && (s == 0 || s == 2) && (a == 0 || a == 4) && (t == 0 || t == 8));
    assert(((c | s | a | t) & 1 != 0) == (c == 1) && ((c | s | a | t) & 2 != 0) == (s == 2) && ((c
        | s | a | t) & 4 != 0) == (a == 4) && ((c | s | a | t) & 8 != 0) == (t == 8)) by (bit_vector)
        requires
            (c == 0 || c == 1) && (s == 0 || s == 2) && (a == 0 || a == 4) && (t == 0 || t == 8),
    ;
}

/// Geometry of the monitor being shared, in virtual-desktop pixels.
#[derive(Debug, Clone, Copy)]
pub struct MonitorGeom {
    pub x: i32,
    pub y: i32,
    pub width: u32,
    pub height: u32,
}

/// A key the host can press.
#[derive(Debug, PartialEq, Eq, Structural, Clone, Copy)]
pub enum Key {
    /// A character key.
    Unicode(char),
    Return,
    Escape,
    Backspace,
    Tab,
    Space,
    RightArrow,
    LeftArrow,
    DownArrow,
    UpArrow,
    Home,
    End,
    PageUp,
    PageDown,
    Delete,
    Control,
    Shift,
    Alt,
    Meta,
}

/// Whether a key goes down or up.
#[derive(Debug, PartialEq, Eq, Structural, Clone, Copy)]
pub enum Direction {
    Press,
    Release,
}

/// The key for a USB HID key code, for the supported subset: letters,
/// digits, `-`, `=`, editing and navigation keys, and the modifiers of
/// either side.
pub open spec fn hid_key(hid: u32) -> Option<Key> {
    if 0x04 <= hid <= 0x1D {
        Some(Key::Unicode((97 + (hid - 0x04)) as char))
    } else if 0x1E <= hid <= 0x26 {
        Some(Key::Unicode((49 + (hid - 0x1E)) as char))
    } else if hid == 0x27 {
        Some(Key::Unicode('0'))
    } else if hid == 0x28 {
        Some(Key::Return)
    } else if hid == 0x29 {
        Some(Key::Escape)
    } else if hid == 0x2A {
        Some(Key::Backspace)
    } else if hid == 0x2B {
        Some(Key::Tab)
    } else if hid == 0x2C {
        Some(Key::Space)
    } else if hid == 0x2D {
        Some(Key::Unicode('-'))
    } else if hid == 0x2E {
        Some(Key::Unicode('='))
    } else if hid == 0x4F {
        Some(Key::RightArrow)
    } else if hid == 0x50 {
        Some(Key::LeftArrow)
    } else if hid == 0x51 {
        Some(Key::DownArrow)
    } else if hid == 0x52 {
        Some(Key::UpArrow)
    } else if hid == 0x4A {
        Some(Key::Home)
    } else if hid == 0x4D {
        Some(Key::End)
    } else if hid == 0x4B {
        Some(Key::PageUp)
    } else if hid == 0x4E {
        Some(Key::PageDown)
    } else if hid == 0x4C {
        Some(Key::Delete)
    } else if hid == 0xE0 || hid == 0xE4 {
        Some(Key::Control)
    } else if hid == 0xE1 || hid == 0xE5 {
        Some(Key::Shift)
    } else if hid == 0xE2 || hid == 0xE6 {
        Some(Key::Alt)
    } else if hid == 0xE3 || hid == 0xE7 {
        Some(Key::Meta)
    } else {
        None
    }
}

/// Maps a USB HID key code to the key the host presses, `None` when the
/// code is not supported.
pub fn hid_to_enigo_key(hid_code: u32) -> (k: Option<Key>)
    ensures
        k == hid_key(hid_code),
{
    if 0x04 <= hid_code && hid_code <= 0x1D {
        Some(Key::Unicode((97u8 + (hid_code - 0x04) as u8) as char))
    } else if 0x1E <= hid_code && hid_code <= 0x26 {
        Some(Key::Unicode((49u8 + (hid_code - 0x1E) as u8) as char))
    } else {
        match hid_code {
            0x27 => Some(Key::Unicode('0')),
            0x28 => Some(Key::Return),
            0x29 => Some(Key::Escape),
            0x2A => Some(Key::Backspace),
            0x2B => Some(Key::Tab),
            0x2C => Some(Key::Space),
            0x2D => Some(Key::Unicode('-')),
            0x2E => Some(Key::Unicode('=')),
            0x4F => Some(Key::RightArrow),
            0x50 => Some(Key::LeftArrow),
            0x51 => Some(Key::DownArrow),
            0x52 => Some(Key::UpArrow),
            0x4A => Some(Key::Home),
            0x4D => Some(Key::End),
            0x4B => Some(Key::PageUp),
            0x4E => Some(Key::PageDown),
            0x4C => Some(Key::Delete),
            0xE0 | 0xE4 => Some(Key::Control),
            0xE1 | 0xE5 => Some(Key::Shift),
            0xE2 | 0xE6 => Some(Key::Alt),
            0xE3 | 0xE7 => Some(Key::Meta),
            _ => None,
        }
    }
}

/// A key event from the viewer: the key to press or release, or `None` when
/// the code is not supported and the event is dropped.
pub fn key_event(key_code: u32, pressed: bool) -> (r: Option<(Key, Direction)>)
    ensures
        r == (match hid_key(key_code) {
            Some(k) => Some((k, if pressed { Direction::Press } else { Direction::Release })),
            None => None,
        }),
{
    match hid_to_enigo_key(key_code) {
        Some(key) => {
            let direction = if pressed {
                Direction::Press
            } else {
                Direction::Release
            };
            Some((key, direction))
        },
        None => None,
    }
}

/// Law: the letter keys map in alphabetical order onto `a`..`z` and the
/// digit row onto `1`..`9`, `0`.
pub proof fn law_letters_and_digits()
    ensures
        hid_key(0x04) == Some(Key::Unicode('a')),
        hid_key(0x1D) == Some(Key::Unicode('z')),
        hid_key(0x1E) == Some(Key::Unicode('1')),
        hid_key(0x26) == Some(Key::Unicode('9')),
        hid_key(0x27) == Some(Key::Unicode('0')),
        forall|h: u32| 0x04 <= h <= 0x1D ==> (#[trigger] hid_key(h) matches Some(Key::Unicode(c)) && 'a' <= c <= 'z'),
{
}

/// A key event from the viewer under the view-only setting: dropped when
/// remote control is not allowed, otherwise as `key_event`.
pub open spec fn gated_key_spec(allow_control: bool, key_code: u32, pressed: bool) -> Option<(Key, Direction)> {
    if !allow_control {
        None
    } else {
        match hid_key(key_code) {
            Some(k) => Some((k, if pressed { Direction::Press } else { Direction::Release })),
            None => None,
        }
    }
}

/// A key event from the viewer, passed through the view-only gate: nothing
/// reaches the keyboard while remote control is off.
pub fn gated_key_event(allow_control: bool, key_code: u32, pressed: bool) -> (r: Option<(Key, Direction)>)
    ensures
        r == gated_key_spec(allow_control, key_code, pressed),
{
    if !allow_control {
        return None;
    }
    key_event(key_code, pressed)
}

/// Law: in view-only mode no key event from the viewer is injected, and
/// with control allowed every supported key is.
pub proof fn law_view_only_blocks_input(key_code: u32, pressed: bool)
    ensures
        gated_key_spec(false, key_code, pressed) is None,
        hid_key(key_code) is Some ==> gated_key_spec(true, key_code, pressed) is Some,
{
}

/// Law: the USB HID usage table for the keys other than letters: the digit
/// row `1`..`9`, `0`; Enter, Escape, Backspace, Tab, Space, `-`, `=`; the
/// arrows Right (0x4F), Left (0x50), Down (0x51), Up (0x52); Home (0x4A),
/// Page Up (0x4B), Delete (0x4C), End (0x4D), Page Down (0x4E); Control,
/// Shift, Alt and Meta on the left (0xE0..0xE3) and right (0xE4..0xE7).
pub proof fn law_hid_usage_table()
    ensures
        hid_key(0x1E) == Some(Key::Unicode('1')),
        hid_key(0x1F) == Some(Key::Unicode('2')),
        hid_key(0x20) == Some(Key::Unicode('3')),
        hid_key(0x21) == Some(Key::Unicode('4')),
        hid_key(0x22) == Some(Key::Unicode('5')),
        hid_key(0x23) == Some(Key::Unicode('6')),
        hid_key(0x24) == Some(Key::Unicode('7')),
        hid_key(0x25) == Some(Key::Unicode('8')),
        hid_key(0x26) == Some(Key::Unicode('9')),
        hid_key(0x27) == Some(Key::Unicode('0')),
        hid_key(0x28) == Some(Key::Return),
        hid_key(0x29) == Some(Key::Escape),
        hid_key(0x2A) == Some(Key::Backspace),
        hid_key(0x2B) == Some(Key::Tab),
        hid_key(0x2C) == Some(Key::Space),
        hid_key(0x2D) == Some(Key::Unicode('-')),
        hid_key(0x2E) == Some(Key::Unicode('=')),
        hid_key(0x4F) == Some(Key::RightArrow),
        hid_key(0x50) == Some(Key::LeftArrow),
        hid_key(0x51) == Some(Key::DownArrow),
        hid_key(0x52) == Some(Key::UpArrow),
        hid_key(0x4A) == Some(Key::Home),
        hid_key(0x4B) == Some(Key::PageUp),
        hid_key(0x4C) == Some(Key::Delete),
        hid_key(0x4D) == Some(Key::End),
        hid_key(0x4E) == Some(Key::PageDown),
        hid_key(0xE0) == Some(Key::Control) && hid_key(0xE4) == Some(Key::Control),
        hid_key(0xE1) == Some(Key::Shift) && hid_key(0xE5) == Some(Key::Shift),
        hid_key(0xE2) == Some(Key::Alt) && hid_key(0xE6) == Some(Key::Alt),
        hid_key(0xE3) == Some(Key::Meta) && hid_key(0xE7) == Some(Key::Meta),
{
}

/// Law: the letter codes 0x04..0x1D give the letters `a`..`z`, one each and
/// in alphabetical order, and the codes the table does not list give no key.
pub proof fn law_hid_letters_and_unlisted()
    ensures
        forall|h1: u32, h2: u32|
            0x04 <= h1 < h2 <= 0x1D ==> (#[trigger] hid_key(h1) matches Some(Key::Unicode(c1))
                && #[trigger] hid_key(h2) matches Some(Key::Unicode(c2)) && 'a' <= c1 < c2 <= 'z'),
        forall|h: u32|
            (h < 0x04 || (0x2E < h < 0x4A) || (0x52 < h < 0xE0) || h > 0xE7) ==> #[trigger] hid_key(h)
                is None,
{
    assert forall|h1: u32, h2: u32| 0x04 <= h1 < h2 <= 0x1D implies (#[trigger] hid_key(h1) matches Some(
        Key::Unicode(c1),
    ) && #[trigger] hid_key(h2) matches Some(Key::Unicode(c2)) && 'a' <= c1 < c2 <= 'z') by {
        assert(((97 + (h1 - 0x04)) as char) as u32 == 97 + (h1 - 0x04));
        assert(((97 + (h2 - 0x04)) as char) as u32 == 97 + (h2 - 0x04));
    }
}

/// Law: a key event presses the key when `pressed` and releases it
/// otherwise, and with control allowed it is the key of the code.
pub proof fn law_key_direction(key_code: u32, pressed: bool)
    ensures
        hid_key(key_code) matches Some(k) ==> gated_key_spec(true, key_code, pressed) == Some(
            (k, if pressed { Direction::Press } else { Direction::Release }),
        ),
        gated_key_spec(true, key_code, pressed) matches Some((_, d)) ==> (d == Direction::Press
            <==> pressed),
{
}

} // verus!
