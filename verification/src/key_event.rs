//! The key-event resolver: turns raw device press/release events into
//! canonical key events for the input-method engine.
//!
//! A raw event carries a position-based scan code and the display server's
//! effective modifier mask. The resolver keeps four latches, one per
//! logical modifier key, and resolves each scan code to a key symbol,
//! substituting the shifted symbol while the Shift latch is held. The
//! emitted event always reports the modifier state that was in effect when
//! the key went down or up; the latches are updated only afterwards.
//!
//! Key symbols follow the X keysym assignments: printable Latin-1 symbols
//! equal their character value, function and editing keys live in the
//! 0xff00 block. The modifier bits are the ones the engine expects in a
//! key event's modifier mask; they are single, pairwise distinct bits, so
//! composing them by addition equals composing them by bitwise or.

use vstd::prelude::*;

use crate::text::push_char;

verus! {

// Scan codes of the physical modifier keys (two positions each, both
// aliasing the same logical modifier; Super has a single position here).
pub const KEY_CTRL_L: u32 = 37;
pub const KEY_CTRL_R: u32 = 105;
pub const KEY_SHIFT_L: u32 = 50;
pub const KEY_SHIFT_R: u32 = 62;
pub const KEY_ALT_L: u32 = 64;
pub const KEY_ALT_R: u32 = 108;
pub const KEY_SUPER: u32 = 133;

// Modifier bits of a canonical key event, as the engine assigns them.
pub const MOD_SHIFT: u32 = 0x1;
pub const MOD_LOCK: u32 = 0x2;
pub const MOD_CONTROL: u32 = 0x4;
pub const MOD_ALT: u32 = 0x8;
pub const MOD_SUPER: u32 = 0x4000000;
pub const MOD_RELEASE: u32 = 0x40000000;

// Bits of the raw effective mask delivered with each device event.
pub const RAW_LOCK_BIT: u32 = 0x2;
pub const RAW_NUM_LOCK_BIT: u32 = 0x10;

// Printable Latin-1 key symbols (equal to their character value).
pub const XK_SPACE: u32 = 0x20;
pub const XK_EXCLAM: u32 = 0x21;
pub const XK_QUOTEDBL: u32 = 0x22;
pub const XK_NUMBERSIGN: u32 = 0x23;
pub const XK_DOLLAR: u32 = 0x24;
pub const XK_PERCENT: u32 = 0x25;
pub const XK_AMPERSAND: u32 = 0x26;
pub const XK_APOSTROPHE: u32 = 0x27;
pub const XK_PARENLEFT: u32 = 0x28;
pub const XK_PARENRIGHT: u32 = 0x29;
pub const XK_ASTERISK: u32 = 0x2a;
pub const XK_PLUS: u32 = 0x2b;
pub const XK_COMMA: u32 = 0x2c;
pub const XK_MINUS: u32 = 0x2d;
pub const XK_SLASH: u32 = 0x2f;
pub const XK_0: u32 = 0x30;
pub const XK_1: u32 = 0x31;
pub const XK_2: u32 = 0x32;
pub const XK_3: u32 = 0x33;
pub const XK_4: u32 = 0x34;
pub const XK_5: u32 = 0x35;
pub const XK_6: u32 = 0x36;
pub const XK_7: u32 = 0x37;
pub const XK_8: u32 = 0x38;
pub const XK_9: u32 = 0x39;
pub const XK_COLON: u32 = 0x3a;
pub const XK_SEMICOLON: u32 = 0x3b;
pub const XK_LESS: u32 = 0x3c;
pub const XK_EQUAL: u32 = 0x3d;
pub const XK_GREATER: u32 = 0x3e;
pub const XK_QUESTION: u32 = 0x3f;
pub const XK_AT: u32 = 0x40;
pub const XK_UPPER_A: u32 = 0x41;
pub const XK_UPPER_B: u32 = 0x42;
pub const XK_UPPER_C: u32 = 0x43;
pub const XK_UPPER_D: u32 = 0x44;
pub const XK_UPPER_E: u32 = 0x45;
pub const XK_UPPER_F: u32 = 0x46;
pub const XK_UPPER_G: u32 = 0x47;
pub const XK_UPPER_H: u32 = 0x48;
pub const XK_UPPER_I: u32 = 0x49;
pub const XK_UPPER_J: u32 = 0x4a;
pub const XK_UPPER_K: u32 = 0x4b;
pub const XK_UPPER_L: u32 = 0x4c;
pub const XK_UPPER_M: u32 = 0x4d;
pub const XK_UPPER_N: u32 = 0x4e;
pub const XK_UPPER_O: u32 = 0x4f;
pub const XK_UPPER_P: u32 = 0x50;
pub const XK_UPPER_Q: u32 = 0x51;
pub const XK_UPPER_R: u32 = 0x52;
pub const XK_UPPER_S: u32 = 0x53;
pub const XK_UPPER_T: u32 = 0x54;
pub const XK_UPPER_U: u32 = 0x55;
pub const XK_UPPER_V: u32 = 0x56;
pub const XK_UPPER_W: u32 = 0x57;
pub const XK_UPPER_X: u32 = 0x58;
pub const XK_UPPER_Y: u32 = 0x59;
pub const XK_UPPER_Z: u32 = 0x5a;
pub const XK_BRACKETLEFT: u32 = 0x5b;
pub const XK_BACKSLASH: u32 = 0x5c;
pub const XK_BRACKETRIGHT: u32 = 0x5d;
pub const XK_ASCIICIRCUM: u32 = 0x5e;
pub const XK_UNDERSCORE: u32 = 0x5f;
pub const XK_GRAVE: u32 = 0x60;
pub const XK_LOWER_A: u32 = 0x61;
pub const XK_LOWER_B: u32 = 0x62;
pub const XK_LOWER_C: u32 = 0x63;
pub const XK_LOWER_D: u32 = 0x64;
pub const XK_LOWER_E: u32 = 0x65;
pub const XK_LOWER_F: u32 = 0x66;
pub const XK_LOWER_G: u32 = 0x67;
pub const XK_LOWER_H: u32 = 0x68;
pub const XK_LOWER_I: u32 = 0x69;
pub const XK_LOWER_J: u32 = 0x6a;
pub const XK_LOWER_K: u32 = 0x6b;
pub const XK_LOWER_L: u32 = 0x6c;
pub const XK_LOWER_M: u32 = 0x6d;
pub const XK_LOWER_N: u32 = 0x6e;
pub const XK_LOWER_O: u32 = 0x6f;
pub const XK_LOWER_P: u32 = 0x70;
pub const XK_LOWER_Q: u32 = 0x71;
pub const XK_LOWER_R: u32 = 0x72;
pub const XK_LOWER_S: u32 = 0x73;
pub const XK_LOWER_T: u32 = 0x74;
pub const XK_LOWER_U: u32 = 0x75;
pub const XK_LOWER_V: u32 = 0x76;
pub const XK_LOWER_W: u32 = 0x77;
pub const XK_LOWER_X: u32 = 0x78;
pub const XK_LOWER_Y: u32 = 0x79;
pub const XK_LOWER_Z: u32 = 0x7a;
pub const XK_BRACELEFT: u32 = 0x7b;
pub const XK_BAR: u32 = 0x7c;
pub const XK_BRACERIGHT: u32 = 0x7d;
pub const XK_ASCIITILDE: u32 = 0x7e;

// Function and editing key symbols.
pub const XK_BACKSPACE: u32 = 0xff08;
pub const XK_TAB: u32 = 0xff09;
pub const XK_RETURN: u32 = 0xff0d;
pub const XK_PAUSE: u32 = 0xff13;
pub const XK_ESCAPE: u32 = 0xff1b;
pub const XK_LEFT: u32 = 0xff51;
pub const XK_UP: u32 = 0xff52;
pub const XK_RIGHT: u32 = 0xff53;
pub const XK_DOWN: u32 = 0xff54;
pub const XK_NUM_LOCK: u32 = 0xff7f;
pub const XK_KP_ENTER: u32 = 0xff8d;
pub const XK_KP_DELETE: u32 = 0xff9f;
pub const XK_KP_MULTIPLY: u32 = 0xffaa;
pub const XK_KP_ADD: u32 = 0xffab;
pub const XK_KP_SUBTRACT: u32 = 0xffad;
pub const XK_KP_DIVIDE: u32 = 0xffaf;
pub const XK_KP_0: u32 = 0xffb0;
pub const XK_KP_1: u32 = 0xffb1;
pub const XK_KP_2: u32 = 0xffb2;
pub const XK_KP_3: u32 = 0xffb3;
pub const XK_KP_4: u32 = 0xffb4;
pub const XK_KP_5: u32 = 0xffb5;
pub const XK_KP_6: u32 = 0xffb6;
pub const XK_KP_7: u32 = 0xffb7;
pub const XK_KP_8: u32 = 0xffb8;
pub const XK_KP_9: u32 = 0xffb9;
pub const XK_F1: u32 = 0xffbe;
pub const XK_F2: u32 = 0xffbf;
pub const XK_F3: u32 = 0xffc0;
pub const XK_F4: u32 = 0xffc1;
pub const XK_F5: u32 = 0xffc2;
pub const XK_F6: u32 = 0xffc3;
pub const XK_F7: u32 = 0xffc4;
pub const XK_F8: u32 = 0xffc5;
pub const XK_F9: u32 = 0xffc6;
pub const XK_F10: u32 = 0xffc7;
pub const XK_F11: u32 = 0xffc8;
pub const XK_F12: u32 = 0xffc9;
pub const XK_SHIFT_L: u32 = 0xffe1;
pub const XK_SHIFT_R: u32 = 0xffe2;
pub const XK_CONTROL_L: u32 = 0xffe3;
pub const XK_CONTROL_R: u32 = 0xffe4;
pub const XK_CAPS_LOCK: u32 = 0xffe5;
pub const XK_ALT_L: u32 = 0xffe9;
pub const XK_ALT_R: u32 = 0xffea;
pub const XK_DELETE: u32 = 0xffff;

/// The sentinel an unknown scan code resolves to, so that every raw event
/// still flows through to the engine and the loop's fallback handling.
pub const XK_VOID_SYMBOL: u32 = 0xffffff;

/// One hardware key event as delivered by the raw event source.
#[derive(Clone, Copy, Debug, PartialEq, Eq, Structural)]
pub struct RawKeyEvent {
    /// Position-based hardware key identifier.
    pub scan_code: u32,
    /// True for a release event, false for a press event.
    pub is_release: bool,
    /// The display server's effective modifier/lock bits for this event.
    pub effective_mask: u32,
}

/// The canonical, engine-facing key representation.
#[derive(Clone, Copy, Debug, PartialEq, Eq, Structural)]
pub struct KeyEvent {
    /// Symbolic key code (a keysym value).
    pub key_code: u32,
    /// Bitmask over Shift, Lock, Control, Alt, Super and Release.
    pub modifiers: u32,
}

/// The four logical modifier keys the resolver latches.
#[derive(Clone, Copy, Debug, PartialEq, Eq, Structural)]
pub enum ModifierKey {
    Shift,
    Control,
    Alt,
    Super,
}

/// Stateful translator from raw device events to canonical key events.
///
/// Each latch is true exactly while the corresponding physical key is
/// held, as far as the event stream shows it: a press event for one of
/// its scan codes sets it, a release event clears it, and no other scan
/// code touches it.
#[derive(Clone, Copy, Debug, PartialEq, Eq, Structural)]
pub struct KeyEventResolver {
    pub shift_pressed: bool,
    pub ctrl_pressed: bool,
    pub alt_pressed: bool,
    pub super_pressed: bool,
}

/// The shift-substituted symbol for the scan codes whose symbol changes
/// while Shift is latched; `None` for every other scan code.
pub open spec fn spec_shifted_code(d: u32) -> Option<u32> {
    // QWERTY row
    if d == 24 { Some(XK_UPPER_Q) }
    else if d == 25 { Some(XK_UPPER_W) }
    else if d == 26 { Some(XK_UPPER_E) }
    else if d == 27 { Some(XK_UPPER_R) }
    else if d == 28 { Some(XK_UPPER_T) }
    else if d == 29 { Some(XK_UPPER_Y) }
    else if d == 30 { Some(XK_UPPER_U) }
    else if d == 31 { Some(XK_UPPER_I) }
    else if d == 32 { Some(XK_UPPER_O) }
    else if d == 33 { Some(XK_UPPER_P) }
    // home row
    else if d == 38 { Some(XK_UPPER_A) }
    else if d == 39 { Some(XK_UPPER_S) }
    else if d == 40 { Some(XK_UPPER_D) }
    else if d == 41 { Some(XK_UPPER_F) }
    else if d == 42 { Some(XK_UPPER_G) }
    else if d == 43 { Some(XK_UPPER_H) }
    else if d == 44 { Some(XK_UPPER_J) }
    else if d == 45 { Some(XK_UPPER_K) }
    else if d == 46 { Some(XK_UPPER_L) }
    // bottom row
    else if d == 52 { Some(XK_UPPER_Z) }
    else if d == 53 { Some(XK_UPPER_X) }
    else if d == 54 { Some(XK_UPPER_C) }
    else if d == 55 { Some(XK_UPPER_V) }
    else if d == 56 { Some(XK_UPPER_B) }
    else if d == 57 { Some(XK_UPPER_N) }
    else if d == 58 { Some(XK_UPPER_M) }
    // number row
    else if d == 10 { Some(XK_EXCLAM) }
    else if d == 11 { Some(XK_AT) }
    else if d == 12 { Some(XK_NUMBERSIGN) }
    else if d == 13 { Some(XK_DOLLAR) }
    else if d == 14 { Some(XK_PERCENT) }
    else if d == 15 { Some(XK_ASCIICIRCUM) }
    else if d == 16 { Some(XK_AMPERSAND) }
    else if d == 17 { Some(XK_ASTERISK) }
    else if d == 18 { Some(XK_PARENLEFT) }
    else if d == 19 { Some(XK_PARENRIGHT) }
    // punctuation
    else if d == 20 { Some(XK_UNDERSCORE) }
    else if d == 21 { Some(XK_PLUS) }
    else if d == 34 { Some(XK_BRACELEFT) }
    else if d == 35 { Some(XK_BRACERIGHT) }
    else if d == 51 { Some(XK_BAR) }
    else if d == 47 { Some(XK_COLON) }
    else if d == 48 { Some(XK_QUOTEDBL) }
    else if d == 59 { Some(XK_LESS) }
    else if d == 60 { Some(XK_GREATER) }
    else if d == 61 { Some(XK_QUESTION) }
    else if d == 49 { Some(XK_ASCIITILDE) }
    else { None }
}

/// The base symbol of a scan code with Shift not latched. The numeric-pad
/// digit block resolves only while the raw mask's NumLock bit is clear;
/// an unknown scan code resolves to the void sentinel.
pub open spec fn spec_base_code(d: u32, effective: u32) -> u32 {
    // QWERTY row
    if d == 24 { XK_LOWER_Q }
    else if d == 25 { XK_LOWER_W }
    else if d == 26 { XK_LOWER_E }
    else if d == 27 { XK_LOWER_R }
    else if d == 28 { XK_LOWER_T }
    else if d == 29 { XK_LOWER_Y }
    else if d == 30 { XK_LOWER_U }
    else if d == 31 { XK_LOWER_I }
    else if d == 32 { XK_LOWER_O }
    else if d == 33 { XK_LOWER_P }
    // home row
    else if d == 38 { XK_LOWER_A }
    else if d == 39 { XK_LOWER_S }
    else if d == 40 { XK_LOWER_D }
    else if d == 41 { XK_LOWER_F }
    else if d == 42 { XK_LOWER_G }
    else if d == 43 { XK_LOWER_H }
    else if d == 44 { XK_LOWER_J }
    else if d == 45 { XK_LOWER_K }
    else if d == 46 { XK_LOWER_L }
    // bottom row
    else if d == 52 { XK_LOWER_Z }
    else if d == 53 { XK_LOWER_X }
    else if d == 54 { XK_LOWER_C }
    else if d == 55 { XK_LOWER_V }
    else if d == 56 { XK_LOWER_B }
    else if d == 57 { XK_LOWER_N }
    else if d == 58 { XK_LOWER_M }
    // single keys
    else if d == 65 { XK_SPACE }
    else if d == 22 { XK_BACKSPACE }
    else if d == 36 { XK_RETURN }
    else if d == 9 { XK_ESCAPE }
    else if d == 20 { XK_MINUS }
    else if d == 21 { XK_EQUAL }
    else if d == 34 { XK_BRACKETLEFT }
    else if d == 35 { XK_BRACKETRIGHT }
    else if d == 51 { XK_BACKSLASH }
    else if d == 47 { XK_SEMICOLON }
    else if d == 48 { XK_APOSTROPHE }
    else if d == 59 { XK_COMMA }
    else if d == 60 { XK_PERCENT }
    else if d == 61 { XK_SLASH }
    // number row
    else if d == 10 { XK_1 }
    else if d == 11 { XK_2 }
    else if d == 12 { XK_3 }
    else if d == 13 { XK_4 }
    else if d == 14 { XK_5 }
    else if d == 15 { XK_6 }
    else if d == 16 { XK_7 }
    else if d == 17 { XK_8 }
    else if d == 18 { XK_9 }
    else if d == 19 { XK_0 }
    // arrows and others
    else if d == 111 { XK_UP }
    else if d == 116 { XK_DOWN }
    else if d == 113 { XK_LEFT }
    else if d == 114 { XK_RIGHT }
    else if d == 23 { XK_TAB }
    else if d == 66 { XK_CAPS_LOCK }
    else if d == 49 { XK_GRAVE }
    // numeric pad digits, gated by the NumLock bit
    else if d == 87 && effective & RAW_NUM_LOCK_BIT != RAW_NUM_LOCK_BIT { XK_KP_1 }
    else if d == 88 && effective & RAW_NUM_LOCK_BIT != RAW_NUM_LOCK_BIT { XK_KP_2 }
    else if d == 89 && effective & RAW_NUM_LOCK_BIT != RAW_NUM_LOCK_BIT { XK_KP_3 }
    else if d == 83 && effective & RAW_NUM_LOCK_BIT != RAW_NUM_LOCK_BIT { XK_KP_4 }
    else if d == 84 && effective & RAW_NUM_LOCK_BIT != RAW_NUM_LOCK_BIT { XK_KP_5 }
    else if d == 85 && effective & RAW_NUM_LOCK_BIT != RAW_NUM_LOCK_BIT { XK_KP_6 }
    else if d == 79 && effective & RAW_NUM_LOCK_BIT != RAW_NUM_LOCK_BIT { XK_KP_7 }
    else if d == 80 && effective & RAW_NUM_LOCK_BIT != RAW_NUM_LOCK_BIT { XK_KP_8 }
    else if d == 81 && effective & RAW_NUM_LOCK_BIT != RAW_NUM_LOCK_BIT { XK_KP_9 }
    else if d == 90 && effective & RAW_NUM_LOCK_BIT != RAW_NUM_LOCK_BIT { XK_KP_0 }
    // rest of the numeric pad
    else if d == 91 { XK_KP_DELETE }
    else if d == 104 { XK_KP_ENTER }
    else if d == 82 { XK_KP_SUBTRACT }
    else if d == 86 { XK_KP_ADD }
    else if d == 77 { XK_NUM_LOCK }
    else if d == 106 { XK_KP_DIVIDE }
    else if d == 63 { XK_KP_MULTIPLY }
    // function keys
    else if d == 67 { XK_F1 }
    else if d == 68 { XK_F2 }
    else if d == 69 { XK_F3 }
    else if d == 70 { XK_F4 }
    else if d == 71 { XK_F5 }
    else if d == 72 { XK_F6 }
    else if d == 73 { XK_F7 }
    else if d == 74 { XK_F8 }
    else if d == 75 { XK_F9 }
    else if d == 76 { XK_F10 }
    else if d == 95 { XK_F11 }
    else if d == 96 { XK_F12 }
    else if d == 127 { XK_PAUSE }
    else if d == 119 { XK_DELETE }
    // modifier keys
    else if d == KEY_ALT_L { XK_ALT_L }
    else if d == KEY_ALT_R { XK_ALT_R }
    else if d == KEY_SHIFT_L { XK_SHIFT_L }
    else if d == KEY_SHIFT_R { XK_SHIFT_R }
    else if d == KEY_CTRL_L { XK_CONTROL_L }
    else if d == KEY_CTRL_R { XK_CONTROL_R }
    else { XK_VOID_SYMBOL }
}

/// The symbol a scan code resolves to under the given Shift latch and raw
/// effective mask.
pub open spec fn spec_resolved_code(d: u32, shift: bool, effective: u32) -> u32 {
    if shift {
        match spec_shifted_code(d) {
            Some(c) => c,
            None => spec_base_code(d, effective),
        }
    } else {
        spec_base_code(d, effective)
    }
}

/// The modifier bitmask an emitted key event carries: the four latches,
/// the Release bit for release events, and the Lock bit taken from the
/// raw effective mask. The bits are pairwise distinct, so the sum equals
/// the bitwise or of the set bits.
pub open spec fn spec_modifier_bits(r: KeyEventResolver, release: bool, effective: u32) -> u32 {
    ((if release { MOD_RELEASE } else { 0u32 })
        + (if r.shift_pressed { MOD_SHIFT } else { 0u32 })
        + (if r.super_pressed { MOD_SUPER } else { 0u32 })
        + (if r.ctrl_pressed { MOD_CONTROL } else { 0u32 })
        + (if r.alt_pressed { MOD_ALT } else { 0u32 })
        + (if effective & RAW_LOCK_BIT == RAW_LOCK_BIT { MOD_LOCK } else { 0u32 })) as u32
}

/// The canonical event the resolver emits for one raw event, given the
/// latch state in effect when the event arrived.
pub open spec fn spec_emitted_key(r: KeyEventResolver, e: RawKeyEvent) -> KeyEvent {
    KeyEvent {
        key_code: spec_resolved_code(e.scan_code, r.shift_pressed, e.effective_mask),
        modifiers: spec_modifier_bits(r, e.is_release, e.effective_mask),
    }
}

/// The latch state after one raw event: a press sets the latch of the
/// modifier the scan code names, a release clears it, and every other
/// scan code leaves all latches alone.
pub open spec fn spec_latches_after(r: KeyEventResolver, scan: u32, release: bool) -> KeyEventResolver {
    KeyEventResolver {
        shift_pressed: if scan == KEY_SHIFT_L || scan == KEY_SHIFT_R { !release } else { r.shift_pressed },
        ctrl_pressed: if scan == KEY_CTRL_L || scan == KEY_CTRL_R { !release } else { r.ctrl_pressed },
        alt_pressed: if scan == KEY_ALT_L || scan == KEY_ALT_R { !release } else { r.alt_pressed },
        super_pressed: if scan == KEY_SUPER { !release } else { r.super_pressed },
    }
}

/// Whether a scan code names one of the physical positions of a modifier.
pub open spec fn spec_aliases_modifier(scan: u32, m: ModifierKey) -> bool {
    match m {
        ModifierKey::Shift => scan == KEY_SHIFT_L || scan == KEY_SHIFT_R,
        ModifierKey::Control => scan == KEY_CTRL_L || scan == KEY_CTRL_R,
        ModifierKey::Alt => scan == KEY_ALT_L || scan == KEY_ALT_R,
        ModifierKey::Super => scan == KEY_SUPER,
    }
}

/// The latch a resolver holds for a modifier.
pub open spec fn spec_latch(r: KeyEventResolver, m: ModifierKey) -> bool {
    match m {
        ModifierKey::Shift => r.shift_pressed,
        ModifierKey::Control => r.ctrl_pressed,
        ModifierKey::Alt => r.alt_pressed,
        ModifierKey::Super => r.super_pressed,
    }
}

/// The latch state after a whole run of raw events, oldest first.
pub open spec fn spec_resolver_after_events(r: KeyEventResolver, events: Seq<RawKeyEvent>) -> KeyEventResolver
    decreases events.len(),
{
    if events.len() == 0 {
        r
    } else {
        spec_latches_after(
            spec_resolver_after_events(r, events.drop_last()),
            events.last().scan_code,
            events.last().is_release,
        )
    }
}

/// Exec mirror of `spec_shifted_code`.
pub fn shifted_key_code(scan_code: u32) -> (code: Option<u32>)
    ensures
        code == spec_shifted_code(scan_code),
{
    let d = scan_code;
    if d == 24 { Some(XK_UPPER_Q) }
    else if d == 25 { Some(XK_UPPER_W) }
    else if d == 26 { Some(XK_UPPER_E) }
    else if d == 27 { Some(XK_UPPER_R) }
    else if d == 28 { Some(XK_UPPER_T) }
    else if d == 29 { Some(XK_UPPER_Y) }
    else if d == 30 { Some(XK_UPPER_U) }
    else if d == 31 { Some(XK_UPPER_I) }
    else if d == 32 { Some(XK_UPPER_O) }
    else if d == 33 { Some(XK_UPPER_P) }
    else if d == 38 { Some(XK_UPPER_A) }
    else if d == 39 { Some(XK_UPPER_S) }
    else if d == 40 { Some(XK_UPPER_D) }
    else if d == 41 { Some(XK_UPPER_F) }
    else if d == 42 { Some(XK_UPPER_G) }
    else if d == 43 { Some(XK_UPPER_H) }
    else if d == 44 { Some(XK_UPPER_J) }
    else if d == 45 { Some(XK_UPPER_K) }
    else if d == 46 { Some(XK_UPPER_L) }
    else if d == 52 { Some(XK_UPPER_Z) }
    else if d == 53 { Some(XK_UPPER_X) }
    else if d == 54 { Some(XK_UPPER_C) }
    else if d == 55 { Some(XK_UPPER_V) }
    else if d == 56 { Some(XK_UPPER_B) }
    else if d == 57 { Some(XK_UPPER_N) }
    else if d == 58 { Some(XK_UPPER_M) }
    else if d == 10 { Some(XK_EXCLAM) }
    else if d == 11 { Some(XK_AT) }
    else if d == 12 { Some(XK_NUMBERSIGN) }
    else if d == 13 { Some(XK_DOLLAR) }
    else if d == 14 { Some(XK_PERCENT) }
    else if d == 15 { Some(XK_ASCIICIRCUM) }
    else if d == 16 { Some(XK_AMPERSAND) }
    else if d == 17 { Some(XK_ASTERISK) }
    else if d == 18 { Some(XK_PARENLEFT) }
    else if d == 19 { Some(XK_PARENRIGHT) }
    else if d == 20 { Some(XK_UNDERSCORE) }
    else if d == 21 { Some(XK_PLUS) }
    else if d == 34 { Some(XK_BRACELEFT) }
    else if d == 35 { Some(XK_BRACERIGHT) }
    else if d == 51 { Some(XK_BAR) }
    else if d == 47 { Some(XK_COLON) }
    else if d == 48 { Some(XK_QUOTEDBL) }
    else if d == 59 { Some(XK_LESS) }
    else if d == 60 { Some(XK_GREATER) }
    else if d == 61 { Some(XK_QUESTION) }
    else if d == 49 { Some(XK_ASCIITILDE) }
    else { None }
}

/// Exec mirror of `spec_base_code`.
pub fn base_key_code(scan_code: u32, effective_mask: u32) -> (code: u32)
    ensures
        code == spec_base_code(scan_code, effective_mask),
{
    let d = scan_code;
    let effective = effective_mask;
    if d == 24 { XK_LOWER_Q }
    else if d == 25 { XK_LOWER_W }
    else if d == 26 { XK_LOWER_E }
    else if d == 27 { XK_LOWER_R }
    else if d == 28 { XK_LOWER_T }
    else if d == 29 { XK_LOWER_Y }
    else if d == 30 { XK_LOWER_U }
    else if d == 31 { XK_LOWER_I }
    else if d == 32 { XK_LOWER_O }
    else if d == 33 { XK_LOWER_P }
    else if d == 38 { XK_LOWER_A }
    else if d == 39 { XK_LOWER_S }
    else if d == 40 { XK_LOWER_D }
    else if d == 41 { XK_LOWER_F }
    else if d == 42 { XK_LOWER_G }
    else if d == 43 { XK_LOWER_H }
    else if d == 44 { XK_LOWER_J }
    else if d == 45 { XK_LOWER_K }
    else if d == 46 { XK_LOWER_L }
    else if d == 52 { XK_LOWER_Z }
    else if d == 53 { XK_LOWER_X }
    else if d == 54 { XK_LOWER_C }
    else if d == 55 { XK_LOWER_V }
    else if d == 56 { XK_LOWER_B }
    else if d == 57 { XK_LOWER_N }
    else if d == 58 { XK_LOWER_M }
    else if d == 65 { XK_SPACE }
    else if d == 22 { XK_BACKSPACE }
    else if d == 36 { XK_RETURN }
    else if d == 9 { XK_ESCAPE }
    else if d == 20 { XK_MINUS }
    else if d == 21 { XK_EQUAL }
    else if d == 34 { XK_BRACKETLEFT }
    else if d == 35 { XK_BRACKETRIGHT }
    else if d == 51 { XK_BACKSLASH }
    else if d == 47 { XK_SEMICOLON }
    else if d == 48 { XK_APOSTROPHE }
    else if d == 59 { XK_COMMA }
    else if d == 60 { XK_PERCENT }
    else if d == 61 { XK_SLASH }
    else if d == 10 { XK_1 }
    else if d == 11 { XK_2 }
    else if d == 12 { XK_3 }
    else if d == 13 { XK_4 }
    else if d == 14 { XK_5 }
    else if d == 15 { XK_6 }
    else if d == 16 { XK_7 }
    else if d == 17 { XK_8 }
    else if d == 18 { XK_9 }
    else if d == 19 { XK_0 }
    else if d == 111 { XK_UP }
    else if d == 116 { XK_DOWN }
    else if d == 113 { XK_LEFT }
    else if d == 114 { XK_RIGHT }
    else if d == 23 { XK_TAB }
    else if d == 66 { XK_CAPS_LOCK }
    else if d == 49 { XK_GRAVE }
    else if d == 87 && effective & RAW_NUM_LOCK_BIT != RAW_NUM_LOCK_BIT { XK_KP_1 }
    else if d == 88 && effective & RAW_NUM_LOCK_BIT != RAW_NUM_LOCK_BIT { XK_KP_2 }
    else if d == 89 && effective & RAW_NUM_LOCK_BIT != RAW_NUM_LOCK_BIT { XK_KP_3 }
    else if d == 83 && effective & RAW_NUM_LOCK_BIT != RAW_NUM_LOCK_BIT { XK_KP_4 }
    else if d == 84 && effective & RAW_NUM_LOCK_BIT != RAW_NUM_LOCK_BIT { XK_KP_5 }
    else if d == 85 && effective & RAW_NUM_LOCK_BIT != RAW_NUM_LOCK_BIT { XK_KP_6 }
    else if d == 79 && effective & RAW_NUM_LOCK_BIT != RAW_NUM_LOCK_BIT { XK_KP_7 }
    else if d == 80 && effective & RAW_NUM_LOCK_BIT != RAW_NUM_LOCK_BIT { XK_KP_8 }
    else if d == 81 && effective & RAW_NUM_LOCK_BIT != RAW_NUM_LOCK_BIT { XK_KP_9 }
    else if d == 90 && effective & RAW_NUM_LOCK_BIT != RAW_NUM_LOCK_BIT { XK_KP_0 }
    else if d == 91 { XK_KP_DELETE }
    else if d == 104 { XK_KP_ENTER }
    else if d == 82 { XK_KP_SUBTRACT }
    else if d == 86 { XK_KP_ADD }
    else if d == 77 { XK_NUM_LOCK }
    else if d == 106 { XK_KP_DIVIDE }
    else if d == 63 { XK_KP_MULTIPLY }
    else if d == 67 { XK_F1 }
    else if d == 68 { XK_F2 }
    else if d == 69 { XK_F3 }
    else if d == 70 { XK_F4 }
    else if d == 71 { XK_F5 }
    else if d == 72 { XK_F6 }
    else if d == 73 { XK_F7 }
    else if d == 74 { XK_F8 }
    else if d == 75 { XK_F9 }
    else if d == 76 { XK_F10 }
    else if d == 95 { XK_F11 }
    else if d == 96 { XK_F12 }
    else if d == 127 { XK_PAUSE }
    else if d == 119 { XK_DELETE }
    else if d == KEY_ALT_L { XK_ALT_L }
    else if d == KEY_ALT_R { XK_ALT_R }
    else if d == KEY_SHIFT_L { XK_SHIFT_L }
    else if d == KEY_SHIFT_R { XK_SHIFT_R }
    else if d == KEY_CTRL_L { XK_CONTROL_L }
    else if d == KEY_CTRL_R { XK_CONTROL_R }
    else { XK_VOID_SYMBOL }
}

/// Resolves a scan code to its key symbol under the given Shift latch and
/// raw effective mask.
pub fn resolve_key_code(scan_code: u32, shift: bool, effective_mask: u32) -> (code: u32)
    ensures
        code == spec_resolved_code(scan_code, shift, effective_mask),
{
    if shift {
        match shifted_key_code(scan_code) {
            Some(c) => c,
            None => base_key_code(scan_code, effective_mask),
        }
    } else {
        base_key_code(scan_code, effective_mask)
    }
}

impl KeyEventResolver {
    /// A fresh resolver: no modifier is held.
    pub fn new() -> (r: Self)
        ensures
            r == (KeyEventResolver {
                shift_pressed: false,
                ctrl_pressed: false,
                alt_pressed: false,
                super_pressed: false,
            }),
    {
        KeyEventResolver {
            shift_pressed: false,
            ctrl_pressed: false,
            alt_pressed: false,
            super_pressed: false,
        }
    }

    /// Consumes one raw event and returns the canonical key event to hand
    /// to the engine.
    ///
    /// The returned event reports the modifier state that was in effect at
    /// the moment of the press or release; only afterwards, if the scan
    /// code names a modifier key, is that modifier's latch set on a press
    /// and cleared on a release. A release for a key that was never
    /// pressed simply leaves the latch false.
    pub fn on_key_event(&mut self, event: &RawKeyEvent) -> (ke: KeyEvent)
        ensures
            ke == spec_emitted_key(*old(self), *event),
            *final(self) == spec_latches_after(*old(self), event.scan_code, event.is_release),
    {
        let release = event.is_release;
        let code = resolve_key_code(event.scan_code, self.shift_pressed, event.effective_mask);

        let mut modifiers: u32 = 0;
        if release {
            modifiers = modifiers + MOD_RELEASE;
        }
        if self.shift_pressed {
            modifiers = modifiers + MOD_SHIFT;
        }
        if self.super_pressed {
            modifiers = modifiers + MOD_SUPER;
        }
        if self.ctrl_pressed {
            modifiers = modifiers + MOD_CONTROL;
        }
        if self.alt_pressed {
            modifiers = modifiers + MOD_ALT;
        }
        if event.effective_mask & RAW_LOCK_BIT == RAW_LOCK_BIT {
            modifiers = modifiers + MOD_LOCK;
        }
        let ke = KeyEvent { key_code: code, modifiers };

        // Latch update comes last: the emitted event above was formed from
        // the state in effect when the key went down or up.
        let d = event.scan_code;
        if d == KEY_SHIFT_L || d == KEY_SHIFT_R {
            self.shift_pressed = !release;
        } else if d == KEY_CTRL_L || d == KEY_CTRL_R {
            self.ctrl_pressed = !release;
        } else if d == KEY_ALT_L || d == KEY_ALT_R {
            self.alt_pressed = !release;
        } else if d == KEY_SUPER {
            self.super_pressed = !release;
        }

        ke
    }
}

/// Law: over any run of press/release events that all land on the physical
/// positions of one modifier key, the final latch for that modifier says
/// whether the key is currently held — true exactly when the run is
/// non-empty and its last event is a press — and no other latch moves.
pub proof fn lemma_single_modifier_latch_tracks_held(
    r0: KeyEventResolver,
    events: Seq<RawKeyEvent>,
    m: ModifierKey,
)
    requires
        forall|i: int| 0 <= i < events.len() ==> spec_aliases_modifier(#[trigger] events[i].scan_code, m),
    ensures
        events.len() == 0 ==> spec_resolver_after_events(r0, events) == r0,
        events.len() > 0 ==> spec_latch(spec_resolver_after_events(r0, events), m)
            == !events.last().is_release,
        forall|m2: ModifierKey| m2 != m
            ==> spec_latch(spec_resolver_after_events(r0, events), m2) == spec_latch(r0, m2),
    decreases events.len(),
{
    if events.len() > 0 {
        let prefix = events.drop_last();
        assert forall|i: int| 0 <= i < prefix.len() implies spec_aliases_modifier(
            #[trigger] prefix[i].scan_code,
            m,
        ) by {
            assert(prefix[i] == events[i]);
        }
        lemma_single_modifier_latch_tracks_held(r0, prefix, m);
    }
}

/// Law: a release event leaves every latch unchanged, except that the
/// latch of the modifier the scan code names (if it names one) is forced
/// false — also when that key was never pressed.
pub proof fn lemma_release_forces_latch_false(r: KeyEventResolver, e: RawKeyEvent)
    requires
        e.is_release,
    ensures
        forall|m: ModifierKey| spec_aliases_modifier(e.scan_code, m)
            ==> !spec_latch(spec_latches_after(r, e.scan_code, e.is_release), m),
        forall|m: ModifierKey| !spec_aliases_modifier(e.scan_code, m)
            ==> spec_latch(spec_latches_after(r, e.scan_code, e.is_release), m) == spec_latch(r, m),
{
}

/// Law: a scan code that names no modifier key never mutates latch
/// state, whether pressed or released.
pub proof fn lemma_non_modifier_never_mutates_latches(r: KeyEventResolver, e: RawKeyEvent)
    requires
        forall|m: ModifierKey| !spec_aliases_modifier(e.scan_code, m),
    ensures
        spec_latches_after(r, e.scan_code, e.is_release) == r,
{
    assert(!spec_aliases_modifier(e.scan_code, ModifierKey::Shift));
    assert(!spec_aliases_modifier(e.scan_code, ModifierKey::Control));
    assert(!spec_aliases_modifier(e.scan_code, ModifierKey::Alt));
    assert(!spec_aliases_modifier(e.scan_code, ModifierKey::Super));
}

/// Law: with Shift latched, a QWERTY-row scan code (24 through 33)
/// resolves to an uppercase Latin letter; unlatched it resolves to the
/// lowercase letter at the same position, exactly 0x20 above it.
pub proof fn lemma_shift_selects_uppercase_letter_row(d: u32, effective: u32)
    requires
        24 <= d <= 33,
    ensures
        XK_UPPER_A <= spec_resolved_code(d, true, effective) <= XK_UPPER_Z,
        XK_LOWER_A <= spec_resolved_code(d, false, effective) <= XK_LOWER_Z,
        spec_resolved_code(d, false, effective) == spec_resolved_code(d, true, effective) + 0x20,
{
}

/// Builds the brace-delimited symbolic token for a key name, as the
/// engine's textual key-sequence interface expects it.
pub fn wrap(key: &str) -> (r: String)
    ensures
        r@ == seq!['{'] + key@ + seq!['}'],
{
    let mut r = String::new();
    push_char(&mut r, '{');
    r.append(key);
    push_char(&mut r, '}');
    proof {
        assert(r@ =~= seq!['{'] + key@ + seq!['}']);
    }
    r
}

} // verus!
