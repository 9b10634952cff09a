use rime_tui::key_event::{
    wrap, KeyEventResolver, RawKeyEvent, KEY_ALT_L, KEY_CTRL_L, KEY_SHIFT_L, KEY_SHIFT_R,
    KEY_SUPER, MOD_ALT, MOD_CONTROL, MOD_LOCK, MOD_RELEASE, MOD_SHIFT, XK_BACKSPACE, XK_EXCLAM,
    XK_KP_1, XK_PERCENT, XK_SHIFT_L, XK_SPACE, XK_UPPER_A, XK_VOID_SYMBOL, XK_1,
};

fn press(scan_code: u32) -> RawKeyEvent {
    RawKeyEvent { scan_code, is_release: false, effective_mask: 0 }
}

fn release(scan_code: u32) -> RawKeyEvent {
    RawKeyEvent { scan_code, is_release: true, effective_mask: 0 }
}

#[test]
fn emits_before_latching_shift() {
    let mut r = KeyEventResolver::new();
    let ke = r.on_key_event(&press(KEY_SHIFT_L));
    // The Shift press itself is reported without the Shift bit: the
    // emitted event carries the state before the latch update.
    assert_eq!(ke.key_code, XK_SHIFT_L);
    assert_eq!(ke.modifiers, 0);
    assert!(r.shift_pressed);

    let ke = r.on_key_event(&press(38));
    assert_eq!(ke.key_code, XK_UPPER_A);
    assert_eq!(ke.modifiers, MOD_SHIFT);
}

#[test]
fn latch_tracks_currently_held() {
    let mut r = KeyEventResolver::new();
    r.on_key_event(&press(KEY_SHIFT_L));
    assert!(r.shift_pressed);
    r.on_key_event(&release(KEY_SHIFT_L));
    assert!(!r.shift_pressed);
    r.on_key_event(&press(KEY_SHIFT_R));
    assert!(r.shift_pressed);
    // Both physical positions alias the same logical modifier.
    r.on_key_event(&release(KEY_SHIFT_L));
    assert!(!r.shift_pressed);
}

#[test]
fn release_of_never_pressed_key_is_harmless() {
    let mut r = KeyEventResolver::new();
    let ke = r.on_key_event(&release(KEY_CTRL_L));
    assert_eq!(ke.modifiers, MOD_RELEASE);
    assert!(!r.shift_pressed);
    assert!(!r.ctrl_pressed);
    assert!(!r.alt_pressed);
    assert!(!r.super_pressed);
}

#[test]
fn qwerty_row_resolves_by_shift_latch() {
    let lower = ['q', 'w', 'e', 'r', 't', 'y', 'u', 'i', 'o', 'p'];
    for (i, c) in lower.iter().enumerate() {
        let scan = 24 + i as u32;

        let mut r = KeyEventResolver::new();
        let ke = r.on_key_event(&press(scan));
        assert_eq!(ke.key_code, *c as u32);
        assert_eq!(ke.modifiers, 0);

        let mut r = KeyEventResolver::new();
        r.on_key_event(&press(KEY_SHIFT_L));
        let ke = r.on_key_event(&press(scan));
        assert_eq!(ke.key_code, c.to_ascii_uppercase() as u32);
        assert_eq!(ke.modifiers, MOD_SHIFT);
    }
}

#[test]
fn number_row_shifts_to_punctuation() {
    let mut r = KeyEventResolver::new();
    let ke = r.on_key_event(&press(10));
    assert_eq!(ke.key_code, XK_1);

    r.on_key_event(&press(KEY_SHIFT_R));
    let ke = r.on_key_event(&press(10));
    assert_eq!(ke.key_code, XK_EXCLAM);
}

#[test]
fn period_position_keeps_its_table_symbol() {
    let mut r = KeyEventResolver::new();
    let ke = r.on_key_event(&press(60));
    assert_eq!(ke.key_code, XK_PERCENT);
    r.on_key_event(&press(KEY_SHIFT_L));
    let ke = r.on_key_event(&press(60));
    assert_eq!(ke.key_code, '>' as u32);
}

#[test]
fn numpad_digits_gated_by_num_lock() {
    let mut r = KeyEventResolver::new();
    let ke = r.on_key_event(&RawKeyEvent { scan_code: 87, is_release: false, effective_mask: 0 });
    assert_eq!(ke.key_code, XK_KP_1);
    let ke = r.on_key_event(&RawKeyEvent {
        scan_code: 87,
        is_release: false,
        effective_mask: 0x10,
    });
    assert_eq!(ke.key_code, XK_VOID_SYMBOL);
}

#[test]
fn lock_bit_comes_from_effective_mask() {
    let mut r = KeyEventResolver::new();
    let ke = r.on_key_event(&RawKeyEvent { scan_code: 65, is_release: false, effective_mask: 0x2 });
    assert_eq!(ke.key_code, XK_SPACE);
    assert_eq!(ke.modifiers, MOD_LOCK);
}

#[test]
fn modifier_chord_composes_bits() {
    let mut r = KeyEventResolver::new();
    r.on_key_event(&press(KEY_CTRL_L));
    r.on_key_event(&press(KEY_ALT_L));
    r.on_key_event(&press(KEY_SUPER));
    let ke = r.on_key_event(&press(38));
    assert_eq!(ke.modifiers, MOD_CONTROL | MOD_ALT | rime_tui::key_event::MOD_SUPER);
    // The Super position has no symbol of its own in the table.
    let ke2 = r.on_key_event(&press(KEY_SUPER));
    assert_eq!(ke2.key_code, XK_VOID_SYMBOL);
}

#[test]
fn backspace_scan_code_resolves() {
    let mut r = KeyEventResolver::new();
    let ke = r.on_key_event(&press(22));
    assert_eq!(ke.key_code, XK_BACKSPACE);
}

#[test]
fn unknown_scan_code_resolves_to_void() {
    let mut r = KeyEventResolver::new();
    let ke = r.on_key_event(&press(200));
    assert_eq!(ke.key_code, XK_VOID_SYMBOL);
    assert!(!r.shift_pressed && !r.ctrl_pressed && !r.alt_pressed && !r.super_pressed);
}

#[test]
fn wrap_braces_key_name() {
    assert_eq!(wrap("Shift+Control+a"), "{Shift+Control+a}");
    assert_eq!(wrap(""), "{}");
}
